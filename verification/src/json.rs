//! JSON as this crate sees it: a document tree of its own, the calls into
//! `serde_json` that produce text and trees, and the lookups that walk a tree.

use crate::errors::CustomError;
use vstd::prelude::*;

verus! {

/// `serde_json::Error`, carried as it is. Nothing is known of what it holds.
#[verifier::external_type_specification]
#[verifier::external_body]
pub struct ExJsonError(serde_json::Error);

/// `serde_json::Value`, carried as it is from `serde_json::from_str` to the
/// function that moves it into a `JsonValue`.
#[verifier::external_type_specification]
#[verifier::external_body]
pub struct ExJsonValue(serde_json::Value);

/// A JSON document.
///
/// A number is kept as the text that stands for it. An object is kept as its
/// members, one after the other; a lookup takes the first member with the
/// key.
#[derive(Debug, PartialEq, Eq)]
pub enum JsonValue {
    Null,
    Bool(bool),
    Number(String),
    String(String),
    Array(Vec<JsonValue>),
    Object(Vec<(String, JsonValue)>),
}

/// The JSON string literal that `serde_json` writes for a text, quotes
/// included, or `None` where it reports an error instead.
pub uninterp spec fn json_string_literal(text: Seq<char>) -> Option<Seq<char>>;

/// The document that `serde_json` reads out of a text, or `None` where it
/// rejects the text.
pub uninterp spec fn json_document(text: Seq<char>) -> Option<JsonValue>;

/// The document that a `serde_json::Value` holds.
pub uninterp spec fn value_document(value: serde_json::Value) -> JsonValue;

/// Calls `serde_json::to_string` on a string slice. The call succeeds exactly
/// where `json_string_literal` is defined for the text, and then returns that
/// literal.
#[verifier::external_body]
pub(crate) fn encode_string(text: &str) -> (literal: Result<String, serde_json::Error>)
    ensures
        literal is Ok <==> json_string_literal(text@) is Some,
        literal matches Ok(l) ==> json_string_literal(text@) == Some(l@),
{
    serde_json::to_string(text)
}

/// Calls `serde_json::from_str` for a `serde_json::Value`. The call succeeds
/// exactly where `json_document` is defined for the text, and the value it
/// returns then holds that document.
#[verifier::external_body]
pub(crate) fn parse_value(text: &str) -> (value: Result<serde_json::Value, serde_json::Error>)
    ensures
        value is Ok <==> json_document(text@) is Some,
        value matches Ok(v) ==> json_document(text@) == Some(value_document(v)),
{
    serde_json::from_str(text)
}

/// Moves a `serde_json::Value` into a `JsonValue`, variant by variant. A
/// number becomes the text that `serde_json::Number` displays, an object its
/// members in the order in which `serde_json::Map` hands them out.
#[verifier::external_body]
pub(crate) fn document_of(value: serde_json::Value) -> (document: JsonValue)
    ensures
        document == value_document(value),
{
    match value {
        serde_json::Value::Null => JsonValue::Null,
        serde_json::Value::Bool(b) => JsonValue::Bool(b),
        serde_json::Value::Number(n) => JsonValue::Number(n.to_string()),
        serde_json::Value::String(s) => JsonValue::String(s),
        serde_json::Value::Array(items) => JsonValue::Array(
            items.into_iter().map(document_of).collect(),
        ),
        serde_json::Value::Object(members) => JsonValue::Object(
            members.into_iter().map(|(k, v)| (k, document_of(v))).collect(),
        ),
    }
}

/// Reads a JSON text into a document. Succeeds exactly on the texts for which
/// `json_document` is defined, with that document; fails with a `ParseJson`
/// error on every other text.
pub fn parse(text: &str) -> (document: Result<JsonValue, CustomError>)
    ensures
        (match json_document(text@) {
            Some(d) => document == Ok::<JsonValue, CustomError>(d),
            None => document matches Err(CustomError::ParseJson(_)),
        }),
{
    match parse_value(text) {
        Ok(value) => Ok(document_of(value)),
        Err(e) => Err(CustomError::ParseJson(e)),
    }
}

/// Compares two string slices with `==` of `str`: true exactly where they hold
/// the same characters.
pub assume_specification[ <str as PartialEq>::eq ](a: &str, b: &str) -> (same: bool)
    ensures
        same == (a@ == b@),
;

/// The value of the first member with the given key, if there is one.
pub open spec fn first_member(members: Seq<(String, JsonValue)>, key: Seq<char>) -> Option<
    JsonValue,
>
    decreases members.len(),
{
    if members.len() == 0 {
        None
    } else if members[0].0@ == key {
        Some(members[0].1)
    } else {
        first_member(members.drop_first(), key)
    }
}

impl JsonValue {
    /// The member of an object under a key. Anything but an object has none.
    pub open spec fn member(self, key: Seq<char>) -> Option<JsonValue> {
        match self {
            JsonValue::Object(members) => first_member(members@, key),
            _ => None,
        }
    }

    /// The element of an array at a position. Anything but an array has none.
    pub open spec fn element(self, index: int) -> Option<JsonValue> {
        match self {
            JsonValue::Array(items) => if 0 <= index < items@.len() {
                Some(items@[index])
            } else {
                None
            },
            _ => None,
        }
    }

    /// The text of a string. Anything but a string has none.
    pub open spec fn text(self) -> Option<Seq<char>> {
        match self {
            JsonValue::String(s) => Some(s@),
            _ => None,
        }
    }

    /// Looks a key up in an object.
    pub fn get(&self, key: &str) -> (found: Option<&JsonValue>)
        ensures
            found is Some <==> self.member(key@) is Some,
            found matches Some(value) ==> self.member(key@) == Some(*value),
    {
        match self {
            JsonValue::Object(members) => {
                let mut i: usize = 0;
                assert(members@.skip(0) == members@);
                while i < members.len()
                    invariant
                        i <= members.len(),
                        self.member(key@) == first_member(members@, key@),
                        first_member(members@, key@) == first_member(
                            members@.skip(i as int),
                            key@,
                        ),
                    decreases members.len() - i,
                {
                    if members[i].0.as_str().eq(key) {
                        return Some(&members[i].1);
                    }
                    assert(members@.skip(i as int).drop_first() == members@.skip(i + 1));
                    i += 1;
                }
                None
            },
            _ => None,
        }
    }

    /// Looks a position up in an array.
    pub fn at(&self, index: usize) -> (found: Option<&JsonValue>)
        ensures
            found is Some <==> self.element(index as int) is Some,
            found matches Some(value) ==> self.element(index as int) == Some(*value),
    {
        match self {
            JsonValue::Array(items) => if index < items.len() {
                Some(&items[index])
            } else {
                None
            },
            _ => None,
        }
    }

    /// Reads a string's text.
    pub fn as_str(&self) -> (found: Option<&str>)
        ensures
            found is Some <==> self.text() is Some,
            found matches Some(s) ==> self.text() == Some(s@),
    {
        match self {
            JsonValue::String(s) => Some(s.as_str()),
            _ => None,
        }
    }
}

} // verus!
