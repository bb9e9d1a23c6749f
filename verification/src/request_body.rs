//! The conversation: an append-only log of role-tagged messages together with
//! the identifier of the model that is asked to continue it.

use crate::errors::CustomError;
use crate::json::{encode_string, json_string_literal};
use vstd::prelude::*;
use vstd::string::StringExecFns;

verus! {

/// Who a message comes from.
#[derive(Clone, Copy, Debug, PartialEq, Eq, Structural)]
pub enum Role {
    System,
    User,
    Assistant,
}

impl Role {
    /// The lowercase token that stands for the role on the wire.
    pub open spec fn token(self) -> Seq<char> {
        match self {
            Role::System => "system"@,
            Role::User => "user"@,
            Role::Assistant => "assistant"@,
        }
    }

    /// Returns the role's wire token.
    pub fn as_str(&self) -> (token: &'static str)
        ensures
            token@ == self.token(),
    {
        match self {
            Role::System => "system",
            Role::User => "user",
            Role::Assistant => "assistant",
        }
    }
}

/// One entry of the conversation.
#[derive(Debug)]
pub struct Message {
    /// Who the message comes from.
    pub role: Role,
    /// What was said.
    pub content: String,
}

/// A message as a mathematical value.
pub struct MessageView {
    pub role: Role,
    pub content: Seq<char>,
}

impl View for Message {
    type V = MessageView;

    open spec fn view(&self) -> MessageView {
        MessageView { role: self.role, content: self.content@ }
    }
}

/// The request that is sent on every turn: the model's identifier and the
/// whole conversation so far, oldest message first.
#[derive(Debug)]
pub struct OpenAIRequestBody {
    /// The identifier of the model that is asked.
    pub model: String,
    /// The conversation. Messages are only ever added at the end.
    pub messages: Vec<Message>,
}

/// A request body as a mathematical value.
pub struct RequestView {
    pub model: Seq<char>,
    pub messages: Seq<MessageView>,
}

impl View for OpenAIRequestBody {
    type V = RequestView;

    open spec fn view(&self) -> RequestView {
        RequestView { model: self.model@, messages: self.messages@.map_values(|m: Message| m@) }
    }
}

/// The JSON object of a message, given its two strings as JSON literals.
pub open spec fn message_frame(role: Seq<char>, content: Seq<char>) -> Seq<char> {
    "{\"role\":"@ + role + ",\"content\":"@ + content + "}"@
}

/// Texts in a row, with a comma between each two.
pub open spec fn comma_separated(items: Seq<Seq<char>>) -> Seq<char>
    decreases items.len(),
{
    if items.len() == 0 {
        Seq::empty()
    } else if items.len() == 1 {
        items[0]
    } else {
        comma_separated(items.drop_last()) + ","@ + items.last()
    }
}

/// The JSON object of a request, given the model as a JSON literal and the
/// messages as JSON objects.
pub open spec fn request_frame(model: Seq<char>, messages: Seq<Seq<char>>) -> Seq<char> {
    "{\"model\":"@ + model + ",\"messages\":["@ + comma_separated(messages) + "]}"@
}

impl MessageView {
    /// The JSON object that stands for the message: its role's token under
    /// `role`, then its content under `content`. `None` where one of the two
    /// strings cannot be encoded.
    pub open spec fn json(self) -> Option<Seq<char>> {
        match (json_string_literal(self.role.token()), json_string_literal(self.content)) {
            (Some(role), Some(content)) => Some(message_frame(role, content)),
            _ => None,
        }
    }
}

impl RequestView {
    /// The request with one more message at the end.
    pub open spec fn with_message(self, role: Role, content: Seq<char>) -> RequestView {
        RequestView {
            model: self.model,
            messages: self.messages.push(MessageView { role, content }),
        }
    }

    /// Whether every string of the request can be encoded.
    pub open spec fn encodable(self) -> bool {
        &&& json_string_literal(self.model) is Some
        &&& forall|i: int|
            0 <= i < self.messages.len() ==> (#[trigger] self.messages[i]).json() is Some
    }

    /// The JSON text of the request: an object with the model under `model`,
    /// then the array of the messages, in their order, under `messages`.
    /// `None` where a string of the request cannot be encoded.
    pub open spec fn json(self) -> Option<Seq<char>> {
        if self.encodable() {
            Some(
                request_frame(
                    json_string_literal(self.model)->Some_0,
                    self.messages.map_values(|m: MessageView| m.json()->Some_0),
                ),
            )
        } else {
            None
        }
    }
}

/// Writes the JSON object of a message around its two strings, which are
/// given as JSON literals.
pub fn frame_message(role: &str, content: &str) -> (text: String)
    ensures
        text@ == message_frame(role@, content@),
{
    let mut text = "{\"role\":".to_owned();
    text.append(role);
    text.append(",\"content\":");
    text.append(content);
    text.append("}");
    text
}

/// Writes the JSON object of a request around the model, given as a JSON
/// literal, and the messages, given as JSON objects.
pub fn frame_request(model: &str, messages: &Vec<String>) -> (text: String)
    ensures
        text@ == request_frame(model@, messages@.map_values(|m: String| m@)),
{
    let ghost items = messages@.map_values(|m: String| m@);
    let mut text = "{\"model\":".to_owned();
    text.append(model);
    text.append(",\"messages\":[");
    let ghost opening = text@;
    let mut i: usize = 0;
    while i < messages.len()
        invariant
            i <= messages.len(),
            items == messages@.map_values(|m: String| m@),
            text@ == opening + comma_separated(items.take(i as int)),
        decreases messages.len() - i,
    {
        assert(items.take(i + 1).drop_last() == items.take(i as int));
        if i > 0 {
            text.append(",");
        }
        text.append(messages[i].as_str());
        i += 1;
    }
    assert(items.take(i as int) == items);
    text.append("]}");
    text
}

impl Message {
    /// Encodes the message as a JSON object. Fails with a `Serialization`
    /// error exactly where one of its strings cannot be encoded.
    pub fn to_json(&self) -> (text: Result<String, CustomError>)
        ensures
            (match self@.json() {
                Some(json) => text matches Ok(t) && t@ == json,
                None => text matches Err(CustomError::Serialization(_)),
            }),
    {
        let role = match encode_string(self.role.as_str()) {
            Ok(literal) => literal,
            Err(e) => {
                return Err(CustomError::Serialization(e));
            },
        };
        let content = match encode_string(self.content.as_str()) {
            Ok(literal) => literal,
            Err(e) => {
                return Err(CustomError::Serialization(e));
            },
        };
        Ok(frame_message(role.as_str(), content.as_str()))
    }
}

impl OpenAIRequestBody {
    /// The request body of a new session: the model's identifier and one
    /// `System` message that sets the assistant up.
    pub fn with_system_prompt(model: String, prompt: String) -> (request: Self)
        ensures
            request@.model == model@,
            request@.messages == seq![(MessageView { role: Role::System, content: prompt@ })],
    {
        let mut request = OpenAIRequestBody { model, messages: Vec::new() };
        request.add_new_message(Role::System, prompt);
        request
    }

    /// Adds a message at the end of the conversation. Always succeeds; what
    /// was there before stays as it was.
    pub fn add_new_message(&mut self, role: Role, content: String)
        ensures
            final(self)@ == old(self)@.with_message(role, content@),
            final(self).model == old(self).model,
            final(self).messages@ == old(self).messages@.push(Message { role, content }),
    {
        self.messages.push(Message { role, content });
        assert(self.messages@.map_values(|m: Message| m@) == old(self).messages@.map_values(
            |m: Message| m@,
        ).push(MessageView { role, content: content@ }));
    }

    /// Encodes the request as the JSON text that is sent to the endpoint.
    /// Fails with a `Serialization` error exactly where a string of the
    /// request cannot be encoded.
    pub fn serialize(&self) -> (text: Result<String, CustomError>)
        ensures
            (match self@.json() {
                Some(json) => text matches Ok(t) && t@ == json,
                None => text matches Err(CustomError::Serialization(_)),
            }),
    {
        let model = match encode_string(self.model.as_str()) {
            Ok(literal) => literal,
            Err(e) => {
                return Err(CustomError::Serialization(e));
            },
        };
        let mut items: Vec<String> = Vec::new();
        let mut i: usize = 0;
        while i < self.messages.len()
            invariant
                i <= self.messages.len(),
                self@.messages.len() == self.messages.len(),
                forall|k: int|
                    0 <= k < self.messages.len() ==> self@.messages[k] == self.messages[k]@,
                items.len() == i,
                forall|k: int|
                    0 <= k < i ==> (#[trigger] self@.messages[k]).json() == Some(items[k]@),
            decreases self.messages.len() - i,
        {
            match self.messages[i].to_json() {
                Ok(item) => {
                    items.push(item);
                },
                Err(e) => {
                    assert(self@.messages[i as int].json() is None);
                    return Err(e);
                },
            }
            i += 1;
        }
        assert(items@.map_values(|m: String| m@) == self@.messages.map_values(
            |m: MessageView| m.json()->Some_0,
        ));
        Ok(frame_request(model.as_str(), &items))
    }
}

} // verus!
