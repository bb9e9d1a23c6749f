//! The HTTP client that carries the exchanges: one `reqwest` client with the
//! credential and the content type as default headers.

use vstd::prelude::*;
use vstd::string::StringExecFns;

verus! {

/// `reqwest::Client`, handed out as it is. Of what it holds only its default
/// headers are spoken of.
#[verifier::external_type_specification]
#[verifier::external_body]
pub struct ExHttpClient(reqwest::Client);

/// The default headers of a `reqwest::Client`, which it sends with every
/// request that does not set them itself: each header's name, in lower case,
/// with its value as the text whose UTF-8 bytes the value holds.
pub uninterp spec fn default_headers(client: reqwest::Client) -> Map<Seq<char>, Seq<char>>;

/// Whether a character may stand in a header value: a tab, or anything from
/// the space upwards but the delete character.
pub open spec fn is_header_char(c: char) -> bool {
    c == '\t' || (' ' <= c && c != '\x7f')
}

/// Whether a text may stand as a header value.
pub open spec fn is_header_text(text: Seq<char>) -> bool {
    forall|i: int| 0 <= i < text.len() ==> is_header_char(#[trigger] text[i])
}

/// Builds a `reqwest::Client` that sends the two values as its default
/// `Authorization` and `Content-Type` headers, by `HeaderValue::from_str`,
/// `HeaderMap::insert`, `ClientBuilder::default_headers` and
/// `ClientBuilder::build`. `from_str` refuses a value with a character that
/// `is_header_char` excludes; such values are left out. Whether a client comes
/// out is not promised: it depends on the machine's TLS and resolver setup.
/// A client that comes out holds the two values, as they were given, under
/// `authorization` and `content-type` among its default headers.
#[verifier::external_body]
fn client_with_headers(authorization: &str, content_type: &str) -> (client: Result<
    reqwest::Client,
    reqwest::Error,
>)
    requires
        is_header_text(authorization@),
        is_header_text(content_type@),
    ensures
        client matches Ok(c) ==> (default_headers(c).contains_pair(
            "authorization"@,
            authorization@,
        ) && default_headers(c).contains_pair("content-type"@, content_type@)),
{
    let mut headers = reqwest::header::HeaderMap::new();
    let authorization = reqwest::header::HeaderValue::from_str(authorization).unwrap();
    headers.insert(reqwest::header::AUTHORIZATION, authorization);
    let content_type = reqwest::header::HeaderValue::from_str(content_type).unwrap();
    headers.insert(reqwest::header::CONTENT_TYPE, content_type);
    reqwest::Client::builder().default_headers(headers).build()
}

/// Builds the HTTP client for a given API key.
pub struct ClientBuilder {
    api_key: String,
}

impl View for ClientBuilder {
    type V = Seq<char>;

    /// The API key.
    closed spec fn view(&self) -> Seq<char> {
        self.api_key@
    }
}

impl ClientBuilder {
    /// A builder for the given API key.
    pub fn new(api_key: &str) -> (builder: Self)
        ensures
            builder@ == api_key@,
    {
        Self { api_key: api_key.to_owned() }
    }

    /// The value of the `Authorization` header: the key as a bearer token.
    pub open spec fn authorization(self) -> Seq<char> {
        "Bearer "@ + self@
    }

    /// Whether the key can be sent in a header.
    pub fn has_valid_key(&self) -> (valid: bool)
        ensures
            valid == is_header_text(self@),
    {
        let key = self.api_key.as_str();
        for c in it: key.chars()
            invariant
                key@ == self@,
                it.seq() == key@,
                forall|k: int| 0 <= k < it.index() ==> is_header_char(#[trigger] key@[k]),
        {
            if !(c == '\t' || (' ' <= c && c != '\x7f')) {
                return false;
            }
        }
        true
    }

    /// The value of the `Authorization` header.
    pub fn authorization_value(&self) -> (value: String)
        ensures
            value@ == self.authorization(),
    {
        "Bearer ".to_owned().concat(self.api_key.as_str())
    }

    /// Builds the client. The key must be fit for a header. Whether a client
    /// comes out is up to `reqwest` and the machine; one that does sends the
    /// key as a bearer token under `authorization` and `application/json`
    /// under `content-type` with every request that does not set them itself.
    pub fn build(&self) -> (client: Result<reqwest::Client, reqwest::Error>)
        requires
            is_header_text(self@),
        ensures
            client matches Ok(c) ==> (default_headers(c).contains_pair(
                "authorization"@,
                self.authorization(),
            ) && default_headers(c).contains_pair("content-type"@, "application/json"@)),
    {
        let authorization = self.authorization_value();
        proof {
            reveal_strlit("Bearer ");
            reveal_strlit("application/json");
        }
        client_with_headers(authorization.as_str(), "application/json")
    }
}

} // verus!
