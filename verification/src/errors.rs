//! What can go wrong in one exchange, and how each failure is described to the
//! user.

use vstd::prelude::*;
use vstd::string::StringExecFns;

verus! {

/// `reqwest::Error`, carried as it is. Nothing is known of what it holds.
#[verifier::external_type_specification]
#[verifier::external_body]
pub struct ExTransportError(reqwest::Error);

/// The failures of an exchange. Each is handed back to the caller; none is
/// retried or swallowed.
#[derive(Debug)]
pub enum CustomError {
    /// The outgoing payload could not be encoded.
    Serialization(serde_json::Error),
    /// The request could not be sent.
    Request(reqwest::Error),
    /// The endpoint answered with the given status code, which is not 200.
    Response(u16),
    /// The response body could not be read.
    ReadResponse(reqwest::Error),
    /// The response body is not JSON.
    ParseJson(serde_json::Error),
    /// The response holds no reply where one is expected.
    NoMessageFound,
}

/// The text that a `serde_json::Error` displays.
pub uninterp spec fn json_error_text(error: serde_json::Error) -> Seq<char>;

/// The text that a `reqwest::Error` displays.
pub uninterp spec fn transport_error_text(error: reqwest::Error) -> Seq<char>;

/// The text that `reqwest::StatusCode` displays for a status code: the
/// number and the reason that goes with it.
pub uninterp spec fn status_text(code: u16) -> Seq<char>;

/// Formats a `serde_json::Error` with its `Display` impl.
#[verifier::external_body]
fn display_json_error(error: &serde_json::Error) -> (text: String)
    ensures
        text@ == json_error_text(*error),
{
    error.to_string()
}

/// Formats a `reqwest::Error` with its `Display` impl.
#[verifier::external_body]
fn display_transport_error(error: &reqwest::Error) -> (text: String)
    ensures
        text@ == transport_error_text(*error),
{
    error.to_string()
}

/// Makes a `reqwest::StatusCode` of a number with `StatusCode::from_u16` and
/// formats it with its `Display` impl. `from_u16` takes the numbers from 100
/// to 999 and refuses every other; those are left out.
#[verifier::external_body]
fn display_status(code: u16) -> (text: String)
    requires
        is_status_code(code),
    ensures
        text@ == status_text(code),
{
    reqwest::StatusCode::from_u16(code).unwrap().to_string()
}

/// Whether a number can be a status code: it has three digits.
pub open spec fn is_status_code(code: u16) -> bool {
    100 <= code < 1000
}

/// The character of a digit.
pub open spec fn digit(d: nat) -> char
    recommends
        d < 10,
{
    if d == 0 {
        '0'
    } else if d == 1 {
        '1'
    } else if d == 2 {
        '2'
    } else if d == 3 {
        '3'
    } else if d == 4 {
        '4'
    } else if d == 5 {
        '5'
    } else if d == 6 {
        '6'
    } else if d == 7 {
        '7'
    } else if d == 8 {
        '8'
    } else {
        '9'
    }
}

/// A number written in decimal digits, without leading zeros.
pub open spec fn decimal(n: nat) -> Seq<char>
    decreases n,
{
    if n < 10 {
        seq![digit(n)]
    } else {
        decimal(n / 10).push(digit(n % 10))
    }
}

/// Writes a digit.
fn digit_text(d: u16) -> (text: &'static str)
    requires
        d < 10,
    ensures
        text@ == seq![digit(d as nat)],
{
    proof {
        reveal_strlit("0");
        reveal_strlit("1");
        reveal_strlit("2");
        reveal_strlit("3");
        reveal_strlit("4");
        reveal_strlit("5");
        reveal_strlit("6");
        reveal_strlit("7");
        reveal_strlit("8");
        reveal_strlit("9");
    }
    if d == 0 {
        "0"
    } else if d == 1 {
        "1"
    } else if d == 2 {
        "2"
    } else if d == 3 {
        "3"
    } else if d == 4 {
        "4"
    } else if d == 5 {
        "5"
    } else if d == 6 {
        "6"
    } else if d == 7 {
        "7"
    } else if d == 8 {
        "8"
    } else {
        "9"
    }
}

/// Writes a number in decimal digits.
pub fn decimal_text(n: u16) -> (text: String)
    ensures
        text@ == decimal(n as nat),
    decreases n,
{
    if n < 10 {
        digit_text(n).to_owned()
    } else {
        let mut text = decimal_text(n / 10);
        text.append(digit_text(n % 10));
        text
    }
}

impl CustomError {
    /// What a description of the failure begins with. For a failure without a
    /// cause, it is the whole description.
    pub open spec fn heading(self) -> Seq<char> {
        match self {
            CustomError::Serialization(_) => "Serialization error: "@,
            CustomError::Request(_) => "Request error: "@,
            CustomError::Response(_) => "Server responded with status: "@,
            CustomError::ReadResponse(_) => "Error reading response: "@,
            CustomError::ParseJson(_) => "Error parsing JSON: "@,
            CustomError::NoMessageFound => "No message found in response."@,
        }
    }

    /// What the failure carries, as text: its cause as the cause displays
    /// itself, or the status code with its reason; a number that can be no
    /// status code stands alone. Empty where the failure carries nothing.
    pub open spec fn cause_text(self) -> Seq<char> {
        match self {
            CustomError::Serialization(e) => json_error_text(e),
            CustomError::Request(e) => transport_error_text(e),
            CustomError::Response(code) => if is_status_code(code) {
                status_text(code)
            } else {
                decimal(code as nat)
            },
            CustomError::ReadResponse(e) => transport_error_text(e),
            CustomError::ParseJson(e) => json_error_text(e),
            CustomError::NoMessageFound => Seq::empty(),
        }
    }

    /// The one-line description of the failure.
    pub open spec fn description(self) -> Seq<char> {
        self.heading() + self.cause_text()
    }

    /// Returns what a description of the failure begins with.
    pub fn label(&self) -> (text: &'static str)
        ensures
            text@ == self.heading(),
    {
        match self {
            CustomError::Serialization(_) => "Serialization error: ",
            CustomError::Request(_) => "Request error: ",
            CustomError::Response(_) => "Server responded with status: ",
            CustomError::ReadResponse(_) => "Error reading response: ",
            CustomError::ParseJson(_) => "Error parsing JSON: ",
            CustomError::NoMessageFound => "No message found in response.",
        }
    }

    /// Describes the failure in one line, for an error stream.
    pub fn describe(&self) -> (text: String)
        ensures
            text@ == self.description(),
    {
        let mut text = self.label().to_owned();
        match self {
            CustomError::Serialization(e) => text.append(display_json_error(e).as_str()),
            CustomError::Request(e) => text.append(display_transport_error(e).as_str()),
            CustomError::Response(code) => if 100 <= *code && *code < 1000 {
                text.append(display_status(*code).as_str())
            } else {
                text.append(decimal_text(*code).as_str())
            },
            CustomError::ReadResponse(e) => text.append(display_transport_error(e).as_str()),
            CustomError::ParseJson(e) => text.append(display_json_error(e).as_str()),
            CustomError::NoMessageFound => {},
        }
        text
    }
}

} // verus!
