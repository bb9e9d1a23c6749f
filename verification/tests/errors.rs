use terminal_gpt::errors::{decimal_text, CustomError};

fn json_failure() -> serde_json::Error {
    serde_json::from_str::<serde_json::Value>("{\"a\"").unwrap_err()
}

fn transport_failure() -> reqwest::Error {
    reqwest::Client::new().get("no scheme").build().unwrap_err()
}

#[test]
fn labels_name_the_kind_of_failure() {
    assert_eq!(CustomError::Serialization(json_failure()).label(), "Serialization error: ");
    assert_eq!(CustomError::Request(transport_failure()).label(), "Request error: ");
    assert_eq!(CustomError::Response(404).label(), "Server responded with status: ");
    assert_eq!(CustomError::ReadResponse(transport_failure()).label(), "Error reading response: ");
    assert_eq!(CustomError::ParseJson(json_failure()).label(), "Error parsing JSON: ");
    assert_eq!(CustomError::NoMessageFound.label(), "No message found in response.");
}

#[test]
fn parse_failure_is_described_with_its_place() {
    let error = CustomError::ParseJson(json_failure());
    assert_eq!(
        error.describe(),
        "Error parsing JSON: EOF while parsing an object at line 1 column 4"
    );
}

#[test]
fn transport_failures_are_described_with_their_cause() {
    let shown = transport_failure().to_string();
    assert!(shown.starts_with("builder error"));
    assert_eq!(
        CustomError::Request(transport_failure()).describe(),
        format!("Request error: {}", shown)
    );
    assert_eq!(
        CustomError::ReadResponse(transport_failure()).describe(),
        format!("Error reading response: {}", shown)
    );
}

#[test]
fn status_is_described_with_its_reason() {
    assert_eq!(
        CustomError::Response(500).describe(),
        "Server responded with status: 500 Internal Server Error"
    );
    assert_eq!(
        CustomError::Response(429).describe(),
        "Server responded with status: 429 Too Many Requests"
    );
    assert_eq!(
        CustomError::Response(299).describe(),
        "Server responded with status: 299 <unknown status code>"
    );
}

#[test]
fn a_number_that_is_no_status_is_described_alone() {
    assert_eq!(CustomError::Response(99).describe(), "Server responded with status: 99");
    assert_eq!(CustomError::Response(1000).describe(), "Server responded with status: 1000");
    assert_eq!(CustomError::Response(0).describe(), "Server responded with status: 0");
}

#[test]
fn missing_reply_is_described_without_a_cause() {
    assert_eq!(CustomError::NoMessageFound.describe(), "No message found in response.");
}

#[test]
fn decimal_text_writes_digits_without_leading_zeros() {
    assert_eq!(decimal_text(0), "0");
    assert_eq!(decimal_text(7), "7");
    assert_eq!(decimal_text(10), "10");
    assert_eq!(decimal_text(99), "99");
    assert_eq!(decimal_text(1000), "1000");
    assert_eq!(decimal_text(12345), "12345");
    assert_eq!(decimal_text(60708), "60708");
    assert_eq!(decimal_text(u16::MAX), "65535");
}

#[test]
fn status_at_the_edges_of_the_range_is_described_with_its_reason() {
    assert_eq!(CustomError::Response(100).describe(), "Server responded with status: 100 Continue");
    assert_eq!(
        CustomError::Response(999).describe(),
        "Server responded with status: 999 <unknown status code>"
    );
    assert_eq!(CustomError::Response(200).describe(), "Server responded with status: 200 OK");
    assert_eq!(CustomError::Response(u16::MAX).describe(), "Server responded with status: 65535");
}
