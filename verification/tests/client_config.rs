use pxshot::text::{decimal_text, trim_trailing_slashes};
use pxshot::{Error, Pxshot};

#[test]
fn new_uses_the_production_address() {
    let client = Pxshot::new("px_key");
    assert_eq!(client.base_url(), "https://api.pxshot.com");
    assert_eq!(client.authorization(), "Bearer px_key");
}

#[test]
fn with_base_url_drops_trailing_slashes() {
    assert_eq!(Pxshot::with_base_url("k", "http://localhost:8080/").base_url(), "http://localhost:8080");
    assert_eq!(Pxshot::with_base_url("k", "http://localhost:8080///").base_url(), "http://localhost:8080");
    assert_eq!(Pxshot::with_base_url("k", "http://localhost:8080/api").base_url(), "http://localhost:8080/api");
    assert_eq!(Pxshot::with_base_url("k", "http://h/a//b/").base_url(), "http://h/a//b");
    assert_eq!(Pxshot::with_base_url("k", "///").base_url(), "");
    assert_eq!(Pxshot::with_base_url("k", "").base_url(), "");
}

#[test]
fn trimming_works_on_characters_of_any_width() {
    assert_eq!(trim_trailing_slashes("https://пример.example/путь//"), "https://пример.example/путь");
    assert_eq!(trim_trailing_slashes("/é/"), "/é");
    assert_eq!(trim_trailing_slashes("no-slash"), "no-slash");
    assert_eq!(trim_trailing_slashes("/"), "");
}

#[test]
fn calls_are_made_against_the_trimmed_address() {
    let client = Pxshot::with_base_url("k", "https://self.hosted/shots/");
    assert_eq!(client.usage().call.url, "https://self.hosted/shots/v1/usage");
}

#[test]
fn a_cloned_client_is_configured_alike() {
    let client = Pxshot::with_base_url("px_key", "https://a.example/");
    let copy = client.clone();
    assert_eq!(copy.base_url(), "https://a.example");
    assert_eq!(copy.authorization(), "Bearer px_key");
}

#[test]
fn api_keys_that_can_travel_in_a_header_are_accepted() {
    assert!(Pxshot::accepts_api_key("px_0123456789abcdefABCDEF"));
    assert!(Pxshot::accepts_api_key(""));
    assert!(Pxshot::accepts_api_key("with space"));
    assert!(Pxshot::accepts_api_key("with\ttab"));
    assert!(Pxshot::accepts_api_key("~!@#$%^&*()"));
    assert!(Pxshot::accepts_api_key("ключ"));
    assert!(Pxshot::accepts_api_key("\u{80}"));
}

#[test]
fn api_keys_with_control_characters_are_refused() {
    assert!(!Pxshot::accepts_api_key("line\nbreak"));
    assert!(!Pxshot::accepts_api_key("carriage\rreturn"));
    assert!(!Pxshot::accepts_api_key("\0"));
    assert!(!Pxshot::accepts_api_key("\u{1f}"));
    assert!(!Pxshot::accepts_api_key("delete\u{7f}"));
    assert!(!Pxshot::accepts_api_key("ok until the end\n"));
}

#[test]
fn decimal_text_has_no_leading_zeros() {
    assert_eq!(decimal_text(0), "0");
    assert_eq!(decimal_text(7), "7");
    assert_eq!(decimal_text(10), "10");
    assert_eq!(decimal_text(429), "429");
    assert_eq!(decimal_text(1000), "1000");
    assert_eq!(decimal_text(u16::MAX), "65535");
}

#[test]
fn each_failure_describes_itself() {
    assert_eq!(Error::MissingField("url").describe(), "missing required field: url");
    assert_eq!(
        Error::Request("error sending request".to_string()).describe(),
        "HTTP request failed: error sending request"
    );
    assert_eq!(
        Error::Api { status: 429, message: "quota exceeded".to_string() }.describe(),
        "API error (429): quota exceeded"
    );
    assert_eq!(
        Error::Api { status: 0, message: String::new() }.describe(),
        "API error (0): "
    );
    assert_eq!(
        Error::Parse("expected value at line 1 column 1".to_string()).describe(),
        "failed to parse response: expected value at line 1 column 1"
    );
    assert_eq!(Error::Config("bad key".to_string()).describe(), "invalid configuration: bad key");
}

#[test]
fn a_refused_build_describes_the_missing_field() {
    let error = pxshot::ScreenshotRequest::builder().width(1).build().unwrap_err();
    assert_eq!(error.describe(), "missing required field: url");
}
