use typeform::Typeform;
use typeform::client::DEFAULT_BASE_URL;
use typeform::error::Error;

#[test]
fn responses_url_for_form() {
    let client = Typeform::new("abc123", "secret");
    assert_eq!(client.responses_url(), "https://api.typeform.com/forms/abc123/responses");
}

#[test]
fn responses_after_url_for_cursor() {
    let client = Typeform::new("abc123", "secret");
    assert_eq!(
        client.responses_after_url("tok_xyz"),
        "https://api.typeform.com/forms/abc123/responses?after=tok_xyz&page_size=1"
    );
}

#[test]
fn other_base_url() {
    let client = Typeform::with_base_url("http://localhost:8080", "f", "t");
    assert_eq!(client.responses_url(), "http://localhost:8080/forms/f/responses");
    assert_eq!(client.responses_after_url("c"), "http://localhost:8080/forms/f/responses?after=c&page_size=1");
}

#[test]
fn default_base_url_and_form_id() {
    assert_eq!(DEFAULT_BASE_URL, "https://api.typeform.com");
    let client = Typeform::new("form9", "t");
    assert_eq!(client.form_id(), "form9");
}

#[test]
fn bearer_authorization() {
    let client = Typeform::new("abc123", "SECRET-REDACTED");
    assert_eq!(client.authorization(), "Bearer SECRET-REDACTED");
}

#[test]
fn error_messages() {
    assert_eq!(Error::Transport("down".to_string()).message(), "down");
    assert_eq!(Error::RequestBuild("bad".to_string()).message(), "bad");
    assert_eq!(Error::Decode("shape".to_string()).message(), "shape");
}
