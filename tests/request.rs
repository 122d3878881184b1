use teal::request::{parse_tell_request, RequestError};

fn body(s: &str) -> Vec<u8> {
    s.as_bytes().to_vec()
}

fn user() -> Option<String> {
    Some("testuser".to_string())
}

#[test]
fn request_without_body_is_refused() {
    let r = parse_tell_request(vec![], user());
    assert_eq!(r, Err(RequestError::BodyRequired));
    assert_eq!(RequestError::BodyRequired.message(), "Request body required");
}

#[test]
fn request_with_invalid_json_is_refused() {
    let r = parse_tell_request(body("invalid json"), user());
    assert_eq!(r, Err(RequestError::InvalidJsonBody));
    assert_eq!(RequestError::InvalidJsonBody.message(), "Invalid JSON body");
}

#[test]
fn request_with_non_utf8_body_is_refused() {
    let r = parse_tell_request(vec![0x7b, 0xff, 0x7d], user());
    assert_eq!(r, Err(RequestError::InvalidJsonBody));
}

#[test]
fn request_without_text_field_is_refused() {
    assert_eq!(parse_tell_request(body("{\"txt\": \"hi\"}"), user()), Err(RequestError::InvalidJsonBody));
    assert_eq!(parse_tell_request(body("{\"text\": 3}"), user()), Err(RequestError::InvalidJsonBody));
}

#[test]
fn request_with_empty_text_is_refused() {
    let r = parse_tell_request(body("{\"text\":\"\"}"), user());
    assert_eq!(r, Err(RequestError::EmptyText));
    let r = parse_tell_request(body("{\"text\":\" \\n\\t \"}"), user());
    assert_eq!(r, Err(RequestError::EmptyText));
    assert_eq!(RequestError::EmptyText.message(), "text cannot be an empty string");
}

#[test]
fn request_without_username_is_refused() {
    let r = parse_tell_request(body("{\"text\":\"I'm feeling great!\"}"), None);
    assert_eq!(r, Err(RequestError::MissingUsername));
    assert_eq!(RequestError::MissingUsername.message(), "missing username query param");
}

#[test]
fn valid_request_gives_username_and_untrimmed_text() {
    let r = parse_tell_request(body("{\"text\":\"  Hello world \"}"), user());
    assert_eq!(r, Ok(("testuser".to_string(), "  Hello world ".to_string())));
}
