use http::header::HeaderValue;
use racetime::error::server_message;
use racetime::Error;
use url::Url;

#[test]
fn server_errors_are_rendered_as_bullets() {
    let messages = vec!["first".to_string(), "second thing".to_string()];
    assert_eq!(server_message(&messages), "server errors:\n\u{2022} first\n\u{2022} second thing");
    assert_eq!(Error::Server(messages).message(), "server errors:\n\u{2022} first\n\u{2022} second thing");
}

#[test]
fn server_errors_without_messages() {
    assert_eq!(server_message(&Vec::new()), "server errors:");
    assert_eq!(server_message(&vec![String::new()]), "server errors:\n\u{2022} ");
}

#[test]
fn location_errors_have_fixed_messages() {
    assert_eq!(
        Error::LocationCategory.message(),
        "the startrace location did not match the input category"
    );
    assert_eq!(
        Error::LocationFormat.message(),
        "the startrace location header did not have the expected format"
    );
    assert_eq!(
        Error::MissingLocationHeader.message(),
        "the startrace response did not include a location header"
    );
}

#[test]
fn http_error_message_names_url_and_status() {
    let e = Error::Http { status: 404, url: "https://racetime.gg/o/token".to_string() };
    assert_eq!(e.message(), "HTTP error at https://racetime.gg/o/token: status 404");
}

#[test]
fn carried_reasons_are_rendered() {
    assert_eq!(Error::Json("missing field".to_string()).message(), "missing field");
    assert_eq!(Error::Transport("connection refused".to_string()).message(), "HTTP error: connection refused");
    assert_eq!(Error::Task("cancelled".to_string()).message(), "cancelled");
}

#[test]
fn outside_errors_keep_their_own_text() {
    let refused = Url::parse("no scheme").unwrap_err();
    assert_eq!(Error::UrlParse(refused).message(), refused.to_string());
    let value = HeaderValue::from_bytes(b"\xff").unwrap();
    let expected = value.to_str().unwrap_err().to_string();
    assert_eq!(Error::HeaderToStr(value.to_str().unwrap_err()).message(), expected);
}

#[test]
fn outside_errors_convert_into_their_variant() {
    let refused = Url::parse("no scheme").unwrap_err();
    assert!(matches!(Error::from(refused), Error::UrlParse(e) if e == refused));
    let value = HeaderValue::from_bytes(b"\xff").unwrap();
    assert!(matches!(Error::from(value.to_str().unwrap_err()), Error::HeaderToStr(_)));
}
