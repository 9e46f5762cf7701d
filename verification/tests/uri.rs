use racetime::uri::{http_uri, uri, uri_from_parsed, uri_string, RACETIME_HOST};
use racetime::Error;
use url::Url;

#[test]
fn host_is_fixed() {
    assert_eq!(RACETIME_HOST, "racetime.gg");
}

#[test]
fn uri_string_joins_scheme_host_and_path() {
    assert_eq!(uri_string("https", "/o/token"), "https://racetime.gg/o/token");
    assert_eq!(uri_string("wss", "/ws/o/bot/abc"), "wss://racetime.gg/ws/o/bot/abc");
    assert_eq!(uri_string("", ""), "://racetime.gg");
}

#[test]
fn uri_has_the_fixed_host_and_the_given_path() {
    for (scheme, path) in [("https", "/o/token"), ("http", "/zelda64/abc123"), ("wss", "/ws/o/bot/abc"), ("https", "/")] {
        let text = uri(scheme, path).unwrap();
        let parsed = Url::parse(&text).unwrap();
        assert_eq!(parsed.scheme(), scheme);
        assert_eq!(parsed.host_str(), Some("racetime.gg"));
        assert_eq!(parsed.path(), path);
        assert_eq!(text, format!("{scheme}://racetime.gg{path}"));
    }
}

#[test]
fn uri_is_the_parsed_form_of_its_text() {
    assert_eq!(uri("HTTPS", "/o/token").unwrap(), "https://racetime.gg/o/token");
    assert_eq!(uri("https", "").unwrap(), "https://racetime.gg/");
    assert_eq!(uri("https", "/a b").unwrap(), "https://racetime.gg/a%20b");
    assert_eq!(uri("https", "/a/../b").unwrap(), "https://racetime.gg/b");
}

#[test]
fn http_uri_is_https() {
    assert_eq!(http_uri("/o/token").unwrap(), "https://racetime.gg/o/token");
    assert_eq!(http_uri("/o/zelda64/startrace").unwrap(), uri("https", "/o/zelda64/startrace").unwrap());
}

#[test]
fn uri_that_does_not_parse_is_refused() {
    assert!(matches!(uri("", "/o/token"), Err(Error::UrlParse(_))));
    assert!(matches!(uri("https", ":notaport/"), Err(Error::UrlParse(_))));
    assert!(matches!(http_uri(":99999999"), Err(Error::UrlParse(_))));
}

#[test]
fn parse_outcome_is_sorted_into_the_result() {
    assert_eq!(uri_from_parsed(Ok("https://racetime.gg/".to_string())).unwrap(), "https://racetime.gg/");
    let refused = Url::parse("no scheme").unwrap_err();
    assert!(matches!(uri_from_parsed(Err(refused)), Err(Error::UrlParse(e)) if e == refused));
}
