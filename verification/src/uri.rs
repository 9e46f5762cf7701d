//! The addresses of the service: a scheme, the fixed host, and a path.

use crate::error::Error;
use vstd::prelude::*;

verus! {

/// The host of the service.
pub const RACETIME_HOST: &'static str = "racetime.gg";

/// The host, character by character: there is no slash, colon or other
/// delimiter in it, so that it ends where the path begins.
pub proof fn lemma_host_text()
    ensures
        RACETIME_HOST@ == seq!['r', 'a', 'c', 'e', 't', 'i', 'm', 'e', '.', 'g', 'g'],
{
    reveal_strlit("racetime.gg");
    assert(RACETIME_HOST@ =~= seq!['r', 'a', 'c', 'e', 't', 'i', 'm', 'e', '.', 'g', 'g']);
}

/// The text from which a URI is made: `scheme://HOST` and the path.
pub open spec fn uri_text(scheme: Seq<char>, path: Seq<char>) -> Seq<char> {
    scheme + "://"@ + RACETIME_HOST@ + path
}

/// What `url::Url::parse` makes of a text: the URL in its serialized form, or
/// `None` where the text is refused.
pub uninterp spec fn parsed_url(text: Seq<char>) -> Option<Seq<char>>;

/// Calls `url::Url::parse` and hands the URL back as the text that the `url`
/// crate serializes it to. Nothing is claimed about which texts parse or what
/// they parse to, only that the outcome is the one named `parsed_url`.
#[verifier::external_body]
fn parse_url(text: &str) -> (r: Result<String, url::ParseError>)
    ensures
        match r {
            Ok(parsed) => parsed_url(text@) == Some(parsed@),
            Err(_) => parsed_url(text@) is None,
        },
{
    url::Url::parse(text).map(String::from)
}

/// Writes out the text of a URI on the service's host.
pub fn uri_string(proto: &str, url: &str) -> (text: String)
    ensures
        text@ == uri_text(proto@, url@),
{
    let mut text = String::from_str(proto);
    text.append("://");
    text.append(RACETIME_HOST);
    text.append(url);
    text
}

/// Sorts the outcome of parsing a URI into the library's own result.
pub fn uri_from_parsed(parsed: Result<String, url::ParseError>) -> (r: Result<String, Error>)
    ensures
        match (parsed, r) {
            (Ok(before), Ok(after)) => before == after,
            (Err(refused), Err(Error::UrlParse(kept))) => refused == kept,
            _ => false,
        },
{
    match parsed {
        Ok(parsed) => Ok(parsed),
        Err(e) => Err(Error::from(e)),
    }
}

/// Generates a URI from the given protocol and URL path fragment.
pub fn uri(proto: &str, url: &str) -> (r: Result<String, Error>)
    ensures
        match r {
            Ok(parsed) => parsed_url(uri_text(proto@, url@)) == Some(parsed@),
            Err(Error::UrlParse(_)) => parsed_url(uri_text(proto@, url@)) is None,
            Err(_) => false,
        },
{
    let text = uri_string(proto, url);
    uri_from_parsed(parse_url(text.as_str()))
}

/// The scheme of every request to the service.
pub open spec fn https() -> Seq<char> {
    "https"@
}

/// Generates an HTTPS URI from the given URL path fragment.
pub fn http_uri(url: &str) -> (r: Result<String, Error>)
    ensures
        match r {
            Ok(parsed) => parsed_url(uri_text(https(), url@)) == Some(parsed@),
            Err(Error::UrlParse(_)) => parsed_url(uri_text(https(), url@)) is None,
            Err(_) => false,
        },
{
    uri("https", url)
}

/// In the text that is handed to the parser, the scheme comes first, then
/// `://`, then the fixed host, and the path as it was given closes it.
pub proof fn lemma_uri_text_layout(scheme: Seq<char>, path: Seq<char>)
    ensures
        ({
            let text = uri_text(scheme, path);
            let a = scheme.len() as int;
            let b = a + 3;
            let c = b + RACETIME_HOST@.len() as int;
            &&& text.len() == c + path.len()
            &&& text.subrange(0, a) == scheme
            &&& text.subrange(a, b) == "://"@
            &&& text.subrange(b, c) == RACETIME_HOST@
            &&& text.subrange(c, text.len() as int) == path
        }),
{
    reveal_strlit("://");
    let text = uri_text(scheme, path);
    let a = scheme.len() as int;
    let b = a + 3;
    let c = b + RACETIME_HOST@.len() as int;
    assert(text.subrange(0, a) =~= scheme);
    assert(text.subrange(a, b) =~= "://"@);
    assert(text.subrange(b, c) =~= RACETIME_HOST@);
    assert(text.subrange(c, text.len() as int) =~= path);
}

} // verus!
