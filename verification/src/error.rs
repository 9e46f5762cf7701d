//! The single error type through which every failure is reported.

use crate::text::{decimal, decimal_string};
use vstd::prelude::*;

verus! {

/// `url::ParseError`: why a text was refused as a URL. Opaque here.
#[verifier::external_type_specification]
#[verifier::external_body]
pub struct ExUrlParseError(url::ParseError);

/// `http::header::ToStrError`: a header value held a byte that is no visible
/// ASCII. Opaque here.
#[verifier::external_type_specification]
#[verifier::external_body]
pub struct ExToStrError(http::header::ToStrError);

/// Every way in which an exchange with the service can fail.
#[derive(Debug)]
pub enum Error {
    /// The `location` header is not visible ASCII text.
    HeaderToStr(http::header::ToStrError),
    /// The token endpoint's body is not JSON of the expected shape; the decoder's
    /// diagnostic is carried as text.
    Json(String),
    /// The composed URI does not parse.
    UrlParse(url::ParseError),
    /// The room was created under another category than the one asked for.
    LocationCategory,
    /// The `location` header is not of the form `/{category}/{slug}`.
    LocationFormat,
    /// The response to the room creation has no `location` header.
    MissingLocationHeader,
    /// The service answered with a client or server error status.
    Http { status: u16, url: String },
    /// The round trip itself failed (connection, DNS, TLS); the client's
    /// diagnostic is carried as text.
    Transport(String),
    /// The call was aborted before it completed.
    Task(String),
    /// The service reported application-level errors.
    Server(Vec<String>),
}

impl From<url::ParseError> for Error {
    fn from(e: url::ParseError) -> (r: Error) {
        Error::UrlParse(e)
    }
}

impl vstd::std_specs::convert::FromSpecImpl<url::ParseError> for Error {
    open spec fn obeys_from_spec() -> bool {
        true
    }

    open spec fn from_spec(e: url::ParseError) -> Error {
        Error::UrlParse(e)
    }
}

impl From<http::header::ToStrError> for Error {
    fn from(e: http::header::ToStrError) -> (r: Error) {
        Error::HeaderToStr(e)
    }
}

impl vstd::std_specs::convert::FromSpecImpl<http::header::ToStrError> for Error {
    open spec fn obeys_from_spec() -> bool {
        true
    }

    open spec fn from_spec(e: http::header::ToStrError) -> Error {
        Error::HeaderToStr(e)
    }
}

/// The messages of the service, each on a line of its own behind a bullet.
pub open spec fn bullets(messages: Seq<String>) -> Seq<char>
    decreases messages.len(),
{
    if messages.len() == 0 {
        Seq::empty()
    } else {
        bullets(messages.drop_last()) + "\n\u{2022} "@ + messages.last()@
    }
}

/// How errors that the service reported are rendered.
pub open spec fn server_text(messages: Seq<String>) -> Seq<char> {
    "server errors:"@ + bullets(messages)
}

/// How an error status is rendered.
pub open spec fn http_text(status: u16, url: Seq<char>) -> Seq<char> {
    "HTTP error at "@ + url + ": status "@ + decimal(status as nat)
}

/// Renders the errors that the service reported.
pub fn server_message(messages: &Vec<String>) -> (text: String)
    ensures
        text@ == server_text(messages@),
{
    let mut text = String::from_str("server errors:");
    let mut done: usize = 0;
    while done < messages.len()
        invariant
            done <= messages.len(),
            text@ == server_text(messages@.take(done as int)),
        decreases messages.len() - done,
    {
        proof {
            let next = messages@.take(done as int + 1);
            assert(next.drop_last() =~= messages@.take(done as int));
            assert(next.last() == messages@[done as int]);
            assert(server_text(next) =~= server_text(messages@.take(done as int)) + "\n\u{2022} "@
                + messages@[done as int]@);
        }
        text.append("\n\u{2022} ");
        text.append(messages[done].as_str());
        done = done + 1;
    }
    proof {
        assert(messages@.take(done as int) =~= messages@);
    }
    text
}

impl Error {
    /// What the message of this error is, where it is the library's own to say.
    pub open spec fn own_text(&self) -> Option<Seq<char>> {
        match self {
            Error::HeaderToStr(_) => None,
            Error::UrlParse(_) => None,
            Error::Json(reason) => Some(reason@),
            Error::Transport(reason) => Some("HTTP error: "@ + reason@),
            Error::Task(reason) => Some(reason@),
            Error::LocationCategory => Some(
                "the startrace location did not match the input category"@,
            ),
            Error::LocationFormat => Some(
                "the startrace location header did not have the expected format"@,
            ),
            Error::MissingLocationHeader => Some(
                "the startrace response did not include a location header"@,
            ),
            Error::Http { status, url } => Some(http_text(*status, url@)),
            Error::Server(messages) => Some(server_text(messages@)),
        }
    }

    /// The message of this error. For an error of the `url` or the `http`
    /// crate it is the text that the crate gives it.
    pub fn message(&self) -> (text: String)
        ensures
            self.own_text() matches Some(own) ==> text@ == own,
    {
        match self {
            Error::HeaderToStr(e) => e.to_string(),
            Error::UrlParse(e) => e.to_string(),
            Error::Json(reason) => reason.clone(),
            Error::Transport(reason) => String::from_str("HTTP error: ").concat(reason.as_str()),
            Error::Task(reason) => reason.clone(),
            Error::LocationCategory => String::from_str(
                "the startrace location did not match the input category",
            ),
            Error::LocationFormat => String::from_str(
                "the startrace location header did not have the expected format",
            ),
            Error::MissingLocationHeader => String::from_str(
                "the startrace response did not include a location header",
            ),
            Error::Http { status, url } => {
                let mut text = String::from_str("HTTP error at ");
                text.append(url.as_str());
                text.append(": status ");
                text.append(decimal_string(*status).as_str());
                text
            },
            Error::Server(messages) => server_message(messages),
        }
    }
}

} // verus!
