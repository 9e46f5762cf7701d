//! The exchange of client credentials for a bearer token.

use crate::error::Error;
use crate::exchange::Request;
use crate::form::{empty_form, fields_of, put, Fields};
use crate::uri::{http_uri, https, parsed_url, uri_text};
use vstd::prelude::*;

verus! {

/// The validity of a token, in seconds, where the service names none.
pub const DEFAULT_VALIDITY: u64 = 36000;

/// A bearer token and the number of seconds for which it is valid.
#[derive(Debug, Clone)]
pub struct Token {
    pub access_token: String,
    pub validity: u64,
}

/// The path of the token endpoint.
pub open spec fn token_path() -> Seq<char> {
    "/o/token"@
}

/// The form of a token request.
pub open spec fn token_fields(client_id: Seq<char>, client_secret: Seq<char>) -> Fields {
    seq![
        ("client_id"@, client_id),
        ("client_secret"@, client_secret),
        ("grant_type"@, "client_credentials"@),
    ]
}

/// Builds the request that exchanges client credentials for a bearer token.
pub fn token_request(client_id: &str, client_secret: &str) -> (r: Result<Request, Error>)
    ensures
        match r {
            Ok(request) => {
                &&& parsed_url(uri_text(https(), token_path())) == Some(request.uri@)
                &&& request.bearer is None
                &&& fields_of(request.form@) == token_fields(client_id@, client_secret@)
            },
            Err(Error::UrlParse(_)) => parsed_url(uri_text(https(), token_path())) is None,
            Err(_) => false,
        },
{
    match http_uri("/o/token") {
        Err(e) => Err(e),
        Ok(uri) => {
            let mut form = empty_form();
            put(&mut form, "client_id", client_id);
            put(&mut form, "client_secret", client_secret);
            put(&mut form, "grant_type", "client_credentials");
            Ok(Request { uri, bearer: None, form })
        },
    }
}

/// What a token's validity is: the seconds that the service named, or the
/// default where it named none.
pub open spec fn validity_of(expires_in: Option<u64>) -> u64 {
    match expires_in {
        Some(seconds) => seconds,
        None => DEFAULT_VALIDITY,
    }
}

/// Makes the token out of the two members of the token endpoint's answer.
pub fn token(access_token: String, expires_in: Option<u64>) -> (r: Token)
    ensures
        r.access_token == access_token,
        r.validity == validity_of(expires_in),
{
    let validity = match expires_in {
        Some(seconds) => seconds,
        None => DEFAULT_VALIDITY,
    };
    Token { access_token, validity }
}

} // verus!
