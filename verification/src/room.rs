//! The opening of a race room, and the slug that comes back.

use crate::error::Error;
use crate::exchange::{check_status, is_error_status, Request, Response};
use crate::form::{fields_of, StartRace};
use crate::header::{ascii_text, header_bytes, header_to_str, is_visible_text};
use crate::location::{is_location, is_location_elsewhere, slug_from_location};
use crate::uri::{http_uri, https, parsed_url, uri_text};
use vstd::prelude::*;

verus! {

/// The path of the endpoint that opens a room in `category`.
pub open spec fn start_path(category: Seq<char>) -> Seq<char> {
    "/o/"@ + category + "/startrace"@
}

/// Writes out the path of the endpoint that opens a room in `category`.
pub fn start_path_string(category: &str) -> (path: String)
    ensures
        path@ == start_path(category@),
{
    let mut path = String::from_str("/o/");
    path.append(category);
    path.append("/startrace");
    path
}

impl StartRace {
    /// Builds the request that opens a room with this configuration in
    /// `category`, authorized by `access_token`.
    pub fn request(&self, access_token: &str, category: &str) -> (r: Result<Request, Error>)
        ensures
            match r {
                Ok(request) => {
                    &&& parsed_url(uri_text(https(), start_path(category@))) == Some(request.uri@)
                    &&& request.bearer is Some
                    &&& request.bearer->0@ == access_token@
                    &&& fields_of(request.form@) == self.form_fields()
                },
                Err(Error::UrlParse(_)) => parsed_url(uri_text(https(), start_path(category@)))
                    is None,
                Err(_) => false,
            },
    {
        let form = self.form();
        let path = start_path_string(category);
        match http_uri(path.as_str()) {
            Err(e) => Err(e),
            Ok(uri) => Ok(Request { uri, bearer: Some(String::from_str(access_token)), form }),
        }
    }
}

/// Sorts the outcome of reading the `location` header as text, and reads the
/// slug out of the text.
pub fn slug_from_header_text(
    text: Result<String, http::header::ToStrError>,
    category: &str,
) -> (r: Result<String, Error>)
    ensures
        match (text, r) {
            (Err(refused), Err(Error::HeaderToStr(kept))) => refused == kept,
            (Ok(location), Ok(slug)) => is_location(location@, category@, slug@),
            (Ok(location), Err(Error::LocationFormat)) => forall|c: Seq<char>, s: Seq<char>|
                !is_location(location@, c, s),
            (Ok(location), Err(Error::LocationCategory)) => is_location_elsewhere(
                location@,
                category@,
            ),
            _ => false,
        },
{
    match text {
        Err(e) => Err(Error::from(e)),
        Ok(location) => slug_from_location(location.as_str(), category),
    }
}

/// Reads the slug of the new room out of the response to a room creation.
///
/// A failure status comes first. Then the `location` header must be there,
/// must be visible ASCII, must have the form `/{category}/{slug}`, and must
/// name the category that was asked for.
pub fn room_slug(response: &Response, category: &str) -> (r: Result<String, Error>)
    ensures
        match r {
            Err(Error::Http { status, url }) => {
                &&& is_error_status(response.status)
                &&& status == response.status
                &&& url@ == response.url@
            },
            Err(Error::MissingLocationHeader) => !is_error_status(response.status)
                && response.location is None,
            Err(Error::HeaderToStr(_)) => {
                &&& !is_error_status(response.status)
                &&& response.location is Some
                &&& !is_visible_text(header_bytes(response.location->0))
            },
            Err(Error::LocationFormat) => {
                &&& !is_error_status(response.status)
                &&& response.location is Some
                &&& is_visible_text(header_bytes(response.location->0))
                &&& forall|c: Seq<char>, s: Seq<char>|
                    !is_location(ascii_text(header_bytes(response.location->0)), c, s)
            },
            Err(Error::LocationCategory) => {
                &&& !is_error_status(response.status)
                &&& response.location is Some
                &&& is_visible_text(header_bytes(response.location->0))
                &&& is_location_elsewhere(
                    ascii_text(header_bytes(response.location->0)),
                    category@,
                )
            },
            Ok(slug) => {
                &&& !is_error_status(response.status)
                &&& response.location is Some
                &&& is_visible_text(header_bytes(response.location->0))
                &&& is_location(
                    ascii_text(header_bytes(response.location->0)),
                    category@,
                    slug@,
                )
            },
            Err(_) => false,
        },
{
    match check_status(response.status, response.url.as_str()) {
        Err(e) => Err(e),
        Ok(_) => match &response.location {
            None => Err(Error::MissingLocationHeader),
            Some(value) => slug_from_header_text(header_to_str(value), category),
        },
    }
}

} // verus!
