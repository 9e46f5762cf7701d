//! What goes to the service and what comes back: a request that is built
//! here, a round trip that the caller makes, and a response that is read
//! here.

use crate::error::Error;
use vstd::prelude::*;

verus! {

/// A request to the service: where it goes, the bearer token that goes with
/// it, if any, and its form.
#[derive(Debug, Clone)]
pub struct Request {
    pub uri: String,
    pub bearer: Option<String>,
    pub form: Vec<(String, String)>,
}

/// What is read of a response: its status, the address that answered, and its
/// `location` header.
#[derive(Debug, Clone)]
pub struct Response {
    pub status: u16,
    pub url: String,
    pub location: Option<http::header::HeaderValue>,
}

/// A status that reports a failure: a client error or a server error.
pub open spec fn is_error_status(status: u16) -> bool {
    400 <= status < 600
}

/// Turns a failure status into an error that carries the status and the
/// address; every other status passes.
pub fn check_status(status: u16, url: &str) -> (r: Result<(), Error>)
    ensures
        match r {
            Ok(_) => !is_error_status(status),
            Err(Error::Http { status: reported, url: at }) => is_error_status(status) && reported
                == status && at@ == url@,
            Err(_) => false,
        },
{
    if 400 <= status && status < 600 {
        Err(Error::Http { status, url: String::from_str(url) })
    } else {
        Ok(())
    }
}

} // verus!
