//! Failures that end a command, and the check of an HTTP answer's status.
use vstd::prelude::*;

verus! {

/// Why a command failed.
#[derive(Debug, Clone, PartialEq, Eq)]
pub enum ApiError {
    /// A required argument or file is missing.
    Usage(String),
    /// A local file could not be read or written.
    Io(String),
    /// The service answered with a status outside 200..=299.
    Http { status: u16, body: String },
    /// An answer was not well-formed JSON, or held malformed base64.
    Decode(String),
}

pub open spec fn is_success(status: u16) -> bool {
    200 <= status && status <= 299
}

/// Passes the body of a successful answer on; any other status becomes
/// an `Http` error that carries the status and the body.
pub fn check_status(status: u16, body: String) -> (r: Result<String, ApiError>)
    ensures
        is_success(status) ==> (r matches Ok(b) && b@ == body@),
        !is_success(status) ==> (r matches Err(ApiError::Http { status: s, body: b }) && s == status
            && b@ == body@),
{
    if 200 <= status && status <= 299 {
        Ok(body)
    } else {
        Err(ApiError::Http { status, body })
    }
}

} // verus!
