//! What the services have in common when a request fails: the kinds of
//! failure, and the answer that the caller gets to see.

use vstd::prelude::*;

verus! {

/// Status of an answer to a malformed request.
pub const BAD_REQUEST: u16 = 400;

/// Status of an answer that names something that does not exist.
pub const NOT_FOUND: u16 = 404;

/// Status of an answer to a request that failed inside the service.
pub const INTERNAL_SERVER_ERROR: u16 = 500;

/// Status of an answer to a request that failed at a peer service.
pub const BAD_GATEWAY: u16 = 502;

/// The kinds of failure of a request.
#[derive(Debug, Clone, Copy, PartialEq, Eq, Structural)]
pub enum ErrorKind {
    /// A store or a peer service could not be reached.
    UpstreamUnavailable,
    /// A peer service answered with a status that is neither success nor "not found".
    UpstreamBadStatus,
    /// A profile, a product or a source vector does not exist.
    NotFound,
    /// The request is malformed.
    BadRequest,
    /// Data did not have the expected shape.
    DataFormatError,
    /// The service itself is at fault.
    Internal,
}

/// What the caller gets to see of a failure: a status and a message that
/// holds no internal error text.
#[derive(Debug)]
pub struct ErrorResponse {
    pub status: u16,
    pub message: String,
}

/// An answer with a fixed message.
pub fn fixed_response(status: u16, message: &str) -> (response: ErrorResponse)
    ensures
        response.status == status,
        response.message@ == message@,
{
    ErrorResponse { status, message: String::from_str(message) }
}

} // verus!
