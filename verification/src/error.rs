//! The ways a request can be refused.

use vstd::prelude::*;
use crate::response::StatusCode;

verus! {

/// Why the store or a handler turned a request down.
///
/// A lookup that finds nothing is no error: it is reported as an absent
/// value.
#[derive(Clone, Copy, Debug, PartialEq, Eq, Structural)]
pub enum Error {
    /// The payload offered for insertion is not a JSON object.
    InvalidPayload,
    /// The identifier in a fetch is not a non-negative decimal integer.
    InvalidIdentifier,
}

impl Error {
    /// The status a request refused for this reason is answered with. Both
    /// reasons are the client's fault.
    pub fn status(&self) -> (status: StatusCode)
        ensures
            status == StatusCode::BadRequest,
    {
        StatusCode::BadRequest
    }
}

} // verus!
