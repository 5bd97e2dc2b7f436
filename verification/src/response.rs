//! Answers to requests.

use vstd::prelude::*;
use crate::payload::Record;

verus! {

/// The statuses the store's endpoints answer with.
#[derive(Clone, Copy, Debug, PartialEq, Eq, Structural)]
pub enum StatusCode {
    /// The request was carried out.
    Success,
    /// The request is malformed.
    BadRequest,
    /// No such collection, or no record at that position.
    NotFound,
}

impl StatusCode {
    /// The number of this status on the wire.
    pub fn code(&self) -> (code: u16)
        ensures
            code == match *self {
                StatusCode::Success => 200u16,
                StatusCode::BadRequest => 400u16,
                StatusCode::NotFound => 404u16,
            },
    {
        match self {
            StatusCode::Success => 200,
            StatusCode::BadRequest => 400,
            StatusCode::NotFound => 404,
        }
    }
}

/// The answer to one request: a status and, where there is one, a record as
/// the JSON body.
#[derive(Debug, PartialEq)]
pub struct Response {
    pub status: StatusCode,
    pub body: Option<Record>,
}

impl Response {
    /// The content type of this answer's body: JSON bodies are
    /// `application/json`, and an answer without a body has none.
    pub fn content_type(&self) -> (mime: Option<&'static str>)
        ensures
            mime is Some <==> self.body is Some,
            mime matches Some(name) ==> name@ == "application/json"@,
    {
        match self.body {
            Some(_) => Some("application/json"),
            None => None,
        }
    }
}

} // verus!
