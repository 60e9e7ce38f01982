//! The status a handler answers with.

use vstd::prelude::*;

verus! {

/// The outcome of a request, as the handler that served it reports it.
#[derive(Clone, Copy, Debug, PartialEq, Eq, Structural)]
pub enum Status {
    /// The request was served.
    Success,
    /// The order was stored.
    Created,
    /// The request body was not an order; nothing was stored.
    BadRequest,
}

impl Status {
    /// The HTTP status code that stands for this outcome.
    pub open spec fn spec_code(self) -> u16 {
        match self {
            Status::Success => 200,
            Status::Created => 201,
            Status::BadRequest => 400,
        }
    }

    /// The HTTP status code that stands for this outcome: 200 for a served
    /// request, 201 for a stored order, 400 for a rejected body.
    pub fn code(&self) -> (code: u16)
        ensures
            code == self.spec_code(),
    {
        match self {
            Status::Success => 200,
            Status::Created => 201,
            Status::BadRequest => 400,
        }
    }
}

} // verus!
