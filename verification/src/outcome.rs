//! What came of a request, and what the middleware does about it.

use crate::outside::server_error_class;
use vstd::prelude::*;

verus! {

/// Whether an HTTP status stands for a server error: one of 500 to 599.
pub open spec fn is_server_error(status: u16) -> bool {
    500 <= status <= 599
}

/// Tells whether `status` stands for a server error. A number that is no
/// HTTP status at all does not.
pub fn server_error(status: u16) -> (failing: bool)
    ensures
        failing == is_server_error(status),
{
    match server_error_class(status) {
        Some(failing) => failing,
        None => false,
    }
}

/// What the wrapped service made of one request. `F` is the error value as
/// the embedding framework holds it.
pub enum Outcome<F> {
    /// A response whose status is no server error. An error attached to such
    /// a response is none of the middleware's business.
    Success,
    /// A response with a server-error status, and the error attached to it,
    /// if there is one.
    ErrorResponse(Option<F>),
    /// No response: the service failed, and the failure travels up the chain.
    PropagatedFailure(F),
}

impl<F> Outcome<F> {
    /// The outcome that a response with this status and this attached error
    /// stands for.
    pub open spec fn of_response(status: u16, attached: Option<F>) -> Self {
        if is_server_error(status) {
            Outcome::ErrorResponse(attached)
        } else {
            Outcome::Success
        }
    }

    /// Reads a response: its status and the error attached to it.
    pub fn responded(status: u16, attached: Option<F>) -> (outcome: Self)
        ensures
            outcome == Self::of_response(status, attached),
    {
        if server_error(status) {
            Outcome::ErrorResponse(attached)
        } else {
            Outcome::Success
        }
    }

    /// The error that goes to the tracker, if any does: the one attached to
    /// a server-error response, or the failure that travels up.
    pub open spec fn reported(self) -> Option<F> {
        match self {
            Outcome::Success => None,
            Outcome::ErrorResponse(attached) => attached,
            Outcome::PropagatedFailure(error) => Some(error),
        }
    }

    /// Picks the error to report. The answer holds one error or none, so a
    /// request leads to one notification at most.
    pub fn dispatch(self) -> (error: Option<F>)
        ensures
            error == self.reported(),
    {
        match self {
            Outcome::Success => None,
            Outcome::ErrorResponse(attached) => attached,
            Outcome::PropagatedFailure(error) => Some(error),
        }
    }
}

} // verus!
