//! The decisions of an error-reporting middleware for an HTTP service.
//!
//! The middleware lets every request run to its end, reads what came of it,
//! and hands a failure to an error tracker: on the structured path where the
//! error shows a richer cause, on the plain path otherwise. Whatever the
//! tracker answers, the caller gets what the service gave.
//!
//! This crate holds the part that decides, verified with Verus. Waiting for
//! the service and for the tracker is the embedding application's part.
//!
//! - [`error`]: errors that may show a cause, and the one type that wraps
//!   them.
//! - [`report`]: which path an error takes.
//! - [`outcome`]: what came of a request, and which error of it is reported.
//! - [`call`]: one call, from the service's answer to its end.
//! - [`middleware`]: the shared handle to the tracker.
//! - [`guarantees`]: what holds of every call.
//! - [`outside`]: what is believed of code that was not verified here.

pub mod call;
pub mod error;
pub mod guarantees;
pub mod middleware;
pub mod outcome;
pub mod outside;
pub mod report;

pub use crate::error::{ErrbitError, Error};
pub use crate::middleware::{Errbit, ErrbitMiddleware};
