//! What holds of every call of the middleware, whatever the service gave and
//! whatever the tracker answered.
//!
//! In each statement `found` is what the reported error answers when it is
//! asked for its cause, `given` is what the service gave, and `reply` is the
//! tracker's answer.

use crate::call::{concluded, planned, Conclusion};
use crate::outcome::{is_server_error, Outcome};
use crate::report::{Failure, Report};
use vstd::prelude::*;

verus! {

/// A response whose status is no server error leads to no report, whatever is
/// attached to it, and the caller gets it as the service gave it.
pub proof fn success_is_silent<'a, V, T, N>(
    status: u16,
    attached: Option<Failure<'a, V>>,
    found: Option<&'a anyhow::Error>,
    given: T,
)
    requires
        !is_server_error(status),
    ensures
        planned(Outcome::of_response(status, attached), found) is None,
        concluded::<T, N>(given, None) == (Conclusion { returned: given, printed: None::<N> }),
{
}

/// A server-error response with no error attached leads to no report either:
/// there is nothing to classify.
pub proof fn bare_error_response_is_silent<'a, V>(status: u16, found: Option<&'a anyhow::Error>)
    requires
        is_server_error(status),
    ensures
        planned(Outcome::<Failure<'a, V>>::of_response(status, None), found) is None,
{
}

/// A server-error response with an error attached leads to one report, that
/// of the attached error, and the caller gets the response as the service
/// gave it, whatever the tracker answered.
pub proof fn error_response_is_reported<'a, V, T, N>(
    status: u16,
    failure: Failure<'a, V>,
    found: Option<&'a anyhow::Error>,
    given: T,
    reply: Result<(), N>,
)
    requires
        is_server_error(status),
    ensures
        planned(Outcome::of_response(status, Some(failure)), found) == Some(
            Report::classified(failure, found),
        ),
        concluded(given, Some(reply)).returned == given,
{
}

/// A failure of the service leads to one report, that of the failure, and the
/// caller gets the same failure, whatever the tracker answered.
pub proof fn propagated_failure_is_reported<'a, V, T, N>(
    failure: Failure<'a, V>,
    found: Option<&'a anyhow::Error>,
    given: T,
    reply: Result<(), N>,
)
    ensures
        planned(Outcome::PropagatedFailure(failure), found) == Some(
            Report::classified(failure, found),
        ),
        concluded(given, Some(reply)).returned == given,
{
}

/// Where the reported error shows a structured cause, the report goes the
/// structured way, with that cause.
pub proof fn cause_goes_the_structured_way<'a, V>(
    outcome: Outcome<Failure<'a, V>>,
    failure: Failure<'a, V>,
    cause: &'a anyhow::Error,
)
    requires
        outcome.reported() == Some(failure),
        failure.capable is Some,
    ensures
        planned(outcome, Some(cause)) == Some(Report::<'a, V>::Structured(cause)),
{
}

/// Where the reported error shows no structured cause, because it has none
/// or because it is of a foreign type, the report goes the plain way, with
/// the value that stands for the error.
pub proof fn no_cause_goes_the_plain_way<'a, V>(
    outcome: Outcome<Failure<'a, V>>,
    failure: Failure<'a, V>,
    found: Option<&'a anyhow::Error>,
)
    requires
        outcome.reported() == Some(failure),
        failure.capable is None || found is None,
    ensures
        planned(outcome, found) == Some(Report::Plain(failure.value)),
{
}

/// A tracker that fails does not fail the call: the caller gets what the
/// service gave, and the tracker's complaint is left to be printed.
pub proof fn tracker_failure_stays_inside<T, N>(given: T, complaint: N)
    ensures
        concluded(given, Some(Err(complaint))) == (Conclusion {
            returned: given,
            printed: Some(complaint),
        }),
{
}

/// The middleware turns no outcome into another: whether a report was sent
/// or not, and whatever came of it, the caller gets what the service gave.
pub proof fn outcome_passes_unchanged<T, N>(given: T, reply: Option<Result<(), N>>)
    ensures
        concluded(given, reply).returned == given,
{
}

} // verus!
