//! One call of the middleware, in its two decisions: what to report once
//! the service has answered, and how to end once the tracker has.
//!
//! Between the two the report is sent and its answer awaited. A call that
//! reports does not end before the tracker has answered, and it ends the
//! same way whatever the answer is.

use crate::outcome::Outcome;
use crate::report::{Failure, Report};
use vstd::prelude::*;

verus! {

/// The report that an outcome calls for, where `found` is what the reported
/// error answers when it is asked for its cause.
pub open spec fn planned<'a, V>(
    outcome: Outcome<Failure<'a, V>>,
    found: Option<&'a anyhow::Error>,
) -> Option<Report<'a, V>> {
    match outcome.reported() {
        Some(failure) => Some(Report::classified(failure, found)),
        None => None,
    }
}

/// Whether `found` is what the reported error of `outcome` answers when it is
/// asked for its cause. Where no error is reported, none is asked.
pub open spec fn asked<'a, V>(
    outcome: Outcome<Failure<'a, V>>,
    found: Option<&'a anyhow::Error>,
) -> bool {
    outcome.reported() matches Some(failure) ==> Report::answered(failure, found)
}

/// Decides what goes to the tracker, now that the service has answered:
/// the report of one error, or nothing.
///
/// Only the error that is reported is asked for its cause.
pub fn plan<'a, V>(outcome: Outcome<Failure<'a, V>>) -> (report: Option<Report<'a, V>>)
    ensures
        report is Some <==> outcome.reported() is Some,
        exists|found: Option<&'a anyhow::Error>|
            asked(outcome, found) && report == planned(outcome, found),
{
    match outcome.dispatch() {
        Some(failure) => {
            let report = Report::classify(failure);
            proof {
                let found = choose|found: Option<&'a anyhow::Error>|
                    Report::answered(failure, found) && report == Report::classified(
                        failure,
                        found,
                    );
                assert(asked(outcome, found) && Some(report) == planned(outcome, found));
            }
            Some(report)
        },
        None => {
            proof {
                assert(asked(outcome, None) && None::<Report<'a, V>> == planned(outcome, None));
            }
            None
        },
    }
}

/// How one call of the middleware ends.
pub struct Conclusion<T, N> {
    /// What the caller gets.
    pub returned: T,
    /// The tracker's complaint, to be printed and forgotten.
    pub printed: Option<N>,
}

/// The end of a call, given what the service gave and what the tracker
/// answered, where it was asked at all: the caller gets what the service gave,
/// and a failure of the tracker ends as a printed line.
pub open spec fn concluded<T, N>(given: T, reply: Option<Result<(), N>>) -> Conclusion<T, N> {
    Conclusion {
        returned: given,
        printed: match reply {
            Some(Err(complaint)) => Some(complaint),
            _ => None,
        },
    }
}

/// Ends a call. `given` is what the service gave, a response or a failure;
/// `reply` is the tracker's answer, or `None` where nothing was reported.
pub fn conclude<T, N>(given: T, reply: Option<Result<(), N>>) -> (end: Conclusion<T, N>)
    ensures
        end == concluded(given, reply),
{
    let printed = match reply {
        Some(Err(complaint)) => Some(complaint),
        Some(Ok(_)) => None,
        None => None,
    };
    Conclusion { returned: given, printed }
}

} // verus!
