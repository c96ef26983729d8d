//! Which path of the error tracker an error takes.

use crate::error::Error;
use vstd::prelude::*;

verus! {

/// An error of unknown shape, as the middleware meets it.
pub struct Failure<'a, V> {
    /// What the plain path would hand to the tracker: the error value
    /// itself, or its display text.
    pub value: V,
    /// The error seen as an [`Error`], where it is one.
    pub capable: Option<&'a Error>,
}

/// An error as the tracker gets it.
///
/// `V` is what the plain path hands over: the error value itself, or its
/// display text. The structured path hands over the cause alone.
pub enum Report<'a, V> {
    /// No richer cause is at hand: the value is reported as it is.
    Plain(V),
    /// The error shows a structured cause, which is reported in its place.
    Structured(&'a anyhow::Error),
}

impl<'a, V> Report<'a, V> {
    /// The report for an error, given both answers of the lookup.
    ///
    /// `lookup` is `None` for an error that is no [`Error`], `Some(None)` for
    /// an [`Error`] that shows no cause, and `Some(Some(cause))` for one that
    /// shows `cause`. Only the last goes the structured way.
    pub open spec fn selected(value: V, lookup: Option<Option<&'a anyhow::Error>>) -> Self {
        match lookup {
            Some(Some(cause)) => Report::Structured(cause),
            _ => Report::Plain(value),
        }
    }

    /// Makes the report for an error from both answers of the lookup.
    pub fn select(value: V, lookup: Option<Option<&'a anyhow::Error>>) -> (report: Self)
        ensures
            report == Self::selected(value, lookup),
    {
        match lookup {
            Some(Some(cause)) => Report::Structured(cause),
            Some(None) => Report::Plain(value),
            None => Report::Plain(value),
        }
    }

    /// The report for `failure`, where `found` is what the error answers
    /// when it is asked for its cause. An error that is no [`Error`] is not
    /// asked.
    pub open spec fn classified(failure: Failure<'a, V>, found: Option<&'a anyhow::Error>) -> Self {
        match failure.capable {
            Some(_) => Self::selected(failure.value, Some(found)),
            None => Self::selected(failure.value, None),
        }
    }

    /// Whether `found` is what the error of `failure` answers when it is
    /// asked for its cause. An error that is no [`Error`] is not asked, and
    /// any `found` will do for it.
    pub open spec fn answered(failure: Failure<'a, V>, found: Option<&'a anyhow::Error>) -> bool {
        failure.capable matches Some(error) ==> error.answers(found)
    }

    /// Classifies an error of unknown shape: an [`Error`] is asked for its
    /// cause, and [`Report::select`] makes the report from the answer. No
    /// error is left without a report.
    pub fn classify(failure: Failure<'a, V>) -> (report: Self)
        ensures
            exists|found: Option<&'a anyhow::Error>|
                Self::answered(failure, found) && report == Self::classified(failure, found),
            failure.capable is None ==> report == Report::Plain(failure.value),
    {
        let lookup = match failure.capable {
            Some(error) => Some(error.as_anyhow_error()),
            None => None,
        };
        let report = Self::select(failure.value, lookup);
        proof {
            let found = match lookup {
                Some(found) => found,
                None => None,
            };
            assert(Self::answered(failure, found) && report == Self::classified(failure, found));
        }
        report
    }
}

} // verus!
