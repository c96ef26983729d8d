//! Errors that can show a richer cause.

use vstd::prelude::*;

verus! {

/// An error that may carry a structured cause worth reporting in place of its
/// own text.
///
/// Applications implement this for the errors they raise. What `as_anyhow`
/// answers is up to them, so nothing is claimed of it here.
pub trait ErrbitError {
    /// The structured cause, where this error has one.
    fn as_anyhow(&self) -> Option<&anyhow::Error>;
}

/// Any [`ErrbitError`], with its concrete type put away.
///
/// The middleware recognises errors of this one type; an error of any other
/// type is foreign to it and is reported by its text alone.
pub struct Error {
    cause: Box<dyn ErrbitError>,
}

impl Error {
    /// Whether `found` is an answer that the wrapped error gives when it is
    /// asked for its cause.
    pub closed spec fn answers(&self, found: Option<&anyhow::Error>) -> bool {
        answer_of::<dyn ErrbitError>(&*self.cause, found)
    }

    /// Asks the wrapped error for its structured cause, and gives back what
    /// it answers: nothing is added, dropped or put in its place.
    ///
    /// See [`Report::select`] for what is made of the answer.
    ///
    /// [`Report::select`]: crate::report::Report::select
    pub fn as_anyhow_error(&self) -> (found: Option<&anyhow::Error>)
        ensures
            self.answers(found),
    {
        ask::<dyn ErrbitError>(&*self.cause)
    }
}

/// Whether `found` is an answer that `cause` gives to `as_anyhow`. Where the
/// implementation states what it answers, that holds of `found`.
pub open spec fn answer_of<T: ErrbitError + ?Sized>(
    cause: &T,
    found: Option<&anyhow::Error>,
) -> bool {
    call_ensures(T::as_anyhow, (cause,), found)
}

/// Asks `cause` for its structured cause.
fn ask<T: ErrbitError + ?Sized>(cause: &T) -> (found: Option<&anyhow::Error>)
    ensures
        answer_of::<T>(cause, found),
{
    cause.as_anyhow()
}

impl<T: ErrbitError + 'static> From<T> for Error {
    /// Wraps `err`: the [`Error`] owns the value given, boxed, and nothing
    /// else.
    fn from(err: T) -> (wrapped: Error) {
        Error { cause: Box::new(err) }
    }
}

/// What the conversion gives: the [`Error`] that holds the boxed argument.
///
/// This says which value is inside. It does not say that the [`Error`]
/// answers as the value does: Verus carries no such link from a value to
/// the trait object made of it.
impl<T: ErrbitError + 'static> vstd::std_specs::convert::FromSpecImpl<T> for Error {
    open spec fn obeys_from_spec() -> bool {
        true
    }

    closed spec fn from_spec(err: T) -> Error {
        Error { cause: Box::new(err) }
    }
}

} // verus!
