//! The shared handle to the error tracker, and the middleware around a
//! service.
//!
//! The handle is made once and never changed. Every middleware made from it,
//! and every call that a middleware serves, shares the one client behind it.

use crate::outside::share;
use std::rc::Rc;
use vstd::prelude::*;

verus! {

#[derive(Debug)]
struct Inner<N> {
    notifier: N,
}

/// The handle to the error tracker: made once, when the middleware is set up,
/// and shared by every service it is put around. `N` is the tracker's client.
#[derive(Debug)]
pub struct Errbit<N>(Rc<Inner<N>>);

impl<N> Errbit<N> {
    /// The client that this handle leads to.
    pub closed spec fn tracker(&self) -> N {
        self.0.notifier
    }

    /// Sets the middleware up from the attempt to make the tracker's client.
    ///
    /// A client that could not be made is a fault of the configuration: it
    /// comes back at once, as it is, and no handle is made.
    pub fn new<E>(made: Result<N, E>) -> (handle: Result<Self, E>)
        ensures
            made matches Ok(notifier) ==> handle matches Ok(errbit) && errbit.tracker()
                == notifier,
            made matches Err(fault) ==> handle matches Err(same) && same == fault,
    {
        match made {
            Ok(notifier) => Ok(Errbit(Rc::new(Inner { notifier }))),
            Err(fault) => Err(fault),
        }
    }

    /// The tracker's client.
    pub fn notifier(&self) -> (notifier: &N)
        ensures
            *notifier == self.tracker(),
    {
        &self.0.notifier
    }

    /// Puts the middleware around `service`. The middleware shares this
    /// handle's client; it gets no client of its own.
    pub fn new_transform<S>(&self, service: S) -> (middleware: ErrbitMiddleware<S, N>)
        ensures
            middleware.tracker() == self.tracker(),
            middleware.wrapped() == service,
    {
        ErrbitMiddleware { inner: share(&self.0), service }
    }
}

/// A service with the middleware around it.
pub struct ErrbitMiddleware<S, N> {
    inner: Rc<Inner<N>>,
    service: S,
}

impl<S, N> ErrbitMiddleware<S, N> {
    /// The client that reports go to.
    pub closed spec fn tracker(&self) -> N {
        self.inner.notifier
    }

    /// The service inside.
    pub closed spec fn wrapped(&self) -> S {
        self.service
    }

    /// The tracker's client, shared with the handle that made this
    /// middleware.
    pub fn notifier(&self) -> (notifier: &N)
        ensures
            *notifier == self.tracker(),
    {
        &self.inner.notifier
    }

    /// A handle for one call to keep while it waits. It leads to the same
    /// client.
    pub fn handle(&self) -> (handle: Errbit<N>)
        ensures
            handle.tracker() == self.tracker(),
    {
        Errbit(share(&self.inner))
    }

    /// The service inside, to hand the request to.
    pub fn service(&self) -> (service: &S)
        ensures
            *service == self.wrapped(),
    {
        &self.service
    }
}

} // verus!
