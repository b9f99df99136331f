//! The duty to settle a request, which can be met only once.

use crate::ids::IoId;
use crate::io::handle::Handle;
use crate::rpc::error::Outcome;
use crate::rpc::guard::{cell_made_full, may_offer, Canceller, RequestGuardInner};
use std::sync::Arc;
use vstd::prelude::*;

verus! {

/// The duty to settle a request.
///
/// A promise is the only hold that a server has on the guard of a request. It is used up when an
/// outcome is offered to the request, so that a server that keeps a promise offers that outcome and
/// no other.
#[derive(Debug)]
pub struct Promise {
    /// The state shared with the guard of the request.
    inner: Arc<RequestGuardInner>,
    /// Whether the promise was made together with its guard, and never given up since.
    untouched: bool,
}

/// An outcome that a request is owed.
#[derive(Debug)]
pub struct Owed {
    /// The duty to settle the request.
    pub promise: Promise,
    /// The outcome to settle it with.
    pub outcome: Outcome,
}

impl Promise {
    /// The state shared with the guard of the request.
    pub closed spec fn guard(self) -> Arc<RequestGuardInner> {
        self.inner
    }

    /// Whether the promise was made together with its guard, and never given up since.
    pub closed spec fn untouched(self) -> bool {
        self.untouched
    }

    /// The promise that is made together with a guard.
    pub closed spec fn fresh(guard: Arc<RequestGuardInner>) -> Promise {
        Promise { inner: guard, untouched: true }
    }

    /// A promise that is made of a guard later.
    pub closed spec fn remade(guard: Arc<RequestGuardInner>) -> Promise {
        Promise { inner: guard, untouched: false }
    }

    /// Whether the promise has been used up for the given outcome.
    pub closed spec fn kept(self, outcome: Outcome) -> bool {
        self.inner.informed(outcome)
    }

    /// Whether the request was found to have its outcome while the promise was still to be kept.
    pub closed spec fn settled_elsewhere(self) -> bool {
        self.inner.resolved()
    }

    /// Makes a promise together with the state to be shared with the guard of the request.
    pub fn new(handle: Handle, io_id: IoId) -> (res: (Arc<RequestGuardInner>, Promise))
        ensures
            res.0.awaiting(),
            res.0.canceller == Some(Canceller { handle, io_id }),
            res.1 == Promise::fresh(res.0),
            res.1.guard() == res.0,
            res.1.untouched(),
    {
        let inner = Arc::new(RequestGuardInner::for_request(handle, io_id));
        let promise = Promise { inner: inner.clone(), untouched: true };
        (inner, promise)
    }

    /// Makes a promise of a guard that has been around.
    pub fn remake(guard: Arc<RequestGuardInner>) -> (promise: Promise)
        ensures
            promise == Promise::remade(guard),
            promise.guard() == guard,
            !promise.untouched(),
        opens_invariants none
    {
        Promise { inner: guard, untouched: false }
    }

    /// Keeps the promise: offers the outcome to the request.
    ///
    /// Returns whether the request had no outcome before.
    pub fn keep(self, outcome: Outcome) -> (first: bool)
        ensures
            self.kept(outcome),
            self.guard().informed(outcome),
            if first {
                &&& !cell_made_full(self.guard().outcome)
                &&& self.guard().resolution() == Some(outcome)
                &&& self.guard().notified()
            } else {
                self.guard().contested()
            },
        opens_invariants may_offer(self.guard().outcome, outcome)
    {
        self.inner.set_and_notify(outcome)
    }

    /// Gives the promise up. Returns the state shared with the guard of the request.
    pub fn give_up(self) -> (guard: Arc<RequestGuardInner>)
        ensures
            guard == self.guard(),
        opens_invariants none
    {
        self.inner
    }

    /// Returns whether the request has an outcome by now.
    pub fn is_resolved(&self) -> (res: bool)
        ensures
            if res {
                self.settled_elsewhere() && self.guard().resolved()
            } else {
                !cell_made_full(self.guard().outcome)
            },
        opens_invariants none
    {
        self.inner.is_resolved()
    }
}

/// A request whose promise is kept is informed of the outcome.
pub proof fn kept_promises_inform(promise: Promise, outcome: Outcome)
    requires
        promise.kept(outcome),
    ensures
        promise.guard().informed(outcome),
{
}

/// A request that was found to have its outcome has one.
pub proof fn settled_requests_have_an_outcome(promise: Promise)
    requires
        promise.settled_elsewhere(),
    ensures
        promise.guard().resolved(),
{
}

/// A promise is the promise of the guard that it was made of, be it together with it or later.
pub proof fn promises_belong_to_their_guard(guard: Arc<RequestGuardInner>)
    ensures
        Promise::fresh(guard).guard() == guard,
        Promise::fresh(guard).untouched(),
        Promise::remade(guard).guard() == guard,
        !Promise::remade(guard).untouched(),
{
}

} // verus!
