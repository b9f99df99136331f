//! The shared place in which the outcome of a request arrives.

use crate::ids::IoId;
use crate::io::handle::Handle;
use crate::io::item::QueuedItem;
use crate::rpc::error::{clone_outcome, same_outcome, Outcome, RequestError};
use once_cell::sync::OnceCell;
use std::sync::Arc;
use tokio::sync::Notify;
use vstd::multiset::Multiset;
use vstd::prelude::*;

verus! {

/// A cell of `once_cell` that is written at most once, whose inside stays hidden.
#[verifier::external_type_specification]
#[verifier::external_body]
#[verifier::reject_recursive_types(T)]
pub struct ExOnceCell<T>(OnceCell<T>);

/// A notifier of `tokio`, whose inside stays hidden.
#[verifier::external_type_specification]
#[verifier::external_body]
pub struct ExNotify(Notify);

/// The value that a cell takes: the first one that is written to it, at whatever time that
/// happens, and which it then keeps. `None` if the cell is never written.
pub uninterp spec fn cell_value(cell: OnceCell<Outcome>) -> Option<Outcome>;

/// Whether a cell was made with its value already in it.
pub uninterp spec fn cell_made_full(cell: OnceCell<Outcome>) -> bool;

/// All values that are offered to a cell after it was made, accepted or not, each as often as it is
/// offered.
pub uninterp spec fn cell_offers(cell: OnceCell<Outcome>) -> Multiset<Outcome>;

/// A name for offering a value to a cell. Names of different values or cells are not known to be the
/// same.
pub closed spec fn offer_name(cell: OnceCell<Outcome>, value: Outcome) -> int {
    arbitrary::<spec_fn(OnceCell<Outcome>, Outcome) -> int>()(cell, value)
}

/// What a function may do that offers nothing but the given value, and to no cell but the given one.
///
/// Offering a value through a shared reference leaves no trace that a contract could speak of. It
/// counts as opening an invariant of its own instead, so that what a function may offer is limited
/// by the invariants that it may open.
pub open spec fn may_offer(cell: OnceCell<Outcome>, value: Outcome) -> Set<int> {
    Set::empty().insert(offer_name(cell, value))
}

/// `OnceCell::new`: an empty cell. Nothing is said of the value that it takes later.
#[verifier::external_body]
fn cell_new() -> (cell: OnceCell<Outcome>)
    ensures
        !cell_made_full(cell),
    opens_invariants none
{
    OnceCell::new()
}

/// `OnceCell::with_value`: a cell that already has its value.
#[verifier::external_body]
fn cell_with_value(value: Outcome) -> (cell: OnceCell<Outcome>)
    ensures
        cell_made_full(cell),
        cell_value(cell) == Some(value),
    opens_invariants none
{
    OnceCell::with_value(value)
}

/// `OnceCell::set`: offers a value to the cell. An empty cell takes it and keeps it for good, a
/// full cell hands it back. The cell is full either way, and unless it was made with its value, the
/// value is one that was offered to it. A refused offer is then not the only one.
#[verifier::external_body]
fn cell_set(cell: &OnceCell<Outcome>, value: Outcome) -> (res: Result<(), Outcome>)
    ensures
        match res {
            Ok(()) => {
                &&& !cell_made_full(*cell)
                &&& cell_value(*cell) == Some(value)
                &&& cell_offers(*cell).contains(value)
            },
            Err(refused) => {
                &&& refused == value
                &&& cell_value(*cell) is Some
                &&& cell_offers(*cell).contains(value)
                &&& cell_made_full(*cell) || cell_offers(*cell).contains(cell_value(*cell)->0)
                &&& cell_made_full(*cell) || cell_offers(*cell).len() >= 2
            },
        },
    opens_invariants [offer_name(*cell, value)]
{
    cell.set(value)
}

/// `OnceCell::get`: the value of the cell, if it has been written by now. A cell that was made
/// with a value always has one, any other has one that was offered to it.
#[verifier::external_body]
fn cell_get(cell: &OnceCell<Outcome>) -> (res: Option<&Outcome>)
    ensures
        match res {
            Some(value) => {
                &&& cell_value(*cell) == Some(*value)
                &&& cell_made_full(*cell) || cell_offers(*cell).contains(*value)
            },
            None => !cell_made_full(*cell),
        },
    opens_invariants none
{
    cell.get()
}

/// `Notify::new`: a notifier that has not been notified.
pub assume_specification[ Notify::new ]() -> Notify
    opens_invariants none
;

/// Whether a notifier is notified at some time, so that a task that waits for it is woken or passes.
pub uninterp spec fn notifier_notified(notify: Notify) -> bool;

/// `Notify::notify_one`: wakes one waiting task, or lets the next one that waits pass. Hands back
/// the notifier, which has been notified by then. How often it is notified is left unsaid.
#[verifier::external_body]
fn notifier_notify(notify: &Notify) -> (res: &Notify)
    ensures
        *res == *notify && notifier_notified(*res),
    opens_invariants none
{
    notify.notify_one();
    notify
}

/// How a request can be cancelled that has left, or is about to leave.
#[derive(Debug)]
pub struct Canceller {
    /// The handle to hand the cancellation over by.
    pub handle: Handle,
    /// The request.
    pub io_id: IoId,
}

impl Canceller {
    /// Whether a cancellation is handed over for sending, provided that the connection is open.
    pub open spec fn sent(self) -> bool {
        ||| self.handle.enqueues(QueuedItem::RequestCancellation { io_id: self.io_id })
        ||| self.handle.closes()
    }

    /// Hands a cancellation over for sending. If the connection has been closed, it is discarded.
    pub fn send(&self)
        ensures
            self.sent(),
        opens_invariants self.handle.may_enqueue(
            QueuedItem::RequestCancellation { io_id: self.io_id },
        )
    {
        let _ = self.handle.enqueue_request_cancellation(self.io_id);
    }
}

/// The state that a request guard shares with the server.
#[derive(Debug)]
pub struct RequestGuardInner {
    /// The returned response of the request.
    pub outcome: OnceCell<Outcome>,
    /// A notifier for when the result arrives.
    pub ready: Option<Notify>,
    /// How the request can be cancelled, if it was made.
    pub canceller: Option<Canceller>,
}

impl RequestGuardInner {
    /// The outcome that the request has in the end, however it comes about.
    pub open spec fn resolution(self) -> Option<Outcome> {
        cell_value(self.outcome)
    }

    /// Whether the state was made without an outcome, for one to be waited for.
    pub open spec fn awaiting(self) -> bool {
        &&& !cell_made_full(self.outcome)
        &&& self.ready is Some
    }

    /// Whether an outcome was offered to the request after it was made.
    pub open spec fn offered(self, value: Outcome) -> bool {
        cell_offers(self.outcome).contains(value)
    }

    /// Whether more than one outcome is up for the request: it was made with one, or is offered
    /// outcomes more than once.
    pub open spec fn contested(self) -> bool {
        cell_made_full(self.outcome) || cell_offers(self.outcome).len() >= 2
    }

    /// Whether the request has an outcome that it was made with or offered.
    pub open spec fn resolved(self) -> bool {
        &&& self.resolution() is Some
        &&& cell_made_full(self.outcome) || self.offered(self.resolution()->0)
    }

    /// Whether the request was offered the given outcome, and has that one or another that it was
    /// made with or offered. Whoever waits for it is notified, unless that was up to another offer.
    pub open spec fn informed(self, value: Outcome) -> bool {
        &&& self.resolved()
        &&& self.offered(value)
        &&& self.notified() || self.contested()
    }

    /// Whether the request is informed that it was cancelled. The peer learns of it as well, if the
    /// request was made, unless another outcome was up for the request.
    pub open spec fn cancelled(self) -> bool {
        &&& self.informed(Err(RequestError::Cancelled))
        &&& self.withdrawn() || self.contested()
    }

    /// Whether a cancellation of the request is handed over for sending, if the request was made.
    pub open spec fn withdrawn(self) -> bool {
        self.canceller matches Some(canceller) ==> canceller.sent()
    }

    /// Whether whoever waits for the outcome is notified, if it can be waited for.
    pub open spec fn notified(self) -> bool {
        self.ready matches Some(ready) ==> notifier_notified(ready)
    }

    /// Creates a new state that waits for an outcome.
    pub fn new() -> (inner: Self)
        ensures
            inner.awaiting(),
            inner.canceller is None,
        opens_invariants none
    {
        RequestGuardInner { outcome: cell_new(), ready: Some(Notify::new()), canceller: None }
    }

    /// Creates a new state that waits for the outcome of the given request.
    pub fn for_request(handle: Handle, io_id: IoId) -> (inner: Self)
        ensures
            inner.awaiting(),
            inner.canceller == Some(Canceller { handle, io_id }),
        opens_invariants none
    {
        RequestGuardInner {
            outcome: cell_new(),
            ready: Some(Notify::new()),
            canceller: Some(Canceller { handle, io_id }),
        }
    }

    /// Returns whether there is an outcome by now.
    pub fn is_resolved(&self) -> (res: bool)
        ensures
            if res {
                self.resolved()
            } else {
                !cell_made_full(self.outcome)
            },
        opens_invariants none
    {
        match cell_get(&self.outcome) {
            Some(_) => true,
            None => false,
        }
    }

    /// Sets the outcome and notifies whoever waits for it, unless the outcome had been set before.
    ///
    /// Returns whether the outcome was set by this call.
    pub fn set_and_notify(&self, value: Outcome) -> (first: bool)
        ensures
            self.informed(value),
            if first {
                &&& !cell_made_full(self.outcome)
                &&& self.resolution() == Some(value)
                &&& self.notified()
            } else {
                self.contested()
            },
        opens_invariants may_offer(self.outcome, value)
    {
        let set = cell_set(&self.outcome, value);
        self.notify_first(set)
    }

    /// Notifies whoever waits for the outcome, given what came of the attempt to set it.
    ///
    /// Returns whether it was set.
    pub fn notify_first(&self, set: Result<(), Outcome>) -> (first: bool)
        ensures
            first == (set is Ok),
            set is Ok ==> self.notified(),
        opens_invariants none
    {
        match set {
            Ok(()) => {
                // If this is the first time the outcome is changed, notify exactly once.
                if let Some(ready) = &self.ready {
                    notifier_notify(ready);
                }
                true
            },
            Err(_) => false,
        }
    }

    /// What a function may do that hands over nothing but a cancellation of the request, and only if
    /// the request was given up in time.
    pub open spec fn may_withdraw(self, first: bool) -> Set<int> {
        match self.canceller {
            Some(canceller) if first => canceller.handle.may_enqueue(
                QueuedItem::RequestCancellation { io_id: canceller.io_id },
            ),
            _ => Set::empty(),
        }
    }

    /// Hands a cancellation of the request over for sending, provided that it was given up before
    /// it had an outcome.
    pub fn withdraw(&self, first: bool)
        ensures
            first ==> self.withdrawn(),
        opens_invariants self.may_withdraw(first)
    {
        if first {
            if let Some(canceller) = &self.canceller {
                canceller.send();
            }
        }
    }
}

/// An outcome on its way to a request.
#[derive(Debug)]
pub struct Notice {
    /// The request.
    pub guard: Arc<RequestGuardInner>,
    /// Its outcome.
    pub outcome: Outcome,
}

impl Notice {
    /// Whether the request is informed of the outcome.
    pub open spec fn delivered(self) -> bool {
        self.guard.informed(self.outcome)
    }

    /// Informs the request of the outcome, unless it has one already.
    ///
    /// Returns whether the request had none.
    pub fn deliver(self) -> (first: bool)
        ensures
            self.delivered(),
            if first {
                &&& !cell_made_full(self.guard.outcome)
                &&& self.guard.resolution() == Some(self.outcome)
                &&& self.guard.notified()
            } else {
                self.guard.contested()
            },
        opens_invariants may_offer(self.guard.outcome, self.outcome)
    {
        self.guard.set_and_notify(self.outcome)
    }
}

/// Handle to an in-flight outgoing request.
///
/// The existence of a [`RequestGuard`] indicates that a request has been made or is ongoing. It
/// can also be used to attempt to [`cancel`](RequestGuard::cancel) the request, or retrieve its
/// values using [`try_get_response`](RequestGuard::try_get_response). Letting go of it without
/// cancelling is the same as to [`forget`](RequestGuard::forget) the request.
#[derive(Debug)]
#[must_use]
pub struct RequestGuard {
    /// Shared reference to outcome data.
    pub inner: Arc<RequestGuardInner>,
}

impl RequestGuard {
    /// Whether the guard is resolved to an error from the start.
    pub open spec fn failed_with(self, error: RequestError) -> bool {
        &&& cell_made_full(self.inner.outcome)
        &&& self.inner.resolution() == Some(Outcome::Err(error))
        &&& self.inner.ready is None
        &&& self.inner.canceller is None
    }

    /// Creates a new request guard with no shared data that is already resolved to an error.
    pub fn new_error(error: RequestError) -> (guard: Self)
        ensures
            guard.failed_with(error),
    {
        RequestGuard {
            inner: Arc::new(
                RequestGuardInner {
                    outcome: cell_with_value(Err(error)),
                    ready: None,
                    canceller: None,
                },
            ),
        }
    }

    /// What a function may do that does nothing but cancel the request.
    pub open spec fn may_cancel(self) -> Set<int> {
        may_offer(self.inner.outcome, Err(RequestError::Cancelled)).union(
            self.inner.may_withdraw(true),
        )
    }

    /// Cancels the request.
    ///
    /// May cause the request to not be sent if it is still in the queue, or a cancellation to be
    /// sent if it already left the local machine. A request that has its outcome is left alone.
    pub fn cancel(self)
        ensures
            self.inner.cancelled(),
        opens_invariants self.may_cancel()
    {
        let mut guard = self;
        guard.do_cancel();

        guard.forget()
    }

    /// Cancels the request, unless it has its outcome.
    pub fn do_cancel(&mut self)
        ensures
            *final(self) == *old(self),
            old(self).inner.cancelled(),
        opens_invariants old(self).may_cancel()
    {
        let first = self.inner.set_and_notify(Err(RequestError::Cancelled));
        self.inner.withdraw(first);
    }

    /// Forgets the request was made.
    ///
    /// Similar to [`cancel`](Self::cancel), except that it will not cause an actual cancellation,
    /// so the peer will likely perform all the work. The response will be discarded.
    pub fn forget(self)
        opens_invariants none
    {
    }

    /// Waits for the response, non-blockingly.
    ///
    /// Returns `Err(self)` if the peer was not ready yet.
    pub fn try_get_response(self) -> (res: Result<Outcome, Self>)
        ensures
            match res {
                Ok(outcome) => self.inner.resolved() && same_outcome(
                    outcome,
                    self.inner.resolution()->0,
                ),
                Err(guard) => guard == self && !cell_made_full(self.inner.outcome),
            },
    {
        let outcome = self.take_inner();
        self.response_or_self(outcome)
    }

    /// Hands on the outcome found in the shared state, or the guard if none was found.
    pub fn response_or_self(self, outcome: Option<Outcome>) -> (res: Result<Outcome, Self>)
        ensures
            res == match outcome {
                Some(outcome) => Ok::<Outcome, Self>(outcome),
                None => Err::<Outcome, Self>(self),
            },
        opens_invariants none
    {
        match outcome {
            Some(outcome) => Ok(outcome),
            None => Err(self),
        }
    }

    /// Returns a copy of the outcome, if there is one by now.
    pub fn take_inner(&self) -> (res: Option<Outcome>)
        ensures
            match res {
                Some(outcome) => self.inner.resolved() && same_outcome(
                    outcome,
                    self.inner.resolution()->0,
                ),
                None => !cell_made_full(self.inner.outcome),
            },
    {
        match cell_get(&self.inner.outcome) {
            Some(outcome) => Some(clone_outcome(outcome)),
            None => None,
        }
    }
}

} // verus!
