//! Running requests: what happens when a request is made, when something arrives from the peer,
//! and when time passes.

use crate::ids::IoId;
use crate::io::connection::{CoreError, IoCore, IoEvent};
use crate::io::handle::Handle;
use crate::io::item::QueuedItem;
use crate::rpc::client::{
    requests_accepted, requests_close, requests_source, NewOutgoingRequest,
};
use crate::rpc::clock::{is_reading, nanos_between, nanos_since, read_clock};
use crate::rpc::error::{Outcome, RequestError, RpcServerError};
use crate::rpc::guard::{Notice, RequestGuardInner};
use crate::rpc::heap::{drain_heap_while, is_greatest, BinaryHeap, HeapItem};
use crate::rpc::incoming::{IncomingRequest, IncomingRequestView};
use crate::rpc::outbox::{uses_after, Outbox};
use crate::rpc::promise::{Owed, Promise};
use bytes::Bytes;
use std::collections::{HashMap, VecDeque};
use std::sync::Arc;
use tokio::sync::mpsc::UnboundedReceiver;
use tokio::time::Instant;
use vstd::multiset::Multiset;
use vstd::prelude::*;

verus! {

broadcast use vstd::std_specs::hash::group_hash_axioms;

/// How long to wait for the next timeout check when no timeout is set, in nanoseconds.
pub const IDLE_CHECK_NANOS: u128 = 3_600_000_000_000;

/// The time at which a request expires.
#[derive(Clone, Copy, Debug)]
pub struct Timeout {
    /// When the request expires, in nanoseconds since the origin of the server's clock.
    pub when: u128,
    /// The request.
    pub io_id: IoId,
}

impl HeapItem for Timeout {
    /// The earlier a timeout, the higher it ranks.
    open spec fn rank(self) -> int {
        -(self.when * 0x1_0000_0000_0000_0000 + self.io_id.0)
    }

    proof fn rank_is_unique(a: Self, b: Self) {
    }

    fn outranks(&self, other: &Self) -> (res: bool) {
        self.when < other.when || self.when == other.when && self.io_id.0 < other.io_id.0
    }
}

/// The requests that a receiver still hands out once it is closed, in order, until a receive
/// first fails.
pub uninterp spec fn backlog(receiver: UnboundedReceiver<NewOutgoingRequest>) -> Seq<
    NewOutgoingRequest,
>;

/// Whether a receiver has been closed.
pub uninterp spec fn receiver_closed(receiver: UnboundedReceiver<NewOutgoingRequest>) -> bool;

/// `UnboundedReceiver::close`: closes the receiving half of the channel, so that no more requests
/// are taken in. Those that have been taken in before are still handed out.
#[verifier::external_body]
fn receiver_close(receiver: &mut UnboundedReceiver<NewOutgoingRequest>)
    ensures
        receiver_closed(*final(receiver)),
        requests_close(requests_source(*final(receiver))),
        backlog(*final(receiver)) == backlog(*old(receiver)),
        requests_source(*final(receiver)) == requests_source(*old(receiver)),
{
    receiver.close()
}

/// `UnboundedReceiver::try_recv`: the next request, if there is one by now. A closed receiver
/// hands out its backlog. What comes after a receive that failed is left unsaid: a request that
/// was on its way when the receiver closed may still arrive.
#[verifier::external_body]
fn receiver_try_recv(receiver: &mut UnboundedReceiver<NewOutgoingRequest>) -> (res: Option<
    NewOutgoingRequest,
>)
    ensures
        requests_source(*final(receiver)) == requests_source(*old(receiver)),
        res matches Some(request) ==> requests_accepted(
            requests_source(*old(receiver)),
        ).contains(request),
        receiver_closed(*old(receiver)) ==> receiver_closed(*final(receiver)),
        receiver_closed(*old(receiver)) ==> match res {
            Some(request) => {
                &&& backlog(*old(receiver)).len() > 0
                &&& request == backlog(*old(receiver))[0]
                &&& backlog(*final(receiver)) == backlog(*old(receiver)).drop_first()
            },
            None => backlog(*old(receiver)).len() == 0,
        },
{
    receiver.try_recv().ok()
}

/// Juliet RPC Server.
///
/// The server's purpose is to produce incoming RPC calls and to see to it that outgoing ones get
/// their responses.
#[derive(Debug)]
pub struct JulietRpcServer<const N: usize, R, W> {
    /// The connection that is driven by this server.
    pub core: IoCore<N, R, W>,
    /// Receiver for request scheduled by clients.
    pub new_requests_receiver: UnboundedReceiver<NewOutgoingRequest>,
    /// Handle to the connection, cloned for incoming requests.
    outbox: Outbox,
    /// Map of requests that are still pending, by the number of their [`IoId`].
    pending: HashMap<u64, Promise>,
    /// Heap of pending timeouts.
    timeouts: BinaryHeap<Timeout>,
    /// Whether or not to bubble up timed out requests, making them an [`RpcServerError`].
    bubble_timeouts: bool,
    /// The origin of the clock that timeouts are measured by.
    origin: Instant,
}

/// The state of a server.
#[verifier::ext_equal]
pub ghost struct ServerView {
    pub handle: Handle,
    pub pending: Map<u64, Promise>,
    pub timeouts: Multiset<Timeout>,
    pub bubble_timeouts: bool,
    pub origin: Instant,
}

/// The requests that some of the timeouts belong to.
pub open spec fn request_ids(timeouts: Multiset<Timeout>) -> Set<u64> {
    Set::new(|id: u64| exists|t: Timeout| #[trigger] timeouts.contains(t) && t.io_id.0 == id)
}

/// The timeouts that have been reached.
pub open spec fn reached(timeouts: Multiset<Timeout>, now: u128) -> Multiset<Timeout> {
    timeouts.filter(|t: Timeout| t.when <= now)
}

/// The timeouts that have not been reached.
pub open spec fn ahead(timeouts: Multiset<Timeout>, now: u128) -> Multiset<Timeout> {
    timeouts.filter(|t: Timeout| t.when > now)
}

/// Whether a point in time is the one to check for timeouts next: the earliest timeout, or after
/// an idle period if there is none.
pub open spec fn is_deadline(timeouts: Multiset<Timeout>, now: u128, deadline: u128) -> bool {
    if timeouts == Multiset::<Timeout>::empty() {
        deadline == now + IDLE_CHECK_NANOS
    } else {
        &&& exists|t: Timeout| #[trigger] timeouts.contains(t) && t.when == deadline
        &&& forall|t: Timeout| #[trigger] timeouts.contains(t) ==> deadline <= t.when
    }
}

/// A request that has timed out.
#[derive(Debug)]
pub struct TimedOut {
    /// The timeout that was reached.
    pub timeout: Timeout,
    /// The guard of the request.
    pub guard: Arc<RequestGuardInner>,
}

/// A request that has timed out, with the duty to settle it.
#[derive(Debug)]
struct Expired {
    timeout: Timeout,
    promise: Promise,
}

/// What a server has been waiting for.
#[derive(Debug)]
pub enum ServerInput {
    /// The time to check for timeouts has come.
    TimeoutElapsed,
    /// A client made a request, or the last client is gone.
    NewRequest(Option<NewOutgoingRequest>),
    /// Something arrived from the peer, or the peer closed the connection, or it broke.
    CoreEvent(Result<Option<IoEvent>, CoreError>),
}

/// Whether a server has produced a result.
#[derive(Debug)]
pub enum Progress {
    /// There is no result yet, the server has to wait again.
    Continue,
    /// The server has a request of the peer, has been shut down, or has failed.
    Done(Result<Option<IncomingRequest>, RpcServerError>),
}

impl ServerView {
    /// The pending requests that have timed out.
    pub open spec fn timed_out(self, now: u128) -> Set<u64> {
        self.pending.dom().intersect(request_ids(reached(self.timeouts, now)))
    }

    /// Whether a list holds the requests that have timed out, each once, in the order in which
    /// their timeouts were reached.
    pub open spec fn lists_timed_out(self, now: u128, list: Seq<TimedOut>) -> bool {
        &&& forall|i: int|
            0 <= i < list.len() ==> {
                &&& self.timed_out(now).contains((#[trigger] list[i]).timeout.io_id.0)
                &&& list[i].guard == self.pending[list[i].timeout.io_id.0].guard()
                &&& reached(self.timeouts, now).contains(list[i].timeout)
            }
        &&& forall|id: u64| #[trigger]
            self.timed_out(now).contains(id) ==> exists|i: int|
                0 <= i < list.len() && (#[trigger] list[i]).timeout.io_id.0 == id
        &&& forall|i: int, j: int|
            0 <= i < j < list.len() ==> {
                &&& (#[trigger] list[i]).timeout.io_id.0 != (#[trigger] list[j]).timeout.io_id.0
                &&& list[i].timeout.when <= list[j].timeout.when
            }
        &&& list.len() == self.timed_out(now).len()
    }

    /// Whether all requests that have timed out are informed of it, and their cancellations handed
    /// over for sending as long as the connection is open.
    pub open spec fn announces_timeouts(self, now: u128) -> bool {
        forall|id: u64| #[trigger]
            self.timed_out(now).contains(id) ==> {
                &&& self.pending[id].guard().informed(Err(RequestError::TimedOut))
                &&& self.pending[id].kept(Err(RequestError::TimedOut))
                &&& self.handle.enqueues(QueuedItem::RequestCancellation { io_id: IoId(id) })
                    || self.handle.closes()
            }
    }

    /// The state after all timeouts have been processed that have been reached.
    pub open spec fn after_timeouts(self, now: u128) -> ServerView {
        ServerView {
            pending: self.pending.remove_keys(request_ids(reached(self.timeouts, now))),
            timeouts: ahead(self.timeouts, now),
            ..self
        }
    }

    /// Whether a turn of waiting begins as it should: all timeouts are processed that have been
    /// reached. If there were any and timeouts bubble up, the turn ends with their number,
    /// otherwise it lasts until timeouts have to be checked again.
    pub open spec fn turns(
        self,
        now: u128,
        turn: Result<u128, RpcServerError>,
        next: ServerView,
    ) -> bool {
        &&& next == self.after_timeouts(now)
        &&& self.announces_timeouts(now)
        &&& if self.bubble_timeouts && self.timed_out(now).len() > 0 {
            turn matches Err(RpcServerError::FatalTimeout { count }) && count == self.timed_out(
                now,
            ).len()
        } else {
            turn matches Ok(deadline) && is_deadline(next.timeouts, now, deadline)
        }
    }

    /// The state after a request has been settled.
    pub open spec fn settled(self, io_id: IoId) -> ServerView {
        ServerView { pending: self.pending.remove(io_id.0), ..self }
    }

    /// The notice that the request is owed of its outcome, if it is still pending.
    pub open spec fn notice(self, io_id: IoId, outcome: Outcome) -> Option<Notice> {
        if self.pending.contains_key(io_id.0) {
            Some(Notice { guard: self.pending[io_id.0].guard(), outcome })
        } else {
            None
        }
    }

    /// The outcome that the request is owed, if it is still pending.
    pub open spec fn owed(self, io_id: IoId, outcome: Outcome) -> Option<Owed> {
        if self.pending.contains_key(io_id.0) {
            Some(Owed { promise: self.pending[io_id.0], outcome })
        } else {
            None
        }
    }

    /// The state after a request has been handed over for sending.
    pub open spec fn started(
        self,
        io_id: IoId,
        guard: Promise,
        expires: Option<Instant>,
    ) -> ServerView {
        ServerView {
            pending: self.pending.insert(io_id.0, guard),
            timeouts: match expires {
                Some(expires) => self.timeouts.insert(
                    Timeout { when: nanos_between(self.origin, expires), io_id },
                ),
                None => self.timeouts,
            },
            ..self
        }
    }

    /// Whether a request of a client is taken up: it is handed over for sending, unless it has its
    /// outcome already because it was cancelled.
    pub open spec fn takes_up(self, request: NewOutgoingRequest, next: ServerView) -> bool {
        ||| self.starts(request, next)
        ||| {
            &&& request.guard.settled_elsewhere()
            &&& request.guard.guard().resolved()
            &&& next == self
        }
    }

    /// Whether a request of a client is handed over for sending and pending from then on, or
    /// refused because the connection has been closed.
    pub open spec fn starts(self, request: NewOutgoingRequest, next: ServerView) -> bool {
        ||| {
            &&& self.handle.enqueues(
                QueuedItem::Request {
                    channel: request.ticket.channel,
                    io_id: request.ticket.io_id,
                    payload: request.payload,
                    permit: request.ticket.permit,
                },
            )
            &&& next == self.started(request.ticket.io_id, request.guard, request.expires)
        }
        ||| {
            &&& self.handle.closes()
            &&& next == self
            &&& request.refused()
        }
    }

    /// The state after something arrived from the peer.
    pub open spec fn after_event(self, event: IoEvent) -> ServerView {
        match event {
            IoEvent::ReceivedResponse { io_id, .. } => self.settled(io_id),
            IoEvent::ReceivedCancellationResponse { io_id } => self.settled(io_id),
            _ => self,
        }
    }

    /// The notice that the request is owed that a response belongs to.
    pub open spec fn notice_of(self, event: IoEvent) -> Option<Notice> {
        match event {
            IoEvent::ReceivedResponse { io_id, payload } => self.notice(io_id, Ok(payload)),
            IoEvent::ReceivedCancellationResponse { io_id } => self.notice(
                io_id,
                Err(RequestError::RemoteCancelled),
            ),
            _ => None,
        }
    }

    /// The outcome that the request is owed that a response belongs to.
    pub open spec fn owed_by(self, event: IoEvent) -> Option<Owed> {
        match event {
            IoEvent::ReceivedResponse { io_id, payload } => self.owed(io_id, Ok(payload)),
            IoEvent::ReceivedCancellationResponse { io_id } => self.owed(
                io_id,
                Err(RequestError::RemoteCancelled),
            ),
            _ => None,
        }
    }

    /// Whether the request that a response belongs to is informed of it, and is offered nothing
    /// else instead.
    pub open spec fn handles(self, event: IoEvent) -> bool {
        &&& self.notice_of(event) matches Some(notice) ==> notice.delivered()
        &&& self.owed_by(event) matches Some(owed) ==> owed.promise.kept(owed.outcome)
    }

    /// Whether a notice is one that a pending request is owed when the server ends.
    pub open spec fn owes_shutdown(self, notice: Notice) -> bool {
        &&& notice.outcome == Outcome::Err(RequestError::Shutdown)
        &&& exists|id: u64| #[trigger]
            self.pending.contains_key(id) && self.pending[id].guard() == notice.guard
    }

    /// Whether notices are exactly those that the pending requests are owed when the server ends.
    pub open spec fn lists_shutdown(self, notices: Seq<Notice>) -> bool {
        &&& notices.len() == self.pending.dom().len()
        &&& forall|id: u64| #[trigger]
            self.pending.contains_key(id) ==> notices.contains(
                Notice { guard: self.pending[id].guard(), outcome: Err(RequestError::Shutdown) },
            )
        &&& forall|i: int|
            0 <= i < notices.len() ==> self.owes_shutdown(#[trigger] notices[i])
    }

    /// Whether a list holds the requests that have timed out, each once, in the order in which
    /// their timeouts were reached, with the duties to settle them.
    closed spec fn lists_expired(self, now: u128, list: Seq<Expired>) -> bool {
        &&& forall|i: int|
            0 <= i < list.len() ==> {
                &&& self.timed_out(now).contains((#[trigger] list[i]).timeout.io_id.0)
                &&& list[i].promise == self.pending[list[i].timeout.io_id.0]
                &&& reached(self.timeouts, now).contains(list[i].timeout)
            }
        &&& forall|id: u64| #[trigger]
            self.timed_out(now).contains(id) ==> exists|i: int|
                0 <= i < list.len() && (#[trigger] list[i]).timeout.io_id.0 == id
        &&& forall|i: int, j: int|
            0 <= i < j < list.len() ==> {
                &&& (#[trigger] list[i]).timeout.io_id.0 != (#[trigger] list[j]).timeout.io_id.0
                &&& list[i].timeout.when <= list[j].timeout.when
            }
        &&& list.len() == self.timed_out(now).len()
    }

    /// The state after the server has ended.
    pub open spec fn ended(self) -> ServerView {
        ServerView { pending: Map::empty(), ..self }
    }

    /// Whether all pending requests are informed that the server has ended.
    pub open spec fn announces_shutdown(self) -> bool {
        forall|id: u64| #[trigger]
            self.pending.contains_key(id) ==> {
                &&& self.pending[id].guard().informed(Err(RequestError::Shutdown))
                &&& self.pending[id].kept(Err(RequestError::Shutdown))
            }
    }

    /// How often the handle is used for something that arrived from the peer: once to let a request
    /// be answered.
    pub open spec fn uses_for(self, event: IoEvent) -> nat {
        if event is NewRequest {
            1
        } else {
            0
        }
    }

    /// The request that arrived from the peer, if it was one.
    pub open spec fn produced(self, event: IoEvent) -> Option<IncomingRequestView> {
        match event {
            IoEvent::NewRequest { channel, id, payload } => Some(
                IncomingRequestView { channel, id, payload, handle: Some(self.handle) },
            ),
            _ => None,
        }
    }
}

/// Adding a timeout adds the request that it belongs to.
proof fn ids_of_insert(timeouts: Multiset<Timeout>, t: Timeout)
    ensures
        request_ids(timeouts.insert(t)) == request_ids(timeouts).insert(t.io_id.0),
{
    let more = timeouts.insert(t);
    assert forall|id: u64| request_ids(timeouts).insert(t.io_id.0).contains(id) implies request_ids(
        more,
    ).contains(id) by {
        if id == t.io_id.0 {
            assert(more.contains(t));
        } else {
            let other = choose|other: Timeout| #[trigger]
                timeouts.contains(other) && other.io_id.0 == id;
            assert(more.contains(other));
        }
    }
    assert forall|id: u64| request_ids(more).contains(id) implies request_ids(timeouts).insert(
        t.io_id.0,
    ).contains(id) by {
        let other = choose|other: Timeout| #[trigger] more.contains(other) && other.io_id.0 == id;
        if other != t {
            assert(timeouts.contains(other));
        }
    }
    assert(request_ids(more) =~= request_ids(timeouts).insert(t.io_id.0));
}

/// Timeouts that have been divided by whether they have been reached.
proof fn split_by_time(
    all: Multiset<Timeout>,
    done: Multiset<Timeout>,
    left: Multiset<Timeout>,
    now: u128,
)
    requires
        all == done.add(left),
        forall|t: Timeout| #[trigger] done.contains(t) ==> t.when <= now,
        forall|t: Timeout| #[trigger] left.contains(t) ==> t.when > now,
    ensures
        done == reached(all, now),
        left == ahead(all, now),
{
    assert forall|t: Timeout| #[trigger] done.count(t) == reached(all, now).count(t) by {
        assert(done.count(t) > 0 ==> done.contains(t));
        assert(left.count(t) > 0 ==> left.contains(t));
    }
    assert forall|t: Timeout| #[trigger] left.count(t) == ahead(all, now).count(t) by {
        assert(done.count(t) > 0 ==> done.contains(t));
        assert(left.count(t) > 0 ==> left.contains(t));
    }
    assert(done =~= reached(all, now));
    assert(left =~= ahead(all, now));
}

/// How the number of common elements grows with one of two sets.
proof fn count_with(all: Set<u64>, some: Set<u64>, id: u64)
    requires
        all.finite(),
    ensures
        all.contains(id) && !some.contains(id) ==> all.intersect(some.insert(id)).len()
            == all.intersect(some).len() + 1 && all.intersect(some).len() < all.len(),
        !all.contains(id) || some.contains(id) ==> all.intersect(some.insert(id)) == all.intersect(
            some,
        ),
{
    if all.contains(id) && !some.contains(id) {
        assert(all.intersect(some.insert(id)) =~= all.intersect(some).insert(id));
        vstd::set_lib::lemma_len_subset(all.intersect(some).insert(id), all);
    } else {
        assert(all.intersect(some.insert(id)) =~= all.intersect(some));
    }
}

/// A list in which something occurs twice is longer than the set of what occurs in it.
proof fn listed_twice(list: Seq<u64>, i: int, j: int)
    requires
        0 <= i < j < list.len(),
        list[i] == list[j],
    ensures
        list.to_set().len() < list.len(),
{
    let shorter = list.remove(j);
    assert(shorter[i] == list[i]);
    assert forall|id: u64| list.contains(id) implies shorter.contains(id) by {
        let k = choose|k: int| 0 <= k < list.len() && list[k] == id;
        if k < j {
            assert(shorter[k] == id);
        } else if k > j {
            assert(shorter[k - 1] == id);
        }
    }
    assert forall|id: u64| shorter.contains(id) implies list.contains(id) by {
        let k = choose|k: int| 0 <= k < shorter.len() && shorter[k] == id;
        assert(list[k] == id || list[k + 1] == id);
    }
    assert(shorter.to_set() =~= list.to_set());
    shorter.lemma_cardinality_of_set();
}

impl<const N: usize, R, W> View for JulietRpcServer<N, R, W> {
    type V = ServerView;

    closed spec fn view(&self) -> ServerView {
        ServerView {
            handle: self.outbox.handle(),
            pending: self.pending@,
            timeouts: self.timeouts@,
            bubble_timeouts: self.bubble_timeouts,
            origin: self.origin,
        }
    }
}

impl<const N: usize, R, W> JulietRpcServer<N, R, W> {
    /// The ends that the server has towards the connection and towards the clients.
    pub closed spec fn ends(self) -> (IoCore<N, R, W>, UnboundedReceiver<NewOutgoingRequest>) {
        (self.core, self.new_requests_receiver)
    }

    /// How often the server has used its handle to the connection, be it to hand over something for
    /// sending, or to let a request of the peer be answered.
    pub closed spec fn uses(self) -> u64 {
        self.outbox.uses()
    }

    /// Whether the handle is used once to take up a request, and not at all only if the request had
    /// been cancelled.
    pub open spec fn uses_to_take_up(self, request: NewOutgoingRequest, next: Self) -> bool {
        ||| next.uses() == uses_after(self.uses(), 1)
        ||| {
            &&& request.guard.settled_elsewhere()
            &&& request.guard.guard().resolved()
            &&& next.uses() == self.uses()
            &&& next@ == self@
        }
    }

    /// Creates a server without any requests.
    pub fn new(
        core: IoCore<N, R, W>,
        handle: Handle,
        new_requests_receiver: UnboundedReceiver<NewOutgoingRequest>,
        bubble_timeouts: bool,
    ) -> (server: Self)
        ensures
            server.ends() == (core, new_requests_receiver),
            server@.handle == handle,
            server@.pending == Map::<u64, Promise>::empty(),
            server@.timeouts == Multiset::<Timeout>::empty(),
            server@.bubble_timeouts == bubble_timeouts,
            server.uses() == 0,
            is_reading(server@.origin),
    {
        JulietRpcServer {
            core,
            new_requests_receiver,
            outbox: Outbox::new(handle),
            pending: HashMap::new(),
            timeouts: BinaryHeap::new(),
            bubble_timeouts,
            origin: read_clock(),
        }
    }

    /// Returns the origin of the clock that timeouts are measured by.
    pub fn origin(&self) -> (origin: Instant)
        ensures
            origin == self@.origin,
        opens_invariants none
    {
        self.origin
    }

    /// Process all pending timeouts, setting and notifying `RequestError::TimedOut` on timeout.
    ///
    /// Returns the time at which the next timeout check needs to take place if timeouts are not
    /// modified in the interim, and the number of actual timeouts.
    pub fn process_timeouts(&mut self, now: u128) -> (res: (u128, usize))
        requires
            now + IDLE_CHECK_NANOS <= u128::MAX,
        ensures
            final(self)@ == old(self)@.after_timeouts(now),
            is_deadline(final(self)@.timeouts, now, res.0),
            res.1 == old(self)@.timed_out(now).len(),
            old(self)@.announces_timeouts(now),
            final(self).ends() == old(self).ends(),
            final(self).uses() == uses_after(old(self).uses(), old(self)@.timed_out(now).len()),
    {
        let ghost before = self@;
        let mut expired = self.expire(now);
        let ghost list = expired@;
        let count: usize = expired.len();

        let ghost mut done: int = 0;
        loop
            invariant
                0 <= done <= list.len(),
                expired@ == list.skip(done),
                self@ == before.after_timeouts(now),
                self.ends() == old(self).ends(),
                before == old(self)@,
                before.lists_expired(now, list),
                self.uses() == uses_after(old(self).uses(), done as nat),
                forall|j: int|
                    0 <= j < done ==> {
                        let io_id = (#[trigger] list[j]).timeout.io_id;
                        &&& list[j].promise.guard().informed(Err(RequestError::TimedOut))
                        &&& list[j].promise.kept(Err(RequestError::TimedOut))
                        &&& before.handle.enqueues(QueuedItem::RequestCancellation { io_id })
                            || before.handle.closes()
                    },
            ensures
                done == list.len(),
            decreases list.len() - done,
        {
            let Expired { timeout, promise } = match expired.pop_front() {
                Some(next) => next,
                None => {
                    break;
                },
            };
            assert(list[done].timeout == timeout && list[done].promise == promise);
            promise.keep(Err(RequestError::TimedOut));

            // We also need to send a cancellation.
            let _ = self.outbox.send_cancellation(timeout.io_id);
            proof {
                reveal_with_fuel(uses_after, 2);
                done = done + 1;
            }
        }
        proof {
            assert forall|id: u64| #[trigger] before.timed_out(now).contains(id) implies {
                &&& before.pending[id].guard().informed(Err(RequestError::TimedOut))
                &&& before.pending[id].kept(Err(RequestError::TimedOut))
                &&& before.handle.enqueues(QueuedItem::RequestCancellation { io_id: IoId(id) })
                    || before.handle.closes()
            } by {
                let j = choose|j: int|
                    0 <= j < list.len() && (#[trigger] list[j]).timeout.io_id.0 == id;
                assert(list[j].timeout.io_id == IoId(id));
            }
        }

        // Calculate new delay for timeouts.
        let deadline: u128 = match self.timeouts.peek() {
            Some(timeout) => timeout.when,
            // 1 hour dummy sleep, since we cannot have a conditional future.
            None => now + IDLE_CHECK_NANOS,
        };
        (deadline, count)
    }

    /// Removes all timeouts that have been reached, and all requests that have timed out by them.
    ///
    /// Returns the latter. A request that is no longer pending does not time out.
    pub fn take_timed_out(&mut self, now: u128) -> (res: Vec<TimedOut>)
        ensures
            final(self)@ == old(self)@.after_timeouts(now),
            final(self).ends() == old(self).ends(),
            final(self).uses() == old(self).uses(),
            old(self)@.lists_timed_out(now, res@),
    {
        let mut expired = self.expire(now);
        let ghost list = expired@;
        let mut res: Vec<TimedOut> = Vec::new();
        loop
            invariant
                res.len() <= list.len(),
                expired@ == list.skip(res.len() as int),
                forall|i: int|
                    0 <= i < res.len() ==> {
                        &&& (#[trigger] res@[i]).timeout == list[i].timeout
                        &&& res@[i].guard == list[i].promise.guard()
                    },
            ensures
                res.len() == list.len(),
            decreases list.len() - res.len(),
        {
            match expired.pop_front() {
                Some(Expired { timeout, promise }) => {
                    assert(list[res.len() as int].timeout == timeout);
                    res.push(TimedOut { timeout, guard: promise.give_up() });
                },
                None => {
                    break;
                },
            }
        }
        proof {
            let before = old(self)@;
            assert forall|id: u64| #[trigger] before.timed_out(now).contains(id) implies exists|
                i: int,
            |
                0 <= i < res.len() && (#[trigger] res@[i]).timeout.io_id.0 == id by {
                let i = choose|i: int|
                    0 <= i < list.len() && (#[trigger] list[i]).timeout.io_id.0 == id;
                assert(res@[i].timeout.io_id.0 == id);
            }
        }
        res
    }

    /// Removes all timeouts that have been reached, and all requests that have timed out by them,
    /// in the order in which their timeouts were reached.
    fn expire(&mut self, now: u128) -> (res: VecDeque<Expired>)
        ensures
            final(self)@ == old(self)@.after_timeouts(now),
            final(self).ends() == old(self).ends(),
            final(self).uses() == old(self).uses(),
            old(self)@.lists_expired(now, res@),
    {
        let ghost before = self@;
        let mut timeouts = BinaryHeap::<Timeout>::new();
        std::mem::swap(&mut timeouts, &mut self.timeouts);

        let is_expired = |t: &Timeout| -> (res: bool)
            ensures
                res == (t.when <= now),
            { t.when <= now };

        let mut res: VecDeque<Expired> = VecDeque::new();

        let ghost mut done = Multiset::<Timeout>::empty();
        proof {
            assert(before.timeouts =~= done.add(timeouts@));
            assert(self.pending@ =~= before.pending.remove_keys(request_ids(done)));
            assert(before.pending.dom().intersect(request_ids(done)) =~= Set::empty());
        }
        let mut drain = drain_heap_while(&mut timeouts, is_expired);
        loop
            invariant
                drain.predicate == is_expired,
                *final(drain.heap) == after_borrow(timeouts),
                forall|t: Timeout| call_requires(is_expired, (&t,)),
                forall|t: Timeout, res: bool|
                    call_ensures(is_expired, (&t,), res) ==> res == (t.when <= now),
                self@ == (ServerView {
                    pending: before.pending.remove_keys(request_ids(done)),
                    timeouts: self.timeouts@,
                    ..before
                }),
                self.core == old(self).core,
                self.uses() == old(self).uses(),
                self.new_requests_receiver == old(self).new_requests_receiver,
                before.pending.dom().finite(),
                before.timeouts == done.add(drain.heap@),
                forall|t: Timeout| #[trigger] done.contains(t) ==> t.when <= now,
                res.len() == before.pending.dom().intersect(request_ids(done)).len(),
                forall|i: int|
                    0 <= i < res.len() ==> {
                        &&& before.pending.contains_key((#[trigger] res@[i]).timeout.io_id.0)
                        &&& res@[i].promise == before.pending[res@[i].timeout.io_id.0]
                        &&& done.contains(res@[i].timeout)
                    },
                forall|id: u64| #[trigger]
                    before.pending.dom().intersect(request_ids(done)).contains(id) ==> exists|
                        i: int,
                    |
                        0 <= i < res.len() && (#[trigger] res@[i]).timeout.io_id.0 == id,
                forall|i: int, j: int|
                    0 <= i < j < res.len() ==> {
                        &&& (#[trigger] res@[i]).timeout.io_id.0 != (
                        #[trigger] res@[j]).timeout.io_id.0
                        &&& res@[i].timeout.when <= res@[j].timeout.when
                    },
                forall|i: int, t: Timeout|
                    0 <= i < res.len() && #[trigger] drain.heap@.contains(t) ==> (
                    #[trigger] res@[i]).timeout.when <= t.when,
            ensures
                forall|t: Timeout| #[trigger] drain.heap@.contains(t) ==> t.when > now,
            decreases drain.heap@.len(),
        {
            let ghost earlier = done;
            let ghost left = drain.heap@;
            let ghost listed = res@;
            let item = match drain.next() {
                Some(item) => item,
                None => {
                    assert forall|t: Timeout| #[trigger] drain.heap@.contains(t) implies t.when
                        > now by {
                        let top = choose|top: Timeout| #[trigger]
                            is_greatest(left, top) && call_ensures(is_expired, (&top,), false);
                        assert(t.rank() <= top.rank());
                    }
                    break;
                },
            };
            let ghost id = item.io_id.0;
            proof {
                done = done.insert(item);
                assert(before.timeouts =~= done.add(drain.heap@));
                ids_of_insert(earlier, item);
                count_with(before.pending.dom(), request_ids(earlier), id);
                assert(call_ensures(is_expired, (&item,), true));
                assert forall|t: Timeout| #[trigger] done.contains(t) implies t.when <= now by {
                    assert(t == item || earlier.contains(t));
                }
                assert forall|t: Timeout| #[trigger] drain.heap@.contains(t) implies item.when
                    <= t.when && left.contains(t) by {
                    assert(left.contains(t));
                    assert(t.rank() <= item.rank());
                }
                assert(left.contains(item));
            }

            // If not removed already through other means, the request has timed out.
            if let Some(promise) = self.pending.remove(&item.io_id.0) {
                proof {
                    assert forall|i: int| 0 <= i < listed.len() implies (
                    #[trigger] listed[i]).timeout.io_id.0 != id by {
                        assert(earlier.contains(listed[i].timeout));
                    }
                }
                res.push_back(Expired { timeout: item, promise });
            }
            proof {
                assert(self.pending@ =~= before.pending.remove_keys(request_ids(done)));
                assert forall|i: int| 0 <= i < listed.len() implies #[trigger] res@[i]
                    == listed[i] by {}
                assert forall|other: u64| #[trigger]
                    before.pending.dom().intersect(request_ids(done)).contains(other) implies exists|
                    i: int,
                |
                    0 <= i < res.len() && (#[trigger] res@[i]).timeout.io_id.0 == other by {
                    if before.pending.dom().intersect(request_ids(earlier)).contains(other) {
                        let i = choose|i: int|
                            0 <= i < listed.len() && (#[trigger] listed[i]).timeout.io_id.0
                                == other;
                        assert(res@[i].timeout.io_id.0 == other);
                    } else {
                        assert(res@[res.len() - 1].timeout.io_id.0 == other);
                    }
                }
            }
        }
        proof {
            split_by_time(before.timeouts, done, timeouts@, now);
            assert forall|i: int| 0 <= i < res.len() implies before.timed_out(now).contains(
                (#[trigger] res@[i]).timeout.io_id.0,
            ) by {
                assert(done.contains(res@[i].timeout));
            }
        }
        self.timeouts = timeouts;
        res
    }

    /// Begins a turn of waiting for the next request: processes all timeouts, as of now.
    ///
    /// Returns the time at which timeouts have to be checked again, or an error if requests timed
    /// out and timeouts bubble up. If the clock of the server has run so far that this time cannot
    /// be expressed, returns `None` and changes nothing.
    pub fn begin_turn(&mut self) -> (res: Option<Result<u128, RpcServerError>>)
        ensures
            final(self).ends() == old(self).ends(),
            match res {
                Some(turn) => exists|now: Instant|
                    is_reading(now) && old(self)@.turns(
                        #[trigger] nanos_between(old(self)@.origin, now),
                        turn,
                        final(self)@,
                    ) && final(self).uses() == uses_after(
                        old(self).uses(),
                        old(self)@.timed_out(nanos_between(old(self)@.origin, now)).len(),
                    ),
                None => final(self)@ == old(self)@ && final(self).uses() == old(self).uses()
                    && exists|now: Instant|
                    is_reading(now) && #[trigger] nanos_between(old(self)@.origin, now)
                        + IDLE_CHECK_NANOS > u128::MAX,
            },
    {
        let now = read_clock();
        let elapsed: u128 = nanos_since(self.origin, now);
        if elapsed > u128::MAX - IDLE_CHECK_NANOS {
            assert(elapsed == nanos_between(old(self)@.origin, now));
            return None;
        }
        Some(self.begin_turn_at(elapsed))
    }

    /// Begins a turn of waiting for the next request at the given time.
    pub fn begin_turn_at(&mut self, now: u128) -> (res: Result<u128, RpcServerError>)
        requires
            now + IDLE_CHECK_NANOS <= u128::MAX,
        ensures
            final(self).ends() == old(self).ends(),
            old(self)@.turns(now, res, final(self)@),
            final(self).uses() == uses_after(old(self).uses(), old(self)@.timed_out(now).len()),
    {
        let (deadline, timed_out) = self.process_timeouts(now);

        if self.bubble_timeouts && timed_out > 0 {
            return Err(RpcServerError::FatalTimeout { count: timed_out });
        }
        Ok(deadline)
    }

    /// Ends a turn of waiting for the next request: deals with whatever came first.
    pub fn next_request(&mut self, input: ServerInput) -> (progress: Progress)
        ensures
            final(self).ends() == old(self).ends(),
            match input {
                ServerInput::TimeoutElapsed => {
                    &&& progress is Continue
                    &&& final(self)@ == old(self)@
                    &&& final(self).uses() == old(self).uses()
                },
                ServerInput::NewRequest(Some(request)) => {
                    &&& progress is Continue
                    &&& old(self)@.takes_up(request, final(self)@)
                    &&& old(self).uses_to_take_up(request, *final(self))
                },
                ServerInput::NewRequest(None) => {
                    &&& progress matches Progress::Done(Ok(None))
                    &&& final(self)@ == old(self)@
                    &&& final(self).uses() == old(self).uses()
                },
                ServerInput::CoreEvent(Ok(Some(event))) => {
                    &&& final(self).uses() == uses_after(old(self).uses(), old(self)@.uses_for(event))
                    &&& final(self)@ == old(self)@.after_event(event)
                    &&& old(self)@.handles(event)
                    &&& match old(self)@.produced(event) {
                        Some(request) => progress matches Progress::Done(Ok(Some(incoming)))
                            && incoming@ == request,
                        None => progress is Continue,
                    }
                },
                ServerInput::CoreEvent(Ok(None)) => {
                    &&& progress matches Progress::Done(Ok(None))
                    &&& final(self)@ == old(self)@
                    &&& final(self).uses() == old(self).uses()
                },
                ServerInput::CoreEvent(Err(error)) => {
                    &&& progress matches Progress::Done(Err(RpcServerError::CoreError(reported)))
                        && reported == error
                    &&& final(self)@ == old(self)@
                    &&& final(self).uses() == old(self).uses()
                },
            },
    {
        match input {
            // Enough time has elapsed that we need to check for timeouts, which happens at the
            // beginning of the next turn.
            ServerInput::TimeoutElapsed => Progress::Continue,
            ServerInput::NewRequest(Some(request)) => {
                self.take_up(request);
                Progress::Continue
            },
            // The client has been dropped, time for us to shut down as well.
            ServerInput::NewRequest(None) => Progress::Done(Ok(None)),
            ServerInput::CoreEvent(Ok(Some(event))) => match self.handle_event(event) {
                Some(request) => Progress::Done(Ok(Some(request))),
                None => Progress::Continue,
            },
            ServerInput::CoreEvent(Ok(None)) => Progress::Done(Ok(None)),
            ServerInput::CoreEvent(Err(error)) => Progress::Done(
                Err(RpcServerError::CoreError(error)),
            ),
        }
    }

    /// Takes up a request of a client: hands it over for sending, unless it has been cancelled.
    pub fn take_up(&mut self, request: NewOutgoingRequest)
        ensures
            final(self).ends() == old(self).ends(),
            old(self)@.takes_up(request, final(self)@),
            old(self).uses_to_take_up(request, *final(self)),
    {
        let cancelled = request.guard.is_resolved();
        self.start_unless(request, cancelled);
    }

    /// Hands a request of a client over for sending, given whether it has been cancelled.
    pub fn start_unless(&mut self, request: NewOutgoingRequest, cancelled: bool)
        ensures
            final(self).ends() == old(self).ends(),
            if cancelled {
                &&& final(self)@ == old(self)@
                &&& final(self).uses() == old(self).uses()
            } else {
                &&& old(self)@.starts(request, final(self)@)
                &&& final(self).uses() == uses_after(old(self).uses(), 1)
            },
    {
        if !cancelled {
            self.start_request(request);
        }
    }

    /// Hands a request of a client over for sending.
    pub fn start_request(&mut self, request: NewOutgoingRequest)
        ensures
            final(self).ends() == old(self).ends(),
            old(self)@.starts(request, final(self)@),
            final(self).uses() == uses_after(old(self).uses(), 1),
    {
        let NewOutgoingRequest { ticket, guard, payload, expires } = request;
        let enqueued = self.outbox.send_request(ticket, payload);
        if let Some(owed) = self.record_promise(enqueued, guard, expires) {
            // Failed to send -- time to shut down.
            owed.promise.keep(owed.outcome);
        }
    }

    /// Takes note of what came of the attempt to hand a request over for sending.
    ///
    /// Returns the notice that the request is owed if it was refused.
    pub fn record_enqueued(
        &mut self,
        enqueued: Result<IoId, Option<Bytes>>,
        guard: Arc<RequestGuardInner>,
        expires: Option<Instant>,
    ) -> (res: Option<Notice>)
        ensures
            final(self).ends() == old(self).ends(),
            final(self).uses() == old(self).uses(),
            match enqueued {
                Ok(io_id) => {
                    &&& final(self)@ == old(self)@.started(io_id, Promise::remade(guard), expires)
                    &&& res is None
                },
                Err(payload) => {
                    &&& final(self)@ == old(self)@
                    &&& res == Some(
                        Notice { guard, outcome: Err(RequestError::RemoteClosed(payload)) },
                    )
                },
            },
    {
        match self.record_promise(enqueued, Promise::remake(guard), expires) {
            Some(owed) => Some(Notice { guard: owed.promise.give_up(), outcome: owed.outcome }),
            None => None,
        }
    }

    /// Takes note of what came of the attempt to hand a request over for sending, for the one who
    /// has the duty to settle it.
    ///
    /// Returns what the request is owed if it was refused.
    fn record_promise(
        &mut self,
        enqueued: Result<IoId, Option<Bytes>>,
        promise: Promise,
        expires: Option<Instant>,
    ) -> (res: Option<Owed>)
        ensures
            final(self).ends() == old(self).ends(),
            final(self).uses() == old(self).uses(),
            match enqueued {
                Ok(io_id) => {
                    &&& final(self)@ == old(self)@.started(io_id, promise, expires)
                    &&& res is None
                },
                Err(payload) => {
                    &&& final(self)@ == old(self)@
                    &&& res == Some(
                        Owed { promise, outcome: Err(RequestError::RemoteClosed(payload)) },
                    )
                },
            },
    {
        match enqueued {
            Ok(io_id) => {
                // The request will be sent out, store it in our pending map.
                self.pending.insert(io_id.0, promise);

                // If a timeout has been configured, add it to the timeouts map.
                if let Some(expires) = expires {
                    let when: u128 = nanos_since(self.origin, expires);
                    self.timeouts.push(Timeout { when, io_id });
                }
                None
            },
            Err(payload) => Some(
                Owed { promise, outcome: Err(RequestError::RemoteClosed(payload)) },
            ),
        }
    }

    /// Deals with something that arrived from the peer. Returns the request, if it was one.
    pub fn handle_event(&mut self, event: IoEvent) -> (res: Option<IncomingRequest>)
        ensures
            final(self).ends() == old(self).ends(),
            final(self)@ == old(self)@.after_event(event),
            final(self).uses() == uses_after(old(self).uses(), old(self)@.uses_for(event)),
            old(self)@.handles(event),
            match old(self)@.produced(event) {
                Some(request) => res matches Some(incoming) && incoming@ == request,
                None => res is None,
            },
    {
        let (request, owed) = self.sort_event(event);
        if let Some(owed) = owed {
            owed.promise.keep(owed.outcome);
        }
        request
    }

    /// Takes note of something that arrived from the peer.
    ///
    /// Returns the request, if it was one, and the notice that one of our requests is owed, if it
    /// was a response to it.
    pub fn record_event(&mut self, event: IoEvent) -> (res: (
        Option<IncomingRequest>,
        Option<Notice>,
    ))
        ensures
            final(self).ends() == old(self).ends(),
            final(self)@ == old(self)@.after_event(event),
            final(self).uses() == uses_after(old(self).uses(), old(self)@.uses_for(event)),
            res.1 == old(self)@.notice_of(event),
            match old(self)@.produced(event) {
                Some(request) => res.0 matches Some(incoming) && incoming@ == request,
                None => res.0 is None,
            },
    {
        let (request, owed) = self.sort_event(event);
        let notice = match owed {
            Some(owed) => Some(
                Notice { guard: owed.promise.give_up(), outcome: owed.outcome },
            ),
            None => None,
        };
        (request, notice)
    }

    /// Takes note of something that arrived from the peer.
    ///
    /// Returns the request, if it was one, and what one of our requests is owed, if it was a
    /// response to it.
    fn sort_event(&mut self, event: IoEvent) -> (res: (Option<IncomingRequest>, Option<Owed>))
        ensures
            final(self).ends() == old(self).ends(),
            final(self)@ == old(self)@.after_event(event),
            final(self).uses() == uses_after(old(self).uses(), old(self)@.uses_for(event)),
            res.1 == old(self)@.owed_by(event),
            match old(self)@.produced(event) {
                Some(request) => res.0 matches Some(incoming) && incoming@ == request,
                None => res.0 is None,
            },
    {
        match event {
            IoEvent::NewRequest { channel, id, payload } => {
                let request = self.outbox.receive(channel, id, payload);
                (Some(request), None)
            },
            // Request cancellation is currently not implemented; there is no harm in sending the
            // reply.
            IoEvent::RequestCancelled { .. } => (None, None),
            IoEvent::ReceivedResponse { io_id, payload } => {
                let owed = self.settle(io_id, Ok(payload));
                (None, owed)
            },
            IoEvent::ReceivedCancellationResponse { io_id } => {
                let owed = self.settle(io_id, Err(RequestError::RemoteCancelled));
                (None, owed)
            },
        }
    }

    /// Settles a request, after which it is no longer pending.
    ///
    /// Returns what it is owed, unless it was not pending.
    fn settle(&mut self, io_id: IoId, outcome: Outcome) -> (res: Option<Owed>)
        ensures
            final(self).ends() == old(self).ends(),
            final(self)@ == old(self)@.settled(io_id),
            final(self).uses() == old(self).uses(),
            res == old(self)@.owed(io_id, outcome),
    {
        match self.pending.remove(&io_id.0) {
            // The request has been cancelled on our end, no big deal.
            None => None,
            Some(promise) => Some(Owed { promise, outcome }),
        }
    }

    /// Ends the server: ensures all waiting requests are informed.
    ///
    /// Requests that have been sent get no reply any more, those that clients made but which have
    /// not been taken up are never sent. No request is taken in from now on.
    pub fn shutdown(&mut self)
        ensures
            final(self)@ == old(self)@.ended(),
            final(self).uses() == old(self).uses(),
            final(self).ends().0 == old(self).ends().0,
            requests_source(final(self).ends().1) == requests_source(old(self).ends().1),
            receiver_closed(final(self).ends().1),
            requests_close(requests_source(final(self).ends().1)),
            old(self)@.announces_shutdown(),
            forall|i: int|
                0 <= i < backlog(old(self).ends().1).len() ==> (#[trigger] backlog(
                    old(self).ends().1,
                )[i]).refusal().delivered(),
            forall|i: int|
                0 <= i < backlog(old(self).ends().1).len() ==> (#[trigger] backlog(
                    old(self).ends().1,
                )[i]).refused(),
    {
        receiver_close(&mut self.new_requests_receiver);
        self.abandon_pending();

        let ghost waiting = backlog(self.new_requests_receiver);
        let ghost mut refused: int = 0;
        loop
            invariant_except_break
                backlog(self.new_requests_receiver) == waiting.skip(refused),
            invariant
                0 <= refused <= waiting.len(),
                receiver_closed(self.new_requests_receiver),
                self.core == old(self).core,
                requests_source(self.new_requests_receiver) == requests_source(
                    old(self).new_requests_receiver,
                ),
                requests_close(requests_source(self.new_requests_receiver)),
                self@ == old(self)@.ended(),
                self.uses() == old(self).uses(),
                forall|i: int| 0 <= i < refused ==> (#[trigger] waiting[i]).refused(),
            ensures
                refused == waiting.len(),
            decreases backlog(self.new_requests_receiver).len(),
        {
            let request = match receiver_try_recv(&mut self.new_requests_receiver) {
                Some(request) => request,
                None => {
                    break;
                },
            };
            request.turn_down();
            proof {
                refused = refused + 1;
            }
        }
    }

    /// Informs all pending requests that there is no reply any more.
    fn abandon_pending(&mut self)
        ensures
            final(self)@ == old(self)@.ended(),
            final(self).ends() == old(self).ends(),
            final(self).uses() == old(self).uses(),
            old(self)@.announces_shutdown(),
    {
        let ghost before = self@;
        let mut ids = self.pending_ids();
        loop
            invariant
                before == old(self)@,
                self@ == (ServerView { pending: self.pending@, ..before }),
                self.ends() == old(self).ends(),
                self.uses() == old(self).uses(),
                self.pending@.submap_of(before.pending),
                forall|id: u64| #[trigger]
                    self.pending@.contains_key(id) ==> ids@.contains(id),
                forall|id: u64| #[trigger]
                    before.pending.contains_key(id) ==> self.pending@.contains_key(id) || {
                        &&& before.pending[id].guard().informed(Err(RequestError::Shutdown))
                        &&& before.pending[id].kept(Err(RequestError::Shutdown))
                    },
            ensures
                ids.len() == 0,
            decreases ids.len(),
        {
            let ghost left = ids@;
            let id: u64 = match ids.pop() {
                Some(id) => id,
                None => {
                    break;
                },
            };
            if let Some(promise) = self.pending.remove(&id) {
                promise.keep(Err(RequestError::Shutdown));
            }
            proof {
                assert forall|other: u64| #[trigger]
                    self.pending@.contains_key(other) implies ids@.contains(other) by {
                    assert(left.contains(other));
                    let i = choose|i: int| 0 <= i < left.len() && left[i] == other;
                    assert(ids@[i] == other);
                }
            }
        }
        assert(self.pending@ =~= Map::empty());
    }

    /// Returns the requests that are pending.
    fn pending_ids(&self) -> (ids: Vec<u64>)
        ensures
            ids.len() == self@.pending.dom().len(),
            ids@.no_duplicates(),
            forall|id: u64| #[trigger] ids@.contains(id) <==> self@.pending.contains_key(id),
    {
        let ghost pending = self@.pending;
        let mut ids: Vec<u64> = Vec::new();
        for entry in entries: self.pending.iter()
            invariant
                self.pending@ == pending,
                ids.len() == entries.index(),
                forall|i: int|
                    0 <= i < entries.index() ==> ids@.contains(*(#[trigger] entries.seq()[i]).0),
                forall|i: int| 0 <= i < ids.len() ==> pending.contains_key(#[trigger] ids@[i]),
        {
            let ghost earlier = ids@;
            assert(pending.contains_key(*entry.0));
            ids.push(*entry.0);
            proof {
                assert(ids@[earlier.len() as int] == *entry.0);
                assert forall|other: u64| #[trigger] earlier.contains(other) implies ids@.contains(
                    other,
                ) by {
                    let i = choose|i: int| 0 <= i < earlier.len() && earlier[i] == other;
                    assert(ids@[i] == other);
                }
            }
        }
        proof {
            assert(forall|id: u64| #[trigger] pending.contains_key(id) ==> ids@.contains(id));
            assert(ids@.to_set() =~= pending.dom());
            assert forall|i: int, j: int| 0 <= i < j < ids.len() implies ids@[i] != ids@[j] by {
                if ids@[i] == ids@[j] {
                    listed_twice(ids@, i, j);
                }
            }
        }
        ids
    }

    /// Takes all requests that are pending. Returns the notices that they are owed.
    pub fn drain_pending(&mut self) -> (notices: Vec<Notice>)
        ensures
            final(self)@ == old(self)@.ended(),
            final(self).ends() == old(self).ends(),
            final(self).uses() == old(self).uses(),
            old(self)@.lists_shutdown(notices@),
    {
        let ghost before = self@;
        let ids = self.pending_ids();
        let mut notices: Vec<Notice> = Vec::new();
        let mut i: usize = 0;
        while i < ids.len()
            invariant
                i <= ids.len(),
                notices.len() == i,
                before == old(self)@,
                self@ == (ServerView { pending: self.pending@, ..before }),
                self.ends() == old(self).ends(),
                self.uses() == old(self).uses(),
                self.pending@ == before.pending.remove_keys(ids@.take(i as int).to_set()),
                ids.len() == before.pending.dom().len(),
                ids@.no_duplicates(),
                forall|id: u64| #[trigger] ids@.contains(id) <==> before.pending.contains_key(id),
                forall|j: int|
                    0 <= j < i ==> #[trigger] notices@[j] == (Notice {
                        guard: before.pending[ids@[j]].guard(),
                        outcome: Err(RequestError::Shutdown),
                    }),
            decreases ids.len() - i,
        {
            let id: u64 = ids[i];
            proof {
                assert(ids@.contains(id));
                let few = ids@.take(i as int);
                let more = ids@.take(i + 1);
                assert(more =~= few.push(id));
                assert(!few.to_set().contains(id)) by {
                    if few.contains(id) {
                        let j = choose|j: int| 0 <= j < few.len() && few[j] == id;
                        assert(ids@[j] == ids@[i as int]);
                    }
                }
                assert forall|other: u64| more.to_set().contains(other) <==> few.to_set().contains(
                    other,
                ) || other == id by {
                    if few.contains(other) {
                        let j = choose|j: int| 0 <= j < few.len() && few[j] == other;
                        assert(more[j] == other);
                    }
                    assert(more[i as int] == id);
                }
            }
            if let Some(promise) = self.pending.remove(&id) {
                notices.push(
                    Notice { guard: promise.give_up(), outcome: Err(RequestError::Shutdown) },
                );
            }
            i = i + 1;
            assert(self.pending@ =~= before.pending.remove_keys(ids@.take(i as int).to_set()));
        }
        proof {
            assert(ids@.take(ids.len() as int) =~= ids@);
            assert(self.pending@ =~= Map::empty());
            assert forall|id: u64| #[trigger] before.pending.contains_key(id) implies notices@.contains(
                Notice { guard: before.pending[id].guard(), outcome: Err(RequestError::Shutdown) },
            ) by {
                assert(ids@.contains(id));
                let j = choose|j: int| 0 <= j < ids.len() && ids@[j] == id;
                assert(notices@[j].guard == before.pending[id].guard());
            }
            assert forall|j: int| 0 <= j < notices.len() implies before.owes_shutdown(
                #[trigger] notices@[j],
            ) by {
                assert(ids@.contains(ids@[j]));
            }
        }
        notices
    }
}

} // verus!
