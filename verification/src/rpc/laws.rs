//! What holds of requests as a whole, from the time they are made until they have their outcome.

use crate::ids::IoId;
use crate::io::connection::IoEvent;
use crate::rpc::client::NewOutgoingRequest;
use crate::rpc::clock::nanos_between;
use crate::rpc::error::{same_outcome, Outcome, RequestError, RpcServerError};
use crate::rpc::guard::{cell_offers, Notice, RequestGuardInner};
use crate::rpc::heap::HeapItem;
use crate::rpc::incoming::IncomingRequestView;
use crate::rpc::promise::{kept_promises_inform, Owed, Promise};
use crate::rpc::server::{ahead, is_deadline, reached, request_ids, ServerView, Timeout};
use bytes::Bytes;
use tokio::time::Instant;
use vstd::multiset::Multiset;
use vstd::prelude::*;

verus! {

/// What is found to be the outcome of a request that waited for one is an outcome that was offered
/// to it.
pub proof fn outcomes_were_offered(inner: RequestGuardInner, found: Outcome)
    requires
        inner.awaiting(),
        inner.resolved(),
        same_outcome(found, inner.resolution()->0),
    ensures
        exists|value: Outcome| #[trigger] inner.offered(value) && same_outcome(found, value),
{
    assert(inner.offered(inner.resolution()->0));
}

/// An outcome wakes whoever waits for it: a request that waited for an outcome, and was offered one
/// and only once, has that outcome, and whoever waits is notified.
pub proof fn sole_offer_is_the_outcome(inner: RequestGuardInner, value: Outcome)
    requires
        inner.awaiting(),
        inner.informed(value),
        cell_offers(inner.outcome).len() == 1,
    ensures
        inner.resolution() == Some(value),
        inner.notified(),
{
    let offers = cell_offers(inner.outcome);
    let outcome = inner.resolution()->0;
    if outcome != value {
        let others = offers.remove(value);
        assert(others.len() == 0);
        assert(others.count(outcome) > 0);
        assert(others.contains(outcome));
        assert(others.remove(outcome).len() + 1 == others.len());
    }
}

/// A promise that is kept decides the outcome: unless somebody else put an outcome to the request
/// as well, such as whoever made it by cancelling it, the request has the outcome that the promise
/// was kept with, and whoever waits is notified.
pub proof fn kept_promises_decide(promise: Promise, inner: RequestGuardInner, value: Outcome)
    requires
        promise.kept(value),
        *promise.guard() == inner,
        inner.awaiting(),
        cell_offers(inner.outcome).len() == 1,
    ensures
        inner.resolution() == Some(value),
        inner.notified(),
{
    kept_promises_inform(promise, value);
    sole_offer_is_the_outcome(inner, value);
}

/// Cancelling a request that has no other outcome cancels it with the peer as well: a request that
/// was made, and was offered no outcome but its cancellation, ends as cancelled, and a cancellation
/// is handed over for sending as long as the connection is open.
pub proof fn cancelled_requests_are_withdrawn(inner: RequestGuardInner)
    requires
        inner.awaiting(),
        inner.cancelled(),
        cell_offers(inner.outcome).len() == 1,
    ensures
        inner.resolution() == Some(Outcome::Err(RequestError::Cancelled)),
        inner.notified(),
        inner.withdrawn(),
{
    sole_offer_is_the_outcome(inner, Err(RequestError::Cancelled));
}

/// Whoever looks for the outcome of a request finds the same one, at whatever time.
pub proof fn everyone_finds_the_same_outcome(
    inner: RequestGuardInner,
    found: Outcome,
    found_elsewhere: Outcome,
)
    requires
        inner.resolved(),
        same_outcome(found, inner.resolution()->0),
        same_outcome(found_elsewhere, inner.resolution()->0),
    ensures
        same_outcome(found, found_elsewhere),
{
}

/// A server that ends leaves no request without an outcome: neither those that are pending, nor
/// those that have not been taken up. If nothing else was offered to them, the former learn that
/// there is no reply any more, the latter get their payload back, and whoever waits is notified.
pub proof fn ending_settles_all_requests(server: ServerView, waiting: Seq<NewOutgoingRequest>)
    requires
        server.announces_shutdown(),
        forall|i: int| 0 <= i < waiting.len() ==> (#[trigger] waiting[i]).refusal().delivered(),
    ensures
        server.ended().pending == Map::<u64, Promise>::empty(),
        forall|id: u64| #[trigger]
            server.pending.contains_key(id) ==> ends_with(
                *server.pending[id].guard(),
                Err(RequestError::Shutdown),
            ),
        forall|i: int|
            0 <= i < waiting.len() ==> ends_with(
                *(#[trigger] waiting[i]).guard.guard(),
                Err(RequestError::RemoteClosed(waiting[i].payload)),
            ),
{
    assert forall|id: u64| #[trigger] server.pending.contains_key(id) implies ends_with(
        *server.pending[id].guard(),
        Err(RequestError::Shutdown),
    ) by {
        informed_requests_end(*server.pending[id].guard(), Err(RequestError::Shutdown));
    }
    assert forall|i: int| 0 <= i < waiting.len() implies ends_with(
        *(#[trigger] waiting[i]).guard.guard(),
        Err(RequestError::RemoteClosed(waiting[i].payload)),
    ) by {
        assert(waiting[i].refusal().delivered());
        informed_requests_end(
            *waiting[i].guard.guard(),
            Err(RequestError::RemoteClosed(waiting[i].payload)),
        );
    }
}

/// Whether a request has an outcome, which is the given one if nothing else was up for it, and of
/// which whoever waits is notified then.
pub open spec fn ends_with(inner: RequestGuardInner, value: Outcome) -> bool {
    &&& inner.resolved()
    &&& inner.awaiting() && cell_offers(inner.outcome).len() == 1 ==> inner.resolution() == Some(
        value,
    ) && inner.notified()
}

/// A request that is informed of an outcome ends with it.
proof fn informed_requests_end(inner: RequestGuardInner, value: Outcome)
    requires
        inner.informed(value),
    ensures
        ends_with(inner, value),
{
    if inner.awaiting() && cell_offers(inner.outcome).len() == 1 {
        sole_offer_is_the_outcome(inner, value);
    }
}

/// A request of the peer gets one answer: once it has been answered, there is neither a response
/// nor a cancellation to be sent.
pub proof fn requests_get_one_answer(request: IncomingRequestView, payload: Option<Bytes>)
    ensures
        request.answered().response(payload) is None,
        request.answered().cancellation() is None,
        request.answered().answered() == request.answered(),
{
}

/// The earlier a request expires, the sooner it leaves the heap of timeouts.
pub proof fn earlier_timeouts_rank_higher(a: Timeout, b: Timeout)
    requires
        a.when < b.when,
    ensures
        a.rank() > b.rank(),
{
}

/// Once timeouts have been processed, none that is left has been reached, so that the next check
/// lies in the future.
pub proof fn next_check_lies_ahead(server: ServerView, now: u128, deadline: u128)
    requires
        is_deadline(server.after_timeouts(now).timeouts, now, deadline),
    ensures
        deadline > now,
        forall|t: Timeout| #[trigger]
            server.after_timeouts(now).timeouts.contains(t) ==> t.when > now && server.timeouts.contains(
                t,
            ),
{
    let left = ahead(server.timeouts, now);
    assert forall|t: Timeout| #[trigger] left.contains(t) implies t.when > now
        && server.timeouts.contains(t) by {
        assert(left.count(t) > 0);
    }
}

/// Nothing times out before the next check: until then all timeouts that are left lie ahead, and
/// only then, if there are any, the first of them is reached.
pub proof fn nothing_times_out_before_the_next_check(
    server: ServerView,
    now: u128,
    deadline: u128,
    later: u128,
)
    requires
        is_deadline(server.after_timeouts(now).timeouts, now, deadline),
    ensures
        later < deadline ==> server.after_timeouts(now).timed_out(later) == Set::<u64>::empty(),
        later < deadline ==> server.after_timeouts(now).after_timeouts(later)
            == server.after_timeouts(now),
        server.after_timeouts(now).timeouts != Multiset::<Timeout>::empty() ==> reached(
            server.after_timeouts(now).timeouts,
            deadline,
        ) != Multiset::<Timeout>::empty(),
{
    let after = server.after_timeouts(now);
    assert forall|t: Timeout| #[trigger] after.timeouts.contains(t) implies t.when >= deadline
        || after.timeouts == Multiset::<Timeout>::empty() by {}
    if later < deadline {
        let due = reached(after.timeouts, later);
        assert forall|t: Timeout| #[trigger] due.count(t) == 0 by {
            assert(after.timeouts.count(t) > 0 ==> after.timeouts.contains(t));
            if after.timeouts == Multiset::<Timeout>::empty() {
                assert(after.timeouts.count(t) == 0);
            }
        }
        assert(due =~= Multiset::<Timeout>::empty());
        assert(request_ids(due) =~= Set::<u64>::empty());
        assert(after.timed_out(later) =~= Set::<u64>::empty());
        assert(after.pending.remove_keys(Set::<u64>::empty()) =~= after.pending);
        assert forall|t: Timeout| #[trigger]
            ahead(after.timeouts, later).count(t) == after.timeouts.count(t) by {
            assert(due.count(t) == 0);
        }
        assert(ahead(after.timeouts, later) =~= after.timeouts);
    }
    if after.timeouts != Multiset::<Timeout>::empty() {
        let t = choose|t: Timeout| #[trigger] after.timeouts.contains(t) && t.when == deadline;
        assert(reached(after.timeouts, deadline).contains(t));
    }
}

/// How often timeouts are checked makes no difference: a check in between leads to the same state,
/// and to the same requests timing out, each at one of the two checks.
pub proof fn checks_add_up(server: ServerView, now: u128, later: u128)
    requires
        now <= later,
    ensures
        server.after_timeouts(now).after_timeouts(later) == server.after_timeouts(later),
        server.timed_out(later) == server.timed_out(now).union(
            server.after_timeouts(now).timed_out(later),
        ),
        server.timed_out(now).disjoint(server.after_timeouts(now).timed_out(later)),
{
    let after = server.after_timeouts(now);
    let all = request_ids(reached(server.timeouts, later));
    let first = request_ids(reached(server.timeouts, now));
    let second = request_ids(reached(after.timeouts, later));
    assert(ahead(after.timeouts, later) =~= ahead(server.timeouts, later));
    assert forall|id: u64| #[trigger] all.contains(id) <==> first.contains(id) || second.contains(
        id,
    ) by {
        if all.contains(id) {
            let t = choose|t: Timeout| #[trigger]
                reached(server.timeouts, later).contains(t) && t.io_id.0 == id;
            assert(reached(server.timeouts, now).contains(t) || reached(
                after.timeouts,
                later,
            ).contains(t));
        }
        if first.contains(id) {
            let t = choose|t: Timeout| #[trigger]
                reached(server.timeouts, now).contains(t) && t.io_id.0 == id;
            assert(reached(server.timeouts, later).contains(t));
        }
        if second.contains(id) {
            let t = choose|t: Timeout| #[trigger]
                reached(after.timeouts, later).contains(t) && t.io_id.0 == id;
            assert(reached(server.timeouts, later).contains(t));
        }
    }
    assert(after.pending.remove_keys(second) =~= server.pending.remove_keys(all));
    assert(server.timed_out(later) =~= server.timed_out(now).union(after.timed_out(later)));
}

/// Timeouts bubble up exactly when they are meant to: a turn fails if and only if bubbling is
/// enabled and a request has timed out.
pub proof fn only_bubbled_timeouts_are_fatal(
    server: ServerView,
    now: u128,
    turn: Result<u128, RpcServerError>,
    next: ServerView,
)
    requires
        server.turns(now, turn, next),
        server.pending.dom().finite(),
    ensures
        turn is Err <==> server.bubble_timeouts && exists|id: u64| #[trigger]
            server.timed_out(now).contains(id),
{
    let lost = server.timed_out(now);
    if lost.len() > 0 {
        assert(lost.contains(lost.choose()));
    }
    if exists|id: u64| #[trigger] lost.contains(id) {
        let id = choose|id: u64| #[trigger] lost.contains(id);
        assert(lost.remove(id).len() + 1 == lost.len());
    }
}

/// A request that has timed out does so once: processing timeouts again at the same time changes
/// nothing and finds no request to time out.
pub proof fn requests_time_out_once(server: ServerView, now: u128)
    ensures
        server.after_timeouts(now).after_timeouts(now) == server.after_timeouts(now),
        server.after_timeouts(now).timed_out(now) == Set::<u64>::empty(),
{
    let after = server.after_timeouts(now);
    assert(reached(after.timeouts, now) =~= Multiset::<Timeout>::empty());
    assert(ahead(after.timeouts, now) =~= after.timeouts);
    assert(request_ids(reached(after.timeouts, now)) =~= Set::<u64>::empty());
    assert(after.pending.remove_keys(Set::<u64>::empty()) =~= after.pending);
    assert(after.timed_out(now) =~= Set::<u64>::empty());
}

/// Timeouts only touch requests that have timed out: all others stay pending.
pub proof fn other_requests_stay_pending(server: ServerView, now: u128, id: u64)
    ensures
        server.after_timeouts(now).pending.contains_key(id) <==> server.pending.contains_key(id)
            && !server.timed_out(now).contains(id),
        server.after_timeouts(now).pending.contains_key(id) ==> server.after_timeouts(
            now,
        ).pending[id] == server.pending[id],
{
}

/// A request times out exactly when its time has come: with a timeout, at the first check that is
/// not before its expiry, and without one never.
pub proof fn requests_time_out_in_time(
    server: ServerView,
    io_id: IoId,
    guard: Promise,
    expires: Option<Instant>,
    now: u128,
)
    requires
        !request_ids(server.timeouts).contains(io_id.0),
    ensures
        server.started(io_id, guard, expires).timed_out(now).contains(io_id.0) <==> (
        expires matches Some(expires) && nanos_between(server.origin, expires) <= now),
{
    let started = server.started(io_id, guard, expires);
    let due = reached(started.timeouts, now);
    if request_ids(due).contains(io_id.0) {
        let t = choose|t: Timeout| #[trigger] due.contains(t) && t.io_id.0 == io_id.0;
        assert(started.timeouts.contains(t) && t.when <= now);
        if server.timeouts.contains(t) {
            assert(request_ids(server.timeouts).contains(io_id.0));
        }
    }
    if let Some(expires) = expires {
        let t = Timeout { when: nanos_between(server.origin, expires), io_id };
        assert(started.timeouts.contains(t));
        if t.when <= now {
            assert(due.contains(t));
        }
    }
}

/// A request that is made does not change when others time out.
pub proof fn new_requests_leave_others_alone(
    server: ServerView,
    io_id: IoId,
    guard: Promise,
    expires: Option<Instant>,
    now: u128,
    other: u64,
)
    requires
        other != io_id.0,
    ensures
        server.started(io_id, guard, expires).pending.contains_key(other)
            <==> server.pending.contains_key(other),
        server.pending.contains_key(other) ==> server.started(io_id, guard, expires).pending[other]
            == server.pending[other],
        server.started(io_id, guard, expires).timed_out(now).contains(other) <==> server.timed_out(
            now,
        ).contains(other),
{
    let started = server.started(io_id, guard, expires);
    let due = reached(started.timeouts, now);
    let due_before = reached(server.timeouts, now);
    if request_ids(due).contains(other) {
        let t = choose|t: Timeout| #[trigger] due.contains(t) && t.io_id.0 == other;
        assert(due_before.contains(t));
    }
    if request_ids(due_before).contains(other) {
        let t = choose|t: Timeout| #[trigger] due_before.contains(t) && t.io_id.0 == other;
        assert(due.contains(t));
    }
}

/// A response is meant for the guard of the request that it answers, and the request is no longer
/// pending then.
pub proof fn responses_reach_their_request(
    server: ServerView,
    io_id: IoId,
    guard: Promise,
    expires: Option<Instant>,
    payload: Option<Bytes>,
)
    ensures
        ({
            let started = server.started(io_id, guard, expires);
            let response = IoEvent::ReceivedResponse { io_id, payload };
            &&& started.notice_of(response) == Some(
                Notice { guard: guard.guard(), outcome: Ok(payload) },
            )
            &&& started.owed_by(response) == Some(Owed { promise: guard, outcome: Ok(payload) })
            &&& !started.after_event(response).pending.contains_key(io_id.0)
        }),
        ({
            let started = server.started(io_id, guard, expires);
            let refusal = IoEvent::ReceivedCancellationResponse { io_id };
            &&& started.notice_of(refusal) == Some(
                Notice { guard: guard.guard(), outcome: Err(RequestError::RemoteCancelled) },
            )
            &&& started.owed_by(refusal) == Some(
                Owed { promise: guard, outcome: Err(RequestError::RemoteCancelled) },
            )
            &&& !started.after_event(refusal).pending.contains_key(io_id.0)
        }),
{
}

/// Whether a server gets from one state to another in a single step: a turn begins, a client makes
/// a request under an identifier that no pending request has, something arrives from the peer, or
/// the server ends.
pub open spec fn steps(before: ServerView, after: ServerView) -> bool {
    ||| exists|now: u128, turn: Result<u128, RpcServerError>| #[trigger]
        before.turns(now, turn, after)
    ||| exists|request: NewOutgoingRequest| #[trigger]
        before.takes_up(request, after) && !before.pending.contains_key(request.ticket.io_id.0)
    ||| exists|event: IoEvent| #[trigger]
        before.handles(event) && after == before.after_event(event)
    ||| before.announces_shutdown() && after == before.ended()
}

/// No request is lost: after a step, a request that was pending is still pending with the same
/// guard, or its guard has an outcome.
pub proof fn requests_leave_with_an_outcome(before: ServerView, after: ServerView, id: u64)
    requires
        steps(before, after),
        before.pending.contains_key(id),
    ensures
        after.pending.contains_key(id) && after.pending[id] == before.pending[id]
            || before.pending[id].guard().resolved(),
{
    if exists|now: u128, turn: Result<u128, RpcServerError>| #[trigger]
        before.turns(now, turn, after) {
        let (now, turn) = choose|now: u128, turn: Result<u128, RpcServerError>| #[trigger]
            before.turns(now, turn, after);
        if !after.pending.contains_key(id) {
            assert(before.timed_out(now).contains(id));
        }
    }
}

/// A request that a client makes is not lost either: it is pending with its guard, or its guard is
/// informed that it was refused, or has an outcome already.
pub proof fn new_requests_are_kept_or_refused(
    before: ServerView,
    request: NewOutgoingRequest,
    after: ServerView,
)
    requires
        before.takes_up(request, after),
    ensures
        ({
            let id = request.ticket.io_id.0;
            ||| after.pending.contains_key(id) && after.pending[id] == request.guard
            ||| request.refusal().delivered()
            ||| request.guard.guard().resolved()
        }),
{
}

/// What arrives for a request that is not pending is ignored, be it that the request has been
/// answered before or has timed out.
pub proof fn late_responses_are_ignored(server: ServerView, io_id: IoId, payload: Option<Bytes>)
    requires
        !server.pending.contains_key(io_id.0),
    ensures
        server.after_event(IoEvent::ReceivedResponse { io_id, payload }) == server,
        server.notice_of(IoEvent::ReceivedResponse { io_id, payload }) is None,
        server.after_event(IoEvent::ReceivedCancellationResponse { io_id }) == server,
        server.notice_of(IoEvent::ReceivedCancellationResponse { io_id }) is None,
{
    assert(server.pending.remove(io_id.0) =~= server.pending);
}

/// A request that was answered in time does not time out any more.
pub proof fn answered_requests_do_not_time_out(server: ServerView, io_id: IoId, now: u128)
    ensures
        !server.settled(io_id).timed_out(now).contains(io_id.0),
{
}

} // verus!
