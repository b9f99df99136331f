//! What the terms mean in which requests are spoken of.

use crate::ids::{ChannelId, Id, IoId};
use crate::io::connection::IoEvent;
use crate::io::handle::{send_name, Handle, RequestTicket};
use crate::io::item::QueuedItem;
use crate::payload::bytes_view;
use crate::rpc::client::{
    expiry, requests_accepted, requests_close, JulietRpcRequestBuilder, NewOutgoingRequest,
    RequestDraft,
};
use crate::rpc::clock::{instant_after, is_reading, nanos_between};
use crate::rpc::error::{Outcome, RequestError, RpcServerError};
use crate::rpc::guard::{
    cell_made_full, cell_offers, cell_value, may_offer, notifier_notified, offer_name, Canceller,
    Notice, RequestGuard, RequestGuardInner,
};
use crate::rpc::heap::HeapItem;
use crate::rpc::incoming::{
    may_send_if_any, sent_if_any, Answer, IncomingRequestView, Reply,
};
use crate::rpc::outbox::uses_after;
use crate::rpc::promise::{Owed, Promise};
use crate::rpc::server::{
    is_deadline, reached, request_ids, JulietRpcServer, ServerView, TimedOut, Timeout,
};
use crate::text::decimal;
use bytes::Bytes;
use std::time::Duration;
use tokio::time::Instant;
use vstd::multiset::Multiset;
use vstd::prelude::*;

verus! {

/// The outcome of a request is the value that its cell takes. A request waits for its outcome if it
/// can be notified and its cell was made empty. It is informed of an outcome only if that was put to
/// its cell, which has a value then, and only if it is notified, unless it was not alone in being
/// put to the cell.
pub proof fn requests_are_informed_through_their_cell(inner: RequestGuardInner, value: Outcome)
    ensures
        inner.resolution() == cell_value(inner.outcome),
        inner.offered(value) <==> cell_offers(inner.outcome).count(value) > 0,
        inner.awaiting() <==> inner.ready is Some && !cell_made_full(inner.outcome),
        inner.contested() <==> cell_made_full(inner.outcome) || cell_offers(inner.outcome).len()
            >= 2,
        inner.notified() <==> (inner.ready matches Some(ready) ==> notifier_notified(ready)),
        inner.resolved() <==> cell_value(inner.outcome) is Some && (cell_made_full(inner.outcome)
            || cell_offers(inner.outcome).count(cell_value(inner.outcome)->0) > 0),
        inner.informed(value) ==> {
            &&& cell_value(inner.outcome) is Some
            &&& cell_offers(inner.outcome).count(value) > 0
            &&& cell_made_full(inner.outcome) || cell_offers(inner.outcome).count(
                cell_value(inner.outcome)->0,
            ) > 0
            &&& !cell_made_full(inner.outcome) && cell_offers(inner.outcome).len() < 2 ==> (
            inner.ready matches Some(ready) ==> notifier_notified(ready))
        },
        may_offer(inner.outcome, value) == set![offer_name(inner.outcome, value)],
{
}

/// A request that is cancelled is informed of it, and unless another outcome is put to it, the peer
/// is sent a cancellation of that very request as long as the connection is open. Cancelling may do
/// nothing else.
pub proof fn cancelling_tells_both_sides(guard: RequestGuard, handle: Handle, io_id: IoId)
    requires
        guard.inner.canceller == Some(Canceller { handle, io_id }),
    ensures
        guard.inner.cancelled() ==> {
            &&& guard.inner.informed(Err(RequestError::Cancelled))
            &&& !cell_made_full(guard.inner.outcome) && cell_offers(guard.inner.outcome).len() < 2
                ==> handle.enqueues(QueuedItem::RequestCancellation { io_id }) || handle.closes()
        },
        (Canceller { handle, io_id }).sent() <==> handle.enqueues(
            QueuedItem::RequestCancellation { io_id },
        ) || handle.closes(),
        guard.inner.withdrawn() <==> (Canceller { handle, io_id }).sent(),
        guard.may_cancel() == set![
            offer_name(guard.inner.outcome, Outcome::Err(RequestError::Cancelled)),
            send_name(handle.sender, QueuedItem::RequestCancellation { io_id }),
        ],
        guard.inner.may_withdraw(false) == Set::<int>::empty(),
        guard.inner.may_withdraw(true) == set![
            send_name(handle.sender, QueuedItem::RequestCancellation { io_id }),
        ],
{
    assert(guard.may_cancel() =~= set![
        offer_name(guard.inner.outcome, Outcome::Err(RequestError::Cancelled)),
        send_name(handle.sender, QueuedItem::RequestCancellation { io_id }),
    ]);
}

/// A request that failed from the start has its error for good, and cannot be waited for or
/// cancelled. A notice is delivered only if its request is informed of its outcome.
pub proof fn failures_are_final(guard: RequestGuard, error: RequestError, notice: Notice)
    ensures
        guard.failed_with(error) <==> {
            &&& cell_made_full(guard.inner.outcome)
            &&& cell_value(guard.inner.outcome) == Some(Outcome::Err(error))
            &&& guard.inner.ready is None
            &&& guard.inner.canceller is None
        },
        notice.delivered() <==> notice.guard.informed(notice.outcome),
{
}

/// A request of the peer is produced, whatever its channel, identifier and payload, with a handle of
/// the server to be answered by. Nothing else that arrives is, and nothing but a request needs a
/// handle.
pub proof fn peer_requests_are_produced(
    server: ServerView,
    channel: ChannelId,
    id: Id,
    payload: Option<Bytes>,
    io_id: IoId,
)
    ensures
        server.produced(IoEvent::NewRequest { channel, id, payload }) == Some(
            IncomingRequestView { channel, id, payload, handle: Some(server.handle) },
        ),
        server.produced(IoEvent::RequestCancelled { channel, id }) is None,
        server.produced(IoEvent::ReceivedResponse { io_id, payload }) is None,
        server.produced(IoEvent::ReceivedCancellationResponse { io_id }) is None,
        server.uses_for(IoEvent::NewRequest { channel, id, payload }) == 1,
        server.uses_for(IoEvent::RequestCancelled { channel, id }) == 0,
        server.uses_for(IoEvent::ReceivedResponse { io_id, payload }) == 0,
        server.uses_for(IoEvent::ReceivedCancellationResponse { io_id }) == 0,
{
}

/// Requests of the peer and their cancellations leave our own requests alone.
pub proof fn peer_requests_settle_nothing(
    server: ServerView,
    channel: ChannelId,
    id: Id,
    payload: Option<Bytes>,
)
    ensures
        server.after_event(IoEvent::NewRequest { channel, id, payload }) == server,
        server.notice_of(IoEvent::NewRequest { channel, id, payload }) is None,
        server.owed_by(IoEvent::NewRequest { channel, id, payload }) is None,
        server.after_event(IoEvent::RequestCancelled { channel, id }) == server,
        server.notice_of(IoEvent::RequestCancelled { channel, id }) is None,
        server.owed_by(IoEvent::RequestCancelled { channel, id }) is None,
{
}

/// A response settles the request that it belongs to, with the payload that it carries: the promise
/// to settle the request is kept with that and nothing else, if the request is pending. All other
/// requests stay as they are, and so do all timeouts.
pub proof fn responses_settle_with_their_payload(
    server: ServerView,
    io_id: IoId,
    payload: Option<Bytes>,
    other: u64,
)
    ensures
        ({
            let event = IoEvent::ReceivedResponse { io_id, payload };
            let next = server.after_event(event);
            &&& server.pending.contains_key(io_id.0) ==> {
                let promise = server.pending[io_id.0];
                &&& server.owed_by(event) == Some(Owed { promise, outcome: Ok(payload) })
                &&& server.notice_of(event) == Some(
                    Notice { guard: promise.guard(), outcome: Ok(payload) },
                )
                &&& server.handles(event) ==> promise.kept(Ok(payload))
                    && promise.guard().informed(Ok(payload))
            }
            &&& !next.pending.contains_key(io_id.0)
            &&& other != io_id.0 ==> (next.pending.contains_key(other)
                <==> server.pending.contains_key(other))
            &&& next.pending.contains_key(other) ==> next.pending[other] == server.pending[other]
            &&& next == (ServerView { pending: next.pending, ..server })
        }),
{
}

/// A refusal to answer settles the request that it belongs to as cancelled by the peer: the promise
/// to settle the request is kept with that and nothing else, if the request is pending. All other
/// requests stay as they are, and so do all timeouts.
pub proof fn refusals_settle_as_cancelled(server: ServerView, io_id: IoId, other: u64)
    ensures
        ({
            let event = IoEvent::ReceivedCancellationResponse { io_id };
            let next = server.after_event(event);
            &&& server.pending.contains_key(io_id.0) ==> {
                let promise = server.pending[io_id.0];
                let outcome = Outcome::Err(RequestError::RemoteCancelled);
                &&& server.owed_by(event) == Some(Owed { promise, outcome })
                &&& server.notice_of(event) == Some(Notice { guard: promise.guard(), outcome })
                &&& server.handles(event) ==> promise.kept(outcome) && promise.guard().informed(
                    outcome,
                )
            }
            &&& !next.pending.contains_key(io_id.0)
            &&& other != io_id.0 ==> (next.pending.contains_key(other)
                <==> server.pending.contains_key(other))
            &&& next.pending.contains_key(other) ==> next.pending[other] == server.pending[other]
            &&& next == (ServerView { pending: next.pending, ..server })
        }),
{
}

/// The requests that time out are those that are pending and have a timeout that has been reached.
/// Only they leave: all others stay pending with the promise to settle them untouched, and all
/// timeouts that have not been reached stay.
pub proof fn only_reached_timeouts_count(server: ServerView, now: u128, id: u64, t: Timeout)
    ensures
        server.timed_out(now).contains(id) <==> server.pending.contains_key(id) && exists|
            due: Timeout,
        | #[trigger]
            server.timeouts.contains(due) && due.io_id.0 == id && due.when <= now,
        ({
            let next = server.after_timeouts(now);
            &&& next.pending.contains_key(id) <==> server.pending.contains_key(id)
                && !server.timed_out(now).contains(id)
            &&& next.pending.contains_key(id) ==> next.pending[id] == server.pending[id]
            &&& next.timeouts.count(t) == if t.when <= now {
                0
            } else {
                server.timeouts.count(t)
            }
            &&& next == (ServerView {
                pending: next.pending,
                timeouts: next.timeouts,
                ..server
            })
        }),
{
    let due = reached(server.timeouts, now);
    if request_ids(due).contains(id) {
        let t = choose|t: Timeout| #[trigger] due.contains(t) && t.io_id.0 == id;
        assert(server.timeouts.contains(t));
    }
    if exists|t: Timeout| #[trigger]
        server.timeouts.contains(t) && t.io_id.0 == id && t.when <= now {
        let t = choose|t: Timeout| #[trigger]
            server.timeouts.contains(t) && t.io_id.0 == id && t.when <= now;
        assert(due.contains(t));
    }
}

/// A request without a timeout, or whose timeouts lie ahead, does not time out.
pub proof fn requests_without_due_timeouts_stay(server: ServerView, now: u128, id: u64)
    requires
        server.pending.contains_key(id),
        forall|t: Timeout| #[trigger]
            server.timeouts.contains(t) && t.io_id.0 == id ==> t.when > now,
    ensures
        !server.timed_out(now).contains(id),
        server.after_timeouts(now).pending.contains_key(id),
        server.after_timeouts(now).pending[id] == server.pending[id],
{
    only_reached_timeouts_count(server, now, id, Timeout { when: 0, io_id: IoId(id) });
}

/// A request that times out is told so and nothing else, and the peer is sent a cancellation of it
/// as long as the connection is open.
pub proof fn timeouts_are_announced(server: ServerView, now: u128, id: u64)
    requires
        server.announces_timeouts(now),
        server.timed_out(now).contains(id),
    ensures
        server.pending[id].kept(Err(RequestError::TimedOut)),
        server.pending[id].guard().informed(Err(RequestError::TimedOut)),
        server.handle.enqueues(QueuedItem::RequestCancellation { io_id: IoId(id) })
            || server.handle.closes(),
{
}

/// The list of requests that have timed out has each of them once, with its own guard, and the
/// earlier ones first.
pub proof fn timed_out_requests_are_listed_once(
    server: ServerView,
    now: u128,
    list: Seq<TimedOut>,
    i: int,
    j: int,
    id: u64,
)
    requires
        server.lists_timed_out(now, list),
    ensures
        list.len() == server.timed_out(now).len(),
        0 <= i < list.len() ==> {
            &&& server.timed_out(now).contains(list[i].timeout.io_id.0)
            &&& list[i].guard == server.pending[list[i].timeout.io_id.0].guard()
            &&& server.timeouts.contains(list[i].timeout)
            &&& list[i].timeout.when <= now
        },
        0 <= i < j < list.len() ==> list[i].timeout.io_id != list[j].timeout.io_id
            && list[i].timeout.when <= list[j].timeout.when,
        server.timed_out(now).contains(id) ==> exists|k: int|
            0 <= k < list.len() && (#[trigger] list[k]).timeout.io_id.0 == id,
{
    if 0 <= i < list.len() {
        assert(reached(server.timeouts, now).contains(list[i].timeout));
    }
}

/// Timeouts are checked next when the first one is reached, or after an hour if there is none.
pub proof fn timeouts_are_checked_when_due(
    timeouts: Multiset<Timeout>,
    now: u128,
    deadline: u128,
    t: Timeout,
)
    requires
        is_deadline(timeouts, now, deadline),
    ensures
        timeouts.count(t) > 0 ==> deadline <= t.when,
        timeouts == Multiset::<Timeout>::empty() ==> deadline == now + 3600 * 1_000_000_000,
        timeouts != Multiset::<Timeout>::empty() ==> exists|first: Timeout| #[trigger]
            timeouts.contains(first) && first.when == deadline,
{
    assert(timeouts.count(t) > 0 ==> timeouts.contains(t));
    if timeouts == Multiset::<Timeout>::empty() {
        assert(timeouts.count(t) == 0);
    }
}

/// Timeouts are taken up in order of time, and those of the same time in order of their requests.
pub proof fn timeouts_rank_by_time(a: Timeout, b: Timeout)
    ensures
        a.rank() > b.rank() <==> a.when < b.when || a.when == b.when && a.io_id.0 < b.io_id.0,
{
}

/// A turn processes the timeouts that are due. It fails with their number exactly if there are any
/// and timeouts bubble up, and otherwise tells when to check again.
pub proof fn turns_end_early_only_on_bubbled_timeouts(
    server: ServerView,
    now: u128,
    turn: Result<u128, RpcServerError>,
    next: ServerView,
)
    requires
        server.turns(now, turn, next),
    ensures
        next == server.after_timeouts(now),
        server.announces_timeouts(now),
        match turn {
            Ok(deadline) => {
                &&& !server.bubble_timeouts || server.timed_out(now).len() == 0
                &&& is_deadline(next.timeouts, now, deadline)
            },
            Err(RpcServerError::FatalTimeout { count }) => {
                &&& server.bubble_timeouts
                &&& count > 0
                &&& count == server.timed_out(now).len()
            },
            Err(RpcServerError::CoreError(_)) => false,
        },
{
}

/// A request that is started is pending with the promise to settle it. If it expires, its timeout is
/// added, counted from the origin of the server's clock. All else stays as it was.
pub proof fn started_requests_are_pending(
    server: ServerView,
    io_id: IoId,
    promise: Promise,
    expires: Option<Instant>,
    other: u64,
    t: Timeout,
)
    ensures
        ({
            let next = server.started(io_id, promise, expires);
            &&& next.pending.contains_key(io_id.0)
            &&& next.pending[io_id.0] == promise
            &&& other != io_id.0 ==> (next.pending.contains_key(other)
                <==> server.pending.contains_key(other)) && (server.pending.contains_key(other)
                ==> next.pending[other] == server.pending[other])
            &&& next.timeouts.count(t) == server.timeouts.count(t) + if expires matches Some(end)
                && t.io_id == io_id && t.when == nanos_between(server.origin, end) {
                1nat
            } else {
                0
            }
            &&& next == (ServerView {
                pending: next.pending,
                timeouts: next.timeouts,
                ..server
            })
        }),
{
}

/// A request that is taken up goes out with its own channel, identifier, payload and permit and is
/// pending from then on, or the connection is closed and it gets its payload back and nothing else,
/// or it had its outcome before. Only in the first case anything changes.
pub proof fn requests_go_out_as_they_were_made(
    server: ServerView,
    request: NewOutgoingRequest,
    next: ServerView,
)
    requires
        server.takes_up(request, next),
    ensures
        ({
            let NewOutgoingRequest { ticket, guard, payload, expires } = request;
            let outcome = Outcome::Err(RequestError::RemoteClosed(payload));
            ||| next == server.started(ticket.io_id, guard, expires) && server.handle.enqueues(
                QueuedItem::Request {
                    channel: ticket.channel,
                    io_id: ticket.io_id,
                    payload,
                    permit: ticket.permit,
                },
            )
            ||| next == server && server.handle.closes() && guard.kept(outcome)
                && guard.guard().informed(outcome)
            ||| next == server && guard.settled_elsewhere() && guard.guard().resolved()
        }),
{
}

/// The handle of a server is used once to take up a request, and not at all only for one that had
/// its outcome before.
pub proof fn taking_up_uses_the_handle_once<const N: usize, R, W>(
    server: JulietRpcServer<N, R, W>,
    request: NewOutgoingRequest,
    next: JulietRpcServer<N, R, W>,
)
    requires
        server.uses_to_take_up(request, next),
    ensures
        next.uses() == server.uses() ==> request.guard.settled_elsewhere()
            && request.guard.guard().resolved() && next@ == server@,
        next.uses() != server.uses() ==> next.uses() == uses_after(server.uses(), 1),
{
    reveal_with_fuel(uses_after, 2);
}

/// A server that ends has no pending requests. Each that it had is told that there is no reply any
/// more, and nothing else.
pub proof fn ending_abandons_pending_requests(server: ServerView, id: u64)
    requires
        server.announces_shutdown(),
    ensures
        !server.ended().pending.contains_key(id),
        server.ended() == (ServerView { pending: server.ended().pending, ..server }),
        server.pending.contains_key(id) ==> {
            &&& server.pending[id].kept(Err(RequestError::Shutdown))
            &&& server.pending[id].guard().informed(Err(RequestError::Shutdown))
        },
{
}

/// A request that is never sent gets its own payload back, and nothing else.
pub proof fn refused_requests_get_their_payload_back(request: NewOutgoingRequest)
    ensures
        request.refused() <==> {
            let outcome = Outcome::Err(RequestError::RemoteClosed(request.payload));
            &&& request.guard.kept(outcome)
            &&& request.guard.guard().informed(outcome)
        },
        request.refusal() == (Notice {
            guard: request.guard.guard(),
            outcome: Err(RequestError::RemoteClosed(request.payload)),
        }),
{
}

/// The notices of a server that ends are one for each pending request, for its own guard, and tell
/// that there is no reply any more.
pub proof fn pending_requests_are_owed_an_end(
    server: ServerView,
    notices: Seq<Notice>,
    id: u64,
    i: int,
)
    requires
        server.lists_shutdown(notices),
    ensures
        notices.len() == server.pending.dom().len(),
        server.pending.contains_key(id) ==> exists|k: int|
            0 <= k < notices.len() && #[trigger] notices[k] == (Notice {
                guard: server.pending[id].guard(),
                outcome: Err(RequestError::Shutdown),
            }),
        0 <= i < notices.len() ==> notices[i].outcome == Outcome::Err(RequestError::Shutdown)
            && exists|other: u64| #[trigger]
            server.pending.contains_key(other) && server.pending[other].guard() == notices[i].guard,
{
    if server.pending.contains_key(id) {
        assert(notices.contains(
            Notice { guard: server.pending[id].guard(), outcome: Err(RequestError::Shutdown) },
        ));
    }
    if 0 <= i < notices.len() {
        assert(server.owes_shutdown(notices[i]));
    }
}

/// A request expires its timeout after it was made, and never without one. If there is no such time,
/// and only then, the timeout overflows.
pub proof fn requests_expire_after_their_timeout(timeout: Duration, now: Instant, end: Instant)
    ensures
        expiry(None, now) == Ok::<Option<Instant>, RequestError>(None),
        expiry(Some(timeout), now) == Ok::<_, RequestError>(Some(end)) <==> instant_after(
            now,
            timeout,
        ) == Some(end),
        expiry(Some(timeout), now) != Ok::<Option<Instant>, RequestError>(None),
        expiry(Some(timeout), now) == Err::<Option<Instant>, _>(
            RequestError::TimeoutOverflow(timeout),
        ) <==> instant_after(now, timeout) is None,
{
}

/// A request is made as it was asked for: with the ticket, the payload and the timeout that it was
/// given, and under a guard that waits for its outcome and can cancel it. It is not made only if its
/// timeout overflows, or the server is gone, and the guard tells which.
pub proof fn requests_are_made_as_asked<const N: usize>(
    builder: JulietRpcRequestBuilder<N>,
    ticket: RequestTicket,
    now: Instant,
    guard: RequestGuard,
)
    requires
        builder.makes_at(ticket, now, guard),
    ensures
        match expiry(builder.timeout(), now) {
            Ok(expires) => {
                ||| {
                    &&& guard.inner.awaiting()
                    &&& guard.inner.canceller == Some(
                        Canceller {
                            handle: builder.client().request_handle.target(),
                            io_id: ticket.io_id,
                        },
                    )
                    &&& requests_accepted(builder.client().new_request_sender).contains(
                        NewOutgoingRequest {
                            ticket,
                            guard: Promise::fresh(guard.inner),
                            payload: builder.payload(),
                            expires,
                        },
                    )
                }
                ||| {
                    &&& requests_close(builder.client().new_request_sender)
                    &&& guard.failed_with(RequestError::RemoteClosed(builder.payload()))
                }
            },
            Err(error) => guard.failed_with(error),
        },
        builder.outgoing(ticket, guard.inner, now) == match expiry(builder.timeout(), now) {
            Ok(expires) => Ok::<RequestDraft, RequestError>(
                RequestDraft { ticket, guard: guard.inner, payload: builder.payload(), expires },
            ),
            Err(error) => Err::<RequestDraft, RequestError>(error),
        },
        is_reading(now) ==> builder.makes(ticket, guard),
{
}

/// A draft becomes a request with the same parts, and gets its own payload back if it is not sent.
pub proof fn drafts_keep_their_parts(draft: RequestDraft, promise: Promise)
    ensures
        draft.with_promise(promise) == (NewOutgoingRequest {
            ticket: draft.ticket,
            guard: promise,
            payload: draft.payload,
            expires: draft.expires,
        }),
        draft.refusal() == (Notice {
            guard: draft.guard,
            outcome: Err(RequestError::RemoteClosed(draft.payload)),
        }),
{
}

/// A request of the peer that has not been answered is answered through its own handle, on its own
/// channel and with its own identifier, and nothing but that answer may be sent.
pub proof fn answers_go_back_to_their_request(
    request: IncomingRequestView,
    handle: Handle,
    payload: Option<Bytes>,
)
    requires
        request.handle == Some(handle),
    ensures
        ({
            let item = QueuedItem::Response { channel: request.channel, id: request.id, payload };
            &&& request.response(payload) == Some(
                Answer {
                    handle,
                    channel: request.channel,
                    id: request.id,
                    reply: Reply::Response(payload),
                },
            )
            &&& sent_if_any(request.response(payload)) <==> handle.enqueues(item)
                || handle.closes()
            &&& may_send_if_any(request.response(payload)) == set![send_name(handle.sender, item)]
        }),
        ({
            let item = QueuedItem::ResponseCancellation { channel: request.channel, id: request.id };
            &&& request.cancellation() == Some(
                Answer {
                    handle,
                    channel: request.channel,
                    id: request.id,
                    reply: Reply::Cancellation,
                },
            )
            &&& sent_if_any(request.cancellation()) <==> handle.enqueues(item) || handle.closes()
            &&& may_send_if_any(request.cancellation()) == set![send_name(handle.sender, item)]
        }),
        request.answered() == (IncomingRequestView { handle: None, ..request }),
{
}

/// A request that has been answered sends nothing any more.
pub proof fn answered_requests_stay_silent(request: IncomingRequestView, payload: Option<Bytes>)
    requires
        request.handle is None,
    ensures
        request.response(payload) is None,
        request.cancellation() is None,
        may_send_if_any(request.response(payload)) == Set::<int>::empty(),
        may_send_if_any(request.cancellation()) == Set::<int>::empty(),
{
}

/// The text that describes a request names its channel, its identifier, and the length of its
/// payload, if it has one.
pub proof fn descriptions_name_the_parts(request: IncomingRequestView)
    ensures
        request.description() == "IncomingRequest { channel: "@ + decimal(
            request.channel.0 as nat,
        ) + ", id: "@ + decimal(request.id.0 as nat) + ", payload: "@ + match request.payload {
            Some(payload) => decimal(bytes_view(payload).len()) + " bytes }"@,
            None => "none>"@,
        },
{
}

} // verus!
