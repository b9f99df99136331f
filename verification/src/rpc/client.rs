//! Making requests.

use crate::ids::ChannelId;
use crate::io::handle::{
    permit_origin, semaphore_closes, semaphore_runs_out, RequestHandle, RequestTicket,
    ReservationError,
};
use crate::rpc::clock::{instant_after, is_reading, read_clock};
use crate::rpc::error::RequestError;
use crate::rpc::guard::{may_offer, Canceller, Notice, RequestGuard, RequestGuardInner};
use crate::rpc::promise::Promise;
use bytes::Bytes;
use std::sync::Arc;
use std::time::Duration;
use tokio::sync::mpsc::{unbounded_channel, UnboundedReceiver, UnboundedSender};
use tokio::time::Instant;
use vstd::prelude::*;

verus! {

/// A new outgoing request on its way to the server.
#[derive(Debug)]
pub struct NewOutgoingRequest {
    /// The already reserved ticket.
    pub ticket: RequestTicket,
    /// The duty to store the results in the guard of the request.
    pub guard: Promise,
    /// Payload of the request.
    pub payload: Option<Bytes>,
    /// When the request is supposed to time out.
    pub expires: Option<Instant>,
}

impl NewOutgoingRequest {
    /// The notice that the request is owed if it is never sent: it gets its payload back.
    pub open spec fn refusal(self) -> Notice {
        Notice {
            guard: self.guard.guard(),
            outcome: Err(RequestError::RemoteClosed(self.payload)),
        }
    }

    /// Whether the request gets its payload back, and is offered nothing else instead.
    pub open spec fn refused(self) -> bool {
        &&& self.refusal().delivered()
        &&& self.guard.kept(Err(RequestError::RemoteClosed(self.payload)))
    }

    /// Gives up on sending the request. Returns the notice that it is owed.
    pub fn refuse(self) -> (notice: Notice)
        ensures
            notice == self.refusal(),
        opens_invariants none
    {
        Notice {
            guard: self.guard.give_up(),
            outcome: Err(RequestError::RemoteClosed(self.payload)),
        }
    }

    /// Gives up on sending the request, and informs it.
    pub fn turn_down(self)
        ensures
            self.refused(),
        opens_invariants may_offer(
            self.guard.guard().outcome,
            Err(RequestError::RemoteClosed(self.payload)),
        )
    {
        self.guard.keep(Err(RequestError::RemoteClosed(self.payload)));
    }
}

/// What a new outgoing request is made of.
#[derive(Debug)]
pub struct RequestDraft {
    /// The already reserved ticket.
    pub ticket: RequestTicket,
    /// Request guard to store results.
    pub guard: Arc<RequestGuardInner>,
    /// Payload of the request.
    pub payload: Option<Bytes>,
    /// When the request is supposed to time out.
    pub expires: Option<Instant>,
}

impl RequestDraft {
    /// The notice that the request is owed if it is never sent: it gets its payload back.
    pub open spec fn refusal(self) -> Notice {
        Notice { guard: self.guard, outcome: Err(RequestError::RemoteClosed(self.payload)) }
    }

    /// The request that is sent to the server, with the duty to settle it.
    pub open spec fn with_promise(self, promise: Promise) -> NewOutgoingRequest {
        NewOutgoingRequest {
            ticket: self.ticket,
            guard: promise,
            payload: self.payload,
            expires: self.expires,
        }
    }

    /// Gives up on sending the request. Returns the notice that it is owed.
    pub fn refuse(self) -> (notice: Notice)
        ensures
            notice == self.refusal(),
        opens_invariants none
    {
        Notice { guard: self.guard, outcome: Err(RequestError::RemoteClosed(self.payload)) }
    }

    /// Turns the draft into the request that is sent to the server, with the duty to settle it.
    pub fn seal(self, promise: Promise) -> (request: NewOutgoingRequest)
        ensures
            request == self.with_promise(promise),
        opens_invariants none
    {
        NewOutgoingRequest {
            ticket: self.ticket,
            guard: promise,
            payload: self.payload,
            expires: self.expires,
        }
    }
}

/// The requests that the channel behind a sender takes in over its life, through any of its
/// senders.
pub uninterp spec fn requests_accepted(sender: UnboundedSender<NewOutgoingRequest>) -> Set<
    NewOutgoingRequest,
>;

/// Whether the receiving half of the channel behind a sender closes at some time.
pub uninterp spec fn requests_close(sender: UnboundedSender<NewOutgoingRequest>) -> bool;

/// A sender into the channel that a receiver receives from.
pub uninterp spec fn requests_source(
    receiver: UnboundedReceiver<NewOutgoingRequest>,
) -> UnboundedSender<NewOutgoingRequest>;

/// `unbounded_channel`: the two halves of a new channel for requests.
#[verifier::external_body]
pub(crate) fn requests_channel() -> (res: (
    UnboundedSender<NewOutgoingRequest>,
    UnboundedReceiver<NewOutgoingRequest>,
))
    ensures
        requests_source(res.1) == res.0,
{
    unbounded_channel()
}

/// `UnboundedSender::send`: puts a request into the channel, or hands it back if the receiving
/// half has been closed.
#[verifier::external_body]
fn requests_send(sender: &UnboundedSender<NewOutgoingRequest>, request: NewOutgoingRequest) -> (res:
    Result<(), NewOutgoingRequest>)
    ensures
        match res {
            Ok(()) => requests_accepted(*sender).contains(request),
            Err(refused) => refused == request && requests_close(*sender),
        },
{
    sender.send(request).map_err(|err| err.0)
}

/// Juliet RPC client.
///
/// The client is used to create new RPC calls through [`JulietRpcClient::create_request`].
#[derive(Debug)]
pub struct JulietRpcClient<const N: usize> {
    /// Sender for requests to be send through.
    pub new_request_sender: UnboundedSender<NewOutgoingRequest>,
    /// Handle to the connection.
    pub request_handle: RequestHandle<N>,
    /// Default timeout for requests.
    pub default_timeout: Option<Duration>,
}

impl<const N: usize> Clone for JulietRpcClient<N> {
    fn clone(&self) -> (res: Self)
        ensures
            res == *self,
    {
        JulietRpcClient {
            new_request_sender: self.new_request_sender.clone(),
            request_handle: self.request_handle.clone(),
            default_timeout: self.default_timeout,
        }
    }
}

impl<const N: usize> JulietRpcClient<N> {
    /// Creates a new RPC request builder.
    ///
    /// The returned builder can be used to create a single request on the given channel.
    pub fn create_request<'a>(&'a self, channel: ChannelId) -> (builder: JulietRpcRequestBuilder<
        'a,
        N,
    >)
        ensures
            builder.client() == *self,
            builder.channel() == channel,
            builder.payload() is None,
            builder.timeout() == self.default_timeout,
        opens_invariants none
    {
        JulietRpcRequestBuilder {
            client: self,
            channel,
            payload: None,
            timeout: self.default_timeout,
        }
    }
}

/// Builder for an outgoing RPC request.
///
/// Once configured, it can be sent using either
/// [`queue_for_sending`](JulietRpcRequestBuilder::queue_for_sending) or
/// [`try_queue_for_sending`](JulietRpcRequestBuilder::try_queue_for_sending), returning a
/// [`RequestGuard`], which can be used to await the results of the request.
#[derive(Debug)]
pub struct JulietRpcRequestBuilder<'a, const N: usize> {
    client: &'a JulietRpcClient<N>,
    channel: ChannelId,
    payload: Option<Bytes>,
    timeout: Option<Duration>,
}

/// When a request made at the given time expires: never without a timeout, otherwise the timeout
/// later. It is an error if there is no such time.
pub open spec fn expiry(timeout: Option<Duration>, now: Instant) -> Result<
    Option<Instant>,
    RequestError,
> {
    match timeout {
        Some(timeout) => match instant_after(now, timeout) {
            Some(expires) => Ok(Some(expires)),
            None => Err(RequestError::TimeoutOverflow(timeout)),
        },
        None => Ok(None),
    }
}

/// Returns when a request made at the given time with the given timeout expires.
pub fn expiry_of(timeout: Option<Duration>, now: Instant) -> (res: Result<
    Option<Instant>,
    RequestError,
>)
    ensures
        res == expiry(timeout, now),
    opens_invariants none
{
    match timeout {
        Some(timeout) => expiry_at(timeout, now.checked_add(timeout)),
        None => Ok(None),
    }
}

/// Returns when a request with the given timeout expires, given the point in time that lies the
/// timeout after it was made, if there is one.
pub fn expiry_at(timeout: Duration, end: Option<Instant>) -> (res: Result<
    Option<Instant>,
    RequestError,
>)
    ensures
        res == match end {
            Some(expires) => Ok::<Option<Instant>, RequestError>(Some(expires)),
            None => Err::<Option<Instant>, RequestError>(RequestError::TimeoutOverflow(timeout)),
        },
    opens_invariants none
{
    match end {
        Some(expires) => Ok(Some(expires)),
        // The timeout is so high that the resulting `Instant` would overflow.
        None => Err(RequestError::TimeoutOverflow(timeout)),
    }
}

/// Returns the guard for a request that the server took in, or the payload of which it refused.
pub fn guard_for(inner: Arc<RequestGuardInner>, sent: Result<(), Option<Bytes>>) -> (guard:
    RequestGuard)
    ensures
        match sent {
            Ok(()) => guard.inner == inner,
            Err(payload) => guard.failed_with(RequestError::RemoteClosed(payload)),
        },
{
    match sent {
        Ok(()) => RequestGuard { inner },
        Err(payload) => RequestGuard::new_error(RequestError::RemoteClosed(payload)),
    }
}

impl<'a, const N: usize> JulietRpcRequestBuilder<'a, N> {
    /// The client that makes the request.
    pub closed spec fn client(self) -> JulietRpcClient<N> {
        *self.client
    }

    /// The channel of the request.
    pub closed spec fn channel(self) -> ChannelId {
        self.channel
    }

    /// The payload of the request.
    pub closed spec fn payload(self) -> Option<Bytes> {
        self.payload
    }

    /// The timeout of the request.
    pub closed spec fn timeout(self) -> Option<Duration> {
        self.timeout
    }

    /// What is sent to the server for the request, or why nothing is.
    pub open spec fn outgoing(
        self,
        ticket: RequestTicket,
        guard: Arc<RequestGuardInner>,
        now: Instant,
    ) -> Result<RequestDraft, RequestError> {
        match expiry(self.timeout(), now) {
            Ok(expires) => Ok(RequestDraft { ticket, guard, payload: self.payload(), expires }),
            Err(error) => Err(error),
        }
    }

    /// How the request can be cancelled when it is made with the given ticket.
    pub open spec fn canceller(self, ticket: RequestTicket) -> Canceller {
        Canceller { handle: self.client().request_handle.target(), io_id: ticket.io_id }
    }

    /// Whether a guard stands for the request, made with the given ticket at the given time: the
    /// server has taken in the request and reports to the guard, or is gone, or nothing could be
    /// sent to it.
    pub open spec fn makes_at(
        self,
        ticket: RequestTicket,
        now: Instant,
        guard: RequestGuard,
    ) -> bool {
        match self.outgoing(ticket, guard.inner, now) {
            Ok(draft) => {
                ||| guard.inner.awaiting() && guard.inner.canceller == Some(
                    self.canceller(ticket),
                ) && requests_accepted(self.client().new_request_sender).contains(
                    draft.with_promise(Promise::fresh(guard.inner)),
                )
                ||| requests_close(self.client().new_request_sender) && guard.failed_with(
                    RequestError::RemoteClosed(self.payload()),
                )
            },
            Err(error) => guard.failed_with(error),
        }
    }

    /// Whether a guard stands for the request, made with the given ticket at a time that was read from
    /// the clock.
    pub open spec fn makes(self, ticket: RequestTicket, guard: RequestGuard) -> bool {
        exists|now: Instant| is_reading(now) && #[trigger] self.makes_at(ticket, now, guard)
    }

    /// Recovers a payload from the request builder.
    pub fn into_payload(self) -> (payload: Option<Bytes>)
        ensures
            payload == self.payload(),
        opens_invariants none
    {
        self.payload
    }

    /// Sets the payload for the request.
    ///
    /// By default, no payload is included.
    pub fn with_payload(self, payload: Bytes) -> (builder: Self)
        ensures
            builder.client() == self.client(),
            builder.channel() == self.channel(),
            builder.payload() == Some(payload),
            builder.timeout() == self.timeout(),
        opens_invariants none
    {
        JulietRpcRequestBuilder { payload: Some(payload), ..self }
    }

    /// Sets the timeout for the request.
    ///
    /// By default, the default timeout of the client applies.
    pub fn with_timeout(self, timeout: Duration) -> (builder: Self)
        ensures
            builder.client() == self.client(),
            builder.channel() == self.channel(),
            builder.payload() == self.payload(),
            builder.timeout() == Some(timeout),
        opens_invariants none
    {
        JulietRpcRequestBuilder { timeout: Some(timeout), ..self }
    }

    /// Schedules a new request on an outgoing channel, once the attempt to reserve buffer space
    /// for it has come to an end.
    ///
    /// There is no reservation if the connection was closed.
    pub fn queue_for_sending(self, reservation: Option<RequestTicket>) -> (guard: RequestGuard)
        ensures
            match reservation {
                Some(ticket) => self.makes(ticket, guard),
                None => guard.failed_with(RequestError::RemoteClosed(self.payload())),
            },
    {
        match reservation {
            Some(ticket) => self.do_enqueue_request(ticket),
            // We cannot queue the request, since the connection was closed.
            None => RequestGuard::new_error(RequestError::RemoteClosed(self.payload)),
        }
    }

    /// Schedules a new request on an outgoing channel if space is available.
    ///
    /// If no space is available, returns the [`JulietRpcRequestBuilder`] as an `Err` value, so it
    /// can be retried later.
    pub fn try_queue_for_sending(self) -> (res: Result<RequestGuard, Self>)
        requires
            self.channel().0 < N,
        ensures
            match res {
                Ok(guard) => {
                    ||| semaphore_closes(self.client().request_handle.buffer(self.channel()))
                        && guard.failed_with(RequestError::RemoteClosed(self.payload()))
                    ||| exists|ticket: RequestTicket|
                        {
                            &&& ticket.channel == self.channel()
                            &&& permit_origin(ticket.permit)
                                == self.client().request_handle.buffer(self.channel())
                            &&& #[trigger] self.makes(ticket, guard)
                        }
                },
                Err(builder) => builder == self && semaphore_runs_out(
                    self.client().request_handle.buffer(self.channel()),
                ),
            },
    {
        let reservation = self.client.request_handle.try_reserve_request(self.channel);
        self.queue_reserved(reservation)
    }

    /// Schedules a new request, given what came of the attempt to reserve buffer space for it.
    pub fn queue_reserved(self, reservation: Result<RequestTicket, ReservationError>) -> (res:
        Result<RequestGuard, Self>)
        ensures
            match reservation {
                Ok(ticket) => res matches Ok(guard) && self.makes(ticket, guard),
                Err(ReservationError::Closed) => res matches Ok(guard) && guard.failed_with(
                    RequestError::RemoteClosed(self.payload()),
                ),
                Err(ReservationError::NoBufferSpaceAvailable) => res == Err::<RequestGuard, Self>(
                    self,
                ),
            },
    {
        match reservation {
            Ok(ticket) => Ok(self.do_enqueue_request(ticket)),
            Err(ReservationError::Closed) => Ok(
                RequestGuard::new_error(RequestError::RemoteClosed(self.payload)),
            ),
            Err(ReservationError::NoBufferSpaceAvailable) => Err(self),
        }
    }

    /// Sends the request to the server.
    fn do_enqueue_request(self, ticket: RequestTicket) -> (guard: RequestGuard)
        ensures
            self.makes(ticket, guard),
    {
        self.enqueue_request_at(ticket, read_clock())
    }

    /// Sends the request to the server at the given time.
    pub fn enqueue_request_at(self, ticket: RequestTicket, now: Instant) -> (guard: RequestGuard)
        ensures
            self.makes_at(ticket, now, guard),
    {
        let handle = self.client.request_handle.clone().downgrade();
        let (inner, promise) = Promise::new(handle, ticket.io_id);
        let sender = &self.client.new_request_sender;
        let request = match self.prepare(ticket, inner.clone(), now) {
            Ok(draft) => draft.seal(promise),
            Err(error) => {
                return RequestGuard::new_error(error);
            },
        };
        let sent = match requests_send(sender, request) {
            Ok(()) => Ok(()),
            Err(refused) => Err(refused.payload),
        };
        guard_for(inner, sent)
    }

    /// Returns what is to be sent to the server for the request, or why nothing is.
    pub fn prepare(self, ticket: RequestTicket, guard: Arc<RequestGuardInner>, now: Instant) -> (res:
        Result<RequestDraft, RequestError>)
        ensures
            res == self.outgoing(ticket, guard, now),
        opens_invariants none
    {
        // If a timeout is set, calculate expiration time.
        match expiry_of(self.timeout, now) {
            Ok(expires) => Ok(RequestDraft { ticket, guard, payload: self.payload, expires }),
            Err(error) => Err(error),
        }
    }
}

} // verus!
