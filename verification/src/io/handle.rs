//! Handles by which items are handed over for sending.

use crate::ids::{ChannelId, Id, IoId};
use crate::io::item::QueuedItem;
use bytes::Bytes;
use std::sync::atomic::AtomicU64;
use std::sync::Arc;
use tokio::sync::mpsc::UnboundedSender;
use tokio::sync::{OwnedSemaphorePermit, Semaphore, TryAcquireError};
use vstd::prelude::*;

verus! {

/// The sending half of an unbounded channel of `tokio`, whose inside stays hidden.
#[verifier::external_type_specification]
#[verifier::external_body]
#[verifier::reject_recursive_types(T)]
pub struct ExUnboundedSender<T>(UnboundedSender<T>);

/// A semaphore of `tokio`, whose inside stays hidden.
#[verifier::external_type_specification]
#[verifier::external_body]
pub struct ExSemaphore(Semaphore);

/// The items that the channel behind a sender takes in over its life, through any of its senders.
pub uninterp spec fn queue_accepts(sender: UnboundedSender<QueuedItem>) -> Set<QueuedItem>;

/// Whether the receiving half of the channel behind a sender closes at some time.
pub uninterp spec fn queue_closes(sender: UnboundedSender<QueuedItem>) -> bool;

/// The number of permits that a semaphore was made with.
pub uninterp spec fn semaphore_size(semaphore: Semaphore) -> nat;

/// Whether a semaphore is closed at some time.
pub uninterp spec fn semaphore_closes(semaphore: Semaphore) -> bool;

/// Whether a semaphore has no permit left at some time.
pub uninterp spec fn semaphore_runs_out(semaphore: Semaphore) -> bool;

/// The semaphore that a permit was taken from.
pub uninterp spec fn permit_origin(permit: OwnedSemaphorePermit) -> Semaphore;

/// A name for putting an item into a channel. Names of different items or channels are not known to
/// be the same.
pub closed spec fn send_name(sender: UnboundedSender<QueuedItem>, item: QueuedItem) -> int {
    arbitrary::<spec_fn(UnboundedSender<QueuedItem>, QueuedItem) -> int>()(sender, item)
}

/// What a function may do that puts nothing but the given item into a channel.
///
/// Putting an item into a channel through a shared reference leaves no trace that a contract could
/// speak of. It counts as opening an invariant of its own instead, so that what a function may put
/// into a channel is limited by the invariants that it may open.
pub open spec fn may_send(sender: UnboundedSender<QueuedItem>, item: QueuedItem) -> Set<int> {
    Set::empty().insert(send_name(sender, item))
}

/// `UnboundedSender::clone`: another sender into the same channel.
pub assume_specification<T>[ <UnboundedSender<T> as Clone>::clone ](
    sender: &UnboundedSender<T>,
) -> (res: UnboundedSender<T>)
    ensures
        res == *sender,
;

/// `UnboundedSender::send`: puts an item into the channel, or hands it back if the receiving half
/// has been closed.
#[verifier::external_body]
fn queue_send(sender: &UnboundedSender<QueuedItem>, item: QueuedItem) -> (res: Result<
    (),
    QueuedItem,
>)
    ensures
        match res {
            Ok(()) => queue_accepts(*sender).contains(item),
            Err(refused) => refused == item && queue_closes(*sender),
        },
    opens_invariants [send_name(*sender, item)]
{
    sender.send(item).map_err(|err| err.0)
}

/// `Semaphore::new`: a semaphore with the given number of permits. It panics if there are more
/// than an eighth of the machine's address space.
pub assume_specification[ Semaphore::new ](permits: usize) -> (semaphore: Semaphore)
    requires
        permits <= usize::MAX / 8,
    ensures
        semaphore_size(semaphore) == permits,
;

/// `Semaphore::try_acquire_owned`: a permit of the semaphore, or why there is none: the semaphore
/// has been closed, or has no permit left. Which of the three it is at the time of the call depends
/// on what others do with the semaphore and is not said.
#[verifier::external_body]
fn semaphore_try_acquire(semaphore: Arc<Semaphore>) -> (res: Result<
    OwnedSemaphorePermit,
    ReservationError,
>)
    ensures
        match res {
            Ok(permit) => permit_origin(permit) == *semaphore,
            Err(ReservationError::Closed) => semaphore_closes(*semaphore),
            Err(ReservationError::NoBufferSpaceAvailable) => semaphore_runs_out(*semaphore),
        },
{
    semaphore.try_acquire_owned().map_err(|err| match err {
        TryAcquireError::Closed => ReservationError::Closed,
        TryAcquireError::NoPermits => ReservationError::NoBufferSpaceAvailable,
    })
}

/// Why buffer space could not be reserved for a request.
#[derive(Clone, Copy, Debug, PartialEq, Eq, Structural)]
pub enum ReservationError {
    /// The buffer of the channel is full.
    NoBufferSpaceAvailable,
    /// The connection has been closed.
    Closed,
}

/// Why an item could not be handed over for sending. Holds the payload of the item.
#[derive(Debug)]
pub enum EnqueueError {
    /// The connection has been closed.
    Closed(Option<Bytes>),
    /// The buffer of the channel is full.
    BufferLimitHit(Option<Bytes>),
}

/// Buffer space reserved for a request.
#[derive(Debug)]
pub struct RequestTicket {
    /// The channel that the request is for.
    pub channel: ChannelId,
    /// The reserved buffer space.
    pub permit: OwnedSemaphorePermit,
    /// The local identifier of the request.
    pub io_id: IoId,
}

/// A handle to hand items over for sending.
#[derive(Debug)]
pub struct Handle {
    /// Where the items go.
    pub sender: UnboundedSender<QueuedItem>,
}

impl Clone for Handle {
    fn clone(&self) -> (res: Self)
        ensures
            res == *self,
    {
        Handle { sender: self.sender.clone() }
    }
}

impl Handle {
    /// Whether the item is among those handed over for sending.
    pub open spec fn enqueues(self, item: QueuedItem) -> bool {
        queue_accepts(self.sender).contains(item)
    }

    /// What a function may do that hands over nothing but the given item for sending.
    pub open spec fn may_enqueue(self, item: QueuedItem) -> Set<int> {
        may_send(self.sender, item)
    }

    /// Whether the connection stops taking items at some time.
    pub open spec fn closes(self) -> bool {
        queue_closes(self.sender)
    }

    /// Hands over a request for which buffer space has been reserved.
    ///
    /// Returns the identifier of the request, or its payload if the connection has been closed.
    pub fn enqueue_request(&self, ticket: RequestTicket, payload: Option<Bytes>) -> (res: Result<
        IoId,
        Option<Bytes>,
    >)
        ensures
            match res {
                Ok(io_id) => {
                    &&& io_id == ticket.io_id
                    &&& self.enqueues(
                        QueuedItem::Request {
                            channel: ticket.channel,
                            io_id: ticket.io_id,
                            payload,
                            permit: ticket.permit,
                        },
                    )
                },
                Err(refused) => refused == payload && self.closes(),
            },
        opens_invariants self.may_enqueue(
            QueuedItem::Request {
                channel: ticket.channel,
                io_id: ticket.io_id,
                payload,
                permit: ticket.permit,
            },
        )
    {
        let RequestTicket { channel, permit, io_id } = ticket;
        let item = QueuedItem::Request { channel, io_id, payload, permit };
        match queue_send(&self.sender, item) {
            Ok(()) => Ok(io_id),
            Err(refused) => Err(refused.into_payload()),
        }
    }

    /// Hands over an item that takes no buffer space.
    ///
    /// Gives the payload of the item back if the connection has been closed.
    fn enqueue(&self, item: QueuedItem) -> (res: Result<(), EnqueueError>)
        ensures
            match res {
                Ok(()) => self.enqueues(item),
                Err(error) => error == EnqueueError::Closed(item.payload()) && self.closes(),
            },
        opens_invariants self.may_enqueue(item)
    {
        match queue_send(&self.sender, item) {
            Ok(()) => Ok(()),
            Err(refused) => Err(EnqueueError::Closed(refused.into_payload())),
        }
    }

    /// Hands over a cancellation of one of our requests.
    pub fn enqueue_request_cancellation(&self, io_id: IoId) -> (res: Result<(), EnqueueError>)
        ensures
            match res {
                Ok(()) => self.enqueues(QueuedItem::RequestCancellation { io_id }),
                Err(error) => error == EnqueueError::Closed(None) && self.closes(),
            },
        opens_invariants self.may_enqueue(QueuedItem::RequestCancellation { io_id })
    {
        self.enqueue(QueuedItem::RequestCancellation { io_id })
    }

    /// Hands over a response to a request of the peer.
    pub fn enqueue_response(&self, channel: ChannelId, id: Id, payload: Option<Bytes>) -> (res:
        Result<(), EnqueueError>)
        ensures
            match res {
                Ok(()) => self.enqueues(QueuedItem::Response { channel, id, payload }),
                Err(error) => error == EnqueueError::Closed(payload) && self.closes(),
            },
        opens_invariants self.may_enqueue(QueuedItem::Response { channel, id, payload })
    {
        self.enqueue(QueuedItem::Response { channel, id, payload })
    }

    /// Hands over a refusal to answer a request of the peer.
    pub fn enqueue_response_cancellation(&self, channel: ChannelId, id: Id) -> (res: Result<
        (),
        EnqueueError,
    >)
        ensures
            match res {
                Ok(()) => self.enqueues(QueuedItem::ResponseCancellation { channel, id }),
                Err(error) => error == EnqueueError::Closed(None) && self.closes(),
            },
        opens_invariants self.may_enqueue(QueuedItem::ResponseCancellation { channel, id })
    {
        self.enqueue(QueuedItem::ResponseCancellation { channel, id })
    }
}

/// A handle that also reserves buffer space for requests on `N` channels.
#[derive(Debug)]
pub struct RequestHandle<const N: usize> {
    buffers: Arc<Vec<Arc<Semaphore>>>,
    next_io_id: Arc<AtomicU64>,
    handle: Handle,
}

impl<const N: usize> Clone for RequestHandle<N> {
    fn clone(&self) -> (res: Self)
        ensures
            res == *self,
    {
        proof {
            use_type_invariant(self);
        }
        RequestHandle {
            buffers: self.buffers.clone(),
            next_io_id: self.next_io_id.clone(),
            handle: self.handle.clone(),
        }
    }
}

impl<const N: usize> RequestHandle<N> {
    #[verifier::type_invariant]
    spec fn wf(self) -> bool {
        self.buffers@.len() == N
    }

    /// The buffer of a channel.
    pub closed spec fn buffer(self, channel: ChannelId) -> Semaphore {
        *self.buffers@[channel.0 as int]
    }

    /// Where the items go.
    pub closed spec fn target(self) -> Handle {
        self.handle
    }

    /// Creates a handle with the given buffer space on every channel.
    pub fn new(handle: Handle, buffer_size: usize) -> (res: Self)
        requires
            buffer_size <= usize::MAX / 8,
        ensures
            res.target() == handle,
            forall|channel: ChannelId|
                channel.0 < N ==> semaphore_size(#[trigger] res.buffer(channel)) == buffer_size,
    {
        let mut buffers: Vec<Arc<Semaphore>> = Vec::new();
        let mut i: usize = 0;
        while i < N
            invariant
                i <= N,
                buffers.len() == i,
                buffer_size <= usize::MAX / 8,
                forall|j: int| 0 <= j < i ==> semaphore_size(*#[trigger] buffers@[j]) == buffer_size,
            decreases N - i,
        {
            buffers.push(Arc::new(Semaphore::new(buffer_size)));
            i = i + 1;
        }
        RequestHandle {
            buffers: Arc::new(buffers),
            next_io_id: Arc::new(AtomicU64::new(0)),
            handle,
        }
    }

    /// Gives up the ability to reserve buffer space.
    pub fn downgrade(self) -> (handle: Handle)
        ensures
            handle == self.target(),
    {
        self.handle
    }

    /// Returns the buffer of a channel.
    pub fn semaphore(&self, channel: ChannelId) -> (semaphore: Arc<Semaphore>)
        requires
            channel.0 < N,
        ensures
            *semaphore == self.buffer(channel),
    {
        proof {
            use_type_invariant(self);
        }
        self.buffers[channel.get() as usize].clone()
    }

    /// Turns reserved buffer space into a ticket with the next identifier in line.
    ///
    /// Which identifier that is depends on how many others have drawn one and is not said.
    pub fn issue(&self, channel: ChannelId, permit: OwnedSemaphorePermit) -> (ticket: RequestTicket)
        ensures
            ticket.channel == channel,
            ticket.permit == permit,
    {
        let io_id: u64 = self.next_io_id.fetch_add(1, std::sync::atomic::Ordering::Relaxed);
        RequestTicket { channel, permit, io_id: IoId(io_id) }
    }

    /// Hands out a ticket, given what came of the attempt to reserve buffer space.
    pub fn issue_reserved(
        &self,
        channel: ChannelId,
        reserved: Result<OwnedSemaphorePermit, ReservationError>,
    ) -> (res: Result<RequestTicket, ReservationError>)
        ensures
            match reserved {
                Ok(permit) => res matches Ok(ticket) && ticket.channel == channel && ticket.permit
                    == permit,
                Err(error) => res == Err::<RequestTicket, _>(error),
            },
    {
        match reserved {
            Ok(permit) => Ok(self.issue(channel, permit)),
            Err(error) => Err(error),
        }
    }

    /// Reserves buffer space on a channel, if there is any left.
    ///
    /// Fails only if the buffer of the channel has been closed, or has no space left.
    pub fn try_reserve_request(&self, channel: ChannelId) -> (res: Result<
        RequestTicket,
        ReservationError,
    >)
        requires
            channel.0 < N,
        ensures
            match res {
                Ok(ticket) => ticket.channel == channel && permit_origin(ticket.permit)
                    == self.buffer(channel),
                Err(ReservationError::Closed) => semaphore_closes(self.buffer(channel)),
                Err(ReservationError::NoBufferSpaceAvailable) => semaphore_runs_out(
                    self.buffer(channel),
                ),
            },
    {
        let reserved = semaphore_try_acquire(self.semaphore(channel));
        self.issue_reserved(channel, reserved)
    }
}

/// A handle hands items over to its own channel, and closes with it. To hand over an item is to put
/// it into that channel, and is allowed for nothing else.
pub proof fn handles_feed_their_channel(handle: Handle, item: QueuedItem)
    ensures
        handle.enqueues(item) <==> queue_accepts(handle.sender).contains(item),
        handle.closes() <==> queue_closes(handle.sender),
        handle.may_enqueue(item) == set![send_name(handle.sender, item)],
        may_send(handle.sender, item) == set![send_name(handle.sender, item)],
{
}

} // verus!
