//! The handle of a server to its connection.

use crate::ids::{ChannelId, Id, IoId};
use crate::io::handle::{EnqueueError, Handle, RequestTicket};
use crate::io::item::QueuedItem;
use crate::rpc::incoming::{IncomingRequest, IncomingRequestView};
use bytes::Bytes;
use vstd::prelude::*;

verus! {

/// The handle of a server to its connection, which counts how often it is used.
///
/// The count gives away every use: where it grows by as many as there are items that are known to
/// have been handed over, nothing else was.
#[derive(Debug)]
pub struct Outbox {
    handle: Handle,
    uses: u64,
}

/// The count after some more uses. It starts over when it has run out.
pub open spec fn uses_after(uses: u64, more: nat) -> u64
    decreases more,
{
    if more == 0 {
        uses
    } else if uses_after(uses, (more - 1) as nat) == u64::MAX {
        0
    } else {
        (uses_after(uses, (more - 1) as nat) + 1) as u64
    }
}

impl Outbox {
    /// The handle behind the outbox.
    pub closed spec fn handle(self) -> Handle {
        self.handle
    }

    /// How often the outbox has been used.
    pub closed spec fn uses(self) -> u64 {
        self.uses
    }

    /// Creates an outbox that has not been used.
    pub fn new(handle: Handle) -> (outbox: Self)
        ensures
            outbox.handle() == handle,
            outbox.uses() == 0,
        opens_invariants none
    {
        Outbox { handle, uses: 0 }
    }

    /// Counts a use.
    fn count(&mut self)
        ensures
            final(self).handle() == old(self).handle(),
            final(self).uses() == uses_after(old(self).uses(), 1),
        opens_invariants none
    {
        reveal_with_fuel(uses_after, 2);
        self.uses = if self.uses == u64::MAX {
            0
        } else {
            self.uses + 1
        };
    }

    /// Hands over a request for which buffer space has been reserved.
    pub fn send_request(&mut self, ticket: RequestTicket, payload: Option<Bytes>) -> (res: Result<
        IoId,
        Option<Bytes>,
    >)
        ensures
            final(self).handle() == old(self).handle(),
            final(self).uses() == uses_after(old(self).uses(), 1),
            match res {
                Ok(io_id) => {
                    &&& io_id == ticket.io_id
                    &&& old(self).handle().enqueues(
                        QueuedItem::Request {
                            channel: ticket.channel,
                            io_id: ticket.io_id,
                            payload,
                            permit: ticket.permit,
                        },
                    )
                },
                Err(refused) => refused == payload && old(self).handle().closes(),
            },
        opens_invariants old(self).handle().may_enqueue(
            QueuedItem::Request {
                channel: ticket.channel,
                io_id: ticket.io_id,
                payload,
                permit: ticket.permit,
            },
        )
    {
        self.count();
        self.handle.enqueue_request(ticket, payload)
    }

    /// Hands over a cancellation of one of our requests.
    pub fn send_cancellation(&mut self, io_id: IoId) -> (res: Result<(), EnqueueError>)
        ensures
            final(self).handle() == old(self).handle(),
            final(self).uses() == uses_after(old(self).uses(), 1),
            match res {
                Ok(()) => old(self).handle().enqueues(QueuedItem::RequestCancellation { io_id }),
                Err(error) => error == EnqueueError::Closed(None) && old(self).handle().closes(),
            },
        opens_invariants old(self).handle().may_enqueue(QueuedItem::RequestCancellation { io_id })
    {
        self.count();
        self.handle.enqueue_request_cancellation(io_id)
    }

    /// Gives a request of the peer a handle to be answered by.
    pub fn receive(&mut self, channel: ChannelId, id: Id, payload: Option<Bytes>) -> (request:
        IncomingRequest)
        ensures
            request@ == (IncomingRequestView {
                channel,
                id,
                payload,
                handle: Some(old(self).handle()),
            }),
            final(self).handle() == old(self).handle(),
            final(self).uses() == uses_after(old(self).uses(), 1),
    {
        self.count();
        IncomingRequest::new(channel, id, payload, self.handle.clone())
    }
}

/// The count of uses gives away every use, unless there are as many as it can count.
pub proof fn uses_are_counted(uses: u64, more: nat)
    ensures
        uses_after(uses, more) == (uses + more) % 0x1_0000_0000_0000_0000,
        0 < more <= u64::MAX ==> uses_after(uses, more) != uses,
    decreases more,
{
    if more > 0 {
        uses_are_counted(uses, (more - 1) as nat);
    }
}

} // verus!
