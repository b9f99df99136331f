//! Items that wait to be sent.

use crate::ids::{ChannelId, Id, IoId};
use bytes::Bytes;
use tokio::sync::OwnedSemaphorePermit;
use vstd::prelude::*;

verus! {

/// A permit of a `tokio` semaphore, whose inside stays hidden.
#[verifier::external_type_specification]
#[verifier::external_body]
pub struct ExOwnedSemaphorePermit(OwnedSemaphorePermit);

/// An item to be sent to the peer.
#[derive(Debug)]
#[allow(inconsistent_fields)]
pub enum QueuedItem {
    /// A request.
    Request {
        /// The channel to send it on.
        channel: ChannelId,
        /// Its local identifier.
        io_id: IoId,
        /// Its payload, if any.
        payload: Option<Bytes>,
        /// The buffer space it occupies.
        permit: OwnedSemaphorePermit,
    },
    /// A cancellation of one of our requests.
    RequestCancellation {
        /// The local identifier of the request.
        io_id: IoId,
    },
    /// A response to a request of the peer.
    Response {
        /// The channel of the request.
        channel: ChannelId,
        /// The identifier of the request.
        id: Id,
        /// The payload of the response, if any.
        payload: Option<Bytes>,
    },
    /// A refusal to answer a request of the peer.
    ResponseCancellation {
        /// The channel of the request.
        channel: ChannelId,
        /// The identifier of the request.
        id: Id,
    },
    /// An error that ends the connection.
    Error {
        /// The channel that the error is reported on.
        channel: ChannelId,
        /// The identifier that the error is reported on.
        id: Id,
        /// The data of the error.
        payload: Bytes,
    },
}

impl QueuedItem {
    /// The payload of the item, if it has any.
    pub open spec fn payload(self) -> Option<Bytes> {
        match self {
            QueuedItem::Request { payload, .. } => payload,
            QueuedItem::Response { payload, .. } => payload,
            QueuedItem::Error { payload, .. } => Some(payload),
            QueuedItem::RequestCancellation { .. } => None,
            QueuedItem::ResponseCancellation { .. } => None,
        }
    }

    /// Recovers the payload of the item.
    pub fn into_payload(self) -> (payload: Option<Bytes>)
        ensures
            payload == self.payload(),
        opens_invariants none
    {
        match self {
            QueuedItem::Request { payload, .. } => payload,
            QueuedItem::Response { payload, .. } => payload,
            QueuedItem::Error { payload, .. } => Some(payload),
            QueuedItem::RequestCancellation { .. } => None,
            QueuedItem::ResponseCancellation { .. } => None,
        }
    }
}

/// Requests, responses and errors have the payload that they were made with, cancellations have
/// none.
pub proof fn items_have_their_payload(
    channel: ChannelId,
    id: Id,
    io_id: IoId,
    payload: Option<Bytes>,
    data: Bytes,
    permit: OwnedSemaphorePermit,
)
    ensures
        (QueuedItem::Request { channel, io_id, payload, permit }).payload() == payload,
        (QueuedItem::Response { channel, id, payload }).payload() == payload,
        (QueuedItem::Error { channel, id, payload: data }).payload() == Some(data),
        (QueuedItem::RequestCancellation { io_id }).payload() is None,
        (QueuedItem::ResponseCancellation { channel, id }).payload() is None,
{
}

} // verus!
