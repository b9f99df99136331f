//! The two ends of a connection: what drives it, and what feeds it.

use crate::ids::{ChannelId, Id, IoId};
use crate::io::handle::{semaphore_size, Handle, RequestHandle};
use crate::io::item::QueuedItem;
use crate::protocol::{JulietProtocol, LocalProtocolViolation};
use bytes::Bytes;
use tokio::sync::mpsc::{unbounded_channel, UnboundedReceiver, UnboundedSender};
use vstd::prelude::*;

verus! {

/// The receiving half of an unbounded channel of `tokio`, whose inside stays hidden.
#[verifier::external_type_specification]
#[verifier::external_body]
#[verifier::reject_recursive_types(T)]
pub struct ExUnboundedReceiver<T>(UnboundedReceiver<T>);

/// An input or output error of the operating system, whose inside stays hidden.
#[verifier::external_type_specification]
#[verifier::external_body]
pub struct ExIoError(std::io::Error);

/// A sender into the channel that a receiver receives from.
pub uninterp spec fn queue_source(receiver: UnboundedReceiver<QueuedItem>) -> UnboundedSender<
    QueuedItem,
>;

/// `unbounded_channel`: the two halves of a new channel for items.
#[verifier::external_body]
fn queue_channel() -> (res: (UnboundedSender<QueuedItem>, UnboundedReceiver<QueuedItem>))
    ensures
        queue_source(res.1) == res.0,
{
    unbounded_channel()
}

/// An error that ends the connection.
#[derive(Debug)]
pub enum CoreError {
    /// Reading from the peer failed.
    ReadFailed(std::io::Error),
    /// Writing to the peer failed.
    WriteFailed(std::io::Error),
    /// The peer did not accept an error message in time.
    ErrorWriteTimeout,
    /// The protocol was violated locally.
    LocalProtocolViolation(LocalProtocolViolation),
}

/// Something that arrived from the peer.
#[derive(Debug)]
#[allow(inconsistent_fields)]
pub enum IoEvent {
    /// A request.
    NewRequest {
        /// The channel that the request arrived on.
        channel: ChannelId,
        /// The identifier that the peer chose for the request.
        id: Id,
        /// The payload of the request, if any.
        payload: Option<Bytes>,
    },
    /// A cancellation of a request of the peer.
    RequestCancelled {
        /// The channel of the request.
        channel: ChannelId,
        /// The identifier of the request.
        id: Id,
    },
    /// A response to one of our requests.
    ReceivedResponse {
        /// The local identifier of the request.
        io_id: IoId,
        /// The payload of the response, if any.
        payload: Option<Bytes>,
    },
    /// A refusal to answer one of our requests.
    ReceivedCancellationResponse {
        /// The local identifier of the request.
        io_id: IoId,
    },
}

/// What the driver of a connection works on.
#[derive(Debug)]
pub struct IoCore<const N: usize, R, W> {
    /// The protocol state.
    pub juliet: JulietProtocol<N>,
    /// The items to be sent.
    pub queue: UnboundedReceiver<QueuedItem>,
    /// What is read from the peer.
    pub reader: R,
    /// What is written to the peer.
    pub writer: W,
}

/// Builder for the two ends of a connection with `N` channels.
#[derive(Clone, Copy, Debug)]
pub struct IoCoreBuilder<const N: usize> {
    /// The protocol state that a connection begins with.
    protocol: JulietProtocol<N>,
    /// The number of requests that can be buffered on every channel.
    buffer_size: usize,
}

impl<const N: usize> IoCoreBuilder<N> {
    #[verifier::type_invariant]
    spec fn wf(self) -> bool {
        self.buffer_size <= usize::MAX / 8
    }

    /// The protocol state that a connection begins with.
    pub closed spec fn protocol(self) -> JulietProtocol<N> {
        self.protocol
    }

    /// The number of requests that can be buffered on every channel.
    pub closed spec fn buffer_size(self) -> usize {
        self.buffer_size
    }

    /// Creates a builder with space for a single request on every channel.
    pub fn new(protocol: JulietProtocol<N>) -> (builder: Self)
        ensures
            builder.protocol() == protocol,
            builder.buffer_size() == 1,
    {
        IoCoreBuilder { protocol, buffer_size: 1 }
    }

    /// Creates a builder with space for the given number of requests on every channel.
    pub fn with_default_buffer_size(protocol: JulietProtocol<N>, buffer_size: usize) -> (builder:
        Self)
        requires
            buffer_size <= usize::MAX / 8,
        ensures
            builder.protocol() == protocol,
            builder.buffer_size() == buffer_size,
    {
        IoCoreBuilder { protocol, buffer_size }
    }

    /// Creates the two ends of a connection.
    pub fn build<R, W>(&self, reader: R, writer: W) -> (res: (IoCore<N, R, W>, RequestHandle<N>))
        ensures
            res.0.juliet == self.protocol(),
            res.0.reader == reader,
            res.0.writer == writer,
            res.1.target() == (Handle { sender: queue_source(res.0.queue) }),
            forall|channel: ChannelId|
                channel.0 < N ==> semaphore_size(
                    #[trigger] res.1.buffer(channel),
                ) == self.buffer_size(),
    {
        proof {
            use_type_invariant(self);
        }
        let (sender, queue) = queue_channel();
        let core = IoCore { juliet: self.protocol, queue, reader, writer };
        (core, RequestHandle::new(Handle { sender }, self.buffer_size))
    }
}

} // verus!
