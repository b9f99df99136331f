//! Requests of the peer.

use crate::ids::{ChannelId, Id};
use crate::io::handle::{EnqueueError, Handle};
use crate::io::item::QueuedItem;
use crate::payload::bytes_view;
use crate::text::{append_decimal, decimal};
use bytes::Bytes;
use vstd::prelude::*;
use vstd::string::StringExecFns;

verus! {

/// An incoming request from a peer.
///
/// Every request should be answered using either the [`IncomingRequest::cancel()`] or
/// [`IncomingRequest::respond()`] methods.
#[derive(Debug)]
#[must_use]
pub struct IncomingRequest {
    /// Channel the request was sent on.
    channel: ChannelId,
    /// Id chosen by peer for the request.
    id: Id,
    /// Payload attached to request.
    payload: Option<Bytes>,
    /// Handle to send a reply, as long as none has been sent.
    handle: Option<Handle>,
}

/// What an incoming request holds.
pub ghost struct IncomingRequestView {
    pub channel: ChannelId,
    pub id: Id,
    pub payload: Option<Bytes>,
    pub handle: Option<Handle>,
}

impl View for IncomingRequest {
    type V = IncomingRequestView;

    closed spec fn view(&self) -> IncomingRequestView {
        IncomingRequestView {
            channel: self.channel,
            id: self.id,
            payload: self.payload,
            handle: self.handle,
        }
    }
}

impl IncomingRequestView {
    /// The text that describes the request.
    pub open spec fn description(self) -> Seq<char> {
        "IncomingRequest { channel: "@ + decimal(self.channel.0 as nat) + ", id: "@ + decimal(
            self.id.0 as nat,
        ) + ", payload: "@ + match self.payload {
            Some(payload) => decimal(bytes_view(payload).len()) + " bytes }"@,
            None => "none>"@,
        }
    }

    /// The request once it has been answered.
    pub open spec fn answered(self) -> IncomingRequestView {
        IncomingRequestView { handle: None, ..self }
    }

    /// What a response with the given payload is, unless the request has been answered.
    pub open spec fn response(self, payload: Option<Bytes>) -> Option<Answer> {
        match self.handle {
            Some(handle) => Some(
                Answer {
                    handle,
                    channel: self.channel,
                    id: self.id,
                    reply: Reply::Response(payload),
                },
            ),
            None => None,
        }
    }

    /// What a cancellation is, unless the request has been answered.
    pub open spec fn cancellation(self) -> Option<Answer> {
        match self.handle {
            Some(handle) => Some(
                Answer {
                    handle,
                    channel: self.channel,
                    id: self.id,
                    reply: Reply::Cancellation,
                },
            ),
            None => None,
        }
    }
}

/// What a request of the peer is answered.
#[derive(Debug)]
pub enum Reply {
    /// A response with an optional payload.
    Response(Option<Bytes>),
    /// A refusal to answer.
    Cancellation,
}

/// The one answer to a request of the peer, and where to hand it over for sending.
#[derive(Debug)]
pub struct Answer {
    /// The handle to hand the answer over by.
    pub handle: Handle,
    /// The channel of the request.
    pub channel: ChannelId,
    /// The identifier of the request.
    pub id: Id,
    /// What the request is answered.
    pub reply: Reply,
}

impl Answer {
    /// What goes to the peer.
    pub open spec fn item(self) -> QueuedItem {
        match self.reply {
            Reply::Response(payload) => QueuedItem::Response {
                channel: self.channel,
                id: self.id,
                payload,
            },
            Reply::Cancellation => QueuedItem::ResponseCancellation {
                channel: self.channel,
                id: self.id,
            },
        }
    }

    /// Whether the answer is handed over for sending, provided that the connection is open.
    pub open spec fn sent(self) -> bool {
        self.handle.enqueues(self.item()) || self.handle.closes()
    }

    /// Hands the answer over for sending. If the connection has been closed, it is discarded.
    pub fn send(self)
        ensures
            self.sent(),
        opens_invariants self.handle.may_enqueue(self.item())
    {
        let res = match self.reply {
            Reply::Response(payload) => self.handle.enqueue_response(
                self.channel,
                self.id,
                payload,
            ),
            Reply::Cancellation => self.handle.enqueue_response_cancellation(
                self.channel,
                self.id,
            ),
        };
        if let Err(err) = res {
            match err {
                EnqueueError::Closed(_) => {
                    // Do nothing, just discard the response.
                },
                EnqueueError::BufferLimitHit(_) => {
                    // Responses take no buffer space.
                    assert(false);
                },
            }
        }
    }
}

/// What a function may do that sends nothing but the given answer, if there is one.
pub open spec fn may_send_if_any(answer: Option<Answer>) -> Set<int> {
    match answer {
        Some(answer) => answer.handle.may_enqueue(answer.item()),
        None => Set::empty(),
    }
}

/// Whether an answer is sent, if there is one.
pub open spec fn sent_if_any(answer: Option<Answer>) -> bool {
    answer matches Some(answer) ==> answer.sent()
}

impl IncomingRequest {
    /// Creates a request that is to be answered through the given handle.
    pub fn new(channel: ChannelId, id: Id, payload: Option<Bytes>, handle: Handle) -> (request:
        Self)
        ensures
            request@ == (IncomingRequestView { channel, id, payload, handle: Some(handle) }),
        opens_invariants none
    {
        IncomingRequest { channel, id, payload, handle: Some(handle) }
    }

    /// Returns a text that describes the request.
    pub fn describe(&self) -> (text: String)
        ensures
            text@ == self@.description(),
    {
        let mut text = String::new();
        text.append("IncomingRequest { channel: ");
        append_decimal(&mut text, self.channel.0 as u64);
        text.append(", id: ");
        append_decimal(&mut text, self.id.0 as u64);
        text.append(", payload: ");
        match &self.payload {
            Some(payload) => {
                append_decimal(&mut text, payload.len() as u64);
                text.append(" bytes }");
            },
            None => {
                text.append("none>");
            },
        }
        assert(text@ =~= self@.description());
        text
    }

    /// Returns the [`ChannelId`] of the channel the request arrived on.
    pub fn channel(&self) -> (channel: ChannelId)
        ensures
            channel == self@.channel,
        opens_invariants none
    {
        self.channel
    }

    /// Returns the [`Id`] of the request.
    pub fn id(&self) -> (id: Id)
        ensures
            id == self@.id,
        opens_invariants none
    {
        self.id
    }

    /// Returns a reference to the payload, if any.
    pub fn payload(&self) -> (payload: &Option<Bytes>)
        ensures
            *payload == self@.payload,
        opens_invariants none
    {
        &self.payload
    }

    /// Returns a mutable reference to the payload, if any.
    ///
    /// Typically used in conjunction with [`Option::take()`].
    pub fn payload_mut(&mut self) -> (payload: &mut Option<Bytes>)
        ensures
            *payload == old(self)@.payload,
            final(self)@ == (IncomingRequestView { payload: *final(payload), ..old(self)@ }),
        opens_invariants none
    {
        &mut self.payload
    }

    /// Enqueue a response to be sent out.
    ///
    /// The response will contain the specified `payload`, sent on a best effort basis. Responses
    /// will never be rejected on a basis of memory.
    pub fn respond(self, payload: Option<Bytes>)
        ensures
            sent_if_any(self@.response(payload)),
        opens_invariants may_send_if_any(self@.response(payload))
    {
        let mut request = self;
        request.do_respond(payload);
    }

    /// Enqueue a response to be sent out, unless the request has been answered before.
    pub fn do_respond(&mut self, payload: Option<Bytes>)
        ensures
            final(self)@ == old(self)@.answered(),
            sent_if_any(old(self)@.response(payload)),
        opens_invariants may_send_if_any(old(self)@.response(payload))
    {
        if let Some(answer) = self.take_response(payload) {
            answer.send();
        }
    }

    /// Answers the request: returns the response that is to be sent, unless the request has been
    /// answered before.
    pub fn take_response(&mut self, payload: Option<Bytes>) -> (answer: Option<Answer>)
        ensures
            final(self)@ == old(self)@.answered(),
            answer == old(self)@.response(payload),
        opens_invariants none
    {
        let mut handle: Option<Handle> = None;
        std::mem::swap(&mut handle, &mut self.handle);
        match handle {
            Some(handle) => Some(
                Answer {
                    handle,
                    channel: self.channel,
                    id: self.id,
                    reply: Reply::Response(payload),
                },
            ),
            None => None,
        }
    }

    /// Cancel the request.
    ///
    /// This will cause a cancellation to be sent back.
    pub fn cancel(self)
        ensures
            sent_if_any(self@.cancellation()),
        opens_invariants may_send_if_any(self@.cancellation())
    {
        let mut request = self;
        request.do_cancel();
    }

    /// Send a cancellation back, unless the request has been answered before.
    pub fn do_cancel(&mut self)
        ensures
            final(self)@ == old(self)@.answered(),
            sent_if_any(old(self)@.cancellation()),
        opens_invariants may_send_if_any(old(self)@.cancellation())
    {
        if let Some(answer) = self.take_cancellation() {
            answer.send();
        }
    }

    /// Answers the request: returns the cancellation that is to be sent, unless the request has
    /// been answered before.
    pub fn take_cancellation(&mut self) -> (answer: Option<Answer>)
        ensures
            final(self)@ == old(self)@.answered(),
            answer == old(self)@.cancellation(),
        opens_invariants none
    {
        let mut handle: Option<Handle> = None;
        std::mem::swap(&mut handle, &mut self.handle);
        match handle {
            Some(handle) => Some(
                Answer {
                    handle,
                    channel: self.channel,
                    id: self.id,
                    reply: Reply::Cancellation,
                },
            ),
            None => None,
        }
    }
}

} // verus!
