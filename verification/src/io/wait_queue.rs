//! The wait queue: items that cannot be sent yet.
//!
//! Requests wait while their channel is full, multi-frame messages wait while another multi-frame
//! message is being sent on their channel. Waiting items are kept in three lanes, so that finding
//! the next item that may be sent never has to skip over others. Every item carries a wait index,
//! by which the lanes can be merged back into the order of arrival.

use crate::ids::{ChannelId, Id, IoId};
use crate::io::item::QueuedItem;
use crate::payload::{payload_len, payload_len_spec};
use crate::protocol::{
    is_multi_frame, payload_is_multi_frame, Header, JulietProtocol, LocalProtocolViolation,
};
use bytes::Bytes;
use std::collections::VecDeque;
use tokio::sync::OwnedSemaphorePermit;
use vstd::prelude::*;

verus! {

/// A request in the wait queue that fits a single frame.
#[derive(Debug)]
struct SingleFrameRequest {
    wait_index: u64,
    channel: ChannelId,
    io_id: IoId,
    payload: Option<Bytes>,
    permit: OwnedSemaphorePermit,
}

/// A request in the wait queue that needs several frames.
#[derive(Debug)]
struct MultiFrameRequest {
    wait_index: u64,
    channel: ChannelId,
    io_id: IoId,
    payload: Option<Bytes>,
    permit: OwnedSemaphorePermit,
}

/// A response in the wait queue that needs several frames.
#[derive(Debug)]
struct MultiFrameResponse {
    wait_index: u64,
    channel: ChannelId,
    id: Id,
    payload: Option<Bytes>,
}

/// An item in the wait queue together with its wait index.
pub ghost struct Waiting {
    pub index: u64,
    pub item: QueuedItem,
}

impl SingleFrameRequest {
    spec fn waiting(self) -> Waiting {
        Waiting {
            index: self.wait_index,
            item: QueuedItem::Request {
                channel: self.channel,
                io_id: self.io_id,
                payload: self.payload,
                permit: self.permit,
            },
        }
    }
}

impl MultiFrameRequest {
    spec fn waiting(self) -> Waiting {
        Waiting {
            index: self.wait_index,
            item: QueuedItem::Request {
                channel: self.channel,
                io_id: self.io_id,
                payload: self.payload,
                permit: self.permit,
            },
        }
    }
}

impl MultiFrameResponse {
    spec fn waiting(self) -> Waiting {
        Waiting {
            index: self.wait_index,
            item: QueuedItem::Response {
                channel: self.channel,
                id: self.id,
                payload: self.payload,
            },
        }
    }
}

impl From<SingleFrameRequest> for QueuedItem {
    fn from(sf_req: SingleFrameRequest) -> (item: Self) {
        QueuedItem::Request {
            channel: sf_req.channel,
            io_id: sf_req.io_id,
            payload: sf_req.payload,
            permit: sf_req.permit,
        }
    }
}

impl vstd::std_specs::convert::FromSpecImpl<SingleFrameRequest> for QueuedItem {
    open spec fn obeys_from_spec() -> bool {
        true
    }

    closed spec fn from_spec(sf_req: SingleFrameRequest) -> QueuedItem {
        sf_req.waiting().item
    }
}

impl From<MultiFrameRequest> for QueuedItem {
    fn from(mf_req: MultiFrameRequest) -> (item: Self) {
        QueuedItem::Request {
            channel: mf_req.channel,
            io_id: mf_req.io_id,
            payload: mf_req.payload,
            permit: mf_req.permit,
        }
    }
}

impl vstd::std_specs::convert::FromSpecImpl<MultiFrameRequest> for QueuedItem {
    open spec fn obeys_from_spec() -> bool {
        true
    }

    closed spec fn from_spec(mf_req: MultiFrameRequest) -> QueuedItem {
        mf_req.waiting().item
    }
}

impl From<MultiFrameResponse> for QueuedItem {
    fn from(mf_resp: MultiFrameResponse) -> (item: Self) {
        QueuedItem::Response {
            channel: mf_resp.channel,
            id: mf_resp.id,
            payload: mf_resp.payload,
        }
    }
}

impl vstd::std_specs::convert::FromSpecImpl<MultiFrameResponse> for QueuedItem {
    open spec fn obeys_from_spec() -> bool {
        true
    }

    closed spec fn from_spec(mf_resp: MultiFrameResponse) -> QueuedItem {
        mf_resp.waiting().item
    }
}

/// The outcome of trying to push a new item to the wait queue.
#[derive(Debug)]
pub enum PushOutcome {
    /// The item has to wait.
    Pushed,
    /// The item may be sent right away and is handed back.
    NotPushed(QueuedItem),
}

/// The wait queue: an ordered collection of items waiting for the ready queue to become available
/// for new items.
#[derive(Debug)]
pub struct WaitQueue {
    single_frame_requests: VecDeque<SingleFrameRequest>,
    multi_frame_requests: VecDeque<MultiFrameRequest>,
    multi_frame_responses: VecDeque<MultiFrameResponse>,
}

/// A lane of the wait queue.
#[derive(Clone, Copy, Debug, PartialEq, Eq, Structural)]
pub enum Lane {
    /// Requests that fit a single frame.
    SingleFrameRequests,
    /// Requests that need several frames.
    MultiFrameRequests,
    /// Responses that need several frames.
    MultiFrameResponses,
}

/// The contents of a wait queue.
#[verifier::ext_equal]
pub ghost struct WaitQueueView {
    pub single_frame_requests: Seq<Waiting>,
    pub multi_frame_requests: Seq<Waiting>,
    pub multi_frame_responses: Seq<Waiting>,
}

/// The wait index of the last entry of a lane, zero for an empty lane.
pub open spec fn last_index(lane: Seq<Waiting>) -> u64 {
    if lane.len() == 0 {
        0
    } else {
        lane.last().index
    }
}

/// The greater one of two wait indices.
pub open spec fn later(a: u64, b: u64) -> u64 {
    if a >= b {
        a
    } else {
        b
    }
}

/// Whether an item is a request or response whose payload does not fit a single frame.
pub open spec fn item_is_multi_frame(item: QueuedItem, max_frame_size: u32) -> bool {
    match item {
        QueuedItem::Request { payload, .. } => is_multi_frame(
            max_frame_size,
            payload_len_spec(payload),
        ),
        QueuedItem::Response { payload, .. } => is_multi_frame(
            max_frame_size,
            payload_len_spec(payload),
        ),
        _ => false,
    }
}

/// Whether an item with this payload may not be sent because a multi-frame message is being sent
/// on its channel and it would be another one.
pub open spec fn blocked_by_multi_frame<const N: usize>(
    channel: ChannelId,
    payload: Option<Bytes>,
    max_frame_size: u32,
    active_multi_frame: [Option<Header>; N],
) -> bool {
    &&& active_multi_frame[channel.0 as int] is Some
    &&& payload is Some
    &&& is_multi_frame(max_frame_size, payload_len_spec(payload))
}

/// Whether an item has to wait before it may be sent.
pub open spec fn must_wait<const N: usize>(
    item: QueuedItem,
    juliet: JulietProtocol<N>,
    active_multi_frame: [Option<Header>; N],
) -> bool {
    match item {
        QueuedItem::Request { channel, payload, .. } => {
            ||| !juliet.allows_request(channel)
            ||| blocked_by_multi_frame(channel, payload, juliet.max_frame_size, active_multi_frame)
        },
        QueuedItem::Response { channel, payload, .. } => {
            blocked_by_multi_frame(channel, payload, juliet.max_frame_size, active_multi_frame)
        },
        _ => false,
    }
}

impl WaitQueueView {
    /// A queue in which nothing waits.
    pub open spec fn empty() -> WaitQueueView {
        WaitQueueView {
            single_frame_requests: seq![],
            multi_frame_requests: seq![],
            multi_frame_responses: seq![],
        }
    }

    /// The entries of a lane, oldest first.
    pub open spec fn lane(self, lane: Lane) -> Seq<Waiting> {
        match lane {
            Lane::SingleFrameRequests => self.single_frame_requests,
            Lane::MultiFrameRequests => self.multi_frame_requests,
            Lane::MultiFrameResponses => self.multi_frame_responses,
        }
    }

    /// The queue with one lane replaced.
    pub open spec fn with_lane(self, lane: Lane, entries: Seq<Waiting>) -> WaitQueueView {
        match lane {
            Lane::SingleFrameRequests => WaitQueueView { single_frame_requests: entries, ..self },
            Lane::MultiFrameRequests => WaitQueueView { multi_frame_requests: entries, ..self },
            Lane::MultiFrameResponses => WaitQueueView { multi_frame_responses: entries, ..self },
        }
    }

    /// The number of waiting items.
    pub open spec fn len(self) -> nat {
        self.single_frame_requests.len() + self.multi_frame_requests.len()
            + self.multi_frame_responses.len()
    }

    /// The greatest wait index among the last entries of the lanes.
    pub open spec fn newest_index(self) -> u64 {
        later(
            later(last_index(self.single_frame_requests), last_index(self.multi_frame_requests)),
            last_index(self.multi_frame_responses),
        )
    }

    /// The wait index that the next item gets.
    pub open spec fn next_index(self) -> u64 {
        if self.newest_index() == u64::MAX {
            0
        } else {
            (self.newest_index() + 1) as u64
        }
    }

    /// The lane in which an item waits.
    pub open spec fn lane_for(item: QueuedItem, max_frame_size: u32) -> Lane {
        if item is Response {
            Lane::MultiFrameResponses
        } else if item_is_multi_frame(item, max_frame_size) {
            Lane::MultiFrameRequests
        } else {
            Lane::SingleFrameRequests
        }
    }

    /// The queue after an item has been put at the end of a lane.
    pub open spec fn pushed(self, lane: Lane, item: QueuedItem) -> WaitQueueView {
        self.with_lane(lane, self.lane(lane).push(Waiting { index: self.next_index(), item }))
    }

    /// The queue after the oldest item of a lane has left.
    pub open spec fn popped(self, lane: Lane) -> WaitQueueView {
        self.with_lane(lane, self.lane(lane).drop_first())
    }

    /// Whether the front of one lane is to be preferred over that of another lane: the other lane
    /// is empty, or its front is not older.
    pub open spec fn precedes(self, lane: Lane, other: Lane) -> bool {
        ||| self.lane(other).len() == 0
        ||| self.lane(lane).len() > 0 && self.lane(lane)[0].index <= self.lane(other)[0].index
    }

    /// The lane whose front item is the oldest one, if any item waits. Where wait indices are
    /// equal, single-frame requests come first and responses come last.
    pub open spec fn oldest(self) -> Option<Lane> {
        if self.len() == 0 {
            None
        } else if self.precedes(Lane::SingleFrameRequests, Lane::MultiFrameRequests)
            && self.precedes(Lane::SingleFrameRequests, Lane::MultiFrameResponses) {
            Some(Lane::SingleFrameRequests)
        } else if self.precedes(Lane::MultiFrameRequests, Lane::MultiFrameResponses) {
            Some(Lane::MultiFrameRequests)
        } else {
            Some(Lane::MultiFrameResponses)
        }
    }

    /// The lane that the next item to be sent is taken from.
    pub open spec fn sendable(self, request_allowed: bool, multi_frame_allowed: bool) -> Option<
        Lane,
    > {
        if request_allowed && multi_frame_allowed {
            self.oldest()
        } else if request_allowed && self.single_frame_requests.len() > 0 {
            Some(Lane::SingleFrameRequests)
        } else if multi_frame_allowed && self.multi_frame_responses.len() > 0 {
            Some(Lane::MultiFrameResponses)
        } else {
            None
        }
    }
}

impl View for WaitQueue {
    type V = WaitQueueView;

    closed spec fn view(&self) -> WaitQueueView {
        WaitQueueView {
            single_frame_requests: self.single_frame_requests@.map_values(
                |req: SingleFrameRequest| req.waiting(),
            ),
            multi_frame_requests: self.multi_frame_requests@.map_values(
                |req: MultiFrameRequest| req.waiting(),
            ),
            multi_frame_responses: self.multi_frame_responses@.map_values(
                |resp: MultiFrameResponse| resp.waiting(),
            ),
        }
    }
}

impl Default for WaitQueue {
    fn default() -> (queue: Self)
        ensures
            queue@ == WaitQueueView::empty(),
    {
        WaitQueue::new()
    }
}

impl WaitQueue {
    /// Creates an empty wait queue.
    pub fn new() -> (queue: Self)
        ensures
            queue@ == WaitQueueView::empty(),
    {
        WaitQueue {
            single_frame_requests: VecDeque::new(),
            multi_frame_requests: VecDeque::new(),
            multi_frame_responses: VecDeque::new(),
        }
    }

    /// Add the given item to the back of the wait queue.
    ///
    /// An item that need not wait is handed back instead.
    pub fn try_push_back<const N: usize>(
        &mut self,
        item: QueuedItem,
        juliet: &JulietProtocol<N>,
        active_multi_frame: &[Option<Header>; N],
    ) -> (res: Result<PushOutcome, LocalProtocolViolation>)
        requires
            item matches QueuedItem::Response { channel, .. } ==> channel.0 < N,
        ensures
            match item {
                QueuedItem::Request { channel, .. } if channel.0 >= N => {
                    &&& res == Err::<PushOutcome, _>(LocalProtocolViolation::InvalidChannel(channel))
                    &&& final(self)@ == old(self)@
                },
                _ => if must_wait(item, *juliet, *active_multi_frame) {
                    &&& res == Ok::<_, LocalProtocolViolation>(PushOutcome::Pushed)
                    &&& final(self)@ == old(self)@.pushed(
                        WaitQueueView::lane_for(item, juliet.max_frame_size),
                        item,
                    )
                } else {
                    &&& res == Ok::<_, LocalProtocolViolation>(PushOutcome::NotPushed(item))
                    &&& final(self)@ == old(self)@
                },
            },
    {
        match item {
            QueuedItem::Request { channel, io_id, payload, permit } => {
                match juliet.allowed_to_send_request(channel) {
                    Err(violation) => {
                        return Err(violation);
                    },
                    Ok(allowed) => {
                        if !allowed {
                            self.push_request(channel, io_id, payload, permit, juliet);
                            return Ok(PushOutcome::Pushed);
                        }
                    },
                }

                if self.has_active_multi_frame(channel, &payload, juliet, active_multi_frame) {
                    self.push_multi_frame_request(channel, io_id, payload, permit);
                    return Ok(PushOutcome::Pushed);
                }
                // We don't need to wait - rebuild the item and return it.
                let item = QueuedItem::Request { channel, io_id, payload, permit };
                Ok(PushOutcome::NotPushed(item))
            },
            QueuedItem::Response { channel, id, payload } => {
                if self.has_active_multi_frame(channel, &payload, juliet, active_multi_frame) {
                    self.push_response(channel, id, payload);
                    return Ok(PushOutcome::Pushed);
                }
                // We don't need to wait - rebuild the item and return it.
                let item = QueuedItem::Response { channel, id, payload };
                Ok(PushOutcome::NotPushed(item))
            },
            QueuedItem::RequestCancellation { io_id } => Ok(
                PushOutcome::NotPushed(QueuedItem::RequestCancellation { io_id }),
            ),
            QueuedItem::ResponseCancellation { channel, id } => Ok(
                PushOutcome::NotPushed(QueuedItem::ResponseCancellation { channel, id }),
            ),
            QueuedItem::Error { channel, id, payload } => Ok(
                PushOutcome::NotPushed(QueuedItem::Error { channel, id, payload }),
            ),
        }
    }

    /// Returns the wait index to assign to a new item being added to the wait queue.
    fn next_wait_index(&self) -> (index: u64)
        ensures
            index == self@.next_index(),
    {
        let mut current_max: u64 = 0;

        let singles: usize = self.single_frame_requests.len();
        if singles > 0 {
            current_max = self.single_frame_requests[singles - 1].wait_index;
        }
        let requests: usize = self.multi_frame_requests.len();
        if requests > 0 {
            let index: u64 = self.multi_frame_requests[requests - 1].wait_index;
            if index > current_max {
                current_max = index;
            }
        }
        let responses: usize = self.multi_frame_responses.len();
        if responses > 0 {
            let index: u64 = self.multi_frame_responses[responses - 1].wait_index;
            if index > current_max {
                current_max = index;
            }
        }
        current_max.wrapping_add(1)
    }

    /// Pushes a request onto either the single-frame request queue or the multi-frame one.
    fn push_request<const N: usize>(
        &mut self,
        channel: ChannelId,
        io_id: IoId,
        payload: Option<Bytes>,
        permit: OwnedSemaphorePermit,
        juliet: &JulietProtocol<N>,
    )
        ensures
            ({
                let item = QueuedItem::Request { channel, io_id, payload, permit };
                let lane = WaitQueueView::lane_for(item, juliet.max_frame_size);
                final(self)@ == old(self)@.pushed(lane, item)
            }),
    {
        if payload_is_multi_frame(juliet.max_frame_size(), payload_len(&payload)) {
            self.push_multi_frame_request(channel, io_id, payload, permit);
        } else {
            let wait_index: u64 = self.next_wait_index();
            let sf_req = SingleFrameRequest { wait_index, channel, io_id, payload, permit };
            self.single_frame_requests.push_back(sf_req);
            assert(self@ =~= old(self)@.pushed(Lane::SingleFrameRequests, sf_req.waiting().item));
        }
    }

    /// Pushes a request onto the multi-frame request queue.
    fn push_multi_frame_request(
        &mut self,
        channel: ChannelId,
        io_id: IoId,
        payload: Option<Bytes>,
        permit: OwnedSemaphorePermit,
    )
        ensures
            final(self)@ == old(self)@.pushed(
                Lane::MultiFrameRequests,
                QueuedItem::Request { channel, io_id, payload, permit },
            ),
    {
        let wait_index: u64 = self.next_wait_index();
        let mf_req = MultiFrameRequest { wait_index, channel, io_id, payload, permit };
        self.multi_frame_requests.push_back(mf_req);
        assert(self@ =~= old(self)@.pushed(Lane::MultiFrameRequests, mf_req.waiting().item));
    }

    /// Pushes a response onto the multi-frame response queue.
    fn push_response(&mut self, channel: ChannelId, id: Id, payload: Option<Bytes>)
        ensures
            final(self)@ == old(self)@.pushed(
                Lane::MultiFrameResponses,
                QueuedItem::Response { channel, id, payload },
            ),
    {
        let wait_index: u64 = self.next_wait_index();
        let mf_resp = MultiFrameResponse { wait_index, channel, id, payload };
        self.multi_frame_responses.push_back(mf_resp);
        assert(self@ =~= old(self)@.pushed(Lane::MultiFrameResponses, mf_resp.waiting().item));
    }

    /// Checks if we cannot schedule due to the message being multi-frame and there being a
    /// multi-frame send in progress.
    fn has_active_multi_frame<const N: usize>(
        &self,
        channel: ChannelId,
        payload: &Option<Bytes>,
        juliet: &JulietProtocol<N>,
        active_multi_frame: &[Option<Header>; N],
    ) -> (res: bool)
        requires
            channel.0 < N,
        ensures
            res == blocked_by_multi_frame(
                channel,
                *payload,
                juliet.max_frame_size,
                *active_multi_frame,
            ),
    {
        if active_multi_frame[channel.get() as usize].is_none() {
            return false;
        }
        if let Some(payload) = payload {
            return payload_is_multi_frame(juliet.max_frame_size(), payload.len());
        }
        false
    }

    /// Returns the lane whose front item is the oldest one.
    fn oldest_lane(&self) -> (res: Option<Lane>)
        ensures
            res == self@.oldest(),
    {
        let mut queue_to_pop: Option<(Lane, u64)> = None;

        if self.single_frame_requests.len() > 0 {
            let index: u64 = self.single_frame_requests[0].wait_index;
            queue_to_pop = Some((Lane::SingleFrameRequests, index));
        }
        if self.multi_frame_requests.len() > 0 {
            let index: u64 = self.multi_frame_requests[0].wait_index;
            let older = match queue_to_pop {
                Some((_, other)) => index < other,
                None => true,
            };
            if older {
                queue_to_pop = Some((Lane::MultiFrameRequests, index));
            }
        }
        if self.multi_frame_responses.len() > 0 {
            let index: u64 = self.multi_frame_responses[0].wait_index;
            let older = match queue_to_pop {
                Some((_, other)) => index < other,
                None => true,
            };
            if older {
                queue_to_pop = Some((Lane::MultiFrameResponses, index));
            }
        }
        match queue_to_pop {
            Some((lane, _)) => Some(lane),
            None => None,
        }
    }

    /// Removes and returns the oldest item of a lane.
    fn pop_lane(&mut self, lane: Lane) -> (res: Option<QueuedItem>)
        ensures
            old(self)@.lane(lane).len() == 0 ==> res is None && final(self)@ == old(self)@,
            old(self)@.lane(lane).len() > 0 ==> res == Some(old(self)@.lane(lane)[0].item)
                && final(self)@ == old(self)@.popped(lane),
    {
        match lane {
            Lane::SingleFrameRequests => match self.single_frame_requests.pop_front() {
                Some(sf_req) => {
                    assert(self@ =~= old(self)@.popped(lane));
                    Some(QueuedItem::from(sf_req))
                },
                None => None,
            },
            Lane::MultiFrameRequests => match self.multi_frame_requests.pop_front() {
                Some(mf_req) => {
                    assert(self@ =~= old(self)@.popped(lane));
                    Some(QueuedItem::from(mf_req))
                },
                None => None,
            },
            Lane::MultiFrameResponses => match self.multi_frame_responses.pop_front() {
                Some(mf_resp) => {
                    assert(self@ =~= old(self)@.popped(lane));
                    Some(QueuedItem::from(mf_resp))
                },
                None => None,
            },
        }
    }

    /// Removes and returns the next "sendable" item (i.e. the oldest item) from the wait queue,
    /// where "sendable" is decided based on whether requests and/or multi-frame messages are
    /// allowed.
    pub fn next_item<const N: usize>(
        &mut self,
        channel: ChannelId,
        juliet: &JulietProtocol<N>,
        active_multi_frame: &[Option<Header>; N],
    ) -> (res: Result<Option<QueuedItem>, LocalProtocolViolation>)
        ensures
            if channel.0 >= N {
                &&& res == Err::<Option<QueuedItem>, _>(
                    LocalProtocolViolation::InvalidChannel(channel),
                )
                &&& final(self)@ == old(self)@
            } else {
                match old(self)@.sendable(
                    juliet.allows_request(channel),
                    active_multi_frame[channel.0 as int] is None,
                ) {
                    Some(lane) => {
                        &&& res == Ok::<_, LocalProtocolViolation>(
                            Some(old(self)@.lane(lane)[0].item),
                        )
                        &&& final(self)@ == old(self)@.popped(lane)
                    },
                    None => {
                        &&& res == Ok::<Option<QueuedItem>, LocalProtocolViolation>(None)
                        &&& final(self)@ == old(self)@
                    },
                }
            },
    {
        let request_allowed = match juliet.allowed_to_send_request(channel) {
            Ok(allowed) => allowed,
            Err(violation) => {
                return Err(violation);
            },
        };
        let multi_frame_allowed = active_multi_frame[channel.get() as usize].is_none();
        let maybe_item = match (request_allowed, multi_frame_allowed) {
            (false, false) => None,
            (false, true) => self.pop_lane(Lane::MultiFrameResponses),
            (true, false) => self.pop_lane(Lane::SingleFrameRequests),
            (true, true) => match self.oldest_lane() {
                Some(lane) => self.pop_lane(lane),
                None => None,
            },
        };
        Ok(maybe_item)
    }

    /// Removes all items.
    pub fn clear(&mut self)
        ensures
            final(self)@ == WaitQueueView::empty(),
    {
        self.single_frame_requests.clear();
        self.multi_frame_requests.clear();
        self.multi_frame_responses.clear();
        assert(self@ =~= WaitQueueView::empty());
    }
}

} // verus!
