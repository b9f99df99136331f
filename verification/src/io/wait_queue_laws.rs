//! What holds of the wait queue as a whole, whatever is pushed to it and taken from it.

use crate::io::item::QueuedItem;
use crate::io::wait_queue::{
    item_is_multi_frame, must_wait, Lane, WaitQueueView, Waiting,
};
use crate::payload::{bytes_view, payload_len_spec};
use crate::protocol::{is_multi_frame, varint_len, Header, JulietProtocol};
use vstd::multiset::Multiset;
use vstd::prelude::*;

verus! {

/// Whether the wait indices of a lane grow from front to back.
pub open spec fn increasing(lane: Seq<Waiting>) -> bool {
    forall|i: int, j: int| 0 <= i < j < lane.len() ==> lane[i].index < lane[j].index
}

/// Whether two lanes have no wait index in common.
pub open spec fn apart(a: Seq<Waiting>, b: Seq<Waiting>) -> bool {
    forall|i: int, j: int|
        0 <= i < a.len() && 0 <= j < b.len() ==> (#[trigger] a[i]).index != (#[trigger] b[j]).index
}

impl WaitQueueView {
    /// The wait indices tell the order of arrival: they grow along every lane, and no two items
    /// share one.
    pub open spec fn ordered(self) -> bool {
        &&& increasing(self.single_frame_requests)
        &&& increasing(self.multi_frame_requests)
        &&& increasing(self.multi_frame_responses)
        &&& apart(self.single_frame_requests, self.multi_frame_requests)
        &&& apart(self.single_frame_requests, self.multi_frame_responses)
        &&& apart(self.multi_frame_requests, self.multi_frame_responses)
    }

    /// Every item is in the lane that it belongs to.
    pub open spec fn in_proper_lanes(self, max_frame_size: u32) -> bool {
        &&& forall|i: int|
            0 <= i < self.single_frame_requests.len() ==> {
                let item = (#[trigger] self.single_frame_requests[i]).item;
                item is Request && !item_is_multi_frame(item, max_frame_size)
            }
        &&& forall|i: int|
            0 <= i < self.multi_frame_requests.len() ==> {
                let item = (#[trigger] self.multi_frame_requests[i]).item;
                item is Request && item_is_multi_frame(item, max_frame_size)
            }
        &&& forall|i: int|
            0 <= i < self.multi_frame_responses.len() ==> {
                let item = (#[trigger] self.multi_frame_responses[i]).item;
                item is Response && item_is_multi_frame(item, max_frame_size)
            }
    }

    /// The waiting items with their wait indices, without any order.
    pub open spec fn entries(self) -> Multiset<Waiting> {
        self.single_frame_requests.to_multiset().add(self.multi_frame_requests.to_multiset()).add(
            self.multi_frame_responses.to_multiset(),
        )
    }

    /// The waiting items from the oldest to the newest: the lanes merged by wait index.
    pub open spec fn arrivals(self) -> Seq<QueuedItem>
        decreases self.len(),
    {
        match self.oldest() {
            Some(lane) => if self.lane(lane).len() > 0 {
                seq![self.lane(lane)[0].item] + self.popped(lane).arrivals()
            } else {
                seq![]
            },
            None => seq![],
        }
    }
}

/// An empty queue is ordered, whatever the frame size its items are in their proper lanes, and
/// nothing has arrived.
pub proof fn empty_queue_is_ordered(max_frame_size: u32)
    ensures
        WaitQueueView::empty().ordered(),
        WaitQueueView::empty().in_proper_lanes(max_frame_size),
        WaitQueueView::empty().arrivals() == Seq::<QueuedItem>::empty(),
{
}

/// In an ordered queue no item has a greater wait index than the newest one.
proof fn newest_index_bounds(queue: WaitQueueView, lane: Lane, i: int)
    requires
        queue.ordered(),
        0 <= i < queue.lane(lane).len(),
    ensures
        queue.lane(lane)[i].index <= queue.newest_index(),
{
    let entries = queue.lane(lane);
    if i < entries.len() - 1 {
        assert(entries[i].index < entries[entries.len() - 1].index);
    }
}

/// Pushing an item keeps the queue ordered and gives the item a greater wait index than every
/// other, as long as the wait indices have not run out.
pub proof fn push_keeps_order(queue: WaitQueueView, lane: Lane, item: QueuedItem)
    requires
        queue.ordered(),
        queue.newest_index() < u64::MAX,
    ensures
        queue.pushed(lane, item).ordered(),
        forall|other: Lane, i: int|
            0 <= i < queue.lane(other).len() ==> (#[trigger] queue.lane(other)[i]).index
                < queue.next_index(),
        queue.pushed(lane, item).newest_index() == queue.newest_index() + 1,
{
    assert forall|other: Lane, i: int| 0 <= i < queue.lane(other).len() implies (
    #[trigger] queue.lane(other)[i]).index < queue.next_index() by {
        newest_index_bounds(queue, other, i);
    }
    let pushed = queue.pushed(lane, item);
    assert forall|other: Lane, i: int| 0 <= i < pushed.lane(other).len() implies (
    #[trigger] pushed.lane(other)[i]) == if i < queue.lane(other).len() {
        queue.lane(other)[i]
    } else {
        Waiting { index: queue.next_index(), item }
    } by {}
    let singles = Lane::SingleFrameRequests;
    let requests = Lane::MultiFrameRequests;
    let responses = Lane::MultiFrameResponses;
    assert forall|a: Lane, i: int, j: int| 0 <= i < j < pushed.lane(a).len() implies (
    #[trigger] pushed.lane(a)[i]).index < (#[trigger] pushed.lane(a)[j]).index by {
        assert(pushed.lane(a)[i] == queue.lane(a)[i]);
    }
    assert(increasing(pushed.lane(singles)));
    assert(increasing(pushed.lane(requests)));
    assert(increasing(pushed.lane(responses)));
    assert(apart(pushed.lane(singles), pushed.lane(requests)));
    assert(apart(pushed.lane(singles), pushed.lane(responses)));
    assert(apart(pushed.lane(requests), pushed.lane(responses)));
}

/// Taking an item from a lane keeps the queue ordered.
pub proof fn pop_keeps_order(queue: WaitQueueView, lane: Lane)
    requires
        queue.ordered(),
        queue.lane(lane).len() > 0,
    ensures
        queue.popped(lane).ordered(),
        queue.popped(lane).newest_index() <= queue.newest_index(),
{
    let popped = queue.popped(lane);
    assert forall|i: int| 0 <= i < popped.lane(lane).len() implies (
    #[trigger] popped.lane(lane)[i]) == queue.lane(lane)[i + 1] by {}
}

/// Items are pushed to their proper lanes.
pub proof fn push_keeps_lanes(queue: WaitQueueView, item: QueuedItem, max_frame_size: u32)
    requires
        queue.in_proper_lanes(max_frame_size),
        item is Request || item is Response && item_is_multi_frame(item, max_frame_size),
    ensures
        queue.pushed(
            WaitQueueView::lane_for(item, max_frame_size),
            item,
        ).in_proper_lanes(max_frame_size),
{
}

/// An item that has to wait is a request, or a response of several frames: a queue in which all
/// items are in their proper lanes stays so when it is pushed.
pub proof fn waiting_items_have_lanes<const N: usize>(
    queue: WaitQueueView,
    item: QueuedItem,
    juliet: JulietProtocol<N>,
    active_multi_frame: [Option<Header>; N],
)
    requires
        queue.in_proper_lanes(juliet.max_frame_size),
        must_wait(item, juliet, active_multi_frame),
    ensures
        queue.pushed(
            WaitQueueView::lane_for(item, juliet.max_frame_size),
            item,
        ).in_proper_lanes(juliet.max_frame_size),
{
    push_keeps_lanes(queue, item, juliet.max_frame_size);
}

/// Taking an item leaves the others in their proper lanes.
pub proof fn pop_keeps_lanes(queue: WaitQueueView, lane: Lane, max_frame_size: u32)
    requires
        queue.in_proper_lanes(max_frame_size),
        queue.lane(lane).len() > 0,
    ensures
        queue.popped(lane).in_proper_lanes(max_frame_size),
{
}

/// An item that need not wait may be sent: a request finds room on its channel, and while a
/// multi-frame message is being sent on the channel the item is not another one.
///
/// The latter leaves out a message without a payload whose bare header and empty length prefix
/// overflow the frame size.
pub proof fn unpushed_items_may_be_sent<const N: usize>(
    item: QueuedItem,
    juliet: JulietProtocol<N>,
    active_multi_frame: [Option<Header>; N],
)
    requires
        !must_wait(item, juliet, active_multi_frame),
    ensures
        item matches QueuedItem::Request { channel, .. } ==> juliet.allows_request(channel),
        item matches QueuedItem::Request { channel, payload, .. }
            && active_multi_frame[channel.0 as int] is Some && !(payload is None && is_multi_frame(
            juliet.max_frame_size,
            0,
        )) ==> !item_is_multi_frame(item, juliet.max_frame_size),
        item matches QueuedItem::Response { channel, payload, .. }
            && active_multi_frame[channel.0 as int] is Some && !(payload is None && is_multi_frame(
            juliet.max_frame_size,
            0,
        )) ==> !item_is_multi_frame(item, juliet.max_frame_size),
{
}

/// The item taken from the queue may be sent: no request leaves while requests are not allowed,
/// and nothing of several frames leaves while a multi-frame message is being sent.
pub proof fn taken_items_may_be_sent(
    queue: WaitQueueView,
    max_frame_size: u32,
    request_allowed: bool,
    multi_frame_allowed: bool,
)
    requires
        queue.in_proper_lanes(max_frame_size),
    ensures
        queue.sendable(request_allowed, multi_frame_allowed) matches Some(lane) ==> {
            let item = queue.lane(lane)[0].item;
            &&& queue.lane(lane).len() > 0
            &&& item is Request || item is Response
            &&& item is Request ==> request_allowed
            &&& item_is_multi_frame(item, max_frame_size) ==> multi_frame_allowed
        },
{
}

/// Whether the front items of a lane may be sent.
pub open spec fn lane_open(lane: Lane, request_allowed: bool, multi_frame_allowed: bool) -> bool {
    match lane {
        Lane::SingleFrameRequests => request_allowed,
        Lane::MultiFrameRequests => request_allowed && multi_frame_allowed,
        Lane::MultiFrameResponses => multi_frame_allowed,
    }
}

/// The item taken from the queue is the oldest one that may be sent, and one is taken whenever
/// there is one.
pub proof fn oldest_sendable_item_leaves_first(
    queue: WaitQueueView,
    request_allowed: bool,
    multi_frame_allowed: bool,
)
    requires
        queue.ordered(),
    ensures
        queue.sendable(request_allowed, multi_frame_allowed) is None <==> forall|lane: Lane|
            lane_open(lane, request_allowed, multi_frame_allowed) ==> (#[trigger] queue.lane(
                lane,
            )).len() == 0,
        queue.sendable(request_allowed, multi_frame_allowed) matches Some(lane) ==> {
            &&& lane_open(lane, request_allowed, multi_frame_allowed)
            &&& queue.lane(lane).len() > 0
            &&& forall|other: Lane, i: int|
                lane_open(other, request_allowed, multi_frame_allowed) && 0 <= i < queue.popped(
                    lane,
                ).lane(other).len() ==> queue.lane(lane)[0].index < (#[trigger] queue.popped(
                    lane,
                ).lane(other)[i]).index
        },
{
    assert(queue.lane(Lane::SingleFrameRequests) == queue.single_frame_requests);
    assert(queue.lane(Lane::MultiFrameRequests) == queue.multi_frame_requests);
    assert(queue.lane(Lane::MultiFrameResponses) == queue.multi_frame_responses);
    if let Some(lane) = queue.sendable(request_allowed, multi_frame_allowed) {
        assert forall|other: Lane, i: int|
            lane_open(other, request_allowed, multi_frame_allowed) && 0 <= i < queue.popped(
                lane,
            ).lane(other).len() implies queue.lane(lane)[0].index < (#[trigger] queue.popped(
            lane,
        ).lane(other)[i]).index by {
            if other == lane {
                assert(queue.popped(lane).lane(other)[i] == queue.lane(lane)[i + 1]);
            } else {
                assert(queue.popped(lane).lane(other) == queue.lane(other));
                assert(queue.lane(lane)[0].index <= queue.lane(other)[0].index);
                assert(queue.lane(lane)[0].index != queue.lane(other)[0].index);
                if i > 0 {
                    assert(queue.lane(other)[0].index < queue.lane(other)[i].index);
                }
            }
        }
    }
}

/// No item is lost or made up: pushing adds exactly the given item, taking removes exactly the
/// item that is handed out.
pub proof fn items_are_conserved(queue: WaitQueueView, lane: Lane, item: QueuedItem)
    ensures
        queue.pushed(lane, item).entries() == queue.entries().insert(
            Waiting { index: queue.next_index(), item },
        ),
        queue.lane(lane).len() > 0 ==> queue.entries() == queue.popped(lane).entries().insert(
            queue.lane(lane)[0],
        ),
{
    let entries = queue.lane(lane);
    let entry = Waiting { index: queue.next_index(), item };
    entries.to_multiset_ensures();
    assert(entries.push(entry).to_multiset() == entries.to_multiset().insert(entry));
    assert(queue.pushed(lane, item).entries() =~= queue.entries().insert(entry));
    if entries.len() > 0 {
        let rest = entries.drop_first();
        assert(entries == seq![entries[0]] + rest);
        vstd::seq_lib::lemma_multiset_commutative(seq![entries[0]], rest);
        assert(seq![entries[0]] =~= Seq::<Waiting>::empty().push(entries[0]));
        Seq::<Waiting>::empty().to_multiset_ensures();
        assert(entries.to_multiset() =~= rest.to_multiset().insert(entries[0]));
        assert(queue.entries() =~= queue.popped(lane).entries().insert(entries[0]));
    }
}

/// The queue is first in, first out: an item that is pushed arrives last, as long as the wait
/// indices have not run out.
pub proof fn pushed_items_arrive_last(queue: WaitQueueView, lane: Lane, item: QueuedItem)
    requires
        queue.ordered(),
        queue.newest_index() < u64::MAX,
    ensures
        queue.pushed(lane, item).arrivals() == queue.arrivals().push(item),
{
    push_keeps_order(queue, lane, item);
    let entry = Waiting { index: queue.next_index(), item };
    arrive_last(queue, lane, entry);
}

/// Puts an entry with the greatest wait index at the end of a lane.
spec fn appended(queue: WaitQueueView, lane: Lane, entry: Waiting) -> WaitQueueView {
    queue.with_lane(lane, queue.lane(lane).push(entry))
}

/// An entry that is newer than all others does not change which lane holds the oldest one.
proof fn newest_is_not_oldest(queue: WaitQueueView, lane: Lane, entry: Waiting)
    requires
        queue.len() > 0,
        forall|other: Lane, i: int|
            0 <= i < queue.lane(other).len() ==> (#[trigger] queue.lane(other)[i]).index
                < entry.index,
    ensures
        appended(queue, lane, entry).oldest() == queue.oldest(),
        queue.oldest() matches Some(first) && queue.lane(first).len() > 0,
{
    let singles = Lane::SingleFrameRequests;
    let requests = Lane::MultiFrameRequests;
    let responses = Lane::MultiFrameResponses;
    assert(queue.lane(singles).len() > 0 ==> queue.lane(singles)[0].index < entry.index);
    assert(queue.lane(requests).len() > 0 ==> queue.lane(requests)[0].index < entry.index);
    assert(queue.lane(responses).len() > 0 ==> queue.lane(responses)[0].index < entry.index);
}

/// A queue with an oldest item begins with it.
proof fn oldest_arrives_first(queue: WaitQueueView, lane: Lane)
    requires
        queue.oldest() == Some(lane),
        queue.lane(lane).len() > 0,
    ensures
        queue.arrivals() == seq![queue.lane(lane)[0].item] + queue.popped(lane).arrivals(),
{
}

/// An entry that is newer than all others arrives last.
#[verifier::spinoff_prover]
proof fn arrive_last(queue: WaitQueueView, lane: Lane, entry: Waiting)
    requires
        forall|other: Lane, i: int|
            0 <= i < queue.lane(other).len() ==> (#[trigger] queue.lane(other)[i]).index
                < entry.index,
    ensures
        appended(queue, lane, entry).arrivals() == queue.arrivals().push(entry.item),
    decreases queue.len(),
{
    let more = appended(queue, lane, entry);
    if queue.len() == 0 {
        assert(more.oldest() == Some(lane));
        assert(more.popped(lane) =~= queue);
        oldest_arrives_first(more, lane);
        assert(more.arrivals() =~= queue.arrivals().push(entry.item));
    } else {
        newest_is_not_oldest(queue, lane, entry);
        let first = queue.oldest()->0;
        let rest = queue.popped(first);
        assert forall|other: Lane, i: int| 0 <= i < rest.lane(other).len() implies (
        #[trigger] rest.lane(other)[i]).index < entry.index by {
            if other == first {
                assert(rest.lane(other)[i] == queue.lane(other)[i + 1]);
            } else {
                assert(rest.lane(other)[i] == queue.lane(other)[i]);
            }
        }
        arrive_last(rest, lane, entry);
        assert(more.popped(first) == appended(rest, lane, entry)) by {
            assert(queue.lane(lane).push(entry).drop_first() =~= queue.lane(
                lane,
            ).drop_first().push(entry) || queue.lane(lane).len() == 0);
        }
        oldest_arrives_first(queue, first);
        oldest_arrives_first(more, first);
        assert(more.lane(first)[0] == queue.lane(first)[0]);
        let head = seq![queue.lane(first)[0].item];
        assert(head + rest.arrivals().push(entry.item) =~= (head + rest.arrivals()).push(
            entry.item,
        ));
    }
}

/// The queue is first in, first out: while everything may be sent, the item taken is the one that
/// arrived first, and all others stay in their order of arrival.
pub proof fn first_arrival_leaves_first(queue: WaitQueueView)
    ensures
        match queue.sendable(true, true) {
            Some(lane) => {
                &&& queue.arrivals().len() > 0
                &&& queue.lane(lane)[0].item == queue.arrivals()[0]
                &&& queue.popped(lane).arrivals() == queue.arrivals().drop_first()
            },
            None => queue.arrivals().len() == 0,
        },
{
    if let Some(lane) = queue.sendable(true, true) {
        assert(queue.lane(lane).len() > 0);
        assert(queue.popped(lane).arrivals() =~= queue.arrivals().drop_first());
    }
}

/// Whether an item may leave the queue: requests only while they are allowed, and messages of
/// several frames only while those are.
pub open spec fn may_leave(
    item: QueuedItem,
    max_frame_size: u32,
    request_allowed: bool,
    multi_frame_allowed: bool,
) -> bool {
    &&& item is Request ==> request_allowed
    &&& item_is_multi_frame(item, max_frame_size) ==> multi_frame_allowed
}

/// Whether an item is the first one of some that may leave the queue.
pub open spec fn first_to_leave(
    items: Seq<QueuedItem>,
    k: int,
    max_frame_size: u32,
    request_allowed: bool,
    multi_frame_allowed: bool,
) -> bool {
    &&& 0 <= k < items.len()
    &&& may_leave(items[k], max_frame_size, request_allowed, multi_frame_allowed)
    &&& forall|j: int|
        0 <= j < k ==> !may_leave(
            #[trigger] items[j],
            max_frame_size,
            request_allowed,
            multi_frame_allowed,
        )
}

/// Among the items from the oldest to the newest, the first one that may leave the queue is the one
/// that is taken, and all others stay in their order of arrival. Nothing is taken only if no item
/// may leave.
#[verifier::spinoff_prover]
#[verifier::rlimit(30)]
pub proof fn first_arrival_that_may_leave_is_taken(
    queue: WaitQueueView,
    max_frame_size: u32,
    request_allowed: bool,
    multi_frame_allowed: bool,
)
    requires
        queue.ordered(),
        queue.in_proper_lanes(max_frame_size),
    ensures
        match queue.sendable(request_allowed, multi_frame_allowed) {
            Some(lane) => exists|k: int|
                {
                    &&& #[trigger] first_to_leave(
                        queue.arrivals(),
                        k,
                        max_frame_size,
                        request_allowed,
                        multi_frame_allowed,
                    )
                    &&& queue.arrivals()[k] == queue.lane(lane)[0].item
                    &&& queue.popped(lane).arrivals() == queue.arrivals().remove(k)
                },
            None => forall|j: int|
                0 <= j < queue.arrivals().len() ==> !may_leave(
                    #[trigger] queue.arrivals()[j],
                    max_frame_size,
                    request_allowed,
                    multi_frame_allowed,
                ),
        },
    decreases queue.len(),
{
    if queue.len() > 0 {
        let first = queue.oldest()->0;
        let rest = queue.popped(first);
        oldest_lane_decides(queue, max_frame_size, request_allowed, multi_frame_allowed);
        oldest_arrives_first(queue, first);
        let head = seq![queue.lane(first)[0].item];
        assert(queue.arrivals() == head + rest.arrivals());
        if lane_open(first, request_allowed, multi_frame_allowed) {
            assert(queue.arrivals().remove(0) =~= rest.arrivals());
            assert(first_to_leave(
                queue.arrivals(),
                0,
                max_frame_size,
                request_allowed,
                multi_frame_allowed,
            ));
        } else {
            pop_keeps_order(queue, first);
            pop_keeps_lanes(queue, first, max_frame_size);
            first_arrival_that_may_leave_is_taken(
                rest,
                max_frame_size,
                request_allowed,
                multi_frame_allowed,
            );
            if let Some(lane) = queue.sendable(request_allowed, multi_frame_allowed) {
                let k = choose|k: int|
                    {
                        &&& #[trigger] first_to_leave(
                            rest.arrivals(),
                            k,
                            max_frame_size,
                            request_allowed,
                            multi_frame_allowed,
                        )
                        &&& rest.arrivals()[k] == rest.lane(lane)[0].item
                        &&& rest.popped(lane).arrivals() == rest.arrivals().remove(k)
                    };
                pop_behind_the_oldest(queue, first, lane);
                assert(head + rest.arrivals().remove(k) =~= (head + rest.arrivals()).remove(k + 1));
                assert(first_to_leave(
                    queue.arrivals(),
                    k + 1,
                    max_frame_size,
                    request_allowed,
                    multi_frame_allowed,
                ));
            }
        }
    }
}

/// The oldest item is the one that is taken if its lane is open. If not, it may not leave, and what
/// is taken does not depend on it.
proof fn oldest_lane_decides(
    queue: WaitQueueView,
    max_frame_size: u32,
    request_allowed: bool,
    multi_frame_allowed: bool,
)
    requires
        queue.in_proper_lanes(max_frame_size),
        queue.len() > 0,
    ensures
        queue.oldest() matches Some(first) && {
            let taken = queue.sendable(request_allowed, multi_frame_allowed);
            let leaves = may_leave(
                queue.lane(first)[0].item,
                max_frame_size,
                request_allowed,
                multi_frame_allowed,
            );
            &&& queue.lane(first).len() > 0
            &&& leaves == lane_open(first, request_allowed, multi_frame_allowed)
            &&& leaves ==> taken == Some(first)
            &&& !leaves ==> {
                &&& queue.popped(first).sendable(request_allowed, multi_frame_allowed) == taken
                &&& taken matches Some(lane) ==> lane != first && queue.lane(lane).len() > 0
                    && queue.popped(first).lane(lane) == queue.lane(lane)
            }
        },
{
}

/// Taking an item from another lane leaves the oldest item of the queue in front of the others.
proof fn pop_behind_the_oldest(queue: WaitQueueView, first: Lane, lane: Lane)
    requires
        queue.ordered(),
        queue.oldest() == Some(first),
        queue.lane(first).len() > 0,
        queue.lane(lane).len() > 0,
        lane != first,
    ensures
        queue.popped(lane).arrivals() == seq![queue.lane(first)[0].item] + queue.popped(
            first,
        ).popped(lane).arrivals(),
{
    let entries = queue.lane(lane);
    let after = queue.popped(lane);
    if entries.len() > 1 {
        assert(entries.drop_first()[0] == entries[1]);
        assert(entries[0].index < entries[1].index);
    }
    assert(queue.lane(first)[0].index <= entries[0].index);
    assert(queue.lane(first)[0].index != entries[0].index);
    assert(after.oldest() == Some(first));
    assert(after.lane(first) == queue.lane(first));
    oldest_arrives_first(after, first);
    assert(after.popped(first) =~= queue.popped(first).popped(lane));
}

/// The next wait index is greater than those of all waiting items, whatever their lane, and is one
/// if nothing waits.
pub proof fn next_index_is_the_greatest(queue: WaitQueueView, lane: Lane, i: int)
    requires
        queue.ordered(),
        queue.newest_index() < u64::MAX,
    ensures
        0 <= i < queue.lane(lane).len() ==> queue.lane(lane)[i].index < queue.next_index(),
        queue.len() == 0 ==> queue.next_index() == 1,
{
    if 0 <= i < queue.lane(lane).len() {
        newest_index_bounds(queue, lane, i);
    }
}

/// Something that is done to a wait queue.
pub ghost enum QueueStep {
    /// An item is pushed to a lane.
    Push { lane: Lane, item: QueuedItem },
    /// The front item of a lane is taken, if there is one.
    Take { lane: Lane },
    /// All items are removed.
    Clear,
}

/// The queue after a step.
pub open spec fn after_step(queue: WaitQueueView, step: QueueStep) -> WaitQueueView {
    match step {
        QueueStep::Push { lane, item } => queue.pushed(lane, item),
        QueueStep::Take { lane } => if queue.lane(lane).len() > 0 {
            queue.popped(lane)
        } else {
            queue
        },
        QueueStep::Clear => WaitQueueView::empty(),
    }
}

/// The queue that some steps lead to from an empty one.
pub open spec fn after_steps(steps: Seq<QueueStep>) -> WaitQueueView
    decreases steps.len(),
{
    if steps.len() == 0 {
        WaitQueueView::empty()
    } else {
        after_step(after_steps(steps.drop_last()), steps.last())
    }
}

/// The number of pushes among some steps.
pub open spec fn pushes(steps: Seq<QueueStep>) -> nat
    decreases steps.len(),
{
    if steps.len() == 0 {
        0
    } else {
        pushes(steps.drop_last()) + if steps.last() is Push {
            1nat
        } else {
            0
        }
    }
}

/// Whatever is done to a queue, it stays ordered and its wait indices do not run out, as long as
/// fewer items are pushed than there are wait indices.
pub proof fn queues_stay_ordered(steps: Seq<QueueStep>)
    requires
        pushes(steps) < u64::MAX,
    ensures
        after_steps(steps).ordered(),
        after_steps(steps).newest_index() <= pushes(steps),
    decreases steps.len(),
{
    if steps.len() > 0 {
        queues_stay_ordered(steps.drop_last());
        let queue = after_steps(steps.drop_last());
        match steps.last() {
            QueueStep::Push { lane, item } => {
                push_keeps_order(queue, lane, item);
            },
            QueueStep::Take { lane } => {
                if queue.lane(lane).len() > 0 {
                    pop_keeps_order(queue, lane);
                }
            },
            QueueStep::Clear => {},
        }
    }
}

/// A request that is pushed while nothing else waits can be taken during a multi-frame send exactly
/// if it fits a single frame.
pub proof fn single_frame_requests_pass_multi_frame_sends(item: QueuedItem, max_frame_size: u32)
    requires
        item is Request,
    ensures
        ({
            let lane = WaitQueueView::lane_for(item, max_frame_size);
            let queue = WaitQueueView::empty().pushed(lane, item);
            &&& queue.arrivals() == seq![item]
            &&& queue.sendable(true, false) == if item_is_multi_frame(item, max_frame_size) {
                None
            } else {
                Some(lane)
            }
            &&& queue.lane(lane)[0].item == item
        }),
{
    let lane = WaitQueueView::lane_for(item, max_frame_size);
    empty_queue_is_ordered(max_frame_size);
    pushed_items_arrive_last(WaitQueueView::empty(), lane, item);
    assert(Seq::<QueuedItem>::empty().push(item) =~= seq![item]);
}

/// What was pushed to an empty queue is what comes out of it, and the queue is empty again.
pub proof fn push_then_take_gives_back(lane: Lane, item: QueuedItem)
    ensures
        ({
            let queue = WaitQueueView::empty().pushed(lane, item);
            &&& queue.sendable(true, true) == Some(lane)
            &&& queue.lane(lane)[0].item == item
            &&& queue.popped(lane) == WaitQueueView::empty()
        }),
{
    let queue = WaitQueueView::empty().pushed(lane, item);
    assert(queue.popped(lane) =~= WaitQueueView::empty());
}

/// An item waits only for a reason, and always if there is one. A request waits while its channel
/// has as many requests in flight as it may have. A request or response with a payload that does
/// not fit a frame waits while a multi-frame message is being sent on its channel. Nothing else
/// waits, so that no response ever waits for requests.
pub proof fn items_wait_only_for_a_reason<const N: usize>(
    item: QueuedItem,
    juliet: JulietProtocol<N>,
    active_multi_frame: [Option<Header>; N],
)
    ensures
        must_wait(item, juliet, active_multi_frame) <==> match item {
            QueuedItem::Request { channel, payload, .. } => {
                ||| channel.0 >= N
                ||| juliet.channels[channel.0 as int].outgoing_requests
                    >= juliet.channels[channel.0 as int].request_limit
                ||| active_multi_frame[channel.0 as int] is Some && (payload matches Some(bytes)
                    && 4 + varint_len(bytes_view(bytes).len()) + bytes_view(bytes).len()
                    > juliet.max_frame_size)
            },
            QueuedItem::Response { channel, payload, .. } => {
                active_multi_frame[channel.0 as int] is Some && (payload matches Some(bytes) && 4
                    + varint_len(bytes_view(bytes).len()) + bytes_view(bytes).len()
                    > juliet.max_frame_size)
            },
            QueuedItem::RequestCancellation { .. } => false,
            QueuedItem::ResponseCancellation { .. } => false,
            QueuedItem::Error { .. } => false,
        },
        item matches QueuedItem::Response { channel, .. }
            && active_multi_frame[channel.0 as int] is None ==> !must_wait(
            item,
            juliet,
            active_multi_frame,
        ),
{
}

/// Responses wait in the lane of responses, and requests in one of the other two, depending on
/// whether the payload fits a frame.
pub proof fn items_wait_in_their_lane(item: QueuedItem, max_frame_size: u32)
    ensures
        item is Response ==> WaitQueueView::lane_for(item, max_frame_size)
            == Lane::MultiFrameResponses,
        item matches QueuedItem::Request { payload, .. } ==> WaitQueueView::lane_for(
            item,
            max_frame_size,
        ) == if 4 + varint_len(payload_len_spec(payload)) + payload_len_spec(payload)
            > max_frame_size {
            Lane::MultiFrameRequests
        } else {
            Lane::SingleFrameRequests
        },
{
}

/// Pushing puts the item behind all others of its lane, taking removes the front one, and both leave
/// all other items where they are. A cleared queue has no items.
pub proof fn lanes_change_at_their_ends(queue: WaitQueueView, lane: Lane, other: Lane, item: QueuedItem)
    ensures
        queue.pushed(lane, item).lane(lane).len() == queue.lane(lane).len() + 1,
        queue.pushed(lane, item).lane(lane).last().item == item,
        queue.pushed(lane, item).lane(lane).drop_last() == queue.lane(lane),
        queue.lane(lane).len() > 0 ==> queue.popped(lane).lane(lane) == queue.lane(lane).subrange(
            1,
            queue.lane(lane).len() as int,
        ),
        other != lane ==> queue.pushed(lane, item).lane(other) == queue.lane(other)
            && queue.popped(lane).lane(other) == queue.lane(other),
        WaitQueueView::empty().lane(lane).len() == 0,
{
    assert(queue.pushed(lane, item).lane(lane).drop_last() =~= queue.lane(lane));
}

/// The lanes are the three that there are, and the view of a queue by lanes leaves nothing out.
pub proof fn there_are_three_lanes(queue: WaitQueueView)
    ensures
        queue.lane(Lane::SingleFrameRequests) == queue.single_frame_requests,
        queue.lane(Lane::MultiFrameRequests) == queue.multi_frame_requests,
        queue.lane(Lane::MultiFrameResponses) == queue.multi_frame_responses,
        queue.len() == queue.single_frame_requests.len() + queue.multi_frame_requests.len()
            + queue.multi_frame_responses.len(),
{
}

/// What is taken depends on what may be sent: nothing if nothing may, only responses while requests
/// are not allowed, only single frames while a multi-frame message is being sent, and otherwise the
/// item with the least wait index of all.
pub proof fn taking_follows_what_may_be_sent(queue: WaitQueueView, lane: Lane, i: int)
    requires
        queue.ordered(),
    ensures
        queue.sendable(false, false) is None,
        queue.sendable(false, true) == if queue.multi_frame_responses.len() > 0 {
            Some(Lane::MultiFrameResponses)
        } else {
            None
        },
        queue.sendable(true, false) == if queue.single_frame_requests.len() > 0 {
            Some(Lane::SingleFrameRequests)
        } else {
            None
        },
        queue.sendable(true, true) is None <==> queue.single_frame_requests.len() == 0
            && queue.multi_frame_requests.len() == 0 && queue.multi_frame_responses.len() == 0,
        queue.sendable(true, true) matches Some(first) ==> {
            &&& queue.lane(first).len() > 0
            &&& 0 <= i < queue.lane(lane).len() ==> queue.lane(first)[0].index <= queue.lane(
                lane,
            )[i].index
        },
{
    if 0 < i < queue.lane(lane).len() {
        assert(queue.lane(lane)[0].index < queue.lane(lane)[i].index);
    }
}

/// A new item gets the wait index after the greatest one of those that wait, as long as the wait
/// indices have not run out.
pub proof fn wait_indices_are_consecutive(queue: WaitQueueView, lane: Lane, item: QueuedItem)
    requires
        queue.ordered(),
        0 < queue.len(),
        queue.newest_index() < u64::MAX,
    ensures
        exists|other: Lane| #[trigger]
            queue.lane(other).len() > 0 && queue.pushed(lane, item).lane(lane).last().index
                == queue.lane(other).last().index + 1,
        forall|other: Lane| #[trigger]
            queue.lane(other).len() > 0 ==> queue.lane(other).last().index < queue.pushed(
                lane,
                item,
            ).lane(lane).last().index,
{
    let singles = Lane::SingleFrameRequests;
    let requests = Lane::MultiFrameRequests;
    let responses = Lane::MultiFrameResponses;
    let newest = if queue.lane(singles).len() > 0 && queue.lane(singles).last().index
        == queue.newest_index() {
        singles
    } else if queue.lane(requests).len() > 0 && queue.lane(requests).last().index
        == queue.newest_index() {
        requests
    } else {
        responses
    };
    assert(queue.lane(newest).len() > 0 && queue.lane(newest).last().index
        == queue.newest_index());
}

} // verus!
