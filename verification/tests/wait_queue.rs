use bytes::Bytes;
use juliet::ids::{ChannelId, Id, IoId};
use juliet::io::item::QueuedItem;
use juliet::io::wait_queue::{PushOutcome, WaitQueue};
use juliet::protocol::{ChannelState, Header, JulietProtocol, LocalProtocolViolation};
use std::sync::Arc;
use tokio::sync::{OwnedSemaphorePermit, Semaphore};

const BUSY: [Option<Header>; 1] = [Some(Header([0, 0, 0, 0]))];
const IDLE: [Option<Header>; 1] = [None];

fn protocol(in_flight: usize) -> JulietProtocol<1> {
    JulietProtocol {
        channels: [ChannelState {
            outgoing_requests: in_flight,
            request_limit: 1,
        }],
        max_frame_size: 37,
    }
}

fn full() -> JulietProtocol<1> {
    protocol(1)
}

fn open() -> JulietProtocol<1> {
    protocol(0)
}

fn permit() -> OwnedSemaphorePermit {
    Arc::new(Semaphore::new(1))
        .try_acquire_owned()
        .expect("fresh semaphore")
}

fn request(io_id: u64, len: usize) -> QueuedItem {
    QueuedItem::Request {
        channel: ChannelId::new(0),
        io_id: IoId(io_id),
        payload: Some(Bytes::from(vec![io_id as u8; len])),
        permit: permit(),
    }
}

fn response(id: u16, len: usize) -> QueuedItem {
    QueuedItem::Response {
        channel: ChannelId::new(0),
        id: Id::new(id),
        payload: Some(Bytes::from(vec![id as u8; len])),
    }
}

/// A short text for an item.
fn name(item: &QueuedItem) -> String {
    match item {
        QueuedItem::Request { io_id, payload, .. } => {
            format!("request {} {:?}", io_id.0, payload.as_ref().map(|p| p.len()))
        }
        QueuedItem::Response { id, payload, .. } => {
            format!("response {} {:?}", id.get(), payload.as_ref().map(|p| p.len()))
        }
        QueuedItem::RequestCancellation { io_id } => format!("request cancellation {}", io_id.0),
        QueuedItem::ResponseCancellation { id, .. } => {
            format!("response cancellation {}", id.get())
        }
        QueuedItem::Error { id, payload, .. } => format!("error {} {}", id.get(), payload.len()),
    }
}

/// Pushes an item. Returns its text if it was handed back.
fn push(
    queue: &mut WaitQueue,
    item: QueuedItem,
    juliet: &JulietProtocol<1>,
    active: &[Option<Header>; 1],
) -> Option<String> {
    match queue.try_push_back(item, juliet, active) {
        Ok(PushOutcome::Pushed) => None,
        Ok(PushOutcome::NotPushed(item)) => Some(name(&item)),
        Err(violation) => panic!("unexpected {:?}", violation),
    }
}

/// Takes the next item. Returns its text.
fn take(
    queue: &mut WaitQueue,
    juliet: &JulietProtocol<1>,
    active: &[Option<Header>; 1],
) -> Option<String> {
    queue
        .next_item(ChannelId::new(0), juliet, active)
        .expect("channel exists")
        .map(|item| name(&item))
}

/// A queue with two items in each lane, pushed in turns.
fn mixed() -> WaitQueue {
    let mut queue = WaitQueue::default();
    assert_eq!(push(&mut queue, request(1, 100), &full(), &IDLE), None);
    assert_eq!(push(&mut queue, request(2, 5), &full(), &IDLE), None);
    assert_eq!(push(&mut queue, response(3, 100), &full(), &BUSY), None);
    assert_eq!(push(&mut queue, response(4, 100), &full(), &BUSY), None);
    assert_eq!(push(&mut queue, request(5, 5), &full(), &BUSY), None);
    assert_eq!(push(&mut queue, request(6, 100), &open(), &BUSY), None);
    queue
}

#[test]
fn items_that_may_be_sent_are_handed_back() {
    let mut queue = WaitQueue::new();
    for active in [&IDLE, &BUSY] {
        assert_eq!(
            push(&mut queue, request(1, 32), &open(), active),
            Some(String::from("request 1 Some(32)"))
        );
        assert_eq!(
            push(&mut queue, response(2, 32), &full(), active),
            Some(String::from("response 2 Some(32)"))
        );
    }
    assert_eq!(
        push(&mut queue, request(3, 33), &open(), &IDLE),
        Some(String::from("request 3 Some(33)"))
    );
    assert_eq!(
        push(&mut queue, response(4, 33), &open(), &IDLE),
        Some(String::from("response 4 Some(33)"))
    );
    assert_eq!(take(&mut queue, &open(), &IDLE), None);
}

#[test]
fn items_without_payload_are_never_multi_frame() {
    let mut queue = WaitQueue::new();
    let item = QueuedItem::Response {
        channel: ChannelId::new(0),
        id: Id::new(9),
        payload: None,
    };
    assert_eq!(
        push(&mut queue, item, &full(), &BUSY),
        Some(String::from("response 9 None"))
    );
    let item = QueuedItem::Request {
        channel: ChannelId::new(0),
        io_id: IoId(8),
        payload: None,
        permit: permit(),
    };
    assert_eq!(
        push(&mut queue, item, &open(), &BUSY),
        Some(String::from("request 8 None"))
    );
}

#[test]
fn cancellations_and_errors_never_wait() {
    let mut queue = WaitQueue::new();
    let cancellation = QueuedItem::RequestCancellation { io_id: IoId(1) };
    assert_eq!(
        push(&mut queue, cancellation, &full(), &BUSY),
        Some(String::from("request cancellation 1"))
    );
    let cancellation = QueuedItem::ResponseCancellation {
        channel: ChannelId::new(0),
        id: Id::new(2),
    };
    assert_eq!(
        push(&mut queue, cancellation, &full(), &BUSY),
        Some(String::from("response cancellation 2"))
    );
    let error = QueuedItem::Error {
        channel: ChannelId::new(0),
        id: Id::new(3),
        payload: Bytes::from(vec![0; 1000]),
    };
    assert_eq!(
        push(&mut queue, error, &full(), &BUSY),
        Some(String::from("error 3 1000"))
    );
    assert_eq!(take(&mut queue, &open(), &IDLE), None);
}

#[test]
fn items_leave_in_order_of_arrival() {
    let mut queue = mixed();
    let mut taken = Vec::new();
    while let Some(item) = take(&mut queue, &open(), &IDLE) {
        taken.push(item);
    }
    assert_eq!(
        taken,
        vec![
            "request 1 Some(100)",
            "request 2 Some(5)",
            "response 3 Some(100)",
            "response 4 Some(100)",
            "request 5 Some(5)",
            "request 6 Some(100)",
        ]
    );
}

#[test]
fn only_responses_leave_a_full_channel() {
    let mut queue = mixed();
    assert_eq!(
        take(&mut queue, &full(), &IDLE),
        Some(String::from("response 3 Some(100)"))
    );
    assert_eq!(
        take(&mut queue, &full(), &IDLE),
        Some(String::from("response 4 Some(100)"))
    );
    assert_eq!(take(&mut queue, &full(), &IDLE), None);
    assert_eq!(
        take(&mut queue, &open(), &IDLE),
        Some(String::from("request 1 Some(100)"))
    );
}

#[test]
fn only_single_frames_leave_during_a_multi_frame_send() {
    let mut queue = mixed();
    assert_eq!(
        take(&mut queue, &open(), &BUSY),
        Some(String::from("request 2 Some(5)"))
    );
    assert_eq!(
        take(&mut queue, &open(), &BUSY),
        Some(String::from("request 5 Some(5)"))
    );
    assert_eq!(take(&mut queue, &open(), &BUSY), None);
    assert_eq!(
        take(&mut queue, &open(), &IDLE),
        Some(String::from("request 1 Some(100)"))
    );
}

#[test]
fn nothing_leaves_a_full_channel_during_a_multi_frame_send() {
    let mut queue = mixed();
    assert_eq!(take(&mut queue, &full(), &BUSY), None);
    assert_eq!(
        take(&mut queue, &open(), &IDLE),
        Some(String::from("request 1 Some(100)"))
    );
}

#[test]
fn order_survives_taking_and_pushing_in_turns() {
    let mut queue = mixed();
    assert_eq!(
        take(&mut queue, &full(), &IDLE),
        Some(String::from("response 3 Some(100)"))
    );
    assert_eq!(push(&mut queue, response(7, 40), &full(), &BUSY), None);
    assert_eq!(push(&mut queue, request(8, 1), &full(), &BUSY), None);
    let mut taken = Vec::new();
    while let Some(item) = take(&mut queue, &open(), &IDLE) {
        taken.push(item);
    }
    assert_eq!(
        taken,
        vec![
            "request 1 Some(100)",
            "request 2 Some(5)",
            "response 4 Some(100)",
            "request 5 Some(5)",
            "request 6 Some(100)",
            "response 7 Some(40)",
            "request 8 Some(1)",
        ]
    );
}

#[test]
fn pushed_item_is_given_back_unchanged() {
    let mut queue = WaitQueue::new();
    assert_eq!(push(&mut queue, request(12, 34), &full(), &IDLE), None);
    let item = queue.next_item(ChannelId::new(0), &open(), &IDLE);
    match item {
        Ok(Some(QueuedItem::Request {
            channel,
            io_id,
            payload,
            ..
        })) => {
            assert_eq!(channel, ChannelId::new(0));
            assert_eq!(io_id, IoId(12));
            assert_eq!(payload, Some(Bytes::from(vec![12; 34])));
        }
        other => panic!("unexpected {:?}", other),
    }
}

#[test]
fn unknown_channels_are_reported_and_change_nothing() {
    let mut queue = mixed();
    let unknown = ChannelId::new(1);
    let item = QueuedItem::Request {
        channel: unknown,
        io_id: IoId(9),
        payload: None,
        permit: permit(),
    };
    assert!(matches!(
        queue.try_push_back(item, &open(), &IDLE),
        Err(LocalProtocolViolation::InvalidChannel(channel)) if channel == unknown
    ));
    assert!(matches!(
        queue.next_item(unknown, &open(), &IDLE),
        Err(LocalProtocolViolation::InvalidChannel(channel)) if channel == unknown
    ));
    assert_eq!(
        take(&mut queue, &open(), &IDLE),
        Some(String::from("request 1 Some(100)"))
    );
}

#[test]
fn nothing_waits_in_a_cleared_queue() {
    let mut queue = mixed();
    queue.clear();
    assert_eq!(take(&mut queue, &open(), &IDLE), None);
    assert_eq!(push(&mut queue, request(1, 1), &full(), &IDLE), None);
    assert_eq!(
        take(&mut queue, &open(), &IDLE),
        Some(String::from("request 1 Some(1)"))
    );
}

#[test]
fn first_item_that_may_leave_is_taken_and_the_rest_keeps_its_order() {
    // Which item is taken first from the mixed queue, and what comes after it.
    for (juliet, active, first) in [
        (open(), IDLE, Some("request 1 Some(100)")),
        (open(), BUSY, Some("request 2 Some(5)")),
        (full(), IDLE, Some("response 3 Some(100)")),
        (full(), BUSY, None),
    ] {
        let mut queue = mixed();
        assert_eq!(
            take(&mut queue, &juliet, &active),
            first.map(|name| String::from(name))
        );
        let mut rest: Vec<String> = Vec::new();
        while let Some(item) = take(&mut queue, &open(), &IDLE) {
            rest.push(item);
        }
        let mut expected: Vec<&str> = vec![
            "request 1 Some(100)",
            "request 2 Some(5)",
            "response 3 Some(100)",
            "response 4 Some(100)",
            "request 5 Some(5)",
            "request 6 Some(100)",
        ];
        expected.retain(|item| Some(*item) != first);
        assert_eq!(rest, expected);
    }
}

#[test]
fn lone_request_passes_a_multi_frame_send_if_it_fits_a_frame() {
    for (len, expected) in [
        (32, Some(String::from("request 1 Some(32)"))),
        (33, None),
    ] {
        let mut queue = WaitQueue::new();
        assert_eq!(push(&mut queue, request(1, len), &full(), &IDLE), None);
        assert_eq!(take(&mut queue, &open(), &BUSY), expected);
    }
}

#[test]
fn order_begins_anew_after_clearing() {
    let mut queue = mixed();
    queue.clear();
    assert_eq!(push(&mut queue, response(1, 100), &full(), &BUSY), None);
    assert_eq!(push(&mut queue, request(2, 5), &full(), &BUSY), None);
    assert_eq!(push(&mut queue, request(3, 100), &full(), &BUSY), None);
    for expected in [
        "response 1 Some(100)",
        "request 2 Some(5)",
        "request 3 Some(100)",
    ] {
        assert_eq!(
            take(&mut queue, &open(), &IDLE),
            Some(String::from(expected))
        );
    }
    assert_eq!(take(&mut queue, &open(), &IDLE), None);
}
