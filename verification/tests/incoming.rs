use bytes::Bytes;
use juliet::ids::{ChannelId, Id, IoId};
use juliet::io::handle::{EnqueueError, Handle};
use juliet::io::item::QueuedItem;
use juliet::rpc::incoming::{IncomingRequest, Reply};
use tokio::sync::mpsc::{unbounded_channel, UnboundedReceiver};

fn incoming(payload: Option<Bytes>) -> (IncomingRequest, UnboundedReceiver<QueuedItem>) {
    let (sender, receiver) = unbounded_channel();
    let request = IncomingRequest::new(ChannelId::new(3), Id::new(5), payload, Handle { sender });
    (request, receiver)
}

#[test]
fn requests_are_described() {
    let (request, _queue) = incoming(Some(Bytes::from_static(b"foobar")));
    assert_eq!(
        request.describe(),
        "IncomingRequest { channel: 3, id: 5, payload: 6 bytes }"
    );
    let (request, _queue) = incoming(None);
    assert_eq!(
        request.describe(),
        "IncomingRequest { channel: 3, id: 5, payload: none>"
    );
}

#[test]
fn requests_give_access_to_their_parts() {
    let (mut request, _queue) = incoming(Some(Bytes::from_static(b"foobar")));
    assert_eq!(request.channel(), ChannelId::new(3));
    assert_eq!(request.id(), Id::new(5));
    assert_eq!(request.payload(), &Some(Bytes::from_static(b"foobar")));
    assert_eq!(
        request.payload_mut().take(),
        Some(Bytes::from_static(b"foobar"))
    );
    assert_eq!(request.payload(), &None);
}

#[test]
fn responses_go_back_to_where_the_request_came_from() {
    let (request, mut queue) = incoming(None);
    request.respond(Some(Bytes::from_static(b"answer")));
    match queue.try_recv() {
        Ok(QueuedItem::Response {
            channel,
            id,
            payload,
        }) => {
            assert_eq!(channel, ChannelId::new(3));
            assert_eq!(id, Id::new(5));
            assert_eq!(payload, Some(Bytes::from_static(b"answer")));
        }
        other => panic!("unexpected {:?}", other),
    }
    assert!(queue.try_recv().is_err());
}

#[test]
fn cancellations_go_back_to_where_the_request_came_from() {
    let (request, mut queue) = incoming(None);
    request.cancel();
    match queue.try_recv() {
        Ok(QueuedItem::ResponseCancellation { channel, id }) => {
            assert_eq!(channel, ChannelId::new(3));
            assert_eq!(id, Id::new(5));
        }
        other => panic!("unexpected {:?}", other),
    }
    assert!(queue.try_recv().is_err());
}

#[test]
fn requests_are_answered_once() {
    let (mut request, mut queue) = incoming(None);
    request.do_respond(None);
    request.do_cancel();
    request.do_respond(None);
    assert!(matches!(queue.try_recv(), Ok(QueuedItem::Response { .. })));
    assert!(queue.try_recv().is_err());
}

#[test]
fn answers_to_a_closed_connection_are_discarded() {
    let (request, queue) = incoming(None);
    drop(queue);
    request.respond(None);
    let (request, queue) = incoming(None);
    drop(queue);
    request.cancel();
}

#[test]
fn closed_handles_give_the_payload_back() {
    let (sender, queue) = unbounded_channel();
    drop(queue);
    let handle = Handle { sender };
    let payload = Some(Bytes::from_static(b"lost"));
    assert!(matches!(
        handle.enqueue_response(ChannelId::new(0), Id::new(1), payload.clone()),
        Err(EnqueueError::Closed(returned)) if returned == payload
    ));
    assert!(matches!(
        handle.enqueue_response_cancellation(ChannelId::new(0), Id::new(1)),
        Err(EnqueueError::Closed(None))
    ));
    assert!(matches!(
        handle.enqueue_request_cancellation(IoId(1)),
        Err(EnqueueError::Closed(None))
    ));
}

#[test]
fn there_is_one_answer_to_a_request() {
    let (mut request, mut queue) = incoming(None);
    let answer = request
        .take_response(Some(Bytes::from_static(b"answer")))
        .expect("was not answered");
    assert_eq!(answer.channel, ChannelId::new(3));
    assert_eq!(answer.id, Id::new(5));
    assert!(matches!(
        &answer.reply,
        Reply::Response(Some(payload)) if payload == "answer"
    ));
    assert!(request.take_response(None).is_none());
    assert!(request.take_cancellation().is_none());
    // Nothing is sent by taking it.
    assert!(queue.try_recv().is_err());
    answer.send();
    assert!(matches!(queue.try_recv(), Ok(QueuedItem::Response { .. })));

    let (mut request, queue) = incoming(None);
    let answer = request.take_cancellation().expect("was not answered");
    assert_eq!(answer.channel, ChannelId::new(3));
    assert_eq!(answer.id, Id::new(5));
    assert!(matches!(answer.reply, Reply::Cancellation));
    assert!(request.take_response(None).is_none());
    drop(queue);
    answer.send();
}
