use bytes::Bytes;
use juliet::ids::{ChannelId, Id, IoId};
use juliet::io::connection::{CoreError, IoCoreBuilder, IoEvent};
use juliet::io::handle::ReservationError;
use juliet::io::item::QueuedItem;
use juliet::protocol::{ChannelState, JulietProtocol, LocalProtocolViolation};
use juliet::rpc::builder::RpcBuilder;
use juliet::rpc::client::{expiry_at, expiry_of, JulietRpcClient};
use juliet::rpc::error::{RequestError, RpcServerError};
use juliet::rpc::guard::{RequestGuard, RequestGuardInner};
use juliet::rpc::server::{JulietRpcServer, Progress, ServerInput, IDLE_CHECK_NANOS};
use std::sync::Arc;
use std::time::Duration;
use tokio::time::Instant;

type Client = JulietRpcClient<2>;
type Server = JulietRpcServer<2, &'static str, &'static str>;

const SECOND: u128 = 1_000_000_000;
const HOUR: u128 = 3600 * SECOND;

fn builder(buffer_size: usize) -> RpcBuilder<2> {
    let channel = ChannelState {
        outgoing_requests: 0,
        request_limit: 3,
    };
    let protocol = JulietProtocol {
        channels: [channel, channel],
        max_frame_size: 37,
    };
    RpcBuilder::new(IoCoreBuilder::with_default_buffer_size(
        protocol,
        buffer_size,
    ))
}

fn pair(buffer_size: usize) -> (Client, Server) {
    builder(buffer_size).build("reader", "writer")
}

/// Makes a request with the given timeout.
fn make(client: &Client, payload: &'static [u8], timeout: Option<Duration>) -> RequestGuard {
    let mut request = client
        .create_request(ChannelId::new(0))
        .with_payload(Bytes::from_static(payload));
    if let Some(timeout) = timeout {
        request = request.with_timeout(timeout);
    }
    request.try_queue_for_sending().expect("buffer has space")
}

/// Lets the server take up the next request of a client. Returns its identifier on the way out.
fn take_up(server: &mut Server) -> IoId {
    let request = server
        .new_requests_receiver
        .try_recv()
        .expect("a request was made");
    let progress = server.next_request(ServerInput::NewRequest(Some(request)));
    assert!(matches!(progress, Progress::Continue));
    match server.core.queue.try_recv() {
        Ok(QueuedItem::Request { io_id, .. }) => io_id,
        other => panic!("unexpected {:?}", other),
    }
}

fn respond(server: &mut Server, io_id: IoId, payload: Option<Bytes>) {
    let event = IoEvent::ReceivedResponse { io_id, payload };
    let progress = server.next_request(ServerInput::CoreEvent(Ok(Some(event))));
    assert!(matches!(progress, Progress::Continue));
}

#[test]
fn response_reaches_its_request() {
    let (client, mut server) = pair(4);
    let first = make(&client, b"one", None);
    let second = make(&client, b"two", None);
    let first_id = take_up(&mut server);
    let second_id = take_up(&mut server);
    assert_ne!(first_id, second_id);

    respond(&mut server, second_id, Some(Bytes::from_static(b"second")));
    let first = first.try_get_response().expect_err("no response yet");
    assert_eq!(
        second.try_get_response().expect("has a response"),
        Ok(Some(Bytes::from_static(b"second")))
    );
    respond(&mut server, first_id, None);
    assert_eq!(first.try_get_response().expect("has a response"), Ok(None));
}

#[test]
fn request_is_sent_as_it_was_built() {
    let (client, mut server) = pair(4);
    let guard = client
        .create_request(ChannelId::new(1))
        .with_payload(Bytes::from_static(b"foobar"))
        .try_queue_for_sending()
        .expect("buffer has space");
    let request = server.new_requests_receiver.try_recv().expect("was sent");
    assert_eq!(request.expires, None);
    server.start_request(request);
    match server.core.queue.try_recv() {
        Ok(QueuedItem::Request {
            channel, payload, ..
        }) => {
            assert_eq!(channel, ChannelId::new(1));
            assert_eq!(payload, Some(Bytes::from_static(b"foobar")));
        }
        other => panic!("unexpected {:?}", other),
    }
    assert!(guard.try_get_response().is_err());
}

#[test]
fn remote_cancellation_is_reported() {
    let (client, mut server) = pair(4);
    let guard = make(&client, b"one", None);
    let io_id = take_up(&mut server);
    let event = IoEvent::ReceivedCancellationResponse { io_id };
    let progress = server.next_request(ServerInput::CoreEvent(Ok(Some(event))));
    assert!(matches!(progress, Progress::Continue));
    assert_eq!(
        guard.try_get_response().expect("has an outcome"),
        Err(RequestError::RemoteCancelled)
    );
}

#[test]
fn late_and_unknown_responses_are_ignored() {
    let (client, mut server) = pair(4);
    let guard = make(&client, b"one", None);
    let io_id = take_up(&mut server);
    respond(&mut server, IoId(io_id.0 + 1), None);
    respond(&mut server, io_id, Some(Bytes::from_static(b"first")));
    respond(&mut server, io_id, Some(Bytes::from_static(b"late")));
    assert_eq!(
        guard.try_get_response().expect("has an outcome"),
        Ok(Some(Bytes::from_static(b"first")))
    );
}

#[test]
fn short_timeout_is_not_held_up_by_a_long_one() {
    let (client, mut server) = pair(4);
    let long = make(&client, b"long", Some(Duration::from_secs(7200)));
    let short = make(&client, b"short", Some(Duration::from_secs(60)));
    let long_id = take_up(&mut server);
    let short_id = take_up(&mut server);

    let deadline = server.begin_turn_at(0).expect("timeouts are not fatal");
    assert!(60 * SECOND <= deadline && deadline < HOUR);

    let deadline = server.begin_turn_at(HOUR).expect("timeouts are not fatal");
    assert!(2 * HOUR <= deadline && deadline < 3 * HOUR);
    assert_eq!(
        short.try_get_response().expect("has an outcome"),
        Err(RequestError::TimedOut)
    );
    match server.core.queue.try_recv() {
        Ok(QueuedItem::RequestCancellation { io_id }) => assert_eq!(io_id, short_id),
        other => panic!("unexpected {:?}", other),
    }
    assert!(server.core.queue.try_recv().is_err());

    let long = long.try_get_response().expect_err("still pending");
    respond(&mut server, long_id, Some(Bytes::from_static(b"long")));
    assert_eq!(
        long.try_get_response().expect("has an outcome"),
        Ok(Some(Bytes::from_static(b"long")))
    );
}

#[test]
fn timeouts_are_checked_when_they_are_due() {
    let (client, mut server) = pair(4);
    let guard = make(&client, b"one", Some(Duration::from_secs(60)));
    take_up(&mut server);
    let deadline = server.begin_turn_at(0).expect("timeouts are not fatal");

    assert_eq!(server.process_timeouts(deadline - 1), (deadline, 0));
    let guard = guard.try_get_response().expect_err("still pending");
    assert_eq!(
        server.process_timeouts(deadline),
        (deadline + IDLE_CHECK_NANOS, 1)
    );
    assert_eq!(
        guard.try_get_response().expect("has an outcome"),
        Err(RequestError::TimedOut)
    );
    // A second check at the same time finds nothing.
    assert_eq!(
        server.process_timeouts(deadline),
        (deadline + IDLE_CHECK_NANOS, 0)
    );
}

#[test]
fn idle_server_checks_again_after_an_hour() {
    let (_client, mut server) = pair(4);
    assert_eq!(IDLE_CHECK_NANOS, HOUR);
    assert_eq!(server.process_timeouts(17), (HOUR + 17, 0));
}

#[test]
fn turn_begins_at_the_present() {
    let (_client, mut server) = pair(4);
    let before = Instant::now();
    let deadline = server
        .begin_turn()
        .expect("clock is in range")
        .expect("nothing timed out");
    let after = Instant::now();
    let earliest = before.saturating_duration_since(server.origin()).as_nanos();
    let latest = after.saturating_duration_since(server.origin()).as_nanos();
    assert!(earliest + HOUR <= deadline && deadline <= latest + HOUR);
}

#[test]
fn answered_request_does_not_time_out() {
    let (client, mut server) = builder(4)
        .with_bubble_timeouts(true)
        .build("reader", "writer");
    let guard = make(&client, b"one", Some(Duration::from_secs(60)));
    let io_id = take_up(&mut server);
    respond(&mut server, io_id, None);
    assert_eq!(server.process_timeouts(HOUR), (2 * HOUR, 0));
    assert!(server.begin_turn_at(2 * HOUR).is_ok());
    assert_eq!(guard.try_get_response().expect("has an outcome"), Ok(None));
}

#[test]
fn bubbled_timeouts_are_fatal() {
    let (client, mut server) = builder(4)
        .with_bubble_timeouts(true)
        .build("reader", "writer");
    let first = make(&client, b"one", Some(Duration::from_secs(60)));
    let second = make(&client, b"two", Some(Duration::from_secs(61)));
    take_up(&mut server);
    take_up(&mut server);
    assert!(server.begin_turn_at(0).is_ok());
    assert!(matches!(
        server.begin_turn_at(HOUR),
        Err(RpcServerError::FatalTimeout { count: 2 })
    ));
    for guard in [first, second] {
        assert_eq!(
            guard.try_get_response().expect("has an outcome"),
            Err(RequestError::TimedOut)
        );
    }
}

#[test]
fn default_timeout_applies_unless_another_is_set() {
    let (client, mut server) = builder(4)
        .with_default_timeout(Duration::from_secs(60))
        .build("reader", "writer");
    assert_eq!(client.default_timeout, Some(Duration::from_secs(60)));
    let with_default = make(&client, b"one", None);
    let with_other = make(&client, b"two", Some(Duration::from_secs(7200)));
    take_up(&mut server);
    take_up(&mut server);
    assert_eq!(server.process_timeouts(HOUR).1, 1);
    assert_eq!(
        with_default.try_get_response().expect("has an outcome"),
        Err(RequestError::TimedOut)
    );
    assert!(with_other.try_get_response().is_err());
}

#[test]
fn expiry_is_the_timeout_from_now() {
    let now = Instant::now();
    assert_eq!(expiry_of(None, now), Ok(None));
    let expiry = expiry_of(Some(Duration::from_secs(5)), now);
    assert_eq!(expiry, Ok(Some(now + Duration::from_secs(5))));
    assert_eq!(
        expiry_of(Some(Duration::MAX), now),
        Err(RequestError::TimeoutOverflow(Duration::MAX))
    );
}

#[test]
fn overflowing_timeout_is_reported() {
    let (client, mut server) = pair(4);
    let guard = make(&client, b"one", Some(Duration::MAX));
    assert_eq!(
        guard.try_get_response().expect("has an outcome"),
        Err(RequestError::TimeoutOverflow(Duration::MAX))
    );
    assert!(server.new_requests_receiver.try_recv().is_err());
}

#[test]
fn full_buffer_gives_the_builder_back() {
    let (client, mut server) = pair(1);
    let _first = make(&client, b"one", None);
    let request = client
        .create_request(ChannelId::new(0))
        .with_payload(Bytes::from_static(b"two"));
    let request = request.try_queue_for_sending().expect_err("buffer is full");
    // The other channel has a buffer of its own.
    assert!(client
        .create_request(ChannelId::new(1))
        .try_queue_for_sending()
        .is_ok());
    // Buffer space is released when the request has been sent.
    take_up(&mut server);
    let request = request
        .try_queue_for_sending()
        .expect("buffer has space again");
    assert!(request.try_get_response().is_err());
    assert_eq!(
        client
            .request_handle
            .try_reserve_request(ChannelId::new(0))
            .expect_err("buffer is full"),
        ReservationError::NoBufferSpaceAvailable
    );
}

#[test]
fn smallest_buffer_is_the_default() {
    let channel = ChannelState {
        outgoing_requests: 0,
        request_limit: 1,
    };
    let protocol = JulietProtocol {
        channels: [channel],
        max_frame_size: 37,
    };
    let (client, _server) = RpcBuilder::new(IoCoreBuilder::new(protocol)).build((), ());
    assert_eq!(
        client
            .request_handle
            .semaphore(ChannelId::new(0))
            .available_permits(),
        1
    );
}

#[test]
fn closed_buffer_is_reported() {
    let (client, _server) = pair(4);
    client
        .request_handle
        .semaphore(ChannelId::new(0))
        .close();
    assert_eq!(
        client
            .request_handle
            .try_reserve_request(ChannelId::new(0))
            .expect_err("closed"),
        ReservationError::Closed
    );
    let guard = make(&client, b"lost", None);
    assert_eq!(
        guard.try_get_response().expect("has an outcome"),
        Err(RequestError::RemoteClosed(Some(Bytes::from_static(
            b"lost"
        ))))
    );
    let guard = client
        .create_request(ChannelId::new(0))
        .with_payload(Bytes::from_static(b"lost"))
        .queue_for_sending(None);
    assert_eq!(
        guard.try_get_response().expect("has an outcome"),
        Err(RequestError::RemoteClosed(Some(Bytes::from_static(
            b"lost"
        ))))
    );
}

#[test]
fn reserved_request_is_sent() {
    let (client, mut server) = pair(4);
    let ticket = client
        .request_handle
        .try_reserve_request(ChannelId::new(0))
        .expect("buffer has space");
    let io_id = ticket.io_id;
    let guard = client
        .create_request(ChannelId::new(0))
        .queue_for_sending(Some(ticket));
    assert_eq!(take_up(&mut server), io_id);
    respond(&mut server, io_id, None);
    assert_eq!(guard.try_get_response().expect("has an outcome"), Ok(None));
}

#[test]
fn payload_can_be_recovered() {
    let (client, _server) = pair(4);
    let request = client.create_request(ChannelId::new(0));
    assert_eq!(request.into_payload(), None);
    let request = client
        .create_request(ChannelId::new(0))
        .with_payload(Bytes::from_static(b"foobar"))
        .with_timeout(Duration::from_secs(1));
    assert_eq!(request.into_payload(), Some(Bytes::from_static(b"foobar")));
}

#[test]
fn requests_to_a_server_that_is_gone_fail() {
    let (client, server) = pair(4);
    drop(server);
    let guard = make(&client, b"lost", None);
    assert_eq!(
        guard.try_get_response().expect("has an outcome"),
        Err(RequestError::RemoteClosed(Some(Bytes::from_static(
            b"lost"
        ))))
    );
}

#[test]
fn request_on_a_closed_connection_is_refused() {
    let (client, mut server) = pair(4);
    let guard = make(&client, b"lost", Some(Duration::from_secs(1)));
    server.core.queue.close();
    let request = server.new_requests_receiver.try_recv().expect("was sent");
    let progress = server.next_request(ServerInput::NewRequest(Some(request)));
    assert!(matches!(progress, Progress::Continue));
    assert_eq!(
        guard.try_get_response().expect("has an outcome"),
        Err(RequestError::RemoteClosed(Some(Bytes::from_static(
            b"lost"
        ))))
    );
    assert_eq!(server.process_timeouts(HOUR), (2 * HOUR, 0));
}

#[test]
fn timeout_on_a_closed_connection_is_reported_all_the_same() {
    let (client, mut server) = pair(4);
    let guard = make(&client, b"one", Some(Duration::from_secs(60)));
    take_up(&mut server);
    server.core.queue.close();
    assert_eq!(server.process_timeouts(HOUR), (2 * HOUR, 1));
    assert_eq!(
        guard.try_get_response().expect("has an outcome"),
        Err(RequestError::TimedOut)
    );
}

#[test]
fn incoming_requests_are_produced() {
    let (_client, mut server) = pair(4);
    let event = IoEvent::NewRequest {
        channel: ChannelId::new(1),
        id: Id::new(77),
        payload: Some(Bytes::from_static(b"foobar")),
    };
    let request = match server.next_request(ServerInput::CoreEvent(Ok(Some(event)))) {
        Progress::Done(Ok(Some(request))) => request,
        other => panic!("unexpected {:?}", other),
    };
    assert_eq!(request.channel(), ChannelId::new(1));
    assert_eq!(request.id(), Id::new(77));
    let payload = request.payload().clone();
    request.respond(payload);
    match server.core.queue.try_recv() {
        Ok(QueuedItem::Response {
            channel,
            id,
            payload,
        }) => {
            assert_eq!(channel, ChannelId::new(1));
            assert_eq!(id, Id::new(77));
            assert_eq!(payload, Some(Bytes::from_static(b"foobar")));
        }
        other => panic!("unexpected {:?}", other),
    }
}

#[test]
fn inputs_that_end_or_continue_the_server() {
    let (_client, mut server) = pair(4);
    assert!(matches!(
        server.next_request(ServerInput::TimeoutElapsed),
        Progress::Continue
    ));
    assert!(matches!(
        server.next_request(ServerInput::NewRequest(None)),
        Progress::Done(Ok(None))
    ));
    assert!(matches!(
        server.next_request(ServerInput::CoreEvent(Ok(None))),
        Progress::Done(Ok(None))
    ));
    let event = IoEvent::RequestCancelled {
        channel: ChannelId::new(0),
        id: Id::new(1),
    };
    assert!(matches!(
        server.next_request(ServerInput::CoreEvent(Ok(Some(event)))),
        Progress::Continue
    ));
    assert!(server.core.queue.try_recv().is_err());
}

#[test]
fn errors_of_the_connection_are_reported() {
    let (_client, mut server) = pair(4);
    assert!(matches!(
        server.next_request(ServerInput::CoreEvent(Err(CoreError::ErrorWriteTimeout))),
        Progress::Done(Err(RpcServerError::CoreError(CoreError::ErrorWriteTimeout)))
    ));
    let violation = LocalProtocolViolation::InvalidChannel(ChannelId::new(9));
    let error = RpcServerError::from(CoreError::LocalProtocolViolation(violation));
    assert!(matches!(
        error,
        RpcServerError::CoreError(CoreError::LocalProtocolViolation(reported))
            if reported == violation
    ));
}

#[test]
fn shutdown_informs_all_requests() {
    let (client, mut server) = pair(4);
    let sent = make(&client, b"sent", None);
    let also_sent = make(&client, b"also sent", Some(Duration::from_secs(60)));
    take_up(&mut server);
    take_up(&mut server);
    let waiting = make(&client, b"waiting", None);
    let also_waiting = make(&client, b"also waiting", None);

    server.shutdown();

    for guard in [sent, also_sent] {
        assert_eq!(
            guard.try_get_response().expect("has an outcome"),
            Err(RequestError::Shutdown)
        );
    }
    assert_eq!(
        waiting.try_get_response().expect("has an outcome"),
        Err(RequestError::RemoteClosed(Some(Bytes::from_static(
            b"waiting"
        ))))
    );
    assert_eq!(
        also_waiting.try_get_response().expect("has an outcome"),
        Err(RequestError::RemoteClosed(Some(Bytes::from_static(
            b"also waiting"
        ))))
    );
    // No request is taken in any more.
    let late = client
        .clone()
        .request_handle
        .try_reserve_request(ChannelId::new(1))
        .expect("buffer has space");
    let late = client
        .create_request(ChannelId::new(1))
        .queue_for_sending(Some(late));
    assert_eq!(
        late.try_get_response().expect("has an outcome"),
        Err(RequestError::RemoteClosed(None))
    );
}

#[test]
fn connection_is_built_from_its_parts() {
    let (client, server) = pair(4);
    assert_eq!(server.core.reader, "reader");
    assert_eq!(server.core.writer, "writer");
    assert_eq!(server.core.juliet.max_frame_size, 37);
    assert_eq!(client.default_timeout, None);
    assert_eq!(
        client
            .request_handle
            .semaphore(ChannelId::new(1))
            .available_permits(),
        4
    );
    assert!(client
        .clone()
        .request_handle
        .downgrade()
        .enqueue_request_cancellation(IoId(3))
        .is_ok());
}

#[test]
fn errors_are_cloned_faithfully() {
    let errors = vec![
        RequestError::RemoteClosed(Some(Bytes::from_static(b"foobar"))),
        RequestError::RemoteClosed(None),
        RequestError::Shutdown,
        RequestError::TimedOut,
        RequestError::TimeoutOverflow(Duration::from_secs(3)),
        RequestError::RemoteCancelled,
        RequestError::Cancelled,
        RequestError::Error(LocalProtocolViolation::InvalidChannel(ChannelId::new(1))),
    ];
    for (i, error) in errors.iter().enumerate() {
        let copy = error.clone();
        for (j, other) in errors.iter().enumerate() {
            assert_eq!(&copy == other, i == j);
        }
    }
}

#[test]
fn ticket_follows_from_the_reservation() {
    let (client, _server) = pair(4);
    let handle = &client.request_handle;
    let channel = ChannelId::new(1);
    let buffer = handle.semaphore(channel);
    let permit = buffer.clone().try_acquire_owned().expect("has space");
    let ticket = handle
        .issue_reserved(channel, Ok(permit))
        .expect("space was reserved");
    assert_eq!(ticket.channel, channel);
    assert_eq!(buffer.available_permits(), 3);
    for error in [
        ReservationError::Closed,
        ReservationError::NoBufferSpaceAvailable,
    ] {
        assert_eq!(
            handle
                .issue_reserved(channel, Err(error))
                .expect_err("nothing was reserved"),
            error
        );
    }
    drop(ticket);
    assert_eq!(buffer.available_permits(), 4);
}

#[test]
fn expiry_follows_from_the_end_of_the_timeout() {
    let timeout = Duration::from_secs(5);
    let end = Instant::now();
    assert_eq!(expiry_at(timeout, Some(end)), Ok(Some(end)));
    assert_eq!(
        expiry_at(timeout, None),
        Err(RequestError::TimeoutOverflow(timeout))
    );
}

#[test]
fn request_is_prepared_for_the_time_it_is_made() {
    let (client, _server) = pair(4);
    let now = Instant::now();
    let guard = Arc::new(RequestGuardInner::new());
    let ticket = client
        .request_handle
        .try_reserve_request(ChannelId::new(1))
        .expect("buffer has space");
    let io_id = ticket.io_id;
    let request = client
        .create_request(ChannelId::new(1))
        .with_payload(Bytes::from_static(b"foobar"))
        .with_timeout(Duration::from_secs(5))
        .prepare(ticket, guard.clone(), now)
        .expect("timeout does not overflow");
    assert_eq!(request.ticket.io_id, io_id);
    assert_eq!(request.ticket.channel, ChannelId::new(1));
    assert!(Arc::ptr_eq(&request.guard, &guard));
    assert_eq!(request.payload, Some(Bytes::from_static(b"foobar")));
    assert_eq!(request.expires, Some(now + Duration::from_secs(5)));

    let notice = request.refuse();
    assert!(Arc::ptr_eq(&notice.guard, &guard));
    assert_eq!(
        notice.outcome,
        Err(RequestError::RemoteClosed(Some(Bytes::from_static(
            b"foobar"
        ))))
    );
    assert!(notice.deliver());
    assert_eq!(
        RequestGuard { inner: guard }
            .try_get_response()
            .expect("has an outcome"),
        Err(RequestError::RemoteClosed(Some(Bytes::from_static(
            b"foobar"
        ))))
    );

    let ticket = client
        .request_handle
        .try_reserve_request(ChannelId::new(1))
        .expect("buffer has space");
    assert_eq!(
        client
            .create_request(ChannelId::new(1))
            .with_timeout(Duration::MAX)
            .prepare(ticket, Arc::new(RequestGuardInner::new()), now)
            .err(),
        Some(RequestError::TimeoutOverflow(Duration::MAX))
    );
}

#[test]
fn request_made_at_a_given_time_expires_from_there() {
    let (client, mut server) = pair(4);
    let now = server.origin();
    let ticket = client
        .request_handle
        .try_reserve_request(ChannelId::new(0))
        .expect("buffer has space");
    let guard = client
        .create_request(ChannelId::new(0))
        .with_timeout(Duration::from_secs(60))
        .enqueue_request_at(ticket, now);
    take_up(&mut server);
    assert_eq!(server.process_timeouts(60 * SECOND - 1), (60 * SECOND, 0));
    let guard = guard.try_get_response().expect_err("still pending");
    assert_eq!(
        server.process_timeouts(60 * SECOND),
        (60 * SECOND + HOUR, 1)
    );
    assert_eq!(
        guard.try_get_response().expect("has an outcome"),
        Err(RequestError::TimedOut)
    );
}

#[test]
fn zero_timeout_is_reached_at_once() {
    for bubble in [true, false] {
        let (client, mut server) = builder(4)
            .with_bubble_timeouts(bubble)
            .build("reader", "writer");
        let guard = make(&client, b"one", Some(Duration::ZERO));
        take_up(&mut server);
        let turn = server.begin_turn().expect("clock is in range");
        if bubble {
            assert!(matches!(
                turn,
                Err(RpcServerError::FatalTimeout { count: 1 })
            ));
        } else {
            assert!(turn.is_ok());
        }
        assert_eq!(
            guard.try_get_response().expect("has an outcome"),
            Err(RequestError::TimedOut)
        );
        drop(client);
        assert!(server.new_requests_receiver.try_recv().is_err());
        assert!(matches!(
            server.next_request(ServerInput::NewRequest(None)),
            Progress::Done(Ok(None))
        ));
    }
}

#[test]
fn timed_out_requests_are_listed_in_order() {
    let (client, mut server) = pair(8);
    let _guards: Vec<RequestGuard> = [50, 10, 30, 7200, 20]
        .iter()
        .map(|&secs| make(&client, b"one", Some(Duration::from_secs(secs))))
        .collect();
    let ids: Vec<IoId> = (0..5).map(|_| take_up(&mut server)).collect();
    // One request is answered in time.
    respond(&mut server, ids[2], None);

    let timed_out = server.take_timed_out(HOUR);
    let listed: Vec<IoId> = timed_out.iter().map(|t| t.timeout.io_id).collect();
    assert_eq!(listed, vec![ids[1], ids[4], ids[0]]);
    assert!(timed_out
        .iter()
        .all(|t| t.timeout.when <= HOUR && t.guard.outcome.get().is_none()));
    // Nothing is sent by listing them.
    assert!(server.core.queue.try_recv().is_err());
    assert!(server.take_timed_out(HOUR).is_empty());
    assert_eq!(server.take_timed_out(3 * HOUR).len(), 1);
}

#[test]
fn only_timed_out_requests_are_cancelled() {
    let (client, mut server) = pair(4);
    let _answered = make(&client, b"one", Some(Duration::from_secs(60)));
    let _lost = make(&client, b"two", Some(Duration::from_secs(60)));
    let answered_id = take_up(&mut server);
    let lost_id = take_up(&mut server);
    respond(&mut server, answered_id, None);
    assert_eq!(server.process_timeouts(HOUR).1, 1);
    assert!(matches!(
        server.core.queue.try_recv(),
        Ok(QueuedItem::RequestCancellation { io_id }) if io_id == lost_id
    ));
    assert!(server.core.queue.try_recv().is_err());
}

#[test]
fn responses_give_notice_to_their_request() {
    let (client, mut server) = pair(4);
    let guard = make(&client, b"one", None);
    let io_id = take_up(&mut server);
    let response = || IoEvent::ReceivedResponse {
        io_id,
        payload: Some(Bytes::from_static(b"answer")),
    };
    let (request, notice) = server.record_event(response());
    assert!(request.is_none());
    let notice = notice.expect("request was pending");
    assert!(Arc::ptr_eq(&notice.guard, &guard.inner));
    assert_eq!(notice.outcome, Ok(Some(Bytes::from_static(b"answer"))));
    // The request is no longer pending.
    let (request, notice) = server.record_event(response());
    assert!(request.is_none());
    assert!(notice.is_none());
}

#[test]
fn refused_requests_are_owed_a_notice() {
    let (_client, mut server) = pair(4);
    let guard = Arc::new(RequestGuardInner::new());
    let payload = Some(Bytes::from_static(b"lost"));
    let notice = server
        .record_enqueued(Err(payload.clone()), guard.clone(), None)
        .expect("was refused");
    assert!(Arc::ptr_eq(&notice.guard, &guard));
    assert_eq!(notice.outcome, Err(RequestError::RemoteClosed(payload)));
    assert!(server
        .record_enqueued(Ok(IoId(7)), guard.clone(), None)
        .is_none());

    let notices = server.drain_pending();
    assert_eq!(notices.len(), 1);
    assert!(Arc::ptr_eq(&notices[0].guard, &guard));
    assert_eq!(notices[0].outcome, Err(RequestError::Shutdown));
    assert!(server.drain_pending().is_empty());
}

#[test]
fn unsent_request_gets_its_payload_back_at_shutdown() {
    let (client, mut server) = pair(4);
    let guard = make(&client, b"x", None);
    server.shutdown();
    assert_eq!(
        guard.try_get_response().expect("has an outcome"),
        Err(RequestError::RemoteClosed(Some(Bytes::from_static(b"x"))))
    );
}

#[test]
fn check_in_between_makes_no_difference() {
    let timeouts = [60, 2400, 2700, 7200];
    let mut counts = Vec::new();
    for checks in [vec![HOUR], vec![HOUR / 2, HOUR]] {
        let (client, mut server) = pair(4);
        let _guards: Vec<RequestGuard> = timeouts
            .iter()
            .map(|&secs| make(&client, b"one", Some(Duration::from_secs(secs))))
            .collect();
        for _ in timeouts {
            take_up(&mut server);
        }
        let timed_out: Vec<usize> = checks
            .iter()
            .map(|&now| server.process_timeouts(now).1)
            .collect();
        counts.push(timed_out);
    }
    assert_eq!(counts, vec![vec![3], vec![1, 2]]);
}

#[test]
fn request_cancelled_in_the_queue_is_not_sent() {
    let (client, mut server) = pair(1);
    let mut guard = make(&client, b"one", Some(Duration::from_secs(60)));
    guard.do_cancel();
    let request = server.new_requests_receiver.try_recv().expect("was made");
    let io_id = request.ticket.io_id;
    let progress = server.next_request(ServerInput::NewRequest(Some(request)));
    assert!(matches!(progress, Progress::Continue));
    // Only the cancellation went out, nothing is pending, and the buffer has space again.
    assert!(matches!(
        server.core.queue.try_recv(),
        Ok(QueuedItem::RequestCancellation { io_id: cancelled }) if cancelled == io_id
    ));
    assert!(server.core.queue.try_recv().is_err());
    assert!(server.drain_pending().is_empty());
    assert_eq!(server.process_timeouts(HOUR), (2 * HOUR, 0));
    let _next = make(&client, b"two", None);
    assert_eq!(guard.take_inner(), Some(Err(RequestError::Cancelled)));
}

#[test]
fn request_cancelled_in_flight_is_cancelled_with_the_peer() {
    let (client, mut server) = pair(4);
    let mut guard = make(&client, b"one", None);
    let io_id = take_up(&mut server);
    guard.do_cancel();
    assert!(matches!(
        server.core.queue.try_recv(),
        Ok(QueuedItem::RequestCancellation { io_id: cancelled }) if cancelled == io_id
    ));
    // The answer of the peer comes too late.
    respond(&mut server, io_id, None);
    assert_eq!(guard.take_inner(), Some(Err(RequestError::Cancelled)));
    assert!(server.drain_pending().is_empty());
}

#[test]
fn requests_are_started_unless_they_were_cancelled() {
    for cancelled in [true, false] {
        let (client, mut server) = pair(4);
        let _guard = make(&client, b"one", None);
        let request = server.new_requests_receiver.try_recv().expect("was made");
        server.start_unless(request, cancelled);
        assert_eq!(server.core.queue.try_recv().is_ok(), !cancelled);
        assert_eq!(server.drain_pending().is_empty(), cancelled);
    }
}
