use bytes::Bytes;
use futures::FutureExt;
use juliet::ids::IoId;
use juliet::io::handle::Handle;
use juliet::io::item::QueuedItem;
use juliet::rpc::error::{Outcome, RequestError};
use juliet::rpc::guard::{Notice, RequestGuard, RequestGuardInner};
use std::sync::Arc;
use tokio::sync::mpsc::unbounded_channel;

/// Waits until the outcome has arrived, then takes it.
async fn wait_for_response(guard: RequestGuard) -> Outcome {
    if let Some(ready) = &guard.inner.ready {
        ready.notified().await;
    }
    guard.take_inner().expect("notified without an outcome")
}

#[test]
fn request_guard_polls_waiting_with_no_response() {
    let inner = Arc::new(RequestGuardInner::new());
    let guard = RequestGuard { inner };

    // Initially, the guard should not have a response.
    let guard = guard
        .try_get_response()
        .expect_err("should not have a result");

    // Polling it should also result in a wait.
    let waiting = wait_for_response(guard);

    assert!(waiting.now_or_never().is_none());
}

#[test]
fn request_guard_polled_early_returns_response_when_available() {
    let inner = Arc::new(RequestGuardInner::new());
    let guard = RequestGuard {
        inner: inner.clone(),
    };

    // Waiter created before response sent.
    let waiting = wait_for_response(guard);
    inner.set_and_notify(Ok(None));

    assert_eq!(waiting.now_or_never().expect("should poll ready"), Ok(None));
}

#[test]
fn request_guard_polled_late_returns_response_when_available() {
    let inner = Arc::new(RequestGuardInner::new());
    let guard = RequestGuard {
        inner: inner.clone(),
    };

    inner.set_and_notify(Ok(None));

    // Waiter created after response sent.
    let waiting = wait_for_response(guard);

    assert_eq!(waiting.now_or_never().expect("should poll ready"), Ok(None));
}

#[test]
fn request_guard_get_returns_correct_value_when_available() {
    let inner = Arc::new(RequestGuardInner::new());
    let guard = RequestGuard {
        inner: inner.clone(),
    };

    // Waiter created and polled before notification.
    let guard = guard
        .try_get_response()
        .expect_err("should not have a result");

    let payload_str = b"hello, world";
    inner.set_and_notify(Ok(Some(Bytes::from_static(payload_str))));

    assert_eq!(
        guard.try_get_response().expect("should be ready"),
        Ok(Some(Bytes::from_static(payload_str)))
    );
}

#[test]
fn request_guard_harmless_to_set_multiple_times() {
    // We want first write wins semantics here.
    let inner = Arc::new(RequestGuardInner::new());
    let guard = RequestGuard {
        inner: inner.clone(),
    };

    let payload_str = b"hello, world";
    let payload_str2 = b"goodbye, world";

    inner.set_and_notify(Ok(Some(Bytes::from_static(payload_str))));
    inner.set_and_notify(Ok(Some(Bytes::from_static(payload_str2))));

    assert_eq!(
        guard.try_get_response().expect("should be ready"),
        Ok(Some(Bytes::from_static(payload_str)))
    );

    inner.set_and_notify(Ok(Some(Bytes::from_static(payload_str2))));
    inner.set_and_notify(Ok(Some(Bytes::from_static(payload_str2))));
    inner.set_and_notify(Ok(Some(Bytes::from_static(payload_str2))));
    inner.set_and_notify(Ok(Some(Bytes::from_static(payload_str2))));
    inner.set_and_notify(Ok(Some(Bytes::from_static(payload_str2))));
    inner.set_and_notify(Ok(Some(Bytes::from_static(payload_str2))));
    inner.set_and_notify(Ok(Some(Bytes::from_static(payload_str2))));
}

#[test]
fn only_the_first_outcome_is_set() {
    let inner = RequestGuardInner::new();
    assert!(inner.set_and_notify(Err(RequestError::TimedOut)));
    assert!(!inner.set_and_notify(Ok(None)));
    assert_eq!(inner.outcome.get(), Some(&Err(RequestError::TimedOut)));
}

#[test]
fn notified_once_although_offered_twice() {
    let inner = Arc::new(RequestGuardInner::new());
    inner.set_and_notify(Ok(None));
    inner.set_and_notify(Ok(None));

    let first = wait_for_response(RequestGuard {
        inner: inner.clone(),
    });
    assert_eq!(first.now_or_never(), Some(Ok(None)));
    let second = wait_for_response(RequestGuard { inner });
    assert!(second.now_or_never().is_none());
}

#[test]
fn error_guard_is_resolved_from_the_start() {
    let guard = RequestGuard::new_error(RequestError::Cancelled);
    assert!(guard.inner.ready.is_none());
    assert!(!guard.inner.set_and_notify(Ok(None)));
    assert_eq!(
        wait_for_response(guard).now_or_never(),
        Some(Err(RequestError::Cancelled))
    );
}

#[test]
fn forgotten_request_still_gets_its_outcome() {
    let inner = Arc::new(RequestGuardInner::new());
    RequestGuard {
        inner: inner.clone(),
    }
    .forget();
    assert_eq!(inner.outcome.get(), None);
    assert!(inner.set_and_notify(Ok(None)));
}

#[test]
fn cancelled_request_ends_as_cancelled() {
    let (sender, mut queue) = unbounded_channel();
    let inner = Arc::new(RequestGuardInner::for_request(Handle { sender }, IoId(5)));
    assert!(!inner.is_resolved());
    let waiting = wait_for_response(RequestGuard {
        inner: inner.clone(),
    });
    RequestGuard {
        inner: inner.clone(),
    }
    .cancel();
    assert!(inner.is_resolved());
    assert_eq!(waiting.now_or_never(), Some(Err(RequestError::Cancelled)));
    assert!(matches!(
        queue.try_recv(),
        Ok(QueuedItem::RequestCancellation { io_id: IoId(5) })
    ));
    // There is nothing left to cancel.
    RequestGuard { inner }.cancel();
    assert!(queue.try_recv().is_err());
}

#[test]
fn request_with_an_outcome_is_not_cancelled() {
    let (sender, mut queue) = unbounded_channel();
    let inner = Arc::new(RequestGuardInner::for_request(Handle { sender }, IoId(5)));
    inner.set_and_notify(Ok(None));
    let mut guard = RequestGuard { inner };
    guard.do_cancel();
    assert!(queue.try_recv().is_err());
    assert_eq!(guard.try_get_response().expect("should be ready"), Ok(None));
}

#[test]
fn cancelling_on_a_closed_connection_is_harmless() {
    let (sender, queue) = unbounded_channel();
    drop(queue);
    let inner = Arc::new(RequestGuardInner::for_request(Handle { sender }, IoId(5)));
    let mut guard = RequestGuard { inner };
    guard.do_cancel();
    assert_eq!(guard.take_inner(), Some(Err(RequestError::Cancelled)));
    // A request that was never made has no one to tell.
    RequestGuard::new_error(RequestError::Shutdown).cancel();
}

#[test]
fn whoever_waits_is_notified_if_the_outcome_was_set() {
    for (set, expected) in [(Ok(()), true), (Err(Ok(None)), false)] {
        let inner = RequestGuardInner::new();
        assert_eq!(inner.notify_first(set), expected);
        let ready = inner.ready.as_ref().expect("can be waited for");
        assert_eq!(ready.notified().now_or_never().is_some(), expected);
    }
}

#[test]
fn cancellation_is_sent_if_the_request_was_given_up_in_time() {
    for first in [true, false] {
        let (sender, mut queue) = unbounded_channel();
        let inner = RequestGuardInner::for_request(Handle { sender }, IoId(5));
        inner.withdraw(first);
        assert_eq!(queue.try_recv().is_ok(), first);
    }
}

#[test]
fn new_guard_has_no_outcome() {
    let inner = RequestGuardInner::new();
    assert_eq!(inner.outcome.get(), None);
    assert!(inner.ready.is_some());
}

#[test]
fn notices_are_delivered_to_their_request() {
    let guard = Arc::new(RequestGuardInner::new());
    let other = Arc::new(RequestGuardInner::new());
    let notice = |outcome: Outcome| Notice {
        guard: guard.clone(),
        outcome,
    };
    assert!(notice(Err(RequestError::Shutdown)).deliver());
    assert!(!notice(Ok(None)).deliver());
    assert_eq!(guard.outcome.get(), Some(&Err(RequestError::Shutdown)));
    assert_eq!(other.outcome.get(), None);
}

#[test]
fn delivering_a_notice_wakes_whoever_waits() {
    let guard = Arc::new(RequestGuardInner::new());
    let waiting = wait_for_response(RequestGuard {
        inner: guard.clone(),
    });
    assert!(Notice {
        guard,
        outcome: Err(RequestError::RemoteCancelled),
    }
    .deliver());
    assert_eq!(
        waiting.now_or_never(),
        Some(Err(RequestError::RemoteCancelled))
    );
}

#[test]
fn outcome_is_found_again_and_again() {
    let inner = Arc::new(RequestGuardInner::new());
    let outcome = Ok(Some(Bytes::from_static(b"hello, world")));
    inner.set_and_notify(outcome.clone());
    for _ in 0..2 {
        let guard = RequestGuard {
            inner: inner.clone(),
        };
        assert_eq!(guard.take_inner(), Some(outcome.clone()));
        assert_eq!(guard.try_get_response().expect("should be ready"), outcome);
    }
}
