//! Why a request yields no response.

use crate::io::connection::CoreError;
use crate::payload::{clone_payload, payload_view};
use crate::protocol::LocalProtocolViolation;
use bytes::Bytes;
use std::time::Duration;
use vstd::prelude::*;

verus! {

/// An RPC request error.
///
/// Describes the reason a request did not yield a response.
#[derive(Debug, PartialEq, Eq)]
pub enum RequestError {
    /// Remote closed, could not send.
    ///
    /// The request was never sent out, since the connection was already shut down when it was
    /// made.
    RemoteClosed(Option<Bytes>),
    /// Sent, but never received a reply.
    ///
    /// Request was sent, but we never received anything back before the connection was shut down.
    Shutdown,
    /// Local timeout.
    ///
    /// The request was cancelled on our end due to a timeout.
    TimedOut,
    /// Local timeout overflow.
    ///
    /// The given timeout would cause a clock overflow.
    TimeoutOverflow(Duration),
    /// Remote responded with cancellation.
    ///
    /// Instead of sending a response, the remote sent a cancellation.
    RemoteCancelled,
    /// Cancelled locally.
    ///
    /// Request was cancelled on our end.
    Cancelled,
    /// API misuse.
    ///
    /// Either the API was misused, or a bug in this crate appeared.
    Error(LocalProtocolViolation),
}

/// What became of a request: an optional payload, or an error.
pub type Outcome = Result<Option<Bytes>, RequestError>;

/// Whether two errors are the same, payloads compared byte by byte.
pub open spec fn same_error(a: RequestError, b: RequestError) -> bool {
    match (a, b) {
        (RequestError::RemoteClosed(p), RequestError::RemoteClosed(q)) => payload_view(p)
            == payload_view(q),
        _ => a == b,
    }
}

/// Whether two outcomes are the same, payloads compared byte by byte.
pub open spec fn same_outcome(a: Outcome, b: Outcome) -> bool {
    match (a, b) {
        (Ok(p), Ok(q)) => payload_view(p) == payload_view(q),
        (Err(e), Err(f)) => same_error(e, f),
        _ => false,
    }
}

impl Clone for RequestError {
    fn clone(&self) -> (res: Self)
        ensures
            same_error(res, *self),
    {
        match self {
            RequestError::RemoteClosed(payload) => RequestError::RemoteClosed(
                clone_payload(payload),
            ),
            RequestError::Shutdown => RequestError::Shutdown,
            RequestError::TimedOut => RequestError::TimedOut,
            RequestError::TimeoutOverflow(timeout) => RequestError::TimeoutOverflow(*timeout),
            RequestError::RemoteCancelled => RequestError::RemoteCancelled,
            RequestError::Cancelled => RequestError::Cancelled,
            RequestError::Error(violation) => RequestError::Error(*violation),
        }
    }
}

/// Copies an outcome.
pub fn clone_outcome(outcome: &Outcome) -> (res: Outcome)
    ensures
        same_outcome(res, *outcome),
{
    match outcome {
        Ok(payload) => Ok(clone_payload(payload)),
        Err(error) => Err(error.clone()),
    }
}

/// An error produced by the RPC server.
#[derive(Debug)]
pub enum RpcServerError {
    /// An error of the connection.
    CoreError(CoreError),
    /// At least `count` requests timed out, and the RPC layer is configured to bubble up timeouts.
    FatalTimeout {
        /// Number of requests that timed out at once.
        count: usize,
    },
}

impl From<CoreError> for RpcServerError {
    fn from(error: CoreError) -> (res: Self) {
        RpcServerError::CoreError(error)
    }
}

impl vstd::std_specs::convert::FromSpecImpl<CoreError> for RpcServerError {
    open spec fn obeys_from_spec() -> bool {
        true
    }

    open spec fn from_spec(error: CoreError) -> RpcServerError {
        RpcServerError::CoreError(error)
    }
}

/// Outcomes are the same exactly if both are responses with the same bytes, or both are errors of
/// the same kind that hold the same.
pub proof fn same_outcomes_hold_the_same(a: Outcome, b: Outcome)
    ensures
        same_outcome(a, a),
        same_outcome(a, b) ==> same_outcome(b, a),
        same_outcome(a, b) <==> match (a, b) {
            (Ok(p), Ok(q)) => payload_view(p) == payload_view(q),
            (
                Err(RequestError::RemoteClosed(p)),
                Err(RequestError::RemoteClosed(q)),
            ) => payload_view(p) == payload_view(q),
            (Err(RequestError::Shutdown), Err(RequestError::Shutdown)) => true,
            (Err(RequestError::TimedOut), Err(RequestError::TimedOut)) => true,
            (
                Err(RequestError::TimeoutOverflow(s)),
                Err(RequestError::TimeoutOverflow(t)),
            ) => s == t,
            (Err(RequestError::RemoteCancelled), Err(RequestError::RemoteCancelled)) => true,
            (Err(RequestError::Cancelled), Err(RequestError::Cancelled)) => true,
            (Err(RequestError::Error(v)), Err(RequestError::Error(w))) => v == w,
            _ => false,
        },
{
}

} // verus!
