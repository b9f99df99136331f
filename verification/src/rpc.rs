//! The request layer: makes requests, and answers those of the peer.
//!
//! The term RPC is used somewhat inaccurately here, as the crate does _not_ deal with the actual
//! method calls or serializing arguments, but only provides the underlying request/response system.
//!
//! Once a connection has been established, [`builder::RpcBuilder::build`] is used to construct a
//! [`client::JulietRpcClient`] and [`server::JulietRpcServer`] pair, the former being used to make
//! remote procedure calls, while the latter is used to answer them.

pub mod builder;
pub mod client;
pub mod clock;
pub mod error;
pub mod guard;
pub mod heap;
pub mod incoming;
pub mod laws;
pub mod outbox;
pub mod promise;
pub mod meaning;
pub mod server;
