//! A request/response system with back-pressure over a multiplexed connection.

pub mod ids;
pub mod io;
pub mod payload;
pub mod protocol;
pub mod rpc;
pub mod text;
