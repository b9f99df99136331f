//! The queues between the request layer and the connection.

pub mod connection;
pub mod handle;
pub mod item;
pub mod wait_queue;
pub mod wait_queue_laws;
