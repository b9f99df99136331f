//! Setting up clients and servers.

use crate::ids::ChannelId;
use crate::io::connection::{queue_source, IoCoreBuilder};
use crate::io::handle::{semaphore_size, Handle};
use crate::rpc::clock::is_reading;
use crate::rpc::client::{requests_channel, requests_source, JulietRpcClient};
use crate::rpc::promise::Promise;
use crate::rpc::server::{JulietRpcServer, Timeout};
use std::time::Duration;
use vstd::multiset::Multiset;
use vstd::prelude::*;

verus! {

/// Builder for a new RPC interface.
pub struct RpcBuilder<const N: usize> {
    /// The builder of the connection.
    core: IoCoreBuilder<N>,
    /// Whether or not to enable timeout bubbling.
    bubble_timeouts: bool,
    /// The default timeout for created requests.
    default_timeout: Option<Duration>,
}

/// What an RPC builder holds.
pub ghost struct RpcBuilderView<const N: usize> {
    pub connection: IoCoreBuilder<N>,
    pub bubble_timeouts: bool,
    pub default_timeout: Option<Duration>,
}

impl<const N: usize> View for RpcBuilder<N> {
    type V = RpcBuilderView<N>;

    closed spec fn view(&self) -> RpcBuilderView<N> {
        RpcBuilderView {
            connection: self.core,
            bubble_timeouts: self.bubble_timeouts,
            default_timeout: self.default_timeout,
        }
    }
}

impl<const N: usize> RpcBuilder<N> {
    /// Constructs a new RPC builder.
    ///
    /// The builder can be reused to create instances for multiple connections.
    pub fn new(core: IoCoreBuilder<N>) -> (builder: Self)
        ensures
            builder@ == (RpcBuilderView {
                connection: core,
                bubble_timeouts: false,
                default_timeout: None,
            }),
    {
        RpcBuilder { core, bubble_timeouts: false, default_timeout: None }
    }

    /// Enables timeout bubbling.
    ///
    /// If enabled, any timeout from an RPC call will also cause an error in
    /// [`JulietRpcServer::begin_turn`], specifically an
    /// [`RpcServerError::FatalTimeout`](crate::rpc::error::RpcServerError::FatalTimeout), which
    /// will cause a severing of the connection.
    ///
    /// This feature can be used to implement a liveness check, causing any timed out request to be
    /// considered fatal. Note that under high load a remote server may take time to answer, thus it
    /// is best not to set too aggressive timeout values on requests if this setting is enabled.
    pub fn with_bubble_timeouts(self, bubble_timeouts: bool) -> (builder: Self)
        ensures
            builder@ == (RpcBuilderView { bubble_timeouts, ..self@ }),
    {
        RpcBuilder { bubble_timeouts, ..self }
    }

    /// Sets a default timeout.
    ///
    /// If set, a default timeout will be applied to every request made through the created
    /// [`JulietRpcClient`].
    pub fn with_default_timeout(self, default_timeout: Duration) -> (builder: Self)
        ensures
            builder@ == (RpcBuilderView { default_timeout: Some(default_timeout), ..self@ }),
    {
        RpcBuilder { default_timeout: Some(default_timeout), ..self }
    }

    /// Creates new RPC client and server instances.
    pub fn build<R, W>(&self, reader: R, writer: W) -> (res: (
        JulietRpcClient<N>,
        JulietRpcServer<N, R, W>,
    ))
        ensures
            res.0.default_timeout == self@.default_timeout,
            forall|channel: ChannelId|
                channel.0 < N ==> semaphore_size(
                    #[trigger] res.0.request_handle.buffer(channel),
                ) == self@.connection.buffer_size(),
            res.1.ends().0.juliet == self@.connection.protocol(),
            res.1.ends().0.reader == reader,
            res.1.ends().0.writer == writer,
            requests_source(res.1.ends().1) == res.0.new_request_sender,
            res.1@.handle == (Handle { sender: queue_source(res.1.ends().0.queue) }),
            res.0.request_handle.target() == res.1@.handle,
            res.1@.pending == Map::<u64, Promise>::empty(),
            res.1.uses() == 0,
            is_reading(res.1@.origin),
            res.1@.timeouts == Multiset::<Timeout>::empty(),
            res.1@.bubble_timeouts == self@.bubble_timeouts,
    {
        let (core, core_handle) = self.core.build(reader, writer);

        let (new_request_sender, new_requests_receiver) = requests_channel();

        let client = JulietRpcClient {
            new_request_sender,
            request_handle: core_handle.clone(),
            default_timeout: self.default_timeout,
        };
        let server = JulietRpcServer::new(
            core,
            core_handle.downgrade(),
            new_requests_receiver,
            self.bubble_timeouts,
        );

        (client, server)
    }
}

} // verus!
