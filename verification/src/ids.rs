//! Numbers that name channels and requests.

use vstd::prelude::*;

verus! {

/// A channel identifier.
#[derive(Clone, Copy, Debug, PartialEq, Eq, Structural, Hash)]
pub struct ChannelId(pub u8);

impl ChannelId {
    /// Creates a new channel identifier.
    pub fn new(chan: u8) -> (channel: ChannelId)
        ensures
            channel == ChannelId(chan),
    {
        ChannelId(chan)
    }

    /// Returns the number of the channel.
    pub fn get(self) -> (chan: u8)
        ensures
            chan == self.0,
    {
        self.0
    }
}

/// An identifier that a sender gives to a request it puts on the wire.
#[derive(Clone, Copy, Debug, PartialEq, Eq, Structural, Hash)]
pub struct Id(pub u16);

impl Id {
    /// Creates a new identifier.
    pub fn new(id: u16) -> (res: Id)
        ensures
            res == Id(id),
    {
        Id(id)
    }

    /// Returns the number of the identifier.
    pub fn get(self) -> (id: u16)
        ensures
            id == self.0,
    {
        self.0
    }
}

/// A local identifier of an outgoing request, chosen before the request has an [`Id`].
#[derive(Clone, Copy, Debug, PartialEq, Eq, Structural, Hash)]
pub struct IoId(pub u64);

} // verus!
