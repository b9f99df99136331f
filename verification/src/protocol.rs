//! What the layers above the wire protocol need to know of it.

use crate::ids::ChannelId;
use vstd::prelude::*;

verus! {

/// The size of a frame header in bytes.
pub const HEADER_SIZE: u64 = 4;

/// A frame header: kind, channel, and identifier in little endian order.
#[derive(Clone, Copy, Debug, PartialEq, Eq)]
pub struct Header(pub [u8; 4]);

/// A local violation of the protocol, caused by the caller and not by the peer.
#[derive(Clone, Copy, Debug, PartialEq, Eq, Structural)]
pub enum LocalProtocolViolation {
    /// The given channel does not exist.
    InvalidChannel(ChannelId),
}

/// The sending side of a channel.
#[derive(Clone, Copy, Debug)]
pub struct ChannelState {
    /// The number of requests sent that are still in flight.
    pub outgoing_requests: usize,
    /// The largest number of requests that may be in flight at once.
    pub request_limit: u16,
}

/// The protocol state of a connection with `N` channels.
#[derive(Clone, Copy, Debug)]
pub struct JulietProtocol<const N: usize> {
    /// The channels, by number.
    pub channels: [ChannelState; N],
    /// The largest size of a frame, header included.
    pub max_frame_size: u32,
}

/// The number of bytes that the variable-length encoding of `n` takes.
pub open spec fn varint_len(n: nat) -> nat {
    if n < 0x80 {
        1
    } else if n < 0x4000 {
        2
    } else if n < 0x20_0000 {
        3
    } else if n < 0x1000_0000 {
        4
    } else {
        5
    }
}

/// Whether a payload of `len` bytes, its length prefix and a header overflow a single frame.
pub open spec fn is_multi_frame(max_frame_size: u32, len: nat) -> bool {
    len + HEADER_SIZE + varint_len(len) > max_frame_size
}

/// The number of frames that a payload of `len` bytes takes: a start frame, then one further
/// frame for every started run of `max_frame_size - 4` bytes that the start frame cannot hold.
pub open spec fn frame_count(max_frame_size: u32, len: nat) -> int {
    let rest = len + HEADER_SIZE + varint_len(len) - max_frame_size;
    let left = if rest > 0 { rest } else { 0 };
    let run = max_frame_size - HEADER_SIZE;
    1 + (left + run - 1) / run
}

/// A payload is a multi-frame payload exactly when it takes more than one frame.
pub proof fn multi_frame_takes_several_frames(max_frame_size: u32, len: nat)
    requires
        max_frame_size > HEADER_SIZE,
    ensures
        is_multi_frame(max_frame_size, len) <==> frame_count(max_frame_size, len) > 1,
        frame_count(max_frame_size, len) >= 1,
{
    let rest = len + HEADER_SIZE + varint_len(len) - max_frame_size;
    let run = max_frame_size - HEADER_SIZE;
    if rest > 0 {
        assert((rest + run - 1) / run >= 1) by (nonlinear_arith)
            requires
                rest > 0,
                run > 0,
        ;
    } else {
        assert((run - 1) / run == 0) by (nonlinear_arith)
            requires
                run > 0,
        ;
    }
}

/// Returns whether a payload of the given length needs more than one frame.
pub fn payload_is_multi_frame(max_frame_size: u32, payload_len: usize) -> (res: bool)
    ensures
        res == is_multi_frame(max_frame_size, payload_len as nat),
{
    let len: u128 = payload_len as u128;
    let prefix: u128 = if len < 0x80 {
        1
    } else if len < 0x4000 {
        2
    } else if len < 0x20_0000 {
        3
    } else if len < 0x1000_0000 {
        4
    } else {
        5
    };
    len + HEADER_SIZE as u128 + prefix > max_frame_size as u128
}

impl<const N: usize> JulietProtocol<N> {
    /// Whether the channel exists and has room for another request in flight.
    pub open spec fn allows_request(self, channel: ChannelId) -> bool {
        channel.0 < N && self.channels[channel.0 as int].outgoing_requests
            < self.channels[channel.0 as int].request_limit
    }

    /// Returns the largest size of a frame.
    pub fn max_frame_size(&self) -> (size: u32)
        ensures
            size == self.max_frame_size,
    {
        self.max_frame_size
    }

    /// Returns whether another request may be sent on the channel now, without exceeding the
    /// limit on requests in flight.
    pub fn allowed_to_send_request(&self, channel: ChannelId) -> (res: Result<
        bool,
        LocalProtocolViolation,
    >)
        ensures
            channel.0 >= N ==> res == Err::<bool, _>(LocalProtocolViolation::InvalidChannel(channel)),
            channel.0 < N ==> res == Ok::<_, LocalProtocolViolation>(self.allows_request(channel)),
    {
        let index: usize = channel.0 as usize;
        if index < N {
            let state = self.channels[index];
            Ok(state.outgoing_requests < state.request_limit as usize)
        } else {
            Err(LocalProtocolViolation::InvalidChannel(channel))
        }
    }
}

/// A length prefix has seven bits of the length in every byte, in as few bytes as will do, of which
/// there are five at most.
pub proof fn length_prefixes_are_short(n: nat)
    ensures
        1 <= varint_len(n) <= 5,
        n < 0x8_0000_0000 ==> n < vstd::arithmetic::power::pow(128, varint_len(n)),
        varint_len(n) > 1 ==> n >= vstd::arithmetic::power::pow(128, (varint_len(n) - 1) as nat),
        n >= 0x8_0000_0000 ==> varint_len(n) == 5,
{
    reveal(vstd::arithmetic::power::pow);
    assert(vstd::arithmetic::power::pow(128, 1) == 128 && vstd::arithmetic::power::pow(128, 2)
        == 0x4000 && vstd::arithmetic::power::pow(128, 3) == 0x20_0000
        && vstd::arithmetic::power::pow(128, 4) == 0x1000_0000 && vstd::arithmetic::power::pow(
        128,
        5,
    ) == 0x8_0000_0000) by {
        reveal_with_fuel(vstd::arithmetic::power::pow, 6);
    }
}

/// A payload fits a single frame exactly if four bytes of header, the length prefix and the payload
/// do. A longer payload never fits a frame that a shorter one does not, and never a smaller frame.
pub proof fn frames_hold_what_fits(max_frame_size: u32, len: nat, larger_frame: u32, longer: nat)
    requires
        max_frame_size <= larger_frame,
        len <= longer,
    ensures
        is_multi_frame(max_frame_size, len) <==> 4 + varint_len(len) + len > max_frame_size,
        is_multi_frame(max_frame_size, len) ==> is_multi_frame(max_frame_size, longer),
        is_multi_frame(larger_frame, len) ==> is_multi_frame(max_frame_size, len),
{
}

/// A channel allows a request exactly if it exists and has fewer requests in flight than it may
/// have.
pub proof fn channels_allow_requests_below_their_limit<const N: usize>(
    juliet: JulietProtocol<N>,
    channel: ChannelId,
)
    ensures
        channel.0 >= N ==> !juliet.allows_request(channel),
        channel.0 < N ==> (juliet.allows_request(channel) <==> {
            let state = juliet.channels[channel.0 as int];
            state.outgoing_requests < state.request_limit
        }),
{
}

} // verus!
