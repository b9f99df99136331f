use juliet::ids::{ChannelId, Id};
use juliet::payload::{clone_payload, payload_len};
use juliet::protocol::{
    payload_is_multi_frame, ChannelState, JulietProtocol, LocalProtocolViolation,
};
use bytes::Bytes;

fn protocol(in_flight: usize, limit: u16) -> JulietProtocol<2> {
    JulietProtocol {
        channels: [
            ChannelState {
                outgoing_requests: in_flight,
                request_limit: limit,
            },
            ChannelState {
                outgoing_requests: 0,
                request_limit: 1,
            },
        ],
        max_frame_size: 37,
    }
}

#[test]
fn identifiers_hold_their_number() {
    assert_eq!(ChannelId::new(7).get(), 7);
    assert_eq!(Id::new(40_000).get(), 40_000);
}

#[test]
fn payloads_that_fill_a_frame_are_single_frame() {
    // Four bytes of header and one byte of length leave 32 of 37 bytes.
    assert!(!payload_is_multi_frame(37, 0));
    assert!(!payload_is_multi_frame(37, 32));
    assert!(payload_is_multi_frame(37, 33));
    // Ten bytes fit a frame of 17.
    assert!(!payload_is_multi_frame(17, 10));
    assert!(!payload_is_multi_frame(17, 12));
    assert!(payload_is_multi_frame(17, 13));
}

#[test]
fn length_prefix_counts_towards_the_frame() {
    for (len, prefix) in [
        (0x7f, 1),
        (0x80, 2),
        (0x3fff, 2),
        (0x4000, 3),
        (0x1f_ffff, 3),
        (0x20_0000, 4),
        (0xfff_ffff, 4),
        (0x1000_0000, 5),
    ] {
        let exact: u32 = len as u32 + 4 + prefix;
        assert!(!payload_is_multi_frame(exact, len));
        assert!(payload_is_multi_frame(exact - 1, len));
    }
    assert!(payload_is_multi_frame(u32::MAX, usize::MAX));
}

#[test]
fn requests_are_allowed_up_to_the_limit() {
    let channel = ChannelId::new(0);
    assert_eq!(protocol(2, 3).allowed_to_send_request(channel), Ok(true));
    assert_eq!(protocol(3, 3).allowed_to_send_request(channel), Ok(false));
    assert_eq!(protocol(0, 0).allowed_to_send_request(channel), Ok(false));
    assert_eq!(
        protocol(3, 3).allowed_to_send_request(ChannelId::new(1)),
        Ok(true)
    );
    assert_eq!(protocol(0, 0).max_frame_size(), 37);
}

#[test]
fn unknown_channels_are_a_violation() {
    let channel = ChannelId::new(2);
    assert_eq!(
        protocol(0, 1).allowed_to_send_request(channel),
        Err(LocalProtocolViolation::InvalidChannel(channel))
    );
}

#[test]
fn missing_payload_counts_as_empty() {
    assert_eq!(payload_len(&None), 0);
    assert_eq!(payload_len(&Some(Bytes::new())), 0);
    assert_eq!(payload_len(&Some(Bytes::from_static(b"hello, world"))), 12);
    let payload = Some(Bytes::from_static(b"foobar"));
    assert_eq!(clone_payload(&payload), payload);
    assert_eq!(clone_payload(&None), None);
}
