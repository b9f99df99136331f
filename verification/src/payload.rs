//! Payloads: opaque byte strings.

use bytes::Bytes;
use vstd::prelude::*;

verus! {

/// A byte string of `bytes`, whose inside stays hidden.
#[verifier::external_type_specification]
#[verifier::external_body]
pub struct ExBytes(Bytes);

/// The bytes that a `Bytes` holds.
pub uninterp spec fn bytes_view(bytes: Bytes) -> Seq<u8>;

/// `Bytes::len`: the number of bytes held.
pub assume_specification[ Bytes::len ](bytes: &Bytes) -> (len: usize)
    ensures
        len == bytes_view(*bytes).len(),
    opens_invariants none
;

/// `Bytes::clone`: another handle on the same bytes.
pub assume_specification[ <Bytes as Clone>::clone ](bytes: &Bytes) -> (res: Bytes)
    ensures
        bytes_view(res) == bytes_view(*bytes),
;

/// The bytes of an optional payload.
pub open spec fn payload_view(payload: Option<Bytes>) -> Option<Seq<u8>> {
    match payload {
        Some(bytes) => Some(bytes_view(bytes)),
        None => None,
    }
}

/// The length of an optional payload, where a missing one counts as empty.
pub open spec fn payload_len_spec(payload: Option<Bytes>) -> nat {
    match payload {
        Some(bytes) => bytes_view(bytes).len(),
        None => 0,
    }
}

/// Returns the length of an optional payload, where a missing one counts as empty.
pub fn payload_len(payload: &Option<Bytes>) -> (len: usize)
    ensures
        len == payload_len_spec(*payload),
    opens_invariants none
{
    match payload {
        Some(bytes) => bytes.len(),
        None => 0,
    }
}

/// Copies an optional payload.
pub fn clone_payload(payload: &Option<Bytes>) -> (res: Option<Bytes>)
    ensures
        payload_view(res) == payload_view(*payload),
{
    match payload {
        Some(bytes) => Some(bytes.clone()),
        None => None,
    }
}

/// A payload is its bytes, and no payload is not the same as an empty one, although it is as long.
pub proof fn payloads_are_their_bytes(payload: Option<Bytes>)
    ensures
        payload_view(None) is None,
        payload_len_spec(None) == 0,
        payload matches Some(bytes) ==> {
            &&& payload_view(payload) == Some(bytes_view(bytes))
            &&& payload_len_spec(payload) == bytes_view(bytes).len()
        },
{
}

} // verus!
