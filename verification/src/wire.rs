//! Wire format of the rendezvous control channel.
//!
//! Every rendezvous message is one send/receive round trip of two discrete
//! messages: a 4-byte little-endian prefix (a byte length, or a handle
//! count), then the body — payload bytes, or an OS handle list carried as
//! ancillary data. The agreed ring capacity travels as an 8-byte
//! little-endian payload.

use vstd::bytes::lemma_auto_spec_u32_to_from_le_bytes;
use vstd::bytes::lemma_auto_spec_u64_to_from_le_bytes;
use vstd::bytes::spec_u32_from_le_bytes;
use vstd::bytes::spec_u32_to_le_bytes;
use vstd::bytes::spec_u64_from_le_bytes;
use vstd::bytes::spec_u64_to_le_bytes;
use vstd::bytes::u32_from_le_bytes;
use vstd::bytes::u32_to_le_bytes;
use vstd::bytes::u64_from_le_bytes;
use vstd::bytes::u64_to_le_bytes;
use vstd::prelude::*;

use crate::msg::ChannelError;

verus! {

/// The 4-byte prefix that announces a count: the byte length of the payload
/// message that follows, or the number of handles in the ancillary block.
/// A count beyond the prefix's range cannot be announced and is rejected.
pub fn encode_count_prefix(count: usize) -> (r: Result<Vec<u8>, ChannelError>)
    ensures
        r is Ok <==> count <= u32::MAX,
        r matches Ok(v) ==> v@ == spec_u32_to_le_bytes(count as u32),
        r is Err ==> r == Err::<Vec<u8>, ChannelError>(ChannelError::ProtocolViolation),
{
    if count > u32::MAX as usize {
        Err(ChannelError::ProtocolViolation)
    } else {
        Ok(u32_to_le_bytes(count as u32))
    }
}

/// Read a count prefix back. Anything but exactly 4 bytes is a malformed
/// prefix.
pub fn decode_count_prefix(prefix: &[u8]) -> (r: Result<u32, ChannelError>)
    ensures
        r is Ok <==> prefix@.len() == 4,
        r matches Ok(n) ==> n == spec_u32_from_le_bytes(prefix@),
        r is Err ==> r == Err::<u32, ChannelError>(ChannelError::ProtocolViolation),
{
    if prefix.len() != 4 {
        Err(ChannelError::ProtocolViolation)
    } else {
        Ok(u32_from_le_bytes(prefix))
    }
}

/// The 8-byte message that announces the ring capacity.
pub fn encode_capacity(capacity: u64) -> (v: Vec<u8>)
    ensures
        v@ == spec_u64_to_le_bytes(capacity),
        v@.len() == 8,
{
    u64_to_le_bytes(capacity)
}

/// Read the capacity message back. Anything but exactly 8 bytes is
/// malformed.
pub fn decode_capacity(bytes: &[u8]) -> (r: Result<u64, ChannelError>)
    ensures
        r is Ok <==> bytes@.len() == 8,
        r matches Ok(c) ==> c == spec_u64_from_le_bytes(bytes@),
        r is Err ==> r == Err::<u64, ChannelError>(ChannelError::ProtocolViolation),
{
    if bytes.len() != 8 {
        Err(ChannelError::ProtocolViolation)
    } else {
        Ok(u64_from_le_bytes(bytes))
    }
}

/// Check that a body matches its announced count: the byte length of a
/// received payload, or the number of handles in a received ancillary block.
pub fn check_announced_count(announced: u32, actual: usize) -> (r: Result<(), ChannelError>)
    ensures
        r is Ok <==> actual == announced,
        r is Err ==> r == Err::<(), ChannelError>(ChannelError::ProtocolViolation),
{
    if actual == announced as usize {
        Ok(())
    } else {
        Err(ChannelError::ProtocolViolation)
    }
}

/// A count prefix decodes back to exactly the count that was announced.
pub proof fn lemma_count_prefix_round_trip(count: u32)
    ensures
        spec_u32_to_le_bytes(count).len() == 4,
        spec_u32_from_le_bytes(spec_u32_to_le_bytes(count)) == count,
{
    lemma_auto_spec_u32_to_from_le_bytes();
    let encoded = spec_u32_to_le_bytes(count);
    assert(encoded.len() == 4 && spec_u32_from_le_bytes(encoded) == count);
}

/// A capacity message decodes back to exactly the capacity that was sent.
pub proof fn lemma_capacity_round_trip(capacity: u64)
    ensures
        spec_u64_to_le_bytes(capacity).len() == 8,
        spec_u64_from_le_bytes(spec_u64_to_le_bytes(capacity)) == capacity,
{
    lemma_auto_spec_u64_to_from_le_bytes();
    let encoded = spec_u64_to_le_bytes(capacity);
    assert(encoded.len() == 8 && spec_u64_from_le_bytes(encoded) == capacity);
}

} // verus!
