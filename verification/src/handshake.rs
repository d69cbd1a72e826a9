//! The handshake that carries a ring's resource bundle from its owner to the
//! initiating peer over the rendezvous channel.
//!
//! The order is strict and positional: the handle-count message (with the
//! handles attached as ancillary data) must travel before the capacity
//! message; reordering would silently corrupt the handshake. Both sides here
//! enforce that order as a checked state machine, so a step taken out of
//! turn is reported as a protocol violation instead of passing corrupt
//! values on.

use vstd::bytes::spec_u32_from_le_bytes;
use vstd::bytes::spec_u32_to_le_bytes;
use vstd::bytes::spec_u64_from_le_bytes;
use vstd::bytes::spec_u64_to_le_bytes;
use vstd::prelude::*;

use crate::msg::ChannelError;
use crate::wire::decode_capacity;
use crate::wire::decode_count_prefix;
use crate::wire::encode_capacity;
use crate::wire::encode_count_prefix;
use crate::wire::lemma_capacity_round_trip;
use crate::wire::lemma_count_prefix_round_trip;

verus! {

/// How far the owning side has come: it sends the handles first, then the
/// capacity, and is then done.
#[derive(Debug, Clone, Copy, PartialEq, Eq, Structural)]
pub enum OwnerStage {
    SendingHandles,
    SendingCapacity,
    Finished,
}

/// The owning side of the handshake: it created the ring and pushes the
/// resource bundle to the peer.
pub struct HandshakeOwner {
    pub capacity: u64,
    pub handle_count: usize,
    pub stage: OwnerStage,
}

impl HandshakeOwner {
    pub fn new(capacity: u64, handle_count: usize) -> (s: Self)
        ensures
            s.capacity == capacity,
            s.handle_count == handle_count,
            s.stage is SendingHandles,
    {
        HandshakeOwner { capacity, handle_count, stage: OwnerStage::SendingHandles }
    }

    /// The first message: the handle count, to which the caller attaches the
    /// duplicated handles as ancillary data. Out of turn, or with a count the
    /// prefix cannot announce, it is a protocol violation and nothing
    /// advances.
    pub fn handles_message(&mut self) -> (r: Result<Vec<u8>, ChannelError>)
        ensures
            r is Ok <==> (old(self).stage is SendingHandles && old(self).handle_count
                <= u32::MAX),
            r matches Ok(v) ==> v@ == spec_u32_to_le_bytes(old(self).handle_count as u32),
            r is Ok ==> final(self).stage is SendingCapacity,
            r is Err ==> (r == Err::<Vec<u8>, ChannelError>(ChannelError::ProtocolViolation)
                && final(self).stage == old(self).stage),
            final(self).capacity == old(self).capacity,
            final(self).handle_count == old(self).handle_count,
    {
        match self.stage {
            OwnerStage::SendingHandles => match encode_count_prefix(self.handle_count) {
                Ok(prefix) => {
                    self.stage = OwnerStage::SendingCapacity;
                    Ok(prefix)
                },
                Err(e) => Err(e),
            },
            _ => Err(ChannelError::ProtocolViolation),
        }
    }

    /// The second message: the ring capacity, 8 bytes little-endian. Out of
    /// turn it is a protocol violation and nothing advances.
    pub fn capacity_message(&mut self) -> (r: Result<Vec<u8>, ChannelError>)
        ensures
            r is Ok <==> old(self).stage is SendingCapacity,
            r matches Ok(v) ==> v@ == spec_u64_to_le_bytes(old(self).capacity),
            r is Ok ==> final(self).stage is Finished,
            r is Err ==> (r == Err::<Vec<u8>, ChannelError>(ChannelError::ProtocolViolation)
                && final(self).stage == old(self).stage),
            final(self).capacity == old(self).capacity,
            final(self).handle_count == old(self).handle_count,
    {
        match self.stage {
            OwnerStage::SendingCapacity => {
                self.stage = OwnerStage::Finished;
                Ok(encode_capacity(self.capacity))
            },
            _ => Err(ChannelError::ProtocolViolation),
        }
    }

    pub fn finished(&self) -> (b: bool)
        ensures
            b <==> self.stage is Finished,
    {
        matches!(self.stage, OwnerStage::Finished)
    }
}

/// The initiating side of the handshake: it connects to the rendezvous
/// address and receives the resource bundle.
pub struct HandshakeInitiator {
    pub handle_count: Option<u32>,
    pub capacity: Option<u64>,
}

impl HandshakeInitiator {
    pub fn new() -> (s: Self)
        ensures
            s.handle_count is None,
            s.capacity is None,
    {
        HandshakeInitiator { handle_count: None, capacity: None }
    }

    /// Consume the first message: the handle count. The caller then reads
    /// exactly that many handles from the ancillary block. Taken out of
    /// turn, or on a malformed prefix, it is a protocol violation and
    /// nothing is recorded.
    pub fn take_handle_count(&mut self, prefix: &[u8]) -> (r: Result<u32, ChannelError>)
        ensures
            r is Ok <==> (old(self).handle_count is None && old(self).capacity is None
                && prefix@.len() == 4),
            r matches Ok(n) ==> (n == spec_u32_from_le_bytes(prefix@) && final(self).handle_count
                == Some(n)),
            r is Err ==> (r == Err::<u32, ChannelError>(ChannelError::ProtocolViolation) && *final(self)
                == *old(self)),
            final(self).capacity == old(self).capacity,
    {
        if self.handle_count.is_some() || self.capacity.is_some() {
            return Err(ChannelError::ProtocolViolation);
        }
        match decode_count_prefix(prefix) {
            Ok(n) => {
                self.handle_count = Some(n);
                Ok(n)
            },
            Err(e) => Err(e),
        }
    }

    /// Consume the second message: the capacity. It must come after the
    /// handles; out of turn, or malformed, it is a protocol violation and
    /// nothing is recorded.
    pub fn take_capacity(&mut self, bytes: &[u8]) -> (r: Result<u64, ChannelError>)
        ensures
            r is Ok <==> (old(self).handle_count is Some && old(self).capacity is None
                && bytes@.len() == 8),
            r matches Ok(c) ==> (c == spec_u64_from_le_bytes(bytes@) && final(self).capacity == Some(c)),
            r is Err ==> (r == Err::<u64, ChannelError>(ChannelError::ProtocolViolation) && *final(self)
                == *old(self)),
            final(self).handle_count == old(self).handle_count,
    {
        if self.handle_count.is_none() || self.capacity.is_some() {
            return Err(ChannelError::ProtocolViolation);
        }
        match decode_capacity(bytes) {
            Ok(c) => {
                self.capacity = Some(c);
                Ok(c)
            },
            Err(e) => Err(e),
        }
    }

    pub fn complete(&self) -> (b: bool)
        ensures
            b <==> (self.handle_count is Some && self.capacity is Some),
    {
        self.handle_count.is_some() && self.capacity.is_some()
    }
}

/// Handshake fidelity: the two messages an owner emits decode, on the
/// initiating side, to exactly the owner's handle count and capacity. With
/// the contracts of `handles_message` and `take_handle_count` (and of
/// `capacity_message` and `take_capacity`), the initiator that consumes an
/// owner's messages in order records the owner's exact values.
pub proof fn lemma_handshake_fidelity(capacity: u64, handle_count: u32)
    ensures
        spec_u32_from_le_bytes(spec_u32_to_le_bytes(handle_count)) == handle_count,
        spec_u64_from_le_bytes(spec_u64_to_le_bytes(capacity)) == capacity,
{
    lemma_count_prefix_round_trip(handle_count);
    lemma_capacity_round_trip(capacity);
}

} // verus!
