use quick::handshake::{HandshakeInitiator, HandshakeOwner};
use quick::msg::ChannelError;
use quick::rendezvous::{rendezvous_step, RendezvousEvent, RendezvousState};
use quick::wire::{check_announced_count, decode_capacity, decode_count_prefix, encode_capacity, encode_count_prefix};

#[test]
fn count_prefix_is_four_bytes_little_endian() {
    let prefix = encode_count_prefix(1001).unwrap();
    assert_eq!(prefix, vec![0xE9, 0x03, 0x00, 0x00]);
    assert_eq!(decode_count_prefix(&prefix).unwrap(), 1001);
}

#[test]
fn capacity_is_eight_bytes_little_endian() {
    let bytes = encode_capacity(50_000_000);
    assert_eq!(bytes, vec![0x80, 0xF0, 0xFA, 0x02, 0x00, 0x00, 0x00, 0x00]);
    assert_eq!(decode_capacity(&bytes).unwrap(), 50_000_000);
}

#[test]
fn malformed_prefixes_are_rejected() {
    assert_eq!(
        decode_count_prefix(&[1, 2, 3]).unwrap_err(),
        ChannelError::ProtocolViolation
    );
    assert_eq!(
        decode_capacity(&[0; 7]).unwrap_err(),
        ChannelError::ProtocolViolation
    );
    assert_eq!(
        check_announced_count(4, 3).unwrap_err(),
        ChannelError::ProtocolViolation
    );
    assert!(check_announced_count(4, 4).is_ok());
}

#[test]
fn handshake_delivers_capacity_and_count_exactly() {
    // Owner side: a ring of capacity 50,000,000 and its three resources (the
    // shared-memory handle and the two readiness signals).
    let mut owner = HandshakeOwner::new(50_000_000, 3);
    let handles_msg = owner.handles_message().unwrap();
    let capacity_msg = owner.capacity_message().unwrap();
    assert!(owner.finished());

    // Initiator side, consuming the two messages in order.
    let mut initiator = HandshakeInitiator::new();
    let count = initiator.take_handle_count(&handles_msg).unwrap();
    let capacity = initiator.take_capacity(&capacity_msg).unwrap();
    assert!(initiator.complete());
    assert_eq!(count, 3);
    assert_eq!(capacity, 50_000_000);
}

#[test]
fn handshake_owner_refuses_steps_out_of_order() {
    let mut owner = HandshakeOwner::new(1024, 3);
    // Capacity before handles: refused, and the handshake does not advance.
    assert_eq!(
        owner.capacity_message().unwrap_err(),
        ChannelError::ProtocolViolation
    );
    assert!(owner.handles_message().is_ok());
    // Handles a second time: refused.
    assert_eq!(
        owner.handles_message().unwrap_err(),
        ChannelError::ProtocolViolation
    );
    assert!(owner.capacity_message().is_ok());
    assert!(owner.finished());
}

#[test]
fn handshake_initiator_refuses_steps_out_of_order() {
    let mut owner = HandshakeOwner::new(1024, 3);
    let handles_msg = owner.handles_message().unwrap();
    let capacity_msg = owner.capacity_message().unwrap();

    // Capacity before handles: refused, nothing recorded.
    let mut initiator = HandshakeInitiator::new();
    assert_eq!(
        initiator.take_capacity(&capacity_msg).unwrap_err(),
        ChannelError::ProtocolViolation
    );
    assert!(!initiator.complete());
    assert_eq!(initiator.take_handle_count(&handles_msg).unwrap(), 3);
    // Handles a second time: refused.
    assert_eq!(
        initiator.take_handle_count(&handles_msg).unwrap_err(),
        ChannelError::ProtocolViolation
    );
    assert_eq!(initiator.take_capacity(&capacity_msg).unwrap(), 1024);
    assert!(initiator.complete());
}

#[test]
fn handshake_rejects_malformed_messages() {
    let mut initiator = HandshakeInitiator::new();
    assert_eq!(
        initiator.take_handle_count(&[0, 0]).unwrap_err(),
        ChannelError::ProtocolViolation
    );
    assert!(!initiator.complete());
}

#[test]
fn oversized_handle_count_cannot_be_announced() {
    let count = u32::MAX as usize + 1;
    assert_eq!(
        encode_count_prefix(count).unwrap_err(),
        ChannelError::ProtocolViolation
    );
}

#[test]
fn rendezvous_transitions() {
    // The listener binds, then accepts: the accepted peer is connected.
    let listening = rendezvous_step(RendezvousState::Unbound, RendezvousEvent::Bind).unwrap();
    assert_eq!(listening, RendezvousState::Listening);
    let peer = rendezvous_step(listening, RendezvousEvent::Accept).unwrap();
    assert_eq!(peer, RendezvousState::Connected);

    // The initiator connects directly.
    let initiator =
        rendezvous_step(RendezvousState::Unbound, RendezvousEvent::Connect).unwrap();
    assert_eq!(initiator, RendezvousState::Connected);

    // Disconnect or address removal closes a connected peer.
    let closed = rendezvous_step(peer, RendezvousEvent::Disconnect).unwrap();
    assert_eq!(closed, RendezvousState::Closed);

    // Anything else is a protocol violation.
    assert_eq!(
        rendezvous_step(RendezvousState::Closed, RendezvousEvent::Connect).unwrap_err(),
        ChannelError::ProtocolViolation
    );
    assert_eq!(
        rendezvous_step(RendezvousState::Unbound, RendezvousEvent::Accept).unwrap_err(),
        ChannelError::ProtocolViolation
    );
}
