//! Connection states of the rendezvous control channel.
//!
//! The rendezvous channel is a connection-oriented, message-boundary-
//! preserving local socket that exists only during bootstrap. A listener
//! goes from `Unbound` to `Listening` when it binds its address, and each
//! accepted connection yields a peer in `Connected` while the listener keeps
//! listening. An initiating peer goes from `Unbound` straight to `Connected`
//! when it connects to a published address. A connected peer becomes
//! `Closed` on disconnect or when the one-shot address is removed.

use vstd::prelude::*;

use crate::msg::ChannelError;

verus! {

/// The state of one rendezvous endpoint.
#[derive(Debug, Clone, Copy, PartialEq, Eq, Structural)]
pub enum RendezvousState {
    Unbound,
    Listening,
    Connected,
    Closed,
}

/// What happens to a rendezvous endpoint.
#[derive(Debug, Clone, Copy, PartialEq, Eq, Structural)]
pub enum RendezvousEvent {
    /// A listener binds its address.
    Bind,
    /// A listener accepts one connection; the resulting state is that of the
    /// peer it yields, while the listener itself stays `Listening`.
    Accept,
    /// An initiator connects to a published address.
    Connect,
    /// The connection drops, or the address is removed.
    Disconnect,
}

/// The legal transitions of a rendezvous endpoint; any other pairing of
/// state and event is a protocol violation.
pub open spec fn rendezvous_transition(state: RendezvousState, event: RendezvousEvent) -> Result<
    RendezvousState,
    ChannelError,
> {
    match (state, event) {
        (RendezvousState::Unbound, RendezvousEvent::Bind) => Ok(RendezvousState::Listening),
        (RendezvousState::Listening, RendezvousEvent::Accept) => Ok(RendezvousState::Connected),
        (RendezvousState::Unbound, RendezvousEvent::Connect) => Ok(RendezvousState::Connected),
        (RendezvousState::Connected, RendezvousEvent::Disconnect) => Ok(RendezvousState::Closed),
        _ => Err(ChannelError::ProtocolViolation),
    }
}

/// Step one rendezvous endpoint, refusing any transition the protocol does
/// not allow.
pub fn rendezvous_step(state: RendezvousState, event: RendezvousEvent) -> (r: Result<
    RendezvousState,
    ChannelError,
>)
    ensures
        r == rendezvous_transition(state, event),
{
    match (state, event) {
        (RendezvousState::Unbound, RendezvousEvent::Bind) => Ok(RendezvousState::Listening),
        (RendezvousState::Listening, RendezvousEvent::Accept) => Ok(RendezvousState::Connected),
        (RendezvousState::Unbound, RendezvousEvent::Connect) => Ok(RendezvousState::Connected),
        (RendezvousState::Connected, RendezvousEvent::Disconnect) => Ok(RendezvousState::Closed),
        _ => Err(ChannelError::ProtocolViolation),
    }
}

} // verus!
