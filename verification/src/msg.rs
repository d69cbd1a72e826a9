//! Shared message and error types of the channel.

use vstd::prelude::*;

verus! {

/// One message as the receiving side of the framing layer reports it: either
/// a no-op padding frame ("no message"), or a payload, carried as text on a
/// text-disciplined channel and as raw bytes on a binary one.
#[derive(Debug, Clone)]
pub enum QuickMsg {
    NoOp,
    String(String),
    Binary(Vec<u8>),
}

/// The failure kinds of the channel.
///
/// `TransportFailure` is an I/O error of the underlying ring or socket,
/// surfaced by the caller that drives them. `ProtocolViolation` covers a
/// malformed length prefix, an out-of-order handshake step, and invalid text
/// in a data frame where the text discipline is required. `ResourceExhaustion`
/// means the payload cannot fit the transport under any window size.
#[derive(Debug, Clone, Copy, PartialEq, Eq, Structural)]
pub enum ChannelError {
    TransportFailure,
    ProtocolViolation,
    ResourceExhaustion,
}

} // verus!
