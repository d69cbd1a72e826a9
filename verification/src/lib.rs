//! A zero-copy message channel between two processes that share no address
//! space at startup.
//!
//! The channel has two layers. The framing layer turns the contiguous byte
//! windows offered by a fixed-capacity shared ring into discrete op-coded
//! messages, retrying under backpressure with no-op padding frames. The
//! rendezvous layer bootstraps the ring across the process boundary: a
//! one-shot control channel carries the shared-memory handle, the two
//! readiness signals and the agreed capacity, as length-prefixed messages in
//! a strict order.
//!
//! This crate holds the protocol logic itself: frame encoding and decoding,
//! the wire format of the rendezvous messages, and the handshake sequence.
//! The operating-system pieces around it (the shared ring, the local socket,
//! handle duplication) live with the caller, which hands this crate plain
//! bytes and lengths.

pub mod frame;
pub mod handshake;
pub mod msg;
pub mod rendezvous;
pub mod wire;

pub use frame::Discipline;
pub use frame::FramingReceiver;
pub use frame::FramingSender;
pub use frame::PreparedFrame;
pub use msg::ChannelError;
pub use msg::QuickMsg;
