//! Session establishment and encrypted command channel for a scooter's
//! motor controller: the command codec, the key exchange, the login key
//! derivation, the authenticated framing and the handle tables that hold
//! this state for a host that cannot own it.

pub mod error;
pub mod frame;
pub mod primitives;
pub mod channel;
pub mod handshake;
pub mod registry;
pub mod session;
