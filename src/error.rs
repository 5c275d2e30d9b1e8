use vstd::prelude::*;

verus! {

/// Every way an operation of this library can fail.
#[derive(Debug, Clone, Copy, PartialEq, Eq, Structural)]
pub enum CoreError {
    /// No random bytes could be had for a fresh key pair.
    EntropyUnavailable,
    /// The peer's public key is not an encoded point of the curve.
    InvalidPeerKey,
    /// The key exchange context gave its secret away already.
    HandshakeAlreadyConsumed,
    /// A binding token was not exactly twelve bytes long.
    InvalidTokenLength,
    /// The integrity tag of a ciphertext did not verify.
    AuthenticationFailed,
    /// A ciphertext was too short to hold a counter and a tag.
    MalformedCiphertext,
    /// A command frame did not follow the wire layout.
    MalformedFrame,
    /// A handle that was never issued, or was freed.
    InvalidHandle,
    /// A payload longer than the cipher mode can protect.
    PayloadTooLarge,
    /// Every handle a table can issue has been issued.
    HandlesExhausted,
    /// A session has used every counter value of its sending key.
    CounterExhausted,
}

} // verus!
