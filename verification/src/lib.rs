//! Session and delegation manager for a remote-signing setup: a local
//! identity obtains signatures for its events from a remote signer reached
//! over websocket relays, and can upgrade to a locally verifiable
//! delegation credential so that authoring no longer round-trips to the
//! remote signer. The crate owns the handshake state machine, the
//! delegation credential model with its cryptographic verification, and
//! the relay-set and session lifecycle; the surrounding program supplies
//! transport, storage and time.
use vstd::prelude::*;

pub mod conditions;
pub mod credential;
pub mod crypto;
pub mod encoding;
pub mod relay;
pub mod session;

verus! {

/// Errors surfaced by session operations.
#[derive(Debug, PartialEq, Eq, Structural, Clone, Copy)]
pub enum SessionError {
    /// The relay URI could not be parsed or has a non-websocket scheme.
    /// Recoverable: the operation was aborted and no state changed.
    InvalidRelayUri,
    /// The remote signer did not answer in time. The session keeps its
    /// prior state; the caller may retry.
    HandshakeTimeout,
    /// The transport failed to deliver a request or response. The session
    /// keeps its prior state; the caller may retry.
    TransportFailure,
    /// A delegation credential failed signature verification. It was
    /// discarded, never installed, never trusted.
    UntrustedDelegation,
    /// A note could not be signed or published; no event was produced.
    SigningFailure,
}

} // verus!
