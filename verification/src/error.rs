//! The ways in which preparing a notification can fail.

use vstd::prelude::*;

verus! {

/// A failure before anything was handed to the transport. None of them is
/// retried here: each ends the send.
#[derive(Debug, Clone, Copy, PartialEq, Eq, Structural)]
pub enum PushError {
    /// The signing key does not parse as a PEM-encoded elliptic-curve private key.
    KeyFormatError,
    /// The key parsed, but the token could not be built or signed with it.
    SigningError,
    /// The notification content cannot be written in the gateway's wire form.
    PayloadEncodingError,
    /// The topic or the bearer token cannot stand in a request header.
    HeaderValueError,
    /// The system clock gave no time at or after the Unix epoch.
    ClockError,
}

} // verus!
