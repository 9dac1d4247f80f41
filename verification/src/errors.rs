//! Error kinds surfaced by the library.

use vstd::prelude::*;

verus! {

/// Every failure the library can report. Construction failures are
/// `ValidationError`; the remaining kinds belong to the transports:
/// `VersionMismatch` is fatal to `open`, `ProtocolError` and
/// `UnexpectedEof` are fatal to the channel, `InvalidOperation` marks a
/// read or write against a handle opened without that direction.
#[derive(Clone, Debug, PartialEq, Eq)]
pub enum CanError {
    /// Frame construction violated a model invariant.
    ValidationError,
    /// The open target does not name a live device.
    NoSuchDevice,
    /// The relay reported a protocol version other than the required one;
    /// both versions are carried so the caller can report them.
    VersionMismatch { found: String, required: String },
    /// Malformed bytes on the wire; the channel must be reopened.
    ProtocolError,
    /// The peer closed the stream where more bytes were owed.
    UnexpectedEof,
    /// A generic transport failure, propagated without retry.
    IoError,
    /// A read on a write-only handle, or a write on a read-only handle.
    InvalidOperation,
}

} // verus!
