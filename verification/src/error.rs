//! The typed failures of the protocol engine.

use vstd::prelude::*;

verus! {

/// Why an operation was refused. A refused operation leaves no side effect
/// other than the ones its own contract names.
#[derive(Clone, Copy, Debug, PartialEq, Eq, Structural)]
pub enum ProtocolError {
    /// The admission score was under the threshold; nothing was computed.
    AdmissionDenied,
    /// A scheme family was paired with a level it does not support.
    UnknownScheme,
    /// A signature, a transcript or a field length did not match.
    HandshakeFailed,
    /// The ticket was redeemed after its expiry.
    TicketExpired,
    /// The ticket's nonce had been consumed before.
    ReplayDetected,
    /// A path validation is already in flight on this connection.
    MigrationInProgress,
    /// The new path was not adopted; the old one stays authoritative.
    MigrationFailed,
    /// The session was entered in a phase that does not allow the step.
    SessionBusy,
}

} // verus!
