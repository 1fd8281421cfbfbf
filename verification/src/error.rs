//! The typed error surface of the stream ledger. Every failure a caller can
//! provoke maps to one of these variants; the core never reaches an
//! unrecoverable internal fault, and on any error the stored record is left
//! untouched.

use vstd::prelude::*;

verus! {

/// Failures of a lifecycle transition: precondition, parameter, economic
/// and authorization violations.
#[derive(Clone, Copy, Debug, PartialEq, Eq, Structural)]
pub enum PaymentError {
    /// A monetary parameter is out of range (below the configured floor, or
    /// so large that the deposit it implies is not representable).
    InvalidAmount,
    /// A withdrawal asked for more than has vested and remains available.
    InsufficientFunds,
    /// The record holds no initialized stream.
    StreamNotInitialized,
    /// Initialize was applied to a record that already holds a stream.
    StreamAlreadyInitialized,
    /// The stream is terminated; termination is absorbing.
    StreamAlreadyTerminated,
    /// Pause was applied to a stream that is already paused, or Withdraw to
    /// a paused stream.
    StreamAlreadyPaused,
    /// Resume was applied to a stream that is not paused.
    StreamNotPaused,
    /// The requested vesting start lies before the observed time.
    InvalidStartTime,
    /// The claimed signer does not hold the role the operation demands.
    Unauthorized,
}

/// Failures of request handling around the transitions: framing and
/// host-side signature checks.
#[derive(Clone, Copy, Debug, PartialEq, Eq, Structural)]
pub enum StreamError {
    /// The instruction bytes are truncated or carry an unknown tag.
    InvalidInstruction,
    /// The host found no valid payer signature on the request.
    SenderNotSigner,
    /// The host found no valid recipient signature on the request.
    RecipientNotSigner,
    /// A duration parameter is zero or otherwise unusable.
    InvalidTimeFrame,
    /// A stored record does not parse as a packed stream.
    InvalidStreamData,
}

/// Any failure the processor can report: a transition failure or a request
/// handling failure.
#[derive(Clone, Copy, Debug, PartialEq, Eq, Structural)]
pub enum ProcessError {
    Payment(PaymentError),
    Stream(StreamError),
}

} // verus!
