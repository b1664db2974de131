//! The failure taxonomy shared by the read-call and the write-call.

use vstd::prelude::*;

verus! {

/// Why the return bytes of a read-only call could not be turned into a typed
/// value: either the bytes did not have the shape the decoder expects, or the
/// decoder's own semantic validation rejected the decoded value.
#[derive(Debug, PartialEq, Eq)]
pub enum DecodeError {
    /// The bytes did not have the expected shape.
    InvalidData,
    /// The decoder rejected the value for a reason of its own.
    Other(String),
}

/// Why the local pending-transaction pool rejected a submission.
#[derive(Debug, Clone, PartialEq, Eq)]
pub enum TransactionError {
    /// An identical transaction is already pending.
    AlreadyImported,
    /// The submission was rejected as stale.
    Old,
    /// Any other rejection reason, carried verbatim.
    Other(String),
}

/// Contract call failed error.
#[derive(Debug, PartialEq, Eq)]
pub enum CallError {
    /// The call itself failed.
    CallFailed(String),
    /// Decoding the return value failed or the decoded value was a failure.
    DecodeFailed(DecodeError),
    /// The passed in client reference does not expose full client capability.
    NotFullClient,
    /// The transaction required to make a call could not be scheduled.
    TransactionFailed(TransactionError),
}

} // verus!
