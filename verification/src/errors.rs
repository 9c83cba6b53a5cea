//! Error kinds surfaced by the dispatcher.
//!
//! Every failure is fatal to its operation and is surfaced synchronously to
//! the caller; nothing is retried inside this core.

use vstd::prelude::*;

verus! {

/// Why the ledger refused a requested transfer or claim. Such a failure
/// aborts the whole operation with no partial effect.
#[derive(Clone, Copy, PartialEq, Eq, Structural, Debug)]
pub enum LedgerError {
    InsufficientBalance,
}

/// Why an operation was rejected. A rejected operation has no ledger effect
/// and sends no message.
#[derive(Clone, Copy, PartialEq, Eq, Structural, Debug)]
pub enum OperationError {
    /// The operation kind is not implemented by this bridge.
    Unsupported,
    /// The caller lacks permission over the owner whose funds would move.
    Unauthorized,
    /// The ledger primitive rejected the value movement; propagated verbatim.
    LedgerFailure(LedgerError),
}

} // verus!
