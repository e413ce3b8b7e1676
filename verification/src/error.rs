//! The failure taxonomy of the module. Every fallible operation returns one
//! of these variants to its immediate caller; nothing is retried internally.

use vstd::prelude::*;

verus! {

/// All the ways an operation of this module can fail.
#[derive(Clone, Copy, Debug, PartialEq, Eq, Structural)]
pub enum ContractError {
    /// A privileged operation was attempted before initialization.
    Uninitialized,
    /// Initialization was attempted a second time.
    AlreadyInitialized,
    /// The caller's identity does not match the stored owner.
    Unauthorized,
    /// Distribution was requested with an empty recipient list.
    NoRecipients,
    /// The external ledger could not answer a balance query.
    LedgerQueryFailed,
    /// The external ledger rejected a transfer batch.
    LedgerExecutionFailed,
}

} // verus!
