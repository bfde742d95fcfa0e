//! The transaction layer's error taxonomy. Every collaborator failure is
//! surfaced to the caller, wrapped in the error matching the phase it struck:
//! none is retried, none is masked.

use vstd::prelude::*;

verus! {

/// BEGIN failed: no handle was produced and no transaction was opened.
#[derive(Debug, Clone, PartialEq, Eq)]
pub struct TransactionStartError {
    pub message: String,
}

/// An execute failed: the transaction remains open, and the caller decides
/// whether to retry, continue, or roll back. No implicit rollback happens.
#[derive(Debug, Clone, PartialEq, Eq)]
pub struct StatementExecutionError {
    pub message: String,
}

/// COMMIT failed: the handle is consumed and the server-side state of the
/// transaction is indeterminate.
#[derive(Debug, Clone, PartialEq, Eq)]
pub struct CommitError {
    pub message: String,
}

/// ROLLBACK failed: the handle is consumed and the server-side state of the
/// transaction is indeterminate. This error is never downgraded to success,
/// since rollback commonly runs on an error-recovery path where a second
/// failure must still be reported.
#[derive(Debug, Clone, PartialEq, Eq)]
pub struct RollbackError {
    pub message: String,
}

} // verus!
