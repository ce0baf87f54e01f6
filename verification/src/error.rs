//! The failures a unit of work reports.

use vstd::prelude::*;
use crate::domain::{AggregateKind, DBOperation};

verus! {

/// Misuse of the begin / commit / rollback state machine.
#[derive(Debug, Clone, Copy, PartialEq, Eq)]
pub enum TransactionLifecycleError {
    /// A transaction was requested while one is already in progress.
    AlreadyStarted,
    /// A transaction was to be resolved, or used, while none is in progress.
    NotStarted,
}

/// A failure of the persistence port during replay, with the command that
/// failed: its place in the batch, its aggregate variant and its operation.
#[derive(Debug, PartialEq, Eq)]
pub struct PersistenceError<E> {
    pub position: usize,
    pub aggregate: AggregateKind,
    pub operation: DBOperation,
    pub cause: E,
}

/// Why a batch could not be committed.
#[derive(Debug, PartialEq, Eq)]
pub enum CommitError<E> {
    /// The transaction could not be opened; nothing was replayed.
    BeginFailed(E),
    /// A port call failed and the transaction was rolled back.
    TransactionFailed(PersistenceError<E>),
    /// Every port call succeeded, but the transaction manager failed to commit.
    CommitFailed(E),
    /// A port call failed and the rollback failed as well: the end state of the
    /// transaction is undefined, and the caller must treat this as fatal.
    RollbackFailed { failure: PersistenceError<E>, cause: E },
}

impl TransactionLifecycleError {
    /// A description of the error for the caller.
    pub fn message(&self) -> (text: &'static str)
        ensures
            *self == TransactionLifecycleError::AlreadyStarted ==> text@
                == "Transaction is already started"@,
            *self == TransactionLifecycleError::NotStarted ==> text@
                == "Transaction is not started"@,
    {
        match self {
            TransactionLifecycleError::AlreadyStarted => "Transaction is already started",
            TransactionLifecycleError::NotStarted => "Transaction is not started",
        }
    }
}

impl<E> CommitError<E> {
    pub open spec fn spec_is_fatal(&self) -> bool {
        *self is RollbackFailed
    }

    /// Whether the transaction was left in an undefined state.
    #[verifier::when_used_as_spec(spec_is_fatal)]
    pub fn is_fatal(&self) -> (fatal: bool)
        ensures
            fatal == self.spec_is_fatal(),
    {
        match self {
            CommitError::RollbackFailed { .. } => true,
            _ => false,
        }
    }
}

} // verus!
