use vstd::prelude::*;

verus! {

/// Writes transactions through a connection of its own.
pub struct TransactionRepository;

/// Why writing a transaction through its own connection failed.
#[derive(Clone, Copy, Debug, PartialEq, Eq, Structural)]
pub enum TransactionRepositoryError {
    ErrorRoolback,
    ErrorSaveTransaction,
    ErrorDbTransaction,
    ErrorConnectDatabase,
}

} // verus!
