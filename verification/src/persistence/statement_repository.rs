use vstd::prelude::*;

verus! {

/// Reads statements through a connection of its own.
pub struct StatementRepository;

/// Why reading a statement through its own connection failed.
#[derive(Clone, Copy, Debug, PartialEq, Eq, Structural)]
pub enum StatementRepositoryError {
    ConnectDatabase,
    AccountNotFound,
    Transaction,
}

} // verus!
