use vstd::prelude::*;

verus! {

/// The answer to an accepted transaction: the limit and a balance.
#[derive(Clone, Copy, Debug, PartialEq, Eq, Structural)]
pub struct TransactionResponse {
    pub limite: i32,
    pub saldo: i32,
}

} // verus!
