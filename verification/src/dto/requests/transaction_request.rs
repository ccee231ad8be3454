use vstd::prelude::*;

verus! {

/// The body of a transaction request: the amount in cents, the kind
/// (`"c"` credit or `"d"` debit) and a short description.
#[derive(Debug, PartialEq)]
pub struct TransactionRequest {
    pub valor: i32,
    pub tipo: String,
    pub descricao: String,
}

} // verus!
