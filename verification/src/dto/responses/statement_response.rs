use vstd::prelude::*;
use crate::dto::responses::balance_response::BalanceResponse;
use crate::model::transaction::Transaction;

verus! {

/// A statement: the balance and the latest transactions.
#[derive(Debug, PartialEq)]
pub struct StatementResponse {
    pub saldo: BalanceResponse,
    pub ultimas_transacoes: Vec<Transaction>,
}

} // verus!
