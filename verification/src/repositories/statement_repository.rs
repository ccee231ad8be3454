use vstd::prelude::*;
use crate::clock::LocalTime;
use crate::dto::responses::balance_response::BalanceResponse;
use crate::dto::responses::statement_response::StatementResponse;
use crate::model::account::Account;
use crate::model::transaction::Transaction;

verus! {

/// Assembles statements.
pub struct StatementRepository;

impl StatementRepository {
    /// The statement of an account taken at `now`: its balance and limit as
    /// they are, that time, and the latest transactions as they were read.
    pub fn get_statement_by_id(
        &self,
        account: Account,
        transactions: Vec<Transaction>,
        now: LocalTime,
    ) -> (r: StatementResponse)
        ensures
            r.saldo == (BalanceResponse {
                total: account.saldo,
                data_extrato: now,
                limite: account.limite,
            }),
            r.ultimas_transacoes@ == transactions@,
    {
        StatementResponse {
            saldo: BalanceResponse { total: account.saldo, data_extrato: now, limite: account.limite },
            ultimas_transacoes: transactions,
        }
    }
}

} // verus!
