use vstd::prelude::*;
use crate::dto::responses::balance_response::BalanceResponse;
use crate::dto::responses::transaction_extract_response::TransactionExtractResponse;

verus! {

/// A statement whose transactions are in their response form.
#[derive(Debug, PartialEq)]
pub struct ExtractResponse {
    pub saldo: BalanceResponse,
    pub ultimas_transacoes: Vec<TransactionExtractResponse>,
}

} // verus!
