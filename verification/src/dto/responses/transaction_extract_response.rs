use vstd::prelude::*;

verus! {

/// One transaction as listed in a statement.
#[derive(Debug, PartialEq)]
pub struct TransactionExtractResponse {
    pub valor: i32,
    pub tipo: String,
    pub descricao: String,
    pub realizada_em: chrono::NaiveDateTime,
}

} // verus!
