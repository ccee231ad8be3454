use vstd::prelude::*;
use crate::clock::LocalTime;

verus! {

/// The balance part of a statement: total, when the statement was taken,
/// and the credit limit.
#[derive(Clone, Copy, Debug, PartialEq, Eq)]
pub struct BalanceResponse {
    pub total: i32,
    pub data_extrato: LocalTime,
    pub limite: i32,
}

} // verus!
