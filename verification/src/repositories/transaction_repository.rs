use vstd::prelude::*;
use crate::model::account::fits_i32;
use crate::model::transaction::Transaction;

verus! {

/// Reads and writes transactions.
pub struct TransactionRepository;

/// Why writing a transaction failed.
#[derive(Clone, Copy, Debug, PartialEq, Eq, Structural)]
pub enum TransactionRepositoryError {
    ErrorRoolback,
    ErrorSaveTransaction,
    ErrorDbTransaction,
    ErrorConnectDatabase,
}

/// How a database transaction that recorded a client transaction ends.
#[derive(Clone, Copy, Debug, PartialEq, Eq, Structural)]
pub enum Settlement {
    Commit,
    Rollback,
}

/// The balance that recording a transaction of kind `tipo` for `value`
/// leaves: a credit (`"c"`) adds, a debit (`"d"`) subtracts, any other kind
/// writes 0.
pub open spec fn balance_after(balance: i32, value: i32, tipo: Seq<char>) -> int {
    if tipo == seq!['c'] {
        balance + value
    } else if tipo == seq!['d'] {
        balance - value
    } else {
        0
    }
}

/// Recording a credit and then a debit of the same amount, or the debit
/// first, leaves the balance where it was.
pub proof fn lemma_credit_and_debit_cancel(balance: i32, value: i32)
    ensures
        fits_i32(balance + value) ==> balance_after(
            balance_after(balance, value, seq!['c']) as i32,
            value,
            seq!['d'],
        ) == balance,
        fits_i32(balance - value) ==> balance_after(
            balance_after(balance, value, seq!['d']) as i32,
            value,
            seq!['c'],
        ) == balance,
{
    assert(seq!['c'] != seq!['d']) by {
        assert(seq!['c'][0] != seq!['d'][0]);
    }
}

/// The balance written moves by exactly the amount: a credit raises the
/// balance by the value and a debit lowers it by the value, whatever the
/// value; so two credits (or two debits) from one balance differ by exactly
/// the difference of their values.  Any other kind writes 0.
pub proof fn lemma_balance_moves_by_value(balance: i32, value: i32, other: i32, tipo: Seq<char>)
    ensures
        tipo == seq!['c'] ==> balance_after(balance, value, tipo) - balance == value,
        tipo == seq!['d'] ==> balance - balance_after(balance, value, tipo) == value,
        tipo == seq!['c'] || tipo == seq!['d'] ==> balance_after(balance, value, tipo)
            - balance_after(balance, other, tipo) == (if tipo == seq!['c'] {
            value - other
        } else {
            other - value
        }),
        tipo != seq!['c'] && tipo != seq!['d'] ==> balance_after(balance, value, tipo) == 0,
{
    assert(seq!['c'] != seq!['d']) by {
        assert(seq!['c'][0] != seq!['d'][0]);
    }
}

/// `s` is the one-character text `c`.
pub fn is_kind(s: &String, c: char) -> (r: bool)
    ensures
        r == (s@ == seq![c]),
{
    let t = s.as_str();
    if t.unicode_len() != 1 {
        return false;
    }
    let first = t.get_char(0);
    if first == c {
        assert(s@ =~= seq![c]);
        true
    } else {
        false
    }
}

impl TransactionRepository {
    /// The balance written back when a transaction is recorded.
    pub fn new_balance(&self, balance: i32, value: i32, transaction_type: &String) -> (r: i32)
        requires
            fits_i32(balance_after(balance, value, transaction_type@)),
        ensures
            r == balance_after(balance, value, transaction_type@),
    {
        if is_kind(transaction_type, 'c') {
            balance + value
        } else if is_kind(transaction_type, 'd') {
            balance - value
        } else {
            0
        }
    }

    /// The transaction is committed only where both writes succeeded.
    pub fn settle(&self, saved: bool, updated: bool) -> (r: Settlement)
        ensures
            r == (if saved && updated {
                Settlement::Commit
            } else {
                Settlement::Rollback
            }),
    {
        if saved && updated {
            Settlement::Commit
        } else {
            Settlement::Rollback
        }
    }

    /// What recording a transaction comes to once it is committed or rolled
    /// back: success only for a commit that went through; a failed commit or
    /// a rollback is a failure to save, and a rollback that itself failed is
    /// reported as such.
    pub fn settled(&self, settlement: Settlement, succeeded: bool) -> (r: Result<
        (),
        TransactionRepositoryError,
    >)
        ensures
            r == (match settlement {
                Settlement::Commit => if succeeded {
                    Ok(())
                } else {
                    Err(TransactionRepositoryError::ErrorSaveTransaction)
                },
                Settlement::Rollback => if succeeded {
                    Err(TransactionRepositoryError::ErrorSaveTransaction)
                } else {
                    Err(TransactionRepositoryError::ErrorRoolback)
                },
            }),
    {
        match settlement {
            Settlement::Commit => if succeeded {
                Ok(())
            } else {
                Err(TransactionRepositoryError::ErrorSaveTransaction)
            },
            Settlement::Rollback => if succeeded {
                Err(TransactionRepositoryError::ErrorSaveTransaction)
            } else {
                Err(TransactionRepositoryError::ErrorRoolback)
            },
        }
    }

    /// The latest transactions of an account: what the query read, or none
    /// where the query failed.
    pub fn latest_transactions(&self, rows: Option<Vec<Transaction>>) -> (r: Vec<Transaction>)
        ensures
            rows matches Some(v) ==> r@ == v@,
            rows is None ==> r@.len() == 0,
    {
        match rows {
            Some(v) => v,
            None => Vec::new(),
        }
    }
}

} // verus!
