use vstd::prelude::*;
use crate::model::account::Account;

verus! {

/// Reads accounts.
pub struct AccountRepository;

/// Why reading an account failed.
#[derive(Clone, Copy, Debug, PartialEq, Eq, Structural)]
pub enum AccountRepositoryError {
    AccountNotFound,
}

impl AccountRepository {
    /// The account that a lookup read as `(limit, balance)`; a lookup that
    /// found no row, or failed, means the account is not found.
    pub fn account_from_row(&self, row: Option<(i32, i32)>) -> (r: Result<
        Account,
        AccountRepositoryError,
    >)
        ensures
            r == (match row {
                Some((limite, saldo)) => Ok(Account { limite, saldo }),
                None => Err(AccountRepositoryError::AccountNotFound),
            }),
    {
        match row {
            Some((limite, saldo)) => Ok(Account { limite, saldo }),
            None => Err(AccountRepositoryError::AccountNotFound),
        }
    }
}

} // verus!
