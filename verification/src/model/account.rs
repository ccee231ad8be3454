use vstd::prelude::*;

verus! {

/// A client's account as stored: its credit limit and its current balance,
/// both in cents.
#[derive(Clone, Copy, Debug, PartialEq, Eq, Structural)]
pub struct Account {
    pub limite: i32,
    pub saldo: i32,
}

impl Account {
    /// The balance stays within the credit limit.
    pub open spec fn within_limit(self) -> bool {
        self.saldo >= -self.limite
    }
}

/// `x` is a value of `i32`.
pub open spec fn fits_i32(x: int) -> bool {
    i32::MIN <= x <= i32::MAX
}

} // verus!
