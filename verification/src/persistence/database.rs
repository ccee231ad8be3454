use vstd::prelude::*;

verus! {

/// Opening a database connection failed.
#[derive(Clone, Copy, Debug, PartialEq, Eq, Structural)]
pub enum DatabaseError {
    DatabaseConnection,
}

} // verus!
