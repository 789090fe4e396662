//! The store, as far as the rules of this crate look at it.

use vstd::prelude::*;

verus! {

/// How a statement against the store failed, as far as anything is decided
/// by it.
#[derive(Clone, Copy, Debug, PartialEq, Eq, Structural)]
pub enum StoreError {
    /// A row was asked for and none matched.
    RowNotFound,
    /// A value that must be unique is already there.
    UniqueViolation,
    /// A row refers to one that does not exist.
    ForeignKeyViolation,
    /// Anything else: the connection, the statement, the data.
    Other,
}

} // verus!
