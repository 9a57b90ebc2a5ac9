//! The typed failures that every model operation can return.

use vstd::prelude::*;

verus! {

/// Failure taxonomy of the model layer.
///
/// `NotFound`: a lookup key matched no row. `UniqueConstraint`: a natural or
/// composite key collided on insert (or a masked update tried to take an
/// occupied slug). `UnsupportedOperation`: a structurally disallowed call,
/// returned without touching storage. `Storage`: any other fault of the
/// underlying engine, carrying its message.
#[derive(Debug, Clone)]
pub enum DbError {
    NotFound,
    UniqueConstraint,
    UnsupportedOperation,
    Storage(String),
}

impl DbError {
    pub fn is_not_found(&self) -> (r: bool)
        ensures
            r == (self is NotFound),
    {
        matches!(self, DbError::NotFound)
    }

    pub fn is_unique_constraint(&self) -> (r: bool)
        ensures
            r == (self is UniqueConstraint),
    {
        matches!(self, DbError::UniqueConstraint)
    }

    pub fn is_unsupported_operation(&self) -> (r: bool)
        ensures
            r == (self is UnsupportedOperation),
    {
        matches!(self, DbError::UnsupportedOperation)
    }

    pub fn is_storage(&self) -> (r: bool)
        ensures
            r == (self is Storage),
    {
        matches!(self, DbError::Storage(_))
    }
}

} // verus!
