//! Why the store turns a command away.

use vstd::prelude::*;

verus! {

/// A refusal, with its reason in words.
#[derive(Clone, Debug, PartialEq, Eq)]
pub enum DbError {
    /// The payload is malformed or the edit is refused.
    InvalidData(String),
    /// The actor lacks the role.
    AccessDenied(String),
    /// A revision is stale or an identifier is taken.
    Conflict(String),
    /// The target is absent.
    NotFound(String),
}

/// What a refusal says.
#[verifier::ext_equal]
pub enum Fault {
    InvalidData(Seq<char>),
    AccessDenied(Seq<char>),
    Conflict(Seq<char>),
    NotFound(Seq<char>),
}

impl View for DbError {
    type V = Fault;

    open spec fn view(&self) -> Fault {
        match *self {
            DbError::InvalidData(text) => Fault::InvalidData(text@),
            DbError::AccessDenied(text) => Fault::AccessDenied(text@),
            DbError::Conflict(text) => Fault::Conflict(text@),
            DbError::NotFound(text) => Fault::NotFound(text@),
        }
    }
}

/// What a result was refused for.
pub open spec fn fault_of<T>(result: Result<T, DbError>) -> Option<Fault> {
    match result {
        Ok(_) => None,
        Err(error) => Some(error@),
    }
}

} // verus!
