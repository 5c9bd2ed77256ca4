//! The decisions of the command line client: what a command asks of the relay, what it
//! signs, and how it reports what the relay answers.

pub mod command;
pub mod draft;
pub mod error;
pub mod fresh;
pub mod kind;
pub mod laws;
pub mod outcome;
pub mod plan_laws;
pub mod query;
pub mod tag;
