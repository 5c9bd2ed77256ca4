//! The decisions by which commands are accepted into the store.
//!
//! A command is a chain of types. Each holds what was checked so far, asks the store for
//! what the next check needs, and gives the next type for the answer.

pub mod access;
pub mod action;
pub mod apply;
pub mod cast;
pub mod command;
pub mod error;
pub mod insert;
pub mod laws;
pub mod projection;
pub mod projection_laws;
pub mod reading_laws;
pub mod refusal_laws;
pub mod structure;
pub mod tables;
pub mod tables_laws;
pub mod template;
