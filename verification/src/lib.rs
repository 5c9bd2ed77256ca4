//! Native playbooks: reusable checklist templates, the channel instances copied from
//! them, and the rules by which signed commands change both.

pub mod cli;
pub mod document;
pub mod document_laws;
pub mod edit_laws;
pub mod error;
pub mod history_laws;
pub mod instance;
pub mod instance_laws;
pub mod operation;
pub mod progress_laws;
pub mod search;
pub mod snapshot;
pub mod state;
pub mod store;
pub mod text;
pub mod text_laws;
pub mod time;
pub mod validate;
