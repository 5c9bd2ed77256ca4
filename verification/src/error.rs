//! Why a playbook document or a structural edit is refused.

use vstd::prelude::*;
use vstd::string::*;

use crate::text::{Id, id_text, signed_text, unsigned_text};
use crate::text::{decimal, hyphenated, signed_decimal};

verus! {

/// Structural projection error.
#[derive(Clone, Debug, PartialEq, Eq)]
pub enum PlaybookError {
    /// Unsupported schema version.
    SchemaVersion(u32),
    /// Invalid or empty text field.
    InvalidText(&'static str),
    /// Duplicate stable identifier.
    DuplicateId(&'static str, Id),
    /// Sparse ordering position must be positive.
    InvalidPosition(i64),
    /// Target section was absent.
    SectionNotFound(Id),
    /// Target item was absent.
    ItemNotFound(Id),
    /// Target has been tombstoned.
    Removed(&'static str),
    /// Target is already active.
    AlreadyActive(&'static str),
    /// Archived instances are immutable.
    Archived,
}

impl PlaybookError {
    /// The error in words.
    pub open spec fn text(self) -> Seq<char> {
        match self {
            PlaybookError::SchemaVersion(version) => "unsupported schema_version "@ + decimal(
                version as nat,
            ),
            PlaybookError::InvalidText(field) => "invalid "@ + field@,
            PlaybookError::DuplicateId(kind, id) => "duplicate "@ + kind@ + " id "@ + hyphenated(
                id,
            ),
            PlaybookError::InvalidPosition(position) => "invalid position "@ + signed_decimal(
                position as int,
            ),
            PlaybookError::SectionNotFound(id) => "section not found: "@ + hyphenated(id),
            PlaybookError::ItemNotFound(id) => "item not found: "@ + hyphenated(id),
            PlaybookError::Removed(kind) => kind@ + " is removed"@,
            PlaybookError::AlreadyActive(kind) => kind@ + " is already active"@,
            PlaybookError::Archived => "instance is archived"@,
        }
    }

    /// The error in words.
    pub fn message(&self) -> (result: String)
        ensures
            result@ == self.text(),
    {
        match self {
            PlaybookError::SchemaVersion(version) => "unsupported schema_version ".to_owned().concat(
                unsigned_text(*version as u64).as_str(),
            ),
            PlaybookError::InvalidText(field) => "invalid ".to_owned().concat(field),
            PlaybookError::DuplicateId(kind, id) => "duplicate ".to_owned().concat(kind).concat(
                " id ",
            ).concat(id_text(*id).as_str()),
            PlaybookError::InvalidPosition(position) => "invalid position ".to_owned().concat(
                signed_text(*position).as_str(),
            ),
            PlaybookError::SectionNotFound(id) => "section not found: ".to_owned().concat(
                id_text(*id).as_str(),
            ),
            PlaybookError::ItemNotFound(id) => "item not found: ".to_owned().concat(
                id_text(*id).as_str(),
            ),
            PlaybookError::Removed(kind) => (*kind).to_owned().concat(" is removed"),
            PlaybookError::AlreadyActive(kind) => (*kind).to_owned().concat(" is already active"),
            PlaybookError::Archived => "instance is archived".to_owned(),
        }
    }
}

} // verus!
