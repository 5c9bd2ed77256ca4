//! Commands that may be sent again: the first one accepted under an identifier is canonical.

use vstd::prelude::*;
use vstd::string::*;

use crate::text::{Id, hyphenated, id_text};

verus! {

/// Result of applying a semantically idempotent command.
#[derive(Debug)]
pub struct SemanticApply<T> {
    /// Current projection after the canonical command.
    pub snapshot: T,
    /// Signed event identifier retained as the canonical command.
    pub canonical_event_id: Vec<u8>,
    /// Whether this call created the canonical command.
    pub applied: bool,
}

/// A command that was sent again. Nothing is written.
pub struct Replay {
    event_id: Vec<u8>,
}

impl Replay {
    /// The event of the command that was accepted first.
    pub closed spec fn event_id(&self) -> Seq<u8> {
        self.event_id@
    }

    pub(crate) fn of(event_id: Vec<u8>) -> (result: Replay)
        ensures
            result.event_id() == event_id@,
    {
        Replay { event_id }
    }

    /// The result of the command, given the projection as it stands.
    pub fn conclude<T>(self, snapshot: T) -> (result: SemanticApply<T>)
        ensures
            result.snapshot == snapshot,
            result.canonical_event_id@ == self.event_id(),
            !result.applied,
    {
        SemanticApply { snapshot, canonical_event_id: self.event_id, applied: false }
    }
}

/// The key of the lock under which commands with one identifier are serialized.
pub open spec fn lock_key_text(prefix: Seq<char>, community: Id, command: Id) -> Seq<char> {
    prefix + hyphenated(community) + ":"@ + hyphenated(command)
}

/// The key of the lock under which commands with one identifier are serialized.
pub(crate) fn lock_key(prefix: &str, community: Id, command: Id) -> (result: String)
    ensures
        result@ == lock_key_text(prefix@, community, command),
{
    prefix.to_owned().concat(id_text(community).as_str()).concat(":").concat(
        id_text(command).as_str(),
    )
}

} // verus!
