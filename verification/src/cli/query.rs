//! Asking the relay for current snapshots.

use vstd::prelude::*;
use vstd::string::*;

use crate::cli::error::{CliError, CliFault, cli_fault_of};
use crate::cli::kind::{KIND_PLAYBOOK_INSTANCE_SNAPSHOT, KIND_PLAYBOOK_TEMPLATE_SNAPSHOT};
use crate::text::{Id, hyphenated, id_text};

verus! {

/// How many snapshots are asked for: one more than there should be.
pub const SNAPSHOT_LIMIT: usize = 2;

/// A question for the one current snapshot of a template or an instance.
#[derive(Clone, Copy)]
pub struct SnapshotQuery {
    /// The event kind.
    pub kind: u32,
    /// The template or instance.
    pub id: Id,
    /// What the snapshot is of, in words.
    pub label: &'static str,
}

/// The question for the current snapshot of a template.
pub open spec fn template_query(template: Id) -> SnapshotQuery {
    SnapshotQuery { kind: KIND_PLAYBOOK_TEMPLATE_SNAPSHOT, id: template, label: "template" }
}

/// The question for the current snapshot of an instance.
pub open spec fn instance_query(instance: Id) -> SnapshotQuery {
    SnapshotQuery { kind: KIND_PLAYBOOK_INSTANCE_SNAPSHOT, id: instance, label: "instance" }
}

/// The question for the current snapshot of a template.
pub fn get_template(template: Id) -> (result: SnapshotQuery)
    ensures
        result == template_query(template),
{
    SnapshotQuery { kind: KIND_PLAYBOOK_TEMPLATE_SNAPSHOT, id: template, label: "template" }
}

/// The question for the current snapshot of an instance.
pub fn get_instance(instance: Id) -> (result: SnapshotQuery)
    ensures
        result == instance_query(instance),
{
    SnapshotQuery { kind: KIND_PLAYBOOK_INSTANCE_SNAPSHOT, id: instance, label: "instance" }
}

impl SnapshotQuery {
    /// Why this many events do not answer the question.
    pub open spec fn fault(self, count: nat) -> Option<CliFault> {
        if count == 0 {
            Some(CliFault::NotFound(self.label@ + " "@ + hyphenated(self.id)))
        } else if count == 1 {
            None
        } else {
            Some(
                CliFault::Other(
                    "relay returned multiple current snapshots for "@ + self.label@ + " "@
                        + hyphenated(self.id),
                ),
            )
        }
    }

    /// The value of the `d` tag that is asked for.
    pub fn identifier(&self) -> (result: String)
        ensures
            result@ == hyphenated(self.id),
    {
        id_text(self.id)
    }

    /// Take the one event that the relay found.
    pub fn select<T>(&self, events: Vec<T>) -> (result: Result<T, CliError>)
        ensures
            cli_fault_of(result) == self.fault(events@.len()),
            result is Ok ==> result->Ok_0 == events@[0],
    {
        let count: usize = events.len();
        if count == 0 {
            let text = self.label.to_owned().concat(" ").concat(id_text(self.id).as_str());
            return Err(CliError::NotFound(text));
        }
        let mut events = events;
        match events.pop() {
            Some(event) if count == 1 => Ok(event),
            _ => {
                let text = "relay returned multiple current snapshots for ".to_owned().concat(
                    self.label,
                ).concat(" ").concat(id_text(self.id).as_str());
                Err(CliError::Other(text))
            },
        }
    }
}

/// The content of a snapshot event, if it has one.
pub fn snapshot_content(content: Option<String>) -> (result: Result<String, CliError>)
    ensures
        cli_fault_of(result) == (match content {
            Some(_) => None,
            None => Some(CliFault::Other("snapshot event has no content"@)),
        }),
        result is Ok ==> content == Some(result->Ok_0),
{
    match content {
        Some(content) => Ok(content),
        None => Err(CliError::Other("snapshot event has no content".to_owned())),
    }
}

} // verus!
