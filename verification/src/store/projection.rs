//! Reading projections back from stored records.

use vstd::prelude::*;

use crate::document::TemplateRevision;
use crate::instance::PlaybookInstance;
use crate::snapshot::{
    ActivityEntry, EntryModel, InstanceSnapshot, InstanceSnapshotModel, TemplateSnapshot,
    TemplateSnapshotModel, entries_model, sort_activity, sorts_to,
};
use crate::state::{ItemState, StateModel, fold_item_states, folds_to, states_model};
use crate::store::cast::{to_unsigned, unsigned};
use crate::store::error::{DbError, Fault, fault_of};
use crate::text::{Id, hex, hex_text, same_text};
use crate::time::Timestamp;

verus! {

/// A stored template.
pub struct TemplateRecord {
    pub template: TemplateRevision,
    pub last_actor: Vec<u8>,
    pub accepted_at: Timestamp,
    pub last_event_id: Vec<u8>,
}

/// A stored instance.
pub struct InstanceRecord {
    pub instance: PlaybookInstance,
    pub created_event_id: Vec<u8>,
    pub created_by: Vec<u8>,
    pub accepted_at: Timestamp,
}

/// A stored completion action, as item states are made from it.
pub struct ActionRecord {
    pub item_id: Id,
    pub action: String,
    pub actor: Vec<u8>,
    pub accepted_at: Timestamp,
    pub client_created_at: Timestamp,
    pub event_id: Vec<u8>,
}

/// A stored action or operation, as the history is made from it.
pub struct ActivityRecord {
    pub event_id: Vec<u8>,
    pub actor: Vec<u8>,
    pub accepted_at: Timestamp,
    pub client_created_at: Option<Timestamp>,
    pub action: String,
    pub item_id: Option<Id>,
    pub structure_revision: Option<i64>,
}

impl TemplateRecord {
    /// What readers are shown of a stored template.
    pub open spec fn projected(self) -> TemplateSnapshotModel {
        TemplateSnapshotModel {
            template: self.template@,
            actor_pubkey: hex(self.last_actor@),
            accepted_at: self.accepted_at,
            event_id: hex(self.last_event_id@),
        }
    }
}

impl InstanceRecord {
    /// The entry with which the history of an instance begins.
    pub open spec fn insertion(self) -> EntryModel {
        EntryModel {
            event_id: hex(self.created_event_id@),
            actor_pubkey: hex(self.created_by@),
            accepted_at: self.accepted_at,
            client_created_at: None,
            action: "instance.insert"@,
            item_id: None,
            structure_revision: Some(1),
        }
    }
}

impl ActionRecord {
    /// The item state that an action alone would give.
    pub open spec fn state(self) -> StateModel {
        StateModel {
            item_id: self.item_id,
            completed: self.action@ == "complete"@,
            actor_pubkey: hex(self.actor@),
            accepted_at: self.accepted_at,
            client_created_at: Some(self.client_created_at),
            event_id: hex(self.event_id@),
        }
    }

    /// The item state that an action alone would give.
    fn to_state(&self) -> (result: ItemState)
        ensures
            result@ == self.state(),
    {
        ItemState {
            item_id: self.item_id,
            completed: same_text(self.action.as_str(), "complete"),
            actor_pubkey: hex_text(self.actor.as_slice()),
            accepted_at: self.accepted_at,
            client_created_at: Some(self.client_created_at),
            event_id: hex_text(self.event_id.as_slice()),
        }
    }
}

impl ActivityRecord {
    /// The entry that a record has in the history.
    pub open spec fn entry(self) -> EntryModel {
        EntryModel {
            event_id: hex(self.event_id@),
            actor_pubkey: hex(self.actor@),
            accepted_at: self.accepted_at,
            client_created_at: self.client_created_at,
            action: self.action@,
            item_id: self.item_id,
            structure_revision: match self.structure_revision {
                Some(revision) => Some(unsigned(revision) as u64),
                None => None,
            },
        }
    }

    /// The entry that a record has in the history.
    fn to_entry(self) -> (result: ActivityEntry)
        ensures
            result@ == self.entry(),
    {
        ActivityEntry {
            event_id: hex_text(self.event_id.as_slice()),
            actor_pubkey: hex_text(self.actor.as_slice()),
            accepted_at: self.accepted_at,
            client_created_at: self.client_created_at,
            action: self.action,
            item_id: self.item_id,
            structure_revision: match self.structure_revision {
                Some(revision) => Some(to_unsigned(revision)),
                None => None,
            },
        }
    }
}

/// The item states that actions would give, each alone.
pub open spec fn recorded_states(actions: Seq<ActionRecord>) -> Seq<StateModel> {
    actions.map_values(|action: ActionRecord| action.state())
}

/// The entries that records have in the history.
pub open spec fn recorded_entries(activity: Seq<ActivityRecord>) -> Seq<EntryModel> {
    activity.map_values(|entry: ActivityRecord| entry.entry())
}

/// The history of an instance as its records stand: the insertion, then the rest.
pub open spec fn recorded_history(
    record: InstanceRecord,
    activity: Seq<ActivityRecord>,
) -> Seq<EntryModel> {
    seq![record.insertion()] + recorded_entries(activity)
}

/// Whether a projection shows what is stored of an instance: its document, the latest state
/// of each item that was acted on, and all that happened, in order of time.
pub open spec fn projects(
    record: InstanceRecord,
    actions: Seq<ActionRecord>,
    activity: Seq<ActivityRecord>,
    snapshot: InstanceSnapshotModel,
) -> bool {
    &&& snapshot.instance == record.instance@
    &&& folds_to(recorded_states(actions), snapshot.item_states)
    &&& sorts_to(recorded_history(record, activity), snapshot.activity)
}

/// Read the current template projection from the stored template, if there is one.
pub fn template_snapshot(record: Option<TemplateRecord>) -> (result: Result<
    TemplateSnapshot,
    DbError,
>)
    ensures
        fault_of(result) == (match record {
            Some(_) => None,
            None => Some(Fault::NotFound("playbook template"@)),
        }),
        result is Ok ==> result->Ok_0@ == record->Some_0.projected(),
{
    match record {
        None => Err(DbError::NotFound("playbook template".to_owned())),
        Some(record) => Ok(
            TemplateSnapshot {
                actor_pubkey: hex_text(record.last_actor.as_slice()),
                accepted_at: record.accepted_at,
                event_id: hex_text(record.last_event_id.as_slice()),
                template: record.template,
            },
        ),
    }
}

/// Read an instance, its latest item states and its complete history from the stored
/// instance, if there is one, and the records of its actions and operations.
pub fn instance_snapshot(
    record: Option<InstanceRecord>,
    actions: Vec<ActionRecord>,
    activity: Vec<ActivityRecord>,
) -> (result: Result<InstanceSnapshot, DbError>)
    ensures
        fault_of(result) == (match record {
            Some(_) => None,
            None => Some(Fault::NotFound("playbook instance"@)),
        }),
        result is Ok ==> projects(record->Some_0, actions@, activity@, result->Ok_0@),
{
    let record = match record {
        None => {
            return Err(DbError::NotFound("playbook instance".to_owned()));
        },
        Some(record) => record,
    };
    let mut states: Vec<ItemState> = Vec::new();
    for i in 0..actions.len()
        invariant
            states_model(states@) == recorded_states(actions@.take(i as int)),
    {
        let ghost before = states@;
        states.push(actions[i].to_state());
        assert(states_model(states@) =~= states_model(before).push(actions@[i as int].state()));
        assert(actions@.take(i + 1) =~= actions@.take(i as int).push(actions@[i as int]));
        assert(recorded_states(actions@.take(i + 1)) =~= recorded_states(
            actions@.take(i as int),
        ).push(actions@[i as int].state()));
    }
    assert(actions@.take(actions@.len() as int) =~= actions@);
    let mut history: Vec<ActivityEntry> = Vec::new();
    history.push(
        ActivityEntry {
            event_id: hex_text(record.created_event_id.as_slice()),
            actor_pubkey: hex_text(record.created_by.as_slice()),
            accepted_at: record.accepted_at,
            client_created_at: None,
            action: "instance.insert".to_owned(),
            item_id: None,
            structure_revision: Some(1),
        },
    );
    assert(entries_model(history@) =~= recorded_history(record, activity@.take(0)));
    for entry in it: activity
        invariant
            it.seq() == activity@,
            entries_model(history@) == recorded_history(record, activity@.take(it.index() as int)),
    {
        let ghost n = it.index() as int;
        let ghost before = history@;
        history.push(entry.to_entry());
        assert(entries_model(history@) =~= entries_model(before).push(entry.entry()));
        assert(activity@.take(n + 1) =~= activity@.take(n).push(entry));
        assert(recorded_history(record, activity@.take(n + 1)) =~= recorded_history(
            record,
            activity@.take(n),
        ).push(entry.entry()));
    }
    assert(activity@.take(activity@.len() as int) =~= activity@);
    Ok(
        InstanceSnapshot {
            instance: record.instance,
            item_states: fold_item_states(states),
            activity: sort_activity(history),
        },
    )
}

} // verus!
