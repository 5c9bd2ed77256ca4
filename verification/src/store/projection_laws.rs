//! What projections show, told by the records that they are read from.

use vstd::prelude::*;

use crate::history_laws::{
    came_before, gives_state, is_given, law_folding_gives_the_last_accepted_action,
    law_sorting_gives_the_order_of_acceptance,
};
use crate::snapshot::{EntryModel, InstanceSnapshotModel};
use crate::state::StateModel;
use crate::store::projection::{
    ActionRecord, ActivityRecord, InstanceRecord, TemplateRecord, projects, recorded_entries,
    recorded_history, recorded_states,
};
use crate::text::{
    Id, hex, lemma_text_less_irreflexive, lemma_text_less_transitive, text_less,
};

verus! {

/// A template is shown as it is stored, with its last actor and event printed byte by byte.
pub proof fn law_templates_are_shown_as_stored(record: TemplateRecord)
    ensures
        record.projected().template == record.template@,
        record.projected().actor_pubkey == hex(record.last_actor@),
        record.projected().accepted_at == record.accepted_at,
        record.projected().event_id == hex(record.last_event_id@),
{
}

/// Whether an entry tells of the insertion of an instance.
pub open spec fn tells_insertion(record: InstanceRecord, entry: EntryModel) -> bool {
    &&& entry.event_id == hex(record.created_event_id@)
    &&& entry.actor_pubkey == hex(record.created_by@)
    &&& entry.accepted_at == record.accepted_at
    &&& entry.client_created_at is None
    &&& entry.action == "instance.insert"@
    &&& entry.item_id is None
    &&& entry.structure_revision == Some(1u64)
}

/// Whether an entry tells of a record. A revision is shown as the number that was submitted:
/// the stored one, raised by two to the sixty-fourth where it is negative.
pub open spec fn tells_record(record: ActivityRecord, entry: EntryModel) -> bool {
    &&& entry.event_id == hex(record.event_id@)
    &&& entry.actor_pubkey == hex(record.actor@)
    &&& entry.accepted_at == record.accepted_at
    &&& entry.client_created_at == record.client_created_at
    &&& entry.action == record.action@
    &&& entry.item_id == record.item_id
    &&& entry.structure_revision is Some <==> record.structure_revision is Some
    &&& record.structure_revision is Some ==> {
        let stored = record.structure_revision->Some_0;
        let shown = entry.structure_revision->Some_0;
        shown == stored || stored < 0 && shown == stored + 0x1_0000_0000_0000_0000
    }
}

/// Whether a state tells of an action: the item is completed where the action completes it.
pub open spec fn tells_action(record: ActionRecord, state: StateModel) -> bool {
    &&& state.item_id == record.item_id
    &&& state.completed <==> record.action@ == "complete"@
    &&& state.actor_pubkey == hex(record.actor@)
    &&& state.accepted_at == record.accepted_at
    &&& state.client_created_at == Some(record.client_created_at)
    &&& state.event_id == hex(record.event_id@)
}

/// Records are told one by one, in their order, after the insertion.
pub proof fn law_records_are_told_one_by_one(
    record: InstanceRecord,
    actions: Seq<ActionRecord>,
    activity: Seq<ActivityRecord>,
)
    ensures
        recorded_states(actions).len() == actions.len(),
        forall|i: int|
            0 <= i < actions.len() ==> tells_action(
                #[trigger] actions[i],
                recorded_states(actions)[i],
            ),
        recorded_entries(activity).len() == activity.len(),
        recorded_history(record, activity).len() == activity.len() + 1,
        tells_insertion(record, recorded_history(record, activity)[0]),
        forall|i: int|
            0 <= i < activity.len() ==> tells_record(
                #[trigger] activity[i],
                recorded_history(record, activity)[i + 1],
            ) && recorded_entries(activity)[i] == recorded_history(record, activity)[i + 1],
{
}

/// Whether a state tells of a stored action on its item, before which all others on it were
/// accepted, or with it.
pub open spec fn tells_the_last_action(actions: Seq<ActionRecord>, state: StateModel) -> bool {
    exists|i: int|
        0 <= i < actions.len() && tells_action(#[trigger] actions[i], state) && forall|j: int|
            0 <= j < actions.len() && (#[trigger] actions[j]).item_id == actions[i].item_id
                ==> !came_before(
                actions[i].accepted_at,
                hex(actions[i].event_id@),
                actions[j].accepted_at,
                hex(actions[j].event_id@),
            )
}

/// Whether some state is that of an item.
pub open spec fn has_state(states: Seq<StateModel>, id: Id) -> bool {
    exists|k: int| 0 <= k < states.len() && (#[trigger] states[k]).item_id == id
}

/// Nothing came before what it comes after.
proof fn lemma_came_before_one_way(a: StateModel, b: StateModel)
    ensures
        came_before(b.accepted_at, b.event_id, a.accepted_at, a.event_id) ==> !came_before(
            a.accepted_at,
            a.event_id,
            b.accepted_at,
            b.event_id,
        ),
        a == b ==> !came_before(a.accepted_at, a.event_id, b.accepted_at, b.event_id),
{
    lemma_text_less_irreflexive(a.event_id);
    if text_less(a.event_id, b.event_id) && text_less(b.event_id, a.event_id) {
        lemma_text_less_transitive(a.event_id, b.event_id, a.event_id);
    }
}

/// An instance is shown as its document stands, with one state for each item that was acted
/// on, which tells of the last action on it, and with its whole history, which runs forward
/// from record to record and holds the insertion and every record once.
pub proof fn law_instances_are_shown_as_stored(
    record: InstanceRecord,
    actions: Seq<ActionRecord>,
    activity: Seq<ActivityRecord>,
    snapshot: InstanceSnapshotModel,
)
    requires
        projects(record, actions, activity, snapshot),
    ensures
        snapshot.instance == record.instance@,
        forall|k: int|
            0 <= k < snapshot.item_states.len() ==> tells_the_last_action(
                actions,
                #[trigger] snapshot.item_states[k],
            ),
        forall|k: int, l: int|
            0 <= k < l < snapshot.item_states.len() ==> (
            #[trigger] snapshot.item_states[k]).item_id < (
            #[trigger] snapshot.item_states[l]).item_id,
        forall|i: int|
            0 <= i < actions.len() ==> has_state(
                snapshot.item_states,
                (#[trigger] actions[i]).item_id,
            ),
        snapshot.activity.len() == activity.len() + 1,
        snapshot.activity.to_multiset() == recorded_history(record, activity).to_multiset(),
        forall|k: int, l: int|
            0 <= k < l < snapshot.activity.len() ==> !came_before(
                (#[trigger] snapshot.activity[l]).accepted_at,
                snapshot.activity[l].event_id,
                (#[trigger] snapshot.activity[k]).accepted_at,
                snapshot.activity[k].event_id,
            ),
{
    let told = recorded_states(actions);
    let history = recorded_history(record, activity);
    let states = snapshot.item_states;
    law_records_are_told_one_by_one(record, actions, activity);
    law_folding_gives_the_last_accepted_action(told, states);
    law_sorting_gives_the_order_of_acceptance(
        history,
        snapshot.activity,
        record.accepted_at,
        Seq::empty(),
    );
    assert forall|k: int| 0 <= k < states.len() implies tells_the_last_action(
        actions,
        #[trigger] states[k],
    ) by {
        assert(is_given(told, states[k]));
        let i = choose|i: int| #[trigger] gives_state(told, i) && told[i] == states[k];
        assert(tells_action(actions[i], states[k]));
        assert forall|j: int|
            0 <= j < actions.len() && (#[trigger] actions[j]).item_id
                == actions[i].item_id implies !came_before(
            actions[i].accepted_at,
            hex(actions[i].event_id@),
            actions[j].accepted_at,
            hex(actions[j].event_id@),
        ) by {
            lemma_came_before_one_way(told[i], told[j]);
            assert(told[j].item_id == told[i].item_id);
        }
    }
    assert forall|i: int| 0 <= i < actions.len() implies has_state(
        states,
        (#[trigger] actions[i]).item_id,
    ) by {
        assert(told[i].item_id == actions[i].item_id);
    }
}

} // verus!
