//! What readers are shown once commands were accepted.

use vstd::prelude::*;
use vstd::seq_lib::lemma_multiset_commutative;

use crate::instance::instantiated;
use crate::operation::ItemActionKind;
use crate::snapshot::{
    EntryModel, InstanceSnapshotModel, TemplateSnapshotModel,
    law_sorting_is_deterministic, law_sorting_is_permutation_independent,
    law_sorting_keeps_every_record, moments_identify_entries,
};
use crate::state::{
    StateModel, covers, decides, folds_to, is_latest, law_fold_is_deterministic,
    law_fold_is_permutation_independent, lemma_precedes_total, moments_identify, supersedes,
};
use crate::store::action::{ActionSubmission, item_action_text};
use crate::store::insert::InsertSubmission;
use crate::store::projection::{
    ActionRecord, ActivityRecord, InstanceRecord, TemplateRecord, projects, recorded_entries,
    recorded_history, recorded_states,
};
use crate::store::structure::{OperationSubmission, revised};
use crate::store::tables::{ActionEntry, OperationEntry, Tables, action_on, operation_on};
use crate::store::tables_laws::{Command, Request};
use crate::store::template::TemplateSubmission;
use crate::text::{Id, hex};
use crate::time::Timestamp;

verus! {

/// An accepted template revision reads back as it was submitted, with its actor and its
/// event.
pub proof fn law_template_revisions_read_back(
    tables: Tables,
    submission: TemplateSubmission,
    role: Option<Seq<char>>,
    accepted_at: Timestamp,
    record: TemplateRecord,
)
    requires
        tables.takes_template(submission, role),
        tables.after_template(submission, role, accepted_at).reads_template(
            submission.revision.template_id,
            record,
        ),
    ensures
        record.projected() == (TemplateSnapshotModel {
            template: submission.revision@,
            actor_pubkey: hex(submission.actor@),
            accepted_at,
            event_id: hex(submission.event_id@),
        }),
{
}

/// The instance that a command is on, if it is on one.
pub open spec fn instance_target(command: Command) -> Option<Id> {
    match command {
        Command::Template(_) => None,
        Command::Insert(submission) => Some(submission.request.instance_id),
        Command::Action(submission) => Some(submission.action.instance_id),
        Command::Operation(submission) => Some(submission.operation.instance_id),
    }
}

/// The template that a command is on, if it is on one.
pub open spec fn template_target(command: Command) -> Option<Id> {
    match command {
        Command::Template(submission) => Some(submission.revision.template_id),
        _ => None,
    }
}

/// A command leaves every instance as it is but the one that it is on: what is read of the
/// others before and after is the same. A template revision is on none.
pub proof fn law_commands_leave_other_instances_alone(
    tables: Tables,
    request: Request,
    id: Id,
    record: InstanceRecord,
    actions: Seq<ActionRecord>,
    activity: Seq<ActivityRecord>,
)
    requires
        instance_target(request.command) != Some(id),
    ensures
        tables.after(request).stored_instance(id) == tables.stored_instance(id),
        tables.after(request).reads_instance(id, record, actions, activity)
            == tables.reads_instance(id, record, actions, activity),
{
    let after = tables.after(request);
    match request.command {
        Command::Action(_) => {
            if after.actions != tables.actions {
                tables.actions.lemma_filter_push(after.actions.last(), action_on(id));
            }
        },
        Command::Operation(_) => {
            if after.operations != tables.operations {
                tables.operations.lemma_filter_push(after.operations.last(), operation_on(id));
            }
        },
        _ => {},
    }
}

/// A command leaves every template as it is but the one that it is on: what is read of the
/// others before and after is the same. Only template revisions are on one.
pub proof fn law_commands_leave_other_templates_alone(
    tables: Tables,
    request: Request,
    id: Id,
    record: TemplateRecord,
)
    requires
        template_target(request.command) != Some(id),
    ensures
        tables.after(request).reads_template(id, record) == tables.reads_template(id, record),
{
}

/// Whether two readings of an instance cannot be told apart by the order in which its records
/// were read: the order is the same, or actions on an item and entries of the history that
/// share their time and event are the same.
pub open spec fn order_is_immaterial(
    record: InstanceRecord,
    actions: Seq<ActionRecord>,
    activity: Seq<ActivityRecord>,
    other_actions: Seq<ActionRecord>,
    other_activity: Seq<ActivityRecord>,
) -> bool {
    ||| {
        &&& recorded_states(actions) == recorded_states(other_actions)
        &&& recorded_entries(activity) == recorded_entries(other_activity)
    }
    ||| {
        &&& moments_identify(recorded_states(actions))
        &&& moments_identify_entries(recorded_history(record, activity))
    }
}

/// Two readings of a stored instance show the same.
pub proof fn law_readings_of_an_instance_agree(
    tables: Tables,
    id: Id,
    record: InstanceRecord,
    actions: Seq<ActionRecord>,
    activity: Seq<ActivityRecord>,
    shown: InstanceSnapshotModel,
    other_record: InstanceRecord,
    other_actions: Seq<ActionRecord>,
    other_activity: Seq<ActivityRecord>,
    other_shown: InstanceSnapshotModel,
)
    requires
        tables.reads_instance(id, record, actions, activity),
        projects(record, actions, activity, shown),
        tables.reads_instance(id, other_record, other_actions, other_activity),
        projects(other_record, other_actions, other_activity, other_shown),
        order_is_immaterial(record, actions, activity, other_actions, other_activity),
    ensures
        shown == other_shown,
{
    let (states, other_states) = (recorded_states(actions), recorded_states(other_actions));
    let history = recorded_history(record, activity);
    let other_history = recorded_history(other_record, other_activity);
    if states == other_states && recorded_entries(activity) == recorded_entries(other_activity) {
        law_fold_is_deterministic(states, shown.item_states, other_shown.item_states);
        law_sorting_is_deterministic(history, shown.activity, other_shown.activity);
    } else {
        law_fold_is_permutation_independent(
            states,
            other_states,
            shown.item_states,
            other_shown.item_states,
        );
        lemma_multiset_commutative(seq![record.insertion()], recorded_entries(activity));
        lemma_multiset_commutative(
            seq![other_record.insertion()],
            recorded_entries(other_activity),
        );
        law_sorting_is_permutation_independent(
            history,
            other_history,
            shown.activity,
            other_shown.activity,
        );
    }
}

/// An accepted template revision changes nothing that readers are shown of any instance,
/// those copied from the template included.
pub proof fn law_template_revisions_leave_instances_alone(
    tables: Tables,
    submission: TemplateSubmission,
    role: Option<Seq<char>>,
    accepted_at: Timestamp,
    id: Id,
    record: InstanceRecord,
    actions: Seq<ActionRecord>,
    activity: Seq<ActivityRecord>,
    before: InstanceSnapshotModel,
    later_record: InstanceRecord,
    later_actions: Seq<ActionRecord>,
    later_activity: Seq<ActivityRecord>,
    after: InstanceSnapshotModel,
)
    requires
        tables.reads_instance(id, record, actions, activity),
        projects(record, actions, activity, before),
        tables.after_template(submission, role, accepted_at).reads_instance(
            id,
            later_record,
            later_actions,
            later_activity,
        ),
        projects(later_record, later_actions, later_activity, after),
        order_is_immaterial(record, actions, activity, later_actions, later_activity),
    ensures
        before == after,
{
    let request = Request { command: Command::Template(submission), role, accepted_at };
    law_commands_leave_other_instances_alone(
        tables,
        request,
        id,
        later_record,
        later_actions,
        later_activity,
    );
    law_readings_of_an_instance_agree(
        tables,
        id,
        record,
        actions,
        activity,
        before,
        later_record,
        later_actions,
        later_activity,
        after,
    );
}

/// The whole history of a stored instance, in no particular order.
pub open spec fn whole_history(tables: Tables, id: Id) -> Seq<EntryModel> {
    seq![tables.instances[id].insertion()] + tables.activity(id)
}

/// What readers are shown of an instance is its document and its whole history.
pub proof fn law_readings_show_document_and_history(
    tables: Tables,
    id: Id,
    record: InstanceRecord,
    actions: Seq<ActionRecord>,
    activity: Seq<ActivityRecord>,
    shown: InstanceSnapshotModel,
)
    requires
        tables.reads_instance(id, record, actions, activity),
        projects(record, actions, activity, shown),
    ensures
        shown.instance == tables.instances[id].document,
        shown.activity.to_multiset() == whole_history(tables, id).to_multiset(),
        shown.activity.len() == tables.activity(id).len() + 1,
{
    broadcast use vstd::seq_lib::group_to_multiset_ensures;

    lemma_multiset_commutative(seq![record.insertion()], recorded_entries(activity));
    lemma_multiset_commutative(seq![record.insertion()], tables.activity(id));
    law_sorting_keeps_every_record(recorded_history(record, activity), shown.activity);
    assert(shown.activity.to_multiset().len() == shown.activity.len());
    assert(whole_history(tables, id).to_multiset().len() == whole_history(tables, id).len());
}

/// A new instance reads back as the copy of its template, with nothing but its insertion in
/// its history.
pub proof fn law_inserted_instances_read_back(
    tables: Tables,
    submission: InsertSubmission,
    role: Option<Seq<char>>,
    accepted_at: Timestamp,
    record: InstanceRecord,
    actions: Seq<ActionRecord>,
    activity: Seq<ActivityRecord>,
    shown: InstanceSnapshotModel,
)
    requires
        tables.sound(),
        tables.takes_insert(submission, role),
        tables.after_insert(submission, role, accepted_at).reads_instance(
            submission.request.instance_id,
            record,
            actions,
            activity,
        ),
        projects(record, actions, activity, shown),
    ensures
        shown.instance == instantiated(
            submission.request.instance_id,
            submission.request.channel_id,
            tables.templates[submission.request.template_id].document,
        ),
        shown.activity == seq![
            (EntryModel {
                event_id: hex(submission.event_id@),
                actor_pubkey: hex(submission.actor@),
                accepted_at,
                client_created_at: None,
                action: "instance.insert"@,
                item_id: None,
                structure_revision: Some(1),
            }),
        ],
        shown.item_states.len() == 0,
{
    broadcast use vstd::seq_lib::group_to_multiset_ensures;

    let id = submission.request.instance_id;
    let after = tables.after_insert(submission, role, accepted_at);
    lemma_nothing_on(tables, id);
    law_readings_show_document_and_history(after, id, record, actions, activity, shown);
    assert(whole_history(after, id) =~= seq![after.instances[id].insertion()]);
    assert(shown.activity.contains(shown.activity[0]));
    assert(whole_history(after, id).to_multiset().count(shown.activity[0]) > 0);
    assert(recorded_states(actions).to_multiset().len() == 0);
    if shown.item_states.len() > 0 {
        assert(decides(recorded_states(actions), shown.item_states[0]));
    }
}

/// Nothing is stored on an instance that is not stored.
proof fn lemma_nothing_on(tables: Tables, id: Id)
    requires
        tables.sound(),
        !tables.instances.contains_key(id),
    ensures
        tables.actions.filter(action_on(id)).len() == 0,
        tables.operations.filter(operation_on(id)).len() == 0,
{
    lemma_none_wanted(tables.actions, action_on(id));
    lemma_none_wanted(tables.operations, operation_on(id));
}

proof fn lemma_none_wanted<T>(s: Seq<T>, wanted: spec_fn(T) -> bool)
    requires
        forall|i: int| 0 <= i < s.len() ==> !wanted(#[trigger] s[i]),
    ensures
        s.filter(wanted).len() == 0,
    decreases s.len(),
{
    reveal(Seq::filter);
    if s.len() > 0 {
        lemma_none_wanted(s.drop_last(), wanted);
    }
}

/// An accepted operation reads back as its edit at the next revision, and adds its own entry
/// to the history.
pub proof fn law_accepted_operations_read_back(
    tables: Tables,
    submission: OperationSubmission,
    role: Option<Seq<char>>,
    accepted_at: Timestamp,
    record: InstanceRecord,
    actions: Seq<ActionRecord>,
    activity: Seq<ActivityRecord>,
    shown: InstanceSnapshotModel,
)
    requires
        tables.takes_operation(submission, role),
        tables.after_operation(submission, role, accepted_at).reads_instance(
            submission.operation.instance_id,
            record,
            actions,
            activity,
        ),
        projects(record, actions, activity, shown),
    ensures
        ({
            let id = submission.operation.instance_id;
            let document = revised(
                tables.instances[id].document,
                submission.operation.operation@,
            );
            &&& shown.instance == document
            &&& shown.activity.to_multiset() == whole_history(tables, id).to_multiset().insert(
                EntryModel {
                    event_id: hex(submission.event_id@),
                    actor_pubkey: hex(submission.actor@),
                    accepted_at,
                    client_created_at: None,
                    action: submission.operation.operation@.name(),
                    item_id: None,
                    structure_revision: Some(document.structure_revision),
                },
            )
        }),
{
    broadcast use vstd::seq_lib::group_to_multiset_ensures;

    let id = submission.operation.instance_id;
    let after = tables.after_operation(submission, role, accepted_at);
    let entry = after.operations.last();
    tables.operations.lemma_filter_push(entry, operation_on(id));
    assert(after.activity(id) =~= tables.activity(id).push(entry.entry()));
    assert(whole_history(after, id) =~= whole_history(tables, id).push(entry.entry()));
    law_readings_show_document_and_history(after, id, record, actions, activity, shown);
}

/// An accepted action leaves the document as it is, adds its own entry to the history, and
/// decides the state of its item where no action on the item was accepted after it.
pub proof fn law_accepted_actions_read_back(
    tables: Tables,
    submission: ActionSubmission,
    role: Option<Seq<char>>,
    accepted_at: Timestamp,
    record: InstanceRecord,
    actions: Seq<ActionRecord>,
    activity: Seq<ActivityRecord>,
    shown: InstanceSnapshotModel,
)
    requires
        tables.takes_action(submission, role),
        tables.after_action(submission, role, accepted_at).reads_instance(
            submission.action.instance_id,
            record,
            actions,
            activity,
        ),
        projects(record, actions, activity, shown),
    ensures
        ({
            let id = submission.action.instance_id;
            let state = StateModel {
                item_id: submission.action.item_id,
                completed: submission.action.action == ItemActionKind::Complete,
                actor_pubkey: hex(submission.actor@),
                accepted_at,
                client_created_at: Some(submission.action.client_created_at),
                event_id: hex(submission.event_id@),
            };
            &&& shown.instance == tables.instances[id].document
            &&& shown.activity.to_multiset() == whole_history(tables, id).to_multiset().insert(
                EntryModel {
                    event_id: hex(submission.event_id@),
                    actor_pubkey: hex(submission.actor@),
                    accepted_at,
                    client_created_at: Some(submission.action.client_created_at),
                    action: item_action_text(submission.action.action),
                    item_id: Some(submission.action.item_id),
                    structure_revision: None,
                },
            )
            &&& (forall|i: int|
                0 <= i < tables.states(id).len() && (#[trigger] tables.states(id)[i]).item_id
                    == state.item_id ==> supersedes(state, tables.states(id)[i]))
                ==> shown.item_states.contains(state)
        }),
{
    broadcast use vstd::seq_lib::group_to_multiset_ensures;

    reveal_strlit("complete");
    reveal_strlit("reopen");
    assert("complete"@.len() == 8 && "reopen"@.len() == 6);
    let id = submission.action.instance_id;
    let after = tables.after_action(submission, role, accepted_at);
    let entry = after.actions.last();
    tables.actions.lemma_filter_push(entry, action_on(id));
    let rest = tables.operations.filter(operation_on(id)).map_values(
        |entry: OperationEntry| entry.entry(),
    );
    let own = tables.actions.filter(action_on(id)).map_values(|entry: ActionEntry| entry.entry());
    assert(after.activity(id) =~= own.push(entry.entry()) + rest);
    assert(own.push(entry.entry()) =~= own + seq![entry.entry()]);
    lemma_multiset_commutative(own + seq![entry.entry()], rest);
    lemma_multiset_commutative(own, seq![entry.entry()]);
    lemma_multiset_commutative(own, rest);
    let insertion = seq![tables.instances[id].insertion()];
    lemma_multiset_commutative(insertion, after.activity(id));
    lemma_multiset_commutative(insertion, tables.activity(id));
    law_readings_show_document_and_history(after, id, record, actions, activity, shown);
    assert(shown.activity.to_multiset() =~= whole_history(tables, id).to_multiset().insert(
        entry.entry(),
    ));
    assert(after.states(id) =~= tables.states(id).push(entry.state()));
    if forall|i: int|
        0 <= i < tables.states(id).len() && (#[trigger] tables.states(id)[i]).item_id
            == entry.state().item_id ==> supersedes(entry.state(), tables.states(id)[i]) {
        lemma_greatest_decides(
            recorded_states(actions),
            tables.states(id),
            entry.state(),
            shown.item_states,
        );
    }
}

/// An action that supersedes all others on its item decides the item's state, wherever it
/// stands among them.
proof fn lemma_greatest_decides(
    all: Seq<StateModel>,
    others: Seq<StateModel>,
    state: StateModel,
    folded: Seq<StateModel>,
)
    requires
        all.to_multiset() == others.push(state).to_multiset(),
        folds_to(all, folded),
        forall|i: int|
            0 <= i < others.len() && (#[trigger] others[i]).item_id == state.item_id ==> supersedes(
                state,
                others[i],
            ),
    ensures
        folded.contains(state),
{
    broadcast use vstd::seq_lib::group_to_multiset_ensures;

    assert(others.push(state)[others.len() as int] == state);
    assert(others.push(state).contains(state));
    assert(all.to_multiset().count(state) > 0);
    assert(all.contains(state));
    let x = all.index_of(state);
    assert(covers(folded, all[x].item_id));
    let k = choose|k: int|
        0 <= k < folded.len() && (#[trigger] folded[k]).item_id == state.item_id;
    assert(decides(all, folded[k]));
    let i = choose|i: int| #[trigger] is_latest(all, i) && all[i] == folded[k];
    if folded[k] != state {
        assert(all.to_multiset().count(folded[k]) > 0);
        assert(others.push(state).contains(folded[k]));
        let y = others.push(state).index_of(folded[k]);
        assert(others[y] == folded[k]);
        assert(supersedes(state, folded[k]));
        lemma_precedes_total(
            state.accepted_at,
            state.event_id,
            folded[k].accepted_at,
            folded[k].event_id,
        );
    }
}

} // verus!
