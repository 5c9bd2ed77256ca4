//! What holds of the store's decisions taken together.

use vstd::prelude::*;

use crate::document::{InstanceStatus, PLAYBOOK_SCHEMA_VERSION, TemplateStatus};
use crate::error::PlaybookError;
use crate::instance::{InstanceModel, has_active};
use crate::instance_laws::law_edits_keep_identity;
use crate::operation::{EditModel, ItemActionKind};
use crate::snapshot::{
    InstanceSnapshotModel, law_sorting_is_deterministic, law_sorting_keeps_every_record,
};
use crate::state::law_fold_is_deterministic;
use crate::store::access::{channel_fault, elevated_role, schema_fault, workspace_fault};
use crate::store::action::{
    ActionSubmission, PlaceModel, StoredActionModel, item_action_text, place_fault, target_fault,
};
use crate::store::apply::lock_key_text;
use crate::store::cast::signed;
use crate::store::command::{
    ActionFactsModel, InsertFactsModel, OperationFactsModel, TemplateFactsModel, action_refusal,
    document_fault, insert_refusal, operation_refusal, template_refusal,
};
use crate::store::error::Fault;
use crate::store::insert::{InsertSubmission, source_fault};
use crate::store::projection::{
    ActionRecord, ActivityRecord, InstanceRecord, projects, recorded_history, recorded_states,
};
use crate::store::structure::{
    CurrentStructure, OperationSubmission, StoredOperationModel, base_fault, edit_fault,
    instance_status_text, revised,
};
use crate::store::template::{
    CurrentTemplateModel, TemplateSubmission, expected_revision, stored_revision_fault,
    succession_fault, template_status_text,
};
use crate::text::{Id, blank, hyphenated};
use crate::text_laws::law_printed_identifiers_differ;
use crate::validate::{law_validation_accepts_exactly_valid_sections, valid_sections};

verus! {

/// A template revision is written exactly where the document is well formed, the actor is
/// a workspace owner or admin, the number is new and the next one, the template is neither
/// deleted nor archived, and a template with copies is not deleted.
pub proof fn law_template_revisions_are_written_exactly_in_turn(
    submission: TemplateSubmission,
    facts: TemplateFactsModel,
)
    ensures
        template_refusal(submission, facts) is None && facts.stored is None <==> {
            let revision = submission.revision@;
            &&& revision.schema_version == PLAYBOOK_SCHEMA_VERSION
            &&& revision.revision > 0
            &&& !blank(revision.name)
            &&& valid_sections(revision.sections)
            &&& facts.role is Some && elevated_role(facts.role->Some_0)
            &&& facts.stored is None
            &&& signed(revision.revision) == expected_revision(facts.current)
            &&& facts.current is Some ==> facts.current->Some_0.status != "deleted"@
                && facts.current->Some_0.status != "archived"@
            &&& revision.status == TemplateStatus::Deleted ==> !facts.referenced
        },
{
    law_validation_accepts_exactly_valid_sections(submission.revision@.sections);
}

/// The first revision of a template is number one, and each further one follows the last.
pub proof fn law_template_revisions_are_consecutive(
    revision: u64,
    current: Option<CurrentTemplateModel>,
)
    requires
        succession_fault(revision, current) is None,
    ensures
        current is None ==> revision == 1,
        current is Some ==> signed(revision) == current->Some_0.revision + 1,
{
}

/// A stored revision is never replaced: under its own event the store says again what it
/// said before, under any other the number is taken.
pub proof fn law_stored_revisions_are_immutable(revision: u64, event_id: Seq<u8>, stored: Seq<u8>)
    ensures
        stored_revision_fault(revision, event_id, Some(stored)) is None <==> event_id == stored,
{
}

/// An archived or deleted template takes no further revision.
pub proof fn law_closed_templates_are_final(revision: u64, current: CurrentTemplateModel)
    requires
        current.status == template_status_text(TemplateStatus::Archived) || current.status
            == template_status_text(TemplateStatus::Deleted),
    ensures
        succession_fault(revision, Some(current)) is Some,
{
}

/// An active template takes exactly the next revision.
pub proof fn law_active_templates_take_the_next_revision(revision: u64, current: CurrentTemplateModel)
    requires
        current.status == template_status_text(TemplateStatus::Active),
    ensures
        succession_fault(revision, Some(current)) is None <==> signed(revision)
            == current.revision + 1,
{
    reveal_strlit("active");
    reveal_strlit("archived");
    reveal_strlit("deleted");
    assert("active"@.len() == 6 && "archived"@.len() == 8 && "deleted"@.len() == 7);
}

/// What the store keeps of an action once it is accepted.
pub open spec fn kept_action(submission: ActionSubmission) -> StoredActionModel {
    StoredActionModel {
        event_id: submission.event_id@,
        actor: submission.actor@,
        channel_id: submission.channel_id,
        action: Some(submission.action),
    }
}

/// A member may send an accepted action again in any event, whatever has happened since: the
/// same actor, channel and action are a replay of the first event, and any difference is a
/// conflict.
pub proof fn law_actions_may_be_retried(
    first: ActionSubmission,
    second: ActionSubmission,
    facts: ActionFactsModel,
)
    requires
        facts.stored == Some(kept_action(first)),
        schema_fault(second.action.schema_version) is None,
        channel_fault(facts.role, false) is None,
    ensures
        action_refusal(second, facts) is None <==> {
            &&& second.actor@ == first.actor@
            &&& second.channel_id == first.channel_id
            &&& second.action == first.action
        },
        action_refusal(second, facts) is Some ==> action_refusal(
            second,
            facts,
        )->Some_0 is Conflict,
        facts.stored->Some_0.event_id == first.event_id@,
{
}

/// What the store keeps of an operation once it is accepted.
pub open spec fn kept_operation(submission: OperationSubmission) -> StoredOperationModel {
    StoredOperationModel {
        event_id: submission.event_id@,
        actor: submission.actor@,
        channel_id: submission.channel_id,
        operation: Some(submission.operation@),
    }
}

/// An accepted operation may be sent again in any event, whatever has happened since: the
/// same actor, channel and operation are a replay of the first event, and any difference is
/// a conflict.
pub proof fn law_operations_may_be_retried(
    first: OperationSubmission,
    second: OperationSubmission,
    facts: OperationFactsModel,
)
    requires
        facts.stored == Some(kept_operation(first)),
        schema_fault(second.operation.schema_version) is None,
        channel_fault(facts.role, true) is None,
    ensures
        operation_refusal(second, facts) is None <==> {
            &&& second.actor@ == first.actor@
            &&& second.channel_id == first.channel_id
            &&& second.operation@ == first.operation@
        },
        operation_refusal(second, facts) is Some ==> operation_refusal(
            second,
            facts,
        )->Some_0 is Conflict,
        facts.stored->Some_0.event_id == first.event_id@,
{
}

/// Someone without the right role is told that, whatever is stored.
pub proof fn law_denial_depends_on_the_role_alone(
    template: TemplateSubmission,
    template_facts: TemplateFactsModel,
    insert: InsertSubmission,
    insert_facts: InsertFactsModel,
    action: ActionSubmission,
    action_facts: ActionFactsModel,
    operation: OperationSubmission,
    operation_facts: OperationFactsModel,
)
    ensures
        document_fault(*template.revision) is None && workspace_fault(
            template_facts.role,
        ) is Some ==> template_refusal(template, template_facts) == workspace_fault(
            template_facts.role,
        ),
        schema_fault(insert.request.schema_version) is None && channel_fault(
            insert_facts.role,
            true,
        ) is Some ==> insert_refusal(insert, insert_facts) == channel_fault(
            insert_facts.role,
            true,
        ),
        schema_fault(action.action.schema_version) is None && channel_fault(
            action_facts.role,
            false,
        ) is Some ==> action_refusal(action, action_facts) == channel_fault(
            action_facts.role,
            false,
        ),
        schema_fault(operation.operation.schema_version) is None && channel_fault(
            operation_facts.role,
            true,
        ) is Some ==> operation_refusal(operation, operation_facts) == channel_fault(
            operation_facts.role,
            true,
        ),
{
}

/// A payload of a schema version that is not understood is refused, whoever sends it.
pub proof fn law_unknown_schemas_are_refused(
    template: TemplateSubmission,
    template_facts: TemplateFactsModel,
    insert: InsertSubmission,
    insert_facts: InsertFactsModel,
    action: ActionSubmission,
    action_facts: ActionFactsModel,
    operation: OperationSubmission,
    operation_facts: OperationFactsModel,
)
    ensures
        template.revision.schema_version != PLAYBOOK_SCHEMA_VERSION ==> template_refusal(
            template,
            template_facts,
        ) == schema_fault(template.revision.schema_version),
        insert.request.schema_version != PLAYBOOK_SCHEMA_VERSION ==> insert_refusal(
            insert,
            insert_facts,
        ) == schema_fault(insert.request.schema_version),
        action.action.schema_version != PLAYBOOK_SCHEMA_VERSION ==> action_refusal(
            action,
            action_facts,
        ) == schema_fault(action.action.schema_version),
        operation.operation.schema_version != PLAYBOOK_SCHEMA_VERSION ==> operation_refusal(
            operation,
            operation_facts,
        ) == schema_fault(operation.operation.schema_version),
{
}

/// An event that inserted an instance may be sent again; another event may not take the
/// instance's identifier.
pub proof fn law_stored_instances_are_immutable(submission: InsertSubmission, facts: InsertFactsModel)
    requires
        facts.stored is Some,
        schema_fault(submission.request.schema_version) is None,
        channel_fault(facts.role, true) is None,
    ensures
        insert_refusal(submission, facts) is None <==> submission.event_id@
            == facts.stored->Some_0,
        insert_refusal(submission, facts) is Some ==> insert_refusal(
            submission,
            facts,
        )->Some_0 is Conflict,
{
}

/// An operation on a stale base, or on an instance of another channel, is refused.
pub proof fn law_stale_operations_are_refused(
    channel_id: Id,
    base: u64,
    current: CurrentStructure,
)
    ensures
        base_fault(channel_id, base, Some(current)) is None <==> channel_id == current.channel_id
            && signed(base) == current.structure_revision,
        channel_id == current.channel_id && signed(base) != current.structure_revision
            ==> base_fault(channel_id, base, Some(current))->Some_0 is Conflict,
        channel_id != current.channel_id ==> base_fault(
            channel_id,
            base,
            Some(current),
        )->Some_0 is NotFound,
{
}

/// Where an instance stands once it is stored.
pub open spec fn kept_structure(instance: InstanceModel) -> CurrentStructure {
    CurrentStructure {
        channel_id: instance.channel_id,
        structure_revision: signed(instance.structure_revision) as i64,
    }
}

/// Of two operations on one base at most one is accepted: after the first, the second is a
/// conflict, and the next base is one higher.
pub proof fn law_one_operation_wins_a_base(
    instance: InstanceModel,
    edit: EditModel,
    channel_id: Id,
    base: u64,
)
    requires
        instance.structure_revision < u64::MAX,
        base_fault(channel_id, base, Some(kept_structure(instance))) is None,
        edit_fault(instance, edit) is None,
    ensures
        base == instance.structure_revision,
        ({
            let next = Some(kept_structure(revised(instance, edit)));
            &&& base_fault(channel_id, base, next) is Some
            &&& base_fault(channel_id, base, next)->Some_0 is Conflict
            &&& base_fault(channel_id, (base + 1) as u64, next) is None
        }),
{
    law_edits_keep_identity(instance, edit);
}

/// An archived instance takes no operation.
pub proof fn law_archived_instances_take_no_operation(instance: InstanceModel, edit: EditModel)
    requires
        instance.status == InstanceStatus::Archived,
    ensures
        edit_fault(instance, edit) == Some(Fault::InvalidData(PlaybookError::Archived.text())),
{
}

/// An action is accepted exactly where the instance is active in the channel and the item is
/// live in a live section: an absent, removed, archived or foreign item is refused.
pub proof fn law_actions_need_a_live_target(
    channel_id: Id,
    place: Option<PlaceModel>,
    instance: InstanceModel,
    item_id: Id,
)
    ensures
        place_fault(channel_id, place) is None && target_fault(instance, item_id) is None <==> {
            &&& place is Some
            &&& place->Some_0.channel_id == channel_id
            &&& place->Some_0.status == instance_status_text(InstanceStatus::Active)
            &&& has_active(instance.sections, item_id)
        },
{
}

/// An instance that is stored as archived takes no action.
pub proof fn law_archived_instances_take_no_action(channel_id: Id, place: PlaceModel)
    requires
        place.status == instance_status_text(InstanceStatus::Archived),
    ensures
        place_fault(channel_id, Some(place)) is Some,
{
    reveal_strlit("active");
    reveal_strlit("archived");
    assert("active"@.len() == 6 && "archived"@.len() == 8);
}

/// A template that is stored as archived or deleted is not copied.
pub proof fn law_closed_templates_are_not_copied(status: TemplateStatus)
    requires
        status != TemplateStatus::Active,
    ensures
        source_fault(Some(template_status_text(status))) is Some,
{
    reveal_strlit("active");
    reveal_strlit("archived");
    reveal_strlit("deleted");
    assert("active"@.len() == 6 && "archived"@.len() == 8 && "deleted"@.len() == 7);
}

/// Two commands of one kind share their lock only if they have the same identifier in the
/// same community.
pub proof fn law_locks_tell_commands_apart(
    prefix: Seq<char>,
    community: Id,
    command: Id,
    other_community: Id,
    other_command: Id,
)
    requires
        lock_key_text(prefix, community, command) == lock_key_text(
            prefix,
            other_community,
            other_command,
        ),
    ensures
        community == other_community,
        command == other_command,
{
    let key = lock_key_text(prefix, community, command);
    let other = lock_key_text(prefix, other_community, other_command);
    let n = prefix.len() as int;
    reveal_strlit(":");
    assert(hyphenated(community) =~= key.subrange(n, n + 36));
    assert(hyphenated(other_community) =~= other.subrange(n, n + 36));
    assert(hyphenated(command) =~= key.subrange(n + 37, n + 73));
    assert(hyphenated(other_command) =~= other.subrange(n + 37, n + 73));
    law_printed_identifiers_differ(community, other_community);
    law_printed_identifiers_differ(command, other_command);
}

/// An accepted operation raises the structure revision by exactly one and otherwise does
/// what its edit does.
pub proof fn law_accepted_operations_raise_the_revision_by_one(
    instance: InstanceModel,
    edit: EditModel,
)
    requires
        instance.structure_revision < u64::MAX,
        edit_fault(instance, edit) is None,
    ensures
        revised(instance, edit).structure_revision == instance.structure_revision + 1,
        (InstanceModel {
            structure_revision: instance.structure_revision,
            ..revised(instance, edit)
        }) == instance.edited(edit),
{
    law_edits_keep_identity(instance, edit);
}

/// An action reads back from the store as what was written: a completion completes the item
/// and a reopening reopens it.
pub proof fn law_stored_actions_read_back(record: ActionRecord, action: ItemActionKind)
    requires
        record.action@ == item_action_text(action),
    ensures
        record.state().completed == (action == ItemActionKind::Complete),
{
    reveal_strlit("complete");
    reveal_strlit("reopen");
    assert("complete"@.len() == 8 && "reopen"@.len() == 6);
}

/// The records alone decide what readers are shown.
pub proof fn law_projections_are_deterministic(
    record: InstanceRecord,
    actions: Seq<ActionRecord>,
    activity: Seq<ActivityRecord>,
    left: InstanceSnapshotModel,
    right: InstanceSnapshotModel,
)
    requires
        projects(record, actions, activity, left),
        projects(record, actions, activity, right),
    ensures
        left == right,
{
    law_fold_is_deterministic(recorded_states(actions), left.item_states, right.item_states);
    law_sorting_is_deterministic(
        recorded_history(record, activity),
        left.activity,
        right.activity,
    );
}

/// The history that readers are shown is complete: the insertion and every record, each as
/// often as it was stored.
pub proof fn law_histories_are_complete(
    record: InstanceRecord,
    actions: Seq<ActionRecord>,
    activity: Seq<ActivityRecord>,
    snapshot: InstanceSnapshotModel,
)
    requires
        projects(record, actions, activity, snapshot),
    ensures
        snapshot.activity.len() == activity.len() + 1,
        snapshot.activity.to_multiset() == recorded_history(record, activity).to_multiset(),
{
    law_sorting_keeps_every_record(recorded_history(record, activity), snapshot.activity);
}

} // verus!
