//! Which commands the store accepts, and what it answers to the others.

use vstd::prelude::*;

use crate::document::{TemplateStatus, optional_text};
use crate::document_laws::found;
use crate::instance::InstanceModel;
use crate::store::access::{channel_fault, schema_fault, workspace_fault};
use crate::store::action::{
    ActionRow, ActionSubmission, InstancePlace, StoredAction, action_row, optional_action,
    optional_place,
};
use crate::store::apply::lock_key_text;
use crate::store::cast::{signed, unsigned};
use crate::store::command::{
    ActionFacts, ActionFactsModel, InsertFacts, InsertFactsModel, OperationFacts,
    OperationFactsModel, StoredInstance, StoredTemplate, TemplateFacts, TemplateFactsModel,
    action_refusal, insert_refusal, operation_refusal, template_refusal,
};
use crate::store::error::{DbError, Fault, fault_of};
use crate::store::insert::{InsertRow, InsertSubmission, insert_row};
use crate::store::structure::{
    OperationRow, OperationSubmission, StoredOperation, edit_fault, operation_row,
    optional_operation, revised,
};
use crate::store::template::{
    CurrentTemplate, TemplateRow, TemplateSubmission, optional_current, template_row,
};
use crate::text::{Id, blank, decimal, hyphenated, optional_bytes, signed_decimal};
use crate::validate::template_fault;

verus! {

/// Whether a role is that of an owner or an admin.
pub open spec fn owner_or_admin(role: Option<Seq<char>>) -> bool {
    role == Some("owner"@) || role == Some("admin"@)
}

/// Owners and admins, and no others, may manage templates and change channels; anyone with a
/// role in a channel may act in it.
pub proof fn law_roles_decide_what_is_permitted(role: Option<Seq<char>>)
    ensures
        workspace_fault(role) is None <==> owner_or_admin(role),
        channel_fault(role, true) is None <==> owner_or_admin(role),
        channel_fault(role, false) is None <==> role is Some,
        workspace_fault(role) is Some ==> workspace_fault(role)->Some_0 is AccessDenied,
        channel_fault(role, true) is Some ==> channel_fault(role, true)->Some_0 is AccessDenied,
        channel_fault(role, false) is Some ==> channel_fault(role, false)->Some_0 is AccessDenied,
{
}

/// Only the first schema version is understood, and the refusal names the other.
pub proof fn law_one_schema_is_understood(version: u32)
    ensures
        schema_fault(version) is None <==> version == 1,
        version != 1 ==> schema_fault(version) == Some(
            Fault::InvalidData("unsupported schema_version "@ + decimal(version as nat)),
        ),
{
}

/// A number and the number that its bits stand for in a column differ by a multiple of two to
/// the sixty-fourth, and the column holds the numbers from minus to plus half of that.
pub proof fn law_columns_hold_the_same_bits(n: u64, m: i64)
    ensures
        -0x8000_0000_0000_0000 <= signed(n) < 0x8000_0000_0000_0000,
        signed(n) == n || signed(n) == n - 0x1_0000_0000_0000_0000,
        0 <= unsigned(m) < 0x1_0000_0000_0000_0000,
        unsigned(m) == m || unsigned(m) == m + 0x1_0000_0000_0000_0000,
{
}

/// A result is refused for what its error says, and for nothing where it has none.
pub proof fn law_errors_show_their_kind_and_text<T>(value: T, error: DbError, text: String)
    ensures
        fault_of(Ok::<T, DbError>(value)) is None,
        fault_of(Err::<T, DbError>(error)) == Some(error@),
        DbError::InvalidData(text)@ == Fault::InvalidData(text@),
        DbError::AccessDenied(text)@ == Fault::AccessDenied(text@),
        DbError::Conflict(text)@ == Fault::Conflict(text@),
        DbError::NotFound(text)@ == Fault::NotFound(text@),
{
}

/// The next number of a template: one more than the current one, or one.
pub open spec fn next_number(facts: TemplateFactsModel) -> int {
    if facts.current is Some {
        facts.current->Some_0.revision + 1
    } else {
        1
    }
}

/// Whether a template as it stands has this status.
pub open spec fn stands_as(facts: TemplateFactsModel, status: Seq<char>) -> bool {
    facts.current is Some && facts.current->Some_0.status == status
}

/// What is answered to a template revision, case by case: an unacceptable document, an actor
/// without the role, a number that is stored, a number that is not the next one, a closed
/// template, the deletion of a template with copies; and all else is accepted.
pub proof fn law_answers_to_template_revisions(
    submission: TemplateSubmission,
    facts: TemplateFactsModel,
)
    ensures
        ({
            let answer = template_refusal(submission, facts);
            let revision = submission.revision@;
            let fault = template_fault(revision);
            let number = revision.revision;
            let admitted = fault is None && owner_or_admin(facts.role);
            let fresh = admitted && facts.stored is None;
            let next = fresh && signed(number) == next_number(facts);
            let open = next && !stands_as(facts, "deleted"@) && !stands_as(facts, "archived"@);
            &&& fault is Some ==> answer == Some(Fault::InvalidData(fault->Some_0.text()))
            &&& fault is None && !owner_or_admin(facts.role) ==> answer == Some(
                Fault::AccessDenied("workspace owner/admin permission required"@),
            )
            &&& admitted && facts.stored == Some(submission.event_id@) ==> answer is None
            &&& admitted && facts.stored is Some && facts.stored != Some(submission.event_id@)
                ==> answer == Some(
                Fault::Conflict(
                    "template revision "@ + decimal(number as nat) + " already exists"@,
                ),
            )
            &&& fresh && signed(number) != next_number(facts) ==> answer == Some(
                Fault::Conflict(
                    "template revision conflict: expected "@ + signed_decimal(next_number(facts))
                        + ", got "@ + decimal(number as nat),
                ),
            )
            &&& next && stands_as(facts, "deleted"@) ==> answer == Some(
                Fault::Conflict("deleted template is immutable"@),
            )
            &&& next && !stands_as(facts, "deleted"@) && stands_as(facts, "archived"@) ==> answer
                == Some(Fault::Conflict("archived template is immutable"@))
            &&& open && revision.status == TemplateStatus::Deleted && facts.referenced ==> answer
                == Some(
                Fault::Conflict("referenced templates must be archived instead of deleted"@),
            )
            &&& open && !(revision.status == TemplateStatus::Deleted && facts.referenced)
                ==> answer is None
        }),
{
}

/// A template revision whose number is not stored is accepted exactly where the schema is
/// understood, the number is positive and the next one, the name and the sections are in
/// order, the actor is an owner or admin, the template is not closed, and it is not deleted
/// while instances were copied from it.
pub proof fn law_new_template_revisions_are_accepted_exactly_where_due(
    submission: TemplateSubmission,
    facts: TemplateFactsModel,
)
    requires
        facts.stored is None,
    ensures
        template_refusal(submission, facts) is None <==> {
            let revision = submission.revision@;
            &&& revision.schema_version == 1
            &&& revision.revision > 0
            &&& !blank(revision.name)
            &&& found(revision.sections) is None
            &&& owner_or_admin(facts.role)
            &&& signed(revision.revision) == next_number(facts)
            &&& !stands_as(facts, "deleted"@)
            &&& !stands_as(facts, "archived"@)
            &&& revision.status == TemplateStatus::Deleted ==> !facts.referenced
        },
{
}

/// What is answered to the copying of a template, case by case: an unknown schema, an actor
/// without the role, an instance that is stored, no active template, a channel that has an
/// active playbook; and all else is accepted.
pub proof fn law_answers_to_inserts(submission: InsertSubmission, facts: InsertFactsModel)
    ensures
        ({
            let answer = insert_refusal(submission, facts);
            let version = submission.request.schema_version;
            let admitted = version == 1 && owner_or_admin(facts.role);
            let fresh = admitted && facts.stored is None;
            let active = facts.template is Some && facts.template->Some_0.status == "active"@;
            &&& version != 1 ==> answer == Some(
                Fault::InvalidData("unsupported schema_version "@ + decimal(version as nat)),
            )
            &&& version == 1 && facts.role is None ==> answer == Some(
                Fault::AccessDenied("current channel membership required"@),
            )
            &&& version == 1 && facts.role is Some && !owner_or_admin(facts.role) ==> answer
                == Some(
                Fault::AccessDenied("channel owner/admin permission required"@),
            )
            &&& admitted && facts.stored == Some(submission.event_id@) ==> answer is None
            &&& admitted && facts.stored is Some && facts.stored != Some(submission.event_id@)
                ==> answer == Some(Fault::Conflict("instance_id already exists"@))
            &&& fresh && !active ==> answer == Some(Fault::NotFound("active playbook template"@))
            &&& fresh && active && facts.occupied ==> answer == Some(
                Fault::Conflict("channel already has an active playbook"@),
            )
            &&& fresh && active && !facts.occupied ==> answer is None
        }),
{
}

/// Whether an item is live in a live section of an instance.
pub open spec fn is_live(instance: InstanceModel, id: Id) -> bool {
    exists|i: int, j: int|
        0 <= i < instance.sections.len() && 0 <= j < instance.sections[i].items.len() && (
        #[trigger] instance.sections[i].items[j]).item_id == id && !instance.sections[i].deleted
            && !instance.sections[i].items[j].deleted
}

/// Whether an instance is stored as active in a channel.
pub open spec fn is_active_in(facts: ActionFactsModel, channel_id: Id) -> bool {
    &&& facts.instance is Some
    &&& facts.instance->Some_0.channel_id == channel_id
    &&& facts.instance->Some_0.status == "active"@
}

/// What is answered to an action, case by case: an unknown schema, an actor without a role, an
/// identifier that is taken, no active instance in the channel, no live item; and all else is
/// accepted, whether it completes or reopens.
pub proof fn law_answers_to_actions(submission: ActionSubmission, facts: ActionFactsModel)
    ensures
        ({
            let answer = action_refusal(submission, facts);
            let version = submission.action.schema_version;
            let admitted = version == 1 && facts.role is Some;
            let fresh = admitted && facts.stored is None;
            let repeated = facts.stored is Some && facts.stored->Some_0.actor == submission.actor@
                && facts.stored->Some_0.channel_id == submission.channel_id
                && facts.stored->Some_0.action == Some(submission.action);
            let placed = is_active_in(facts, submission.channel_id);
            let target = facts.instance->Some_0.instance;
            &&& version != 1 ==> answer == Some(
                Fault::InvalidData("unsupported schema_version "@ + decimal(version as nat)),
            )
            &&& version == 1 && facts.role is None ==> answer == Some(
                Fault::AccessDenied("current channel membership required"@),
            )
            &&& admitted && repeated ==> answer is None
            &&& admitted && facts.stored is Some && !repeated ==> answer == Some(
                Fault::Conflict("action_id was already used for a different action"@),
            )
            &&& fresh && !placed ==> answer == Some(Fault::NotFound("active playbook instance"@))
            &&& fresh && placed && !is_live(target, submission.action.item_id) ==> answer == Some(
                Fault::NotFound("active playbook item"@),
            )
            &&& fresh && placed && is_live(target, submission.action.item_id) ==> answer is None
        }),
{
}

/// An action whose identifier is not taken is accepted exactly where its schema is understood,
/// the actor has a role in the channel, and the instance is active there with the item live,
/// whatever the action does and whenever the client made it.
pub proof fn law_new_actions_are_accepted_exactly_where_due(
    submission: ActionSubmission,
    facts: ActionFactsModel,
)
    requires
        facts.stored is None,
    ensures
        action_refusal(submission, facts) is None <==> {
            &&& submission.action.schema_version == 1
            &&& facts.role is Some
            &&& is_active_in(facts, submission.channel_id)
            &&& is_live(facts.instance->Some_0.instance, submission.action.item_id)
        },
{
}

/// What is answered to an operation, case by case: an unknown schema, an actor without the
/// role, an identifier that is taken, no such instance in the channel, a stale base, an edit
/// that is refused; and all else is accepted.
pub proof fn law_answers_to_operations(
    submission: OperationSubmission,
    facts: OperationFactsModel,
)
    ensures
        ({
            let answer = operation_refusal(submission, facts);
            let operation = submission.operation@;
            let base = operation.base_structure_revision;
            let version = operation.schema_version;
            let admitted = version == 1 && owner_or_admin(facts.role);
            let fresh = admitted && facts.stored is None;
            let repeated = facts.stored is Some && facts.stored->Some_0.actor == submission.actor@
                && facts.stored->Some_0.channel_id == submission.channel_id
                && facts.stored->Some_0.operation == Some(operation);
            let stored = facts.instance->Some_0;
            let placed = facts.instance is Some && stored.channel_id == submission.channel_id;
            let current = fresh && placed && signed(base) == stored.structure_revision;
            let refusal = stored.instance.refusal(operation.operation);
            &&& version != 1 ==> answer == Some(
                Fault::InvalidData("unsupported schema_version "@ + decimal(version as nat)),
            )
            &&& version == 1 && facts.role is None ==> answer == Some(
                Fault::AccessDenied("current channel membership required"@),
            )
            &&& version == 1 && facts.role is Some && !owner_or_admin(facts.role) ==> answer
                == Some(
                Fault::AccessDenied("channel owner/admin permission required"@),
            )
            &&& admitted && repeated ==> answer is None
            &&& admitted && facts.stored is Some && !repeated ==> answer == Some(
                Fault::Conflict("operation_id was already used for a different operation"@),
            )
            &&& fresh && !placed ==> answer == Some(Fault::NotFound("playbook instance"@))
            &&& fresh && placed && signed(base) != stored.structure_revision ==> answer == Some(
                Fault::Conflict(
                    "structure revision conflict: current "@ + signed_decimal(
                        stored.structure_revision as int,
                    ) + ", base "@ + decimal(base as nat),
                ),
            )
            &&& current && refusal is Some ==> answer == Some(
                Fault::InvalidData(refusal->Some_0.text()),
            )
            &&& current && refusal is None ==> answer is None
        }),
{
}

/// An instance that takes an operation is as the edit leaves it, but for its structure
/// revision, which is one higher; an edit is refused for its own reason.
pub proof fn law_operations_do_what_their_edit_does(
    submission: OperationSubmission,
    instance: InstanceModel,
)
    requires
        instance.structure_revision < u64::MAX,
    ensures
        ({
            let edit = submission.operation@.operation;
            let after = revised(instance, edit);
            &&& after.structure_revision == instance.structure_revision + 1
            &&& after == (InstanceModel {
                structure_revision: after.structure_revision,
                ..instance.edited(edit)
            })
            &&& edit_fault(instance, edit) is None <==> instance.refusal(edit) is None
            &&& instance.refusal(edit) is Some ==> edit_fault(instance, edit) == Some(
                Fault::InvalidData(instance.refusal(edit)->Some_0.text()),
            )
        }),
{
}

/// Rows tell what was submitted.
pub proof fn law_rows_tell_what_was_submitted(
    template: TemplateSubmission,
    insert: InsertSubmission,
    action: ActionSubmission,
    operation: OperationSubmission,
    document: InstanceModel,
)
    ensures
        template_row(template).template_id == template.revision.template_id,
        template_row(template).revision == signed(template.revision.revision),
        template_row(template).event_id == template.event_id@,
        template_row(template).actor == template.actor@,
        insert_row(insert, document).instance_id == insert.request.instance_id,
        insert_row(insert, document).channel_id == insert.request.channel_id,
        insert_row(insert, document).source_template_id == insert.request.template_id,
        insert_row(insert, document).source_template_revision == signed(
            document.source_template_revision,
        ),
        insert_row(insert, document).structure_revision == signed(document.structure_revision),
        insert_row(insert, document).status == "active"@,
        insert_row(insert, document).event_id == insert.event_id@,
        insert_row(insert, document).actor == insert.actor@,
        action_row(action).action_id == action.action.action_id,
        action_row(action).instance_id == action.action.instance_id,
        action_row(action).item_id == action.action.item_id,
        action_row(action).event_id == action.event_id@,
        action_row(action).actor == action.actor@,
        action_row(action).client_created_at == action.action.client_created_at,
        operation_row(operation, document).operation_id == operation.operation.operation_id,
        operation_row(operation, document).instance_id == operation.operation.instance_id,
        operation_row(operation, document).base_revision == signed(
            operation.operation.base_structure_revision,
        ),
        operation_row(operation, document).result_revision == signed(document.structure_revision),
        operation_row(operation, document).operation_type == operation.operation.operation@.name(),
        operation_row(operation, document).event_id == operation.event_id@,
        operation_row(operation, document).actor == operation.actor@,
{
}

/// Words in rows follow the status, or the kind of action, alone, one word for each.
pub proof fn law_rows_tell_statuses_and_actions_in_words(
    template: TemplateSubmission,
    action: ActionSubmission,
    operation: OperationSubmission,
    document: InstanceModel,
)
    ensures
        template.revision.status is Active ==> template_row(template).status == "active"@,
        template.revision.status is Archived ==> template_row(template).status == "archived"@,
        template.revision.status is Deleted ==> template_row(template).status == "deleted"@,
        action.action.action is Complete ==> action_row(action).action == "complete"@,
        action.action.action is Reopen ==> action_row(action).action == "reopen"@,
        document.status is Active ==> operation_row(operation, document).status == "active"@,
        document.status is Archived ==> operation_row(operation, document).status == "archived"@,
{
}

/// The models of rows show every field.
pub proof fn law_row_models_show_every_field(
    template: TemplateRow,
    insert: InsertRow,
    action: ActionRow,
    operation: OperationRow,
)
    ensures
        template@.template_id == template.template_id && template@.revision == template.revision,
        template@.status == template.status@ && template@.event_id == template.event_id@,
        template@.actor == template.actor@,
        insert@.instance_id == insert.instance_id && insert@.channel_id == insert.channel_id,
        insert@.source_template_id == insert.source_template_id,
        insert@.source_template_revision == insert.source_template_revision,
        insert@.structure_revision == insert.structure_revision,
        insert@.status == insert.status@ && insert@.event_id == insert.event_id@,
        insert@.actor == insert.actor@,
        action@.action_id == action.action_id && action@.instance_id == action.instance_id,
        action@.item_id == action.item_id && action@.action == action.action@,
        action@.event_id == action.event_id@ && action@.actor == action.actor@,
        action@.client_created_at == action.client_created_at,
        operation@.operation_id == operation.operation_id,
        operation@.instance_id == operation.instance_id,
        operation@.base_revision == operation.base_revision,
        operation@.result_revision == operation.result_revision,
        operation@.operation_type == operation.operation_type@,
        operation@.status == operation.status@ && operation@.event_id == operation.event_id@,
        operation@.actor == operation.actor@,
{
}

/// The models of what is stored show every field.
pub proof fn law_stored_models_show_every_field(
    current: CurrentTemplate,
    place: InstancePlace,
    action: StoredAction,
    operation: StoredOperation,
    template: StoredTemplate,
    instance: StoredInstance,
    bytes: Vec<u8>,
)
    ensures
        optional_current(None) is None && optional_current(Some(current)) == Some(current@),
        current@.revision == current.revision && current@.status == current.status@,
        optional_place(None) is None && optional_place(Some(place)) == Some(place@),
        place@.channel_id == place.channel_id && place@.status == place.status@,
        optional_action(None) is None && optional_action(Some(action)) == Some(action@),
        action@.event_id == action.event_id@ && action@.actor == action.actor@,
        action@.channel_id == action.channel_id && action@.action == action.action,
        optional_operation(None) is None,
        optional_operation(Some(operation)) == Some(operation@),
        operation@.event_id == operation.event_id@ && operation@.actor == operation.actor@,
        operation@.channel_id == operation.channel_id,
        operation@.operation is Some <==> operation.operation is Some,
        operation.operation is Some ==> operation@.operation->Some_0
            == operation.operation->Some_0@,
        template@.status == template.status@ && template@.template == template.template@,
        instance@.channel_id == instance.channel_id && instance@.status == instance.status@,
        instance@.structure_revision == instance.structure_revision,
        instance@.instance == instance.instance@,
        optional_bytes(None) is None && optional_bytes(Some(bytes)) == Some(bytes@),
{
}

/// The models of facts show every fact.
pub proof fn law_fact_models_show_every_fact(
    template: TemplateFacts,
    insert: InsertFacts,
    action: ActionFacts,
    operation: OperationFacts,
)
    ensures
        template@.role == optional_text(template.role),
        template@.stored == optional_bytes(template.stored),
        template@.current == optional_current(template.current),
        template@.referenced == template.referenced,
        insert@.role == optional_text(insert.role),
        insert@.stored == optional_bytes(insert.stored),
        insert@.template is Some <==> insert.template is Some,
        insert.template is Some ==> insert@.template->Some_0 == insert.template->Some_0@,
        insert@.occupied == insert.occupied,
        action@.role == optional_text(action.role),
        action@.stored == optional_action(action.stored),
        action@.instance is Some <==> action.instance is Some,
        action.instance is Some ==> action@.instance->Some_0 == action.instance->Some_0@,
        operation@.role == optional_text(operation.role),
        operation@.stored == optional_operation(operation.stored),
        operation@.instance is Some <==> operation.instance is Some,
        operation.instance is Some ==> operation@.instance->Some_0 == operation.instance->Some_0@,
{
}

/// A lock key is its prefix and the two identifiers in print, with a colon between them.
pub proof fn law_lock_keys_name_community_and_command(
    prefix: Seq<char>,
    community: Id,
    command: Id,
)
    ensures
        ({
            let key = lock_key_text(prefix, community, command);
            let n = prefix.len() as int;
            &&& key.len() == n + 73
            &&& key.take(n) == prefix
            &&& key.subrange(n, n + 36) == hyphenated(community)
            &&& key[n + 36] == ':'
            &&& key.skip(n + 37) == hyphenated(command)
        }),
{
    let key = lock_key_text(prefix, community, command);
    let n = prefix.len() as int;
    reveal_strlit(":");
    assert(key.take(n) =~= prefix);
    assert(key.subrange(n, n + 36) =~= hyphenated(community));
    assert(key.skip(n + 37) =~= hyphenated(command));
}

} // verus!
