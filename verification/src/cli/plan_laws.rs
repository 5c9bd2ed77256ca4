//! What commands ask for, submit and report, field by field.

use vstd::prelude::*;

use crate::cli::command::{
    ActionRequest, PlaybookTemplatesCmd, PlaybooksCmd, planned, planned_templates,
};
use crate::cli::draft::{
    Draft, acts, creation_fault, insert_tags, inserts, insertion_request, instance_tags,
    operation_fault, requested_action, template_tags, update_fault,
};
use crate::cli::error::{CliError, CliFault, cli_fault_of, detail, reported, reports_conflict};
use crate::cli::kind::{
    KIND_PLAYBOOK_INSTANCE_INSERT, KIND_PLAYBOOK_INSTANCE_SNAPSHOT, KIND_PLAYBOOK_ITEM_ACTION,
    KIND_PLAYBOOK_STRUCTURE_OPERATION, KIND_PLAYBOOK_TEMPLATE_REVISION,
    KIND_PLAYBOOK_TEMPLATE_SNAPSHOT,
};
use crate::cli::outcome::{failure_text, other_fault, usage_fault};
use crate::cli::query::{SNAPSHOT_LIMIT, SnapshotQuery, instance_query, template_query};
use crate::cli::tag::{named, tag_parts, tags_parts};
use crate::operation::{InstanceInsert, ItemAction, ItemActionKind};
use crate::text::{Id, hyphenated, trimmed_start};
use crate::time::Timestamp;

verus! {

/// Whether a question is for the current snapshot of an instance.
pub open spec fn asks_for_instance(query: SnapshotQuery, instance: Id) -> bool {
    query.kind == 30624 && query.id == instance && query.label == "instance"
}

/// Whether a question is for the current snapshot of a template.
pub open spec fn asks_for_template(query: SnapshotQuery, template: Id) -> bool {
    query.kind == 30623 && query.id == template && query.label == "template"
}

/// Questions name what they are for.
pub proof fn law_questions_name_what_they_ask_for(id: Id)
    ensures
        asks_for_template(template_query(id), id),
        asks_for_instance(instance_query(id), id),
{
}

/// One event answers a question, none leaves it unanswered and more than one is an error. As
/// many as are asked for are enough to tell one from more.
pub proof fn law_one_event_answers_a_question(query: SnapshotQuery, count: nat)
    ensures
        query.fault(count) is None <==> count == 1,
        count == 0 ==> query.fault(count) == Some(
            CliFault::NotFound(query.label@ + " "@ + hyphenated(query.id)),
        ),
        count > 1 ==> query.fault(count) == Some(
            CliFault::Other(
                "relay returned multiple current snapshots for "@ + query.label@ + " "@
                    + hyphenated(query.id),
            ),
        ),
        query.fault((SNAPSHOT_LIMIT - 1) as nat) is None,
        query.fault(SNAPSHOT_LIMIT as nat) is Some,
{
}

/// Every kind of event has a number of its own.
pub proof fn law_kinds_are_numbered()
    ensures
        KIND_PLAYBOOK_TEMPLATE_REVISION == 40200,
        KIND_PLAYBOOK_INSTANCE_INSERT == 40201,
        KIND_PLAYBOOK_ITEM_ACTION == 40202,
        KIND_PLAYBOOK_STRUCTURE_OPERATION == 40203,
        KIND_PLAYBOOK_TEMPLATE_SNAPSHOT == 30623,
        KIND_PLAYBOOK_INSTANCE_SNAPSHOT == 30624,
{
}

/// Commands on templates set out to do what they are called, with what they are given.
pub proof fn law_template_commands_are_planned(command: PlaybookTemplatesCmd)
    ensures
        ({
            let plan = planned_templates(command);
            &&& planned(PlaybooksCmd::Templates(command)) == plan
            &&& command is List ==> plan is ListTemplates && plan->kind == 30623
            &&& command is Get ==> plan is ShowTemplate && asks_for_template(
                plan->ShowTemplate_query,
                command->Get_template,
            )
            &&& command is Create ==> plan is CreateTemplate && plan->CreateTemplate_file
                == command->Create_file
            &&& command is Update ==> plan is UpdateTemplate && plan->UpdateTemplate_file
                == command->Update_file && plan->UpdateTemplate_template
                == command->Update_template
        }),
{
}

/// Commands on instances set out to do what they are called, with what they are given.
pub proof fn law_instance_commands_are_planned(command: PlaybooksCmd)
    ensures
        ({
            let plan = planned(command);
            &&& command is Insert ==> plan is Insert && plan->Insert_channel
                == command->Insert_channel && plan->Insert_template == command->Insert_template
            &&& command is Get ==> plan is ShowInstance && asks_for_instance(
                plan->ShowInstance_query,
                command->Get_instance,
            )
            &&& command is Activity ==> plan is ShowActivity && asks_for_instance(
                plan->ShowActivity_query,
                command->Activity_instance,
            )
            &&& command is Edit ==> plan is Edit && asks_for_instance(
                plan->Edit_query,
                command->Edit_instance,
            ) && plan->Edit_instance == command->Edit_instance && plan->Edit_operation_file
                == command->Edit_operation_file
        }),
{
}

/// Checking and reopening act on the item that is named, with the identifier and the time that
/// are given, and differ in nothing but what they do.
pub proof fn law_check_and_reopen_are_planned(
    instance: Id,
    item: Id,
    action_id: Option<Id>,
    client_created_at: Option<Timestamp>,
)
    ensures
        ({
            let check = planned(
                PlaybooksCmd::Check { instance, item, action_id, client_created_at },
            );
            let reopen = planned(
                PlaybooksCmd::Reopen { instance, item, action_id, client_created_at },
            );
            let request = check->request;
            &&& check is Act && reopen is Act
            &&& asks_for_instance(check->Act_query, instance)
            &&& check->Act_query == reopen->Act_query
            &&& request.instance == instance && request.item == item
            &&& request.action_id == action_id && request.client_created_at == client_created_at
            &&& request.action == ItemActionKind::Complete
            &&& reopen->request == (ActionRequest { action: ItemActionKind::Reopen, ..request })
        }),
{
}

/// Whether a tag holds a name and an identifier in print, and nothing else.
pub open spec fn names(tag: Seq<Seq<char>>, name: Seq<char>, id: Id) -> bool {
    tag.len() == 2 && tag[0] == name && tag[1] == hyphenated(id)
}

/// Events are tagged with what they are on: templates with the template, actions and
/// operations with the channel and the instance, in that order, and copies with the template
/// as well.
pub proof fn law_events_are_tagged(channel: Id, instance: Id, request: InstanceInsert)
    ensures
        template_tags(instance).len() == 1,
        names(template_tags(instance)[0], "template"@, instance),
        instance_tags(channel, instance).len() == 2,
        names(instance_tags(channel, instance)[0], "h"@, channel),
        names(instance_tags(channel, instance)[1], "instance"@, instance),
        insert_tags(request).len() == 3,
        names(insert_tags(request)[0], "h"@, request.channel_id),
        names(insert_tags(request)[1], "instance"@, request.instance_id),
        names(insert_tags(request)[2], "template"@, request.template_id),
{
}

/// Tags are read one by one, in their order, and a named value is its name and its value.
pub proof fn law_tags_are_read_one_by_one(
    tags: Seq<nostr::Tag>,
    name: Seq<char>,
    value: Seq<char>,
)
    ensures
        tags_parts(tags).len() == tags.len(),
        forall|i: int|
            0 <= i < tags.len() ==> tags_parts(tags)[i] == tag_parts(#[trigger] tags[i]),
        named(name, value).len() == 2,
        named(name, value)[0] == name,
        named(name, value)[1] == value,
{
}

/// Only a first revision creates a template, and files must be on what the command names.
pub proof fn law_files_must_match_their_command(revision: u64, named: Id, found: Id)
    ensures
        creation_fault(revision) is None <==> revision == 1,
        revision != 1 ==> creation_fault(revision) == Some(
            CliFault::Usage("template create requires revision 1"@),
        ),
        update_fault(named, found) is None <==> named == found,
        named != found ==> update_fault(named, found) == Some(
            CliFault::Usage("--template does not match file template_id"@),
        ),
        operation_fault(named, found) is None <==> named == found,
        named != found ==> operation_fault(named, found) == Some(
            CliFault::Usage("--instance does not match operation_file instance_id"@),
        ),
{
}

/// A request to copy a template is in the first schema and says channel, template and
/// instance; the event that carries it is tagged with the three and announces the instance.
pub proof fn law_copies_are_requested(
    draft: Draft<InstanceInsert>,
    channel: Id,
    template: Id,
    instance: Id,
)
    requires
        inserts(draft, channel, template, instance),
    ensures
        draft.payload == insertion_request(channel, template, instance),
        draft.payload.schema_version == 1,
        draft.payload.instance_id == instance,
        draft.payload.channel_id == channel,
        draft.payload.template_id == template,
        draft.kind == 40201,
        draft.tags@.len() == 3,
        names(tag_parts(draft.tags@[0]), "h"@, channel),
        names(tag_parts(draft.tags@[1]), "instance"@, instance),
        names(tag_parts(draft.tags@[2]), "template"@, template),
        draft.created is Some,
        draft.created->Some_0.id == instance,
        draft.created->Some_0.field == "instance_id",
{
    law_events_are_tagged(channel, instance, draft.payload);
    law_tags_are_read_one_by_one(draft.tags@, Seq::empty(), Seq::empty());
    let parts = tags_parts(draft.tags@);
    assert(parts[0] == tag_parts(draft.tags@[0]));
    assert(parts[1] == tag_parts(draft.tags@[1]));
    assert(parts[2] == tag_parts(draft.tags@[2]));
}

/// An action is in the first schema and says what was asked for: what is given is taken, and
/// what is not given is made up.
pub proof fn law_actions_say_what_was_asked_for(
    request: ActionRequest,
    fresh: Id,
    now: Timestamp,
)
    ensures
        ({
            let action = requested_action(request, fresh, now);
            &&& action.schema_version == 1
            &&& action.instance_id == request.instance
            &&& action.item_id == request.item
            &&& action.action == request.action
            &&& request.action_id is Some ==> action.action_id == request.action_id->Some_0
            &&& request.action_id is None ==> action.action_id == fresh
            &&& request.client_created_at is Some ==> action.client_created_at
                == request.client_created_at->Some_0
            &&& request.client_created_at is None ==> action.client_created_at == now
        }),
{
}

/// The event that carries an action is tagged with the channel and the instance, and
/// announces nothing.
pub proof fn law_actions_are_carried_to_their_channel(
    draft: Draft<ItemAction>,
    channel: Id,
    action: ItemAction,
)
    requires
        acts(draft, channel, action),
    ensures
        draft.payload == action,
        draft.kind == 40202,
        draft.tags@.len() == 2,
        names(tag_parts(draft.tags@[0]), "h"@, channel),
        names(tag_parts(draft.tags@[1]), "instance"@, action.instance_id),
        draft.created is None,
{
    law_tags_are_read_one_by_one(draft.tags@, Seq::empty(), Seq::empty());
    let parts = tags_parts(draft.tags@);
    assert(parts[0] == tag_parts(draft.tags@[0]));
    assert(parts[1] == tag_parts(draft.tags@[1]));
}

/// What a relay says is a conflict exactly where it begins with the word and a colon. Then
/// what follows is told, without the space in front of it.
pub proof fn law_conflicts_are_told_by_their_prefix(status: u16, body: Seq<char>, rest: Seq<char>)
    ensures
        reports_conflict("conflict:"@ + rest),
        detail("conflict:"@ + rest) == trimmed_start(rest),
        reports_conflict(body) ==> body == "conflict:"@ + body.skip("conflict:"@.len() as int),
        reported(CliFault::Relay { status, body }) is Conflict <==> reports_conflict(body),
        reports_conflict(body) ==> reported(CliFault::Relay { status, body })->Conflict_0
            == trimmed_start(body.skip("conflict:"@.len() as int)),
        !reports_conflict(body) ==> detail(body) == trimmed_start(body),
        !reports_conflict(body) ==> reported(CliFault::Relay { status, body })
            == (CliFault::Relay { status, body }),
{
    let prefix = "conflict:"@;
    let whole = prefix + rest;
    assert(whole.take(prefix.len() as int) =~= prefix);
    assert(whole.skip(prefix.len() as int) =~= rest);
    if reports_conflict(body) {
        assert(body =~= prefix + body.skip(prefix.len() as int));
    }
}

/// Failures are told in their own words, conflicts after the word that they go by.
pub proof fn law_failures_are_told_in_their_own_words(fault: CliFault)
    ensures
        fault is Usage ==> fault.text() == fault->Usage_0,
        fault is NotFound ==> fault.text() == fault->NotFound_0,
        fault is Conflict ==> fault.text() == "conflict: "@ + fault->Conflict_0,
        fault is Relay ==> fault.text() == fault->body,
        fault is Other ==> fault.text() == fault->Other_0,
{
}

/// A result fails with what its error says.
pub proof fn law_cli_errors_show_their_kind_and_text<T>(
    value: T,
    error: CliError,
    text: String,
)
    ensures
        cli_fault_of(Ok::<T, CliError>(value)) is None,
        cli_fault_of(Err::<T, CliError>(error)) == Some(error@),
        CliError::Usage(text)@ == CliFault::Usage(text@),
        CliError::NotFound(text)@ == CliFault::NotFound(text@),
        CliError::Conflict(text)@ == CliFault::Conflict(text@),
        CliError::Other(text)@ == CliFault::Other(text@),
        error is Relay ==> error@ is Relay && error@->status == error->status && error@->body
            == error->body@,
{
}

/// A step that succeeds fails with nothing; one that fails is told with its own words first,
/// as a failure of the kind that the step has.
pub proof fn law_steps_fail_in_their_own_words<T>(step: Seq<char>, value: T, error: String)
    ensures
        failure_text(step, Ok::<T, String>(value)) is None,
        failure_text(step, Err::<T, String>(error)) == Some(step + ": "@ + error@),
        other_fault(None) is None,
        usage_fault(None) is None,
        other_fault(Some(step)) == Some(CliFault::Other(step)),
        usage_fault(Some(step)) == Some(CliFault::Usage(step)),
{
}

} // verus!
