//! Events that commands submit, before they are signed.

use vstd::prelude::*;

use crate::cli::command::ActionRequest;
use crate::cli::error::{CliError, CliFault, cli_fault_of};
use crate::cli::fresh::{current_time, fresh_id, ordinary, random};
use crate::cli::kind::{
    KIND_PLAYBOOK_INSTANCE_INSERT, KIND_PLAYBOOK_ITEM_ACTION, KIND_PLAYBOOK_STRUCTURE_OPERATION,
    KIND_PLAYBOOK_TEMPLATE_REVISION,
};
use crate::cli::tag::{exact_tag, named, tags_parts};
use crate::document::{PLAYBOOK_SCHEMA_VERSION, TemplateRevision};
use crate::operation::{InstanceInsert, ItemAction, StructureOperation};
use crate::text::{Id, hyphenated, id_text};
use crate::time::Timestamp;

verus! {

/// An identifier that is added to the relay's response, under a field of its own.
#[derive(Clone, Copy)]
pub struct Created {
    pub field: &'static str,
    pub id: Id,
}

impl Created {
    /// The identifier in print.
    pub fn text(&self) -> (result: String)
        ensures
            result@ == hyphenated(self.id),
    {
        id_text(self.id)
    }
}

/// An event that is ready to be signed, once its payload is encoded.
pub struct Draft<T> {
    pub kind: u32,
    pub payload: T,
    pub tags: Vec<nostr::Tag>,
    /// What the response is completed with, where the command creates something.
    pub created: Option<Created>,
}

/// The tags of a template revision.
pub open spec fn template_tags(template: Id) -> Seq<Seq<Seq<char>>> {
    seq![named("template"@, hyphenated(template))]
}

/// The tags of an event in a channel, on an instance.
pub open spec fn instance_tags(channel: Id, instance: Id) -> Seq<Seq<Seq<char>>> {
    seq![named("h"@, hyphenated(channel)), named("instance"@, hyphenated(instance))]
}

/// The tags of a request to copy a template.
pub open spec fn insert_tags(request: InstanceInsert) -> Seq<Seq<Seq<char>>> {
    instance_tags(request.channel_id, request.instance_id) + template_tags(request.template_id)
}

/// A list of the one tag of a template revision.
fn tag_template(template: Id) -> (result: Result<Vec<nostr::Tag>, CliError>)
    ensures
        result is Ok,
        tags_parts(result->Ok_0@) == template_tags(template),
{
    let mut tags: Vec<nostr::Tag> = Vec::new();
    tags.push(exact_tag("template", template)?);
    assert(tags_parts(tags@) =~= template_tags(template));
    Ok(tags)
}

/// A list of the tags of an event in a channel, on an instance.
fn tag_instance(channel: Id, instance: Id) -> (result: Result<Vec<nostr::Tag>, CliError>)
    ensures
        result is Ok,
        tags_parts(result->Ok_0@) == instance_tags(channel, instance),
{
    let mut tags: Vec<nostr::Tag> = Vec::new();
    tags.push(exact_tag("h", channel)?);
    tags.push(exact_tag("instance", instance)?);
    assert(tags_parts(tags@) =~= instance_tags(channel, instance));
    Ok(tags)
}

/// Why a template revision cannot create a template.
pub open spec fn creation_fault(revision: u64) -> Option<CliFault> {
    if revision != 1 {
        Some(CliFault::Usage("template create requires revision 1"@))
    } else {
        None
    }
}

/// Why a template revision does not revise the template that is named.
pub open spec fn update_fault(template: Id, template_id: Id) -> Option<CliFault> {
    if template_id != template {
        Some(CliFault::Usage("--template does not match file template_id"@))
    } else {
        None
    }
}

/// Why an operation does not edit the instance that is named.
pub open spec fn operation_fault(instance: Id, instance_id: Id) -> Option<CliFault> {
    if instance_id != instance {
        Some(CliFault::Usage("--instance does not match operation_file instance_id"@))
    } else {
        None
    }
}

/// Draft the first revision of a template.
pub fn create_template(revision: TemplateRevision) -> (result: Result<
    Draft<TemplateRevision>,
    CliError,
>)
    ensures
        cli_fault_of(result) == creation_fault(revision.revision),
        result is Ok ==> {
            let draft = result->Ok_0;
            &&& draft.kind == KIND_PLAYBOOK_TEMPLATE_REVISION
            &&& draft.payload == revision
            &&& tags_parts(draft.tags@) == template_tags(revision.template_id)
            &&& draft.created == Some((Created { field: "template_id", id: revision.template_id }))
        },
{
    if revision.revision != 1 {
        return Err(CliError::Usage("template create requires revision 1".to_owned()));
    }
    let created = Created { field: "template_id", id: revision.template_id };
    let tags = tag_template(revision.template_id)?;
    Ok(
        Draft {
            kind: KIND_PLAYBOOK_TEMPLATE_REVISION,
            payload: revision,
            tags,
            created: Some(created),
        },
    )
}

/// Draft a revision of the template that is named.
pub fn update_template(template: Id, revision: TemplateRevision) -> (result: Result<
    Draft<TemplateRevision>,
    CliError,
>)
    ensures
        cli_fault_of(result) == update_fault(template, revision.template_id),
        result is Ok ==> {
            let draft = result->Ok_0;
            &&& draft.kind == KIND_PLAYBOOK_TEMPLATE_REVISION
            &&& draft.payload == revision
            &&& tags_parts(draft.tags@) == template_tags(template)
            &&& draft.created is None
        },
{
    if revision.template_id != template {
        return Err(CliError::Usage("--template does not match file template_id".to_owned()));
    }
    let tags = tag_template(template)?;
    Ok(Draft { kind: KIND_PLAYBOOK_TEMPLATE_REVISION, payload: revision, tags, created: None })
}

/// The request to copy a template into a channel as an instance.
pub open spec fn insertion_request(channel: Id, template: Id, instance: Id) -> InstanceInsert {
    InstanceInsert {
        schema_version: PLAYBOOK_SCHEMA_VERSION,
        instance_id: instance,
        channel_id: channel,
        template_id: template,
    }
}

/// Whether an event asks for a copy of a template in a channel, as an instance.
pub open spec fn inserts(
    draft: Draft<InstanceInsert>,
    channel: Id,
    template: Id,
    instance: Id,
) -> bool {
    &&& draft.kind == KIND_PLAYBOOK_INSTANCE_INSERT
    &&& draft.payload == insertion_request(channel, template, instance)
    &&& tags_parts(draft.tags@) == insert_tags(draft.payload)
    &&& draft.created == Some((Created { field: "instance_id", id: instance }))
}

/// Draft the copying of a template into a channel, as the instance that is named.
pub fn insert_as(channel: Id, template: Id, instance: Id) -> (result: Result<
    Draft<InstanceInsert>,
    CliError,
>)
    ensures
        result is Ok,
        inserts(result->Ok_0, channel, template, instance),
{
    let payload = InstanceInsert {
        schema_version: PLAYBOOK_SCHEMA_VERSION,
        instance_id: instance,
        channel_id: channel,
        template_id: template,
    };
    let mut tags = tag_instance(channel, instance)?;
    let ghost before = tags@;
    tags.push(exact_tag("template", template)?);
    assert(tags_parts(tags@) =~= tags_parts(before) + template_tags(template));
    Ok(
        Draft {
            kind: KIND_PLAYBOOK_INSTANCE_INSERT,
            payload,
            tags,
            created: Some(Created { field: "instance_id", id: instance }),
        },
    )
}

/// Draft the copying of a template into a channel, as a new instance.
pub fn insert(channel: Id, template: Id) -> (result: Result<Draft<InstanceInsert>, CliError>)
    ensures
        result is Ok,
        random(result->Ok_0.payload.instance_id),
        inserts(result->Ok_0, channel, template, result->Ok_0.payload.instance_id),
{
    insert_as(channel, template, fresh_id())
}

/// The action that is asked for, with an identifier and a time for those not given.
pub open spec fn requested_action(
    request: ActionRequest,
    fresh: Id,
    now: Timestamp,
) -> ItemAction {
    ItemAction {
        schema_version: PLAYBOOK_SCHEMA_VERSION,
        action_id: match request.action_id {
            Some(id) => id,
            None => fresh,
        },
        instance_id: request.instance,
        item_id: request.item,
        action: request.action,
        client_created_at: match request.client_created_at {
            Some(time) => time,
            None => now,
        },
    }
}

/// Whether an event carries an action on an instance of a channel.
pub open spec fn acts(draft: Draft<ItemAction>, channel: Id, action: ItemAction) -> bool {
    &&& draft.kind == KIND_PLAYBOOK_ITEM_ACTION
    &&& draft.payload == action
    &&& tags_parts(draft.tags@) == instance_tags(channel, action.instance_id)
    &&& draft.created is None
}

/// Draft an action on an instance of a channel.
pub fn act_as(request: ActionRequest, channel: Id, fresh: Id, now: Timestamp) -> (result: Result<
    Draft<ItemAction>,
    CliError,
>)
    ensures
        result is Ok,
        acts(result->Ok_0, channel, requested_action(request, fresh, now)),
{
    let payload = ItemAction {
        schema_version: PLAYBOOK_SCHEMA_VERSION,
        action_id: match request.action_id {
            Some(id) => id,
            None => fresh,
        },
        instance_id: request.instance,
        item_id: request.item,
        action: request.action,
        client_created_at: match request.client_created_at {
            Some(time) => time,
            None => now,
        },
    };
    let tags = tag_instance(channel, request.instance)?;
    Ok(Draft { kind: KIND_PLAYBOOK_ITEM_ACTION, payload, tags, created: None })
}

/// Draft an action on an instance of a channel, making up an identifier and taking the
/// current time where the request gives none.
pub fn submit_item_action(request: ActionRequest, channel: Id) -> (result: Result<
    Draft<ItemAction>,
    CliError,
>)
    ensures
        result is Ok,
        ({
            let action = result->Ok_0.payload;
            &&& acts(
                result->Ok_0,
                channel,
                requested_action(request, action.action_id, action.client_created_at),
            )
            &&& request.action_id is None ==> random(action.action_id)
            &&& request.client_created_at is None ==> ordinary(action.client_created_at)
        }),
{
    let action_id: Id = match request.action_id {
        Some(id) => id,
        None => fresh_id(),
    };
    let client_created_at = match request.client_created_at {
        Some(time) => time,
        None => current_time(),
    };
    act_as(request, channel, action_id, client_created_at)
}

/// Draft a structural operation on the instance that is named, in its channel.
pub fn edit(instance: Id, channel: Id, operation: StructureOperation) -> (result: Result<
    Draft<StructureOperation>,
    CliError,
>)
    ensures
        cli_fault_of(result) == operation_fault(instance, operation.instance_id),
        result is Ok ==> {
            let draft = result->Ok_0;
            &&& draft.kind == KIND_PLAYBOOK_STRUCTURE_OPERATION
            &&& draft.payload == operation
            &&& tags_parts(draft.tags@) == instance_tags(channel, operation.instance_id)
            &&& draft.created is None
        },
{
    if operation.instance_id != instance {
        return Err(
            CliError::Usage("--instance does not match operation_file instance_id".to_owned()),
        );
    }
    let tags = tag_instance(channel, instance)?;
    Ok(
        Draft { kind: KIND_PLAYBOOK_STRUCTURE_OPERATION, payload: operation, tags, created: None },
    )
}

} // verus!
