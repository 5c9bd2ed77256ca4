//! What each command sets out to do.

use vstd::prelude::*;

use crate::cli::kind::KIND_PLAYBOOK_TEMPLATE_SNAPSHOT;
use crate::cli::query::{
    SnapshotQuery, get_instance, get_template, instance_query, template_query,
};
use crate::operation::ItemActionKind;
use crate::text::Id;
use crate::time::Timestamp;

verus! {

/// A command on playbooks.
pub enum PlaybooksCmd {
    /// Manage templates.
    Templates(PlaybookTemplatesCmd),
    /// Copy a template into a channel.
    Insert { channel: Id, template: Id },
    /// Show an instance.
    Get { instance: Id },
    /// Complete an item.
    Check {
        instance: Id,
        item: Id,
        action_id: Option<Id>,
        client_created_at: Option<Timestamp>,
    },
    /// Reopen an item.
    Reopen {
        instance: Id,
        item: Id,
        action_id: Option<Id>,
        client_created_at: Option<Timestamp>,
    },
    /// Apply a structural operation.
    Edit { instance: Id, operation_file: String },
    /// Show the history of an instance.
    Activity { instance: Id },
}

/// A command on templates.
pub enum PlaybookTemplatesCmd {
    /// Show all templates.
    List,
    /// Show a template.
    Get { template: Id },
    /// Create a template.
    Create { file: String },
    /// Revise a template.
    Update { template: Id, file: String },
}

/// A completion action that is asked for. The identifier and the time are made up where they
/// are not given.
#[derive(Clone, Copy)]
pub struct ActionRequest {
    pub instance: Id,
    pub item: Id,
    pub action: ItemActionKind,
    pub action_id: Option<Id>,
    pub client_created_at: Option<Timestamp>,
}

/// What a command sets out to do. Each begins with a question to the relay or a file to
/// read, or with nothing.
pub enum Plan {
    /// Ask for all events of a kind and show their contents.
    ListTemplates { kind: u32 },
    /// Ask for the template and show it.
    ShowTemplate { query: SnapshotQuery },
    /// Read a template revision and submit it as the first.
    CreateTemplate { file: String },
    /// Read a template revision and submit it.
    UpdateTemplate { template: Id, file: String },
    /// Submit the copying of a template.
    Insert { channel: Id, template: Id },
    /// Ask for the instance and show it.
    ShowInstance { query: SnapshotQuery },
    /// Ask for the instance, then submit the action to its channel.
    Act { query: SnapshotQuery, request: ActionRequest },
    /// Ask for the instance, read an operation, and submit it to the channel.
    Edit { query: SnapshotQuery, instance: Id, operation_file: String },
    /// Ask for the instance and show its history.
    ShowActivity { query: SnapshotQuery },
}

/// What a command on templates sets out to do.
pub open spec fn planned_templates(command: PlaybookTemplatesCmd) -> Plan {
    match command {
        PlaybookTemplatesCmd::List => Plan::ListTemplates { kind: KIND_PLAYBOOK_TEMPLATE_SNAPSHOT },
        PlaybookTemplatesCmd::Get { template } => Plan::ShowTemplate {
            query: template_query(template),
        },
        PlaybookTemplatesCmd::Create { file } => Plan::CreateTemplate { file },
        PlaybookTemplatesCmd::Update { template, file } => Plan::UpdateTemplate { template, file },
    }
}

/// What a command sets out to do.
pub open spec fn planned(command: PlaybooksCmd) -> Plan {
    match command {
        PlaybooksCmd::Templates(command) => planned_templates(command),
        PlaybooksCmd::Insert { channel, template } => Plan::Insert { channel, template },
        PlaybooksCmd::Get { instance } => Plan::ShowInstance { query: instance_query(instance) },
        PlaybooksCmd::Check { instance, item, action_id, client_created_at } => Plan::Act {
            query: instance_query(instance),
            request: ActionRequest {
                instance,
                item,
                action: ItemActionKind::Complete,
                action_id,
                client_created_at,
            },
        },
        PlaybooksCmd::Reopen { instance, item, action_id, client_created_at } => Plan::Act {
            query: instance_query(instance),
            request: ActionRequest {
                instance,
                item,
                action: ItemActionKind::Reopen,
                action_id,
                client_created_at,
            },
        },
        PlaybooksCmd::Edit { instance, operation_file } => Plan::Edit {
            query: instance_query(instance),
            instance,
            operation_file,
        },
        PlaybooksCmd::Activity { instance } => Plan::ShowActivity {
            query: instance_query(instance),
        },
    }
}

/// Plan a command on templates.
pub fn dispatch_templates(command: PlaybookTemplatesCmd) -> (result: Plan)
    ensures
        result == planned_templates(command),
{
    match command {
        PlaybookTemplatesCmd::List => Plan::ListTemplates { kind: KIND_PLAYBOOK_TEMPLATE_SNAPSHOT },
        PlaybookTemplatesCmd::Get { template } => Plan::ShowTemplate {
            query: get_template(template),
        },
        PlaybookTemplatesCmd::Create { file } => Plan::CreateTemplate { file },
        PlaybookTemplatesCmd::Update { template, file } => Plan::UpdateTemplate { template, file },
    }
}

/// Plan a command.
pub fn dispatch(command: PlaybooksCmd) -> (result: Plan)
    ensures
        result == planned(command),
{
    match command {
        PlaybooksCmd::Templates(command) => dispatch_templates(command),
        PlaybooksCmd::Insert { channel, template } => Plan::Insert { channel, template },
        PlaybooksCmd::Get { instance } => Plan::ShowInstance { query: get_instance(instance) },
        PlaybooksCmd::Check { instance, item, action_id, client_created_at } => Plan::Act {
            query: get_instance(instance),
            request: ActionRequest {
                instance,
                item,
                action: ItemActionKind::Complete,
                action_id,
                client_created_at,
            },
        },
        PlaybooksCmd::Reopen { instance, item, action_id, client_created_at } => Plan::Act {
            query: get_instance(instance),
            request: ActionRequest {
                instance,
                item,
                action: ItemActionKind::Reopen,
                action_id,
                client_created_at,
            },
        },
        PlaybooksCmd::Edit { instance, operation_file } => Plan::Edit {
            query: get_instance(instance),
            instance,
            operation_file,
        },
        PlaybooksCmd::Activity { instance } => Plan::ShowActivity {
            query: get_instance(instance),
        },
    }
}

} // verus!
