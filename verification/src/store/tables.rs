//! What the store holds of one community, and how each command changes it.
//!
//! Commands on one template or instance take effect one after the other: the store locks
//! the row that each of them decides on.

use vstd::prelude::*;

use crate::document::TemplateModel;
use crate::instance::{InstanceModel, instantiated};
use crate::operation::{ItemAction, OperationModel};
use crate::search::first_where;
use crate::snapshot::EntryModel;
use crate::state::StateModel;
use crate::store::action::{ActionRowModel, ActionSubmission, StoredActionModel, action_row};
use crate::store::cast::unsigned;
use crate::store::command::{
    ActionFactsModel, InsertFactsModel, OperationFactsModel, StoredInstanceModel,
    StoredTemplateModel, TemplateFactsModel, action_refusal, insert_refusal, operation_refusal,
    template_refusal,
};
use crate::store::insert::{InsertRowModel, InsertSubmission, insert_row};
use crate::store::projection::{
    ActionRecord, ActivityRecord, InstanceRecord, TemplateRecord, recorded_entries,
    recorded_states,
};
use crate::store::structure::{
    OperationRowModel, OperationSubmission, StoredOperationModel, operation_row, revised,
};
use crate::store::template::{
    CurrentTemplateModel, TemplateRowModel, TemplateSubmission, template_row,
};
use crate::text::{Id, hex};
use crate::time::Timestamp;

verus! {

/// A template revision as it is stored.
#[verifier::ext_equal]
pub struct TemplateEntry {
    pub row: TemplateRowModel,
    pub document: TemplateModel,
    pub accepted_at: Timestamp,
}

/// An instance as it is stored.
#[verifier::ext_equal]
pub struct InstanceEntry {
    pub row: InsertRowModel,
    pub document: InstanceModel,
    pub accepted_at: Timestamp,
}

/// An action as it is stored.
#[verifier::ext_equal]
pub struct ActionEntry {
    pub row: ActionRowModel,
    pub payload: ItemAction,
    pub accepted_at: Timestamp,
}

/// An operation as it is stored.
#[verifier::ext_equal]
pub struct OperationEntry {
    pub row: OperationRowModel,
    pub payload: OperationModel,
    pub accepted_at: Timestamp,
}

/// What the store holds of one community.
#[verifier::ext_equal]
pub struct Tables {
    /// Every accepted template revision, by template and number.
    pub revisions: Map<(Id, i64), TemplateEntry>,
    /// The current revision of each template.
    pub templates: Map<Id, TemplateEntry>,
    /// Each instance.
    pub instances: Map<Id, InstanceEntry>,
    /// Every accepted action, in the order of acceptance.
    pub actions: Seq<ActionEntry>,
    /// Every accepted operation, in the order of acceptance.
    pub operations: Seq<OperationEntry>,
}

impl ActionEntry {
    /// The item state that the action alone would give.
    pub open spec fn state(self) -> StateModel {
        StateModel {
            item_id: self.row.item_id,
            completed: self.row.action == "complete"@,
            actor_pubkey: hex(self.row.actor),
            accepted_at: self.accepted_at,
            client_created_at: Some(self.row.client_created_at),
            event_id: hex(self.row.event_id),
        }
    }

    /// The entry that the action has in the history.
    pub open spec fn entry(self) -> EntryModel {
        EntryModel {
            event_id: hex(self.row.event_id),
            actor_pubkey: hex(self.row.actor),
            accepted_at: self.accepted_at,
            client_created_at: Some(self.row.client_created_at),
            action: self.row.action,
            item_id: Some(self.row.item_id),
            structure_revision: None,
        }
    }
}

impl OperationEntry {
    /// The entry that the operation has in the history.
    pub open spec fn entry(self) -> EntryModel {
        EntryModel {
            event_id: hex(self.row.event_id),
            actor_pubkey: hex(self.row.actor),
            accepted_at: self.accepted_at,
            client_created_at: None,
            action: self.row.operation_type,
            item_id: None,
            structure_revision: Some(unsigned(self.row.result_revision) as u64),
        }
    }
}

impl InstanceEntry {
    /// The entry with which the history begins.
    pub open spec fn insertion(self) -> EntryModel {
        EntryModel {
            event_id: hex(self.row.event_id),
            actor_pubkey: hex(self.row.actor),
            accepted_at: self.accepted_at,
            client_created_at: None,
            action: "instance.insert"@,
            item_id: None,
            structure_revision: Some(1),
        }
    }
}

/// Picks the actions under an identifier.
pub open spec fn called_action(id: Id) -> spec_fn(ActionEntry) -> bool {
    |entry: ActionEntry| entry.row.action_id == id
}

/// Picks the operations under an identifier.
pub open spec fn called_operation(id: Id) -> spec_fn(OperationEntry) -> bool {
    |entry: OperationEntry| entry.row.operation_id == id
}

/// Picks the actions on an instance.
pub open spec fn action_on(id: Id) -> spec_fn(ActionEntry) -> bool {
    |entry: ActionEntry| entry.row.instance_id == id
}

/// Picks the operations on an instance.
pub open spec fn operation_on(id: Id) -> spec_fn(OperationEntry) -> bool {
    |entry: OperationEntry| entry.row.instance_id == id
}

impl Tables {
    /// The stored action under an identifier, with the channel of its instance.
    pub open spec fn stored_action(self, id: Id) -> Option<StoredActionModel> {
        match first_where(self.actions, called_action(id)) {
            Some(i) => Some(
                StoredActionModel {
                    event_id: self.actions[i].row.event_id,
                    actor: self.actions[i].row.actor,
                    channel_id: self.instances[self.actions[i].row.instance_id].row.channel_id,
                    action: Some(self.actions[i].payload),
                },
            ),
            None => None,
        }
    }

    /// The stored operation under an identifier, with the channel of its instance.
    pub open spec fn stored_operation(self, id: Id) -> Option<StoredOperationModel> {
        match first_where(self.operations, called_operation(id)) {
            Some(i) => Some(
                StoredOperationModel {
                    event_id: self.operations[i].row.event_id,
                    actor: self.operations[i].row.actor,
                    channel_id: self.instances[self.operations[i].row.instance_id].row.channel_id,
                    operation: Some(self.operations[i].payload),
                },
            ),
            None => None,
        }
    }

    /// The stored instance with an identifier.
    pub open spec fn stored_instance(self, id: Id) -> Option<StoredInstanceModel> {
        if self.instances.contains_key(id) {
            Some(
                StoredInstanceModel {
                    channel_id: self.instances[id].row.channel_id,
                    status: self.instances[id].row.status,
                    structure_revision: self.instances[id].row.structure_revision,
                    instance: self.instances[id].document,
                },
            )
        } else {
            None
        }
    }

    /// Whether an instance was copied from a template.
    pub open spec fn references(self, template_id: Id) -> bool {
        exists|id: Id| #[trigger]
            self.instances.contains_key(id) && self.instances[id].row.source_template_id
                == template_id
    }

    /// Whether a channel has an active playbook.
    pub open spec fn occupies(self, channel_id: Id) -> bool {
        exists|id: Id| #[trigger]
            self.instances.contains_key(id) && self.instances[id].row.channel_id == channel_id
                && self.instances[id].row.status == "active"@
    }

    /// The facts on a template revision that someone with this workspace role submits.
    pub open spec fn template_facts(
        self,
        submission: TemplateSubmission,
        role: Option<Seq<char>>,
    ) -> TemplateFactsModel {
        let row = template_row(submission);
        TemplateFactsModel {
            role,
            stored: if self.revisions.contains_key((row.template_id, row.revision)) {
                Some(self.revisions[(row.template_id, row.revision)].row.event_id)
            } else {
                None
            },
            current: if self.templates.contains_key(row.template_id) {
                Some(
                    CurrentTemplateModel {
                        revision: self.templates[row.template_id].row.revision,
                        status: self.templates[row.template_id].row.status,
                    },
                )
            } else {
                None
            },
            referenced: self.references(row.template_id),
        }
    }

    /// The facts on the copying of a template that someone with this channel role submits.
    pub open spec fn insert_facts(
        self,
        submission: InsertSubmission,
        role: Option<Seq<char>>,
    ) -> InsertFactsModel {
        let request = submission.request;
        InsertFactsModel {
            role,
            stored: if self.instances.contains_key(request.instance_id) {
                Some(self.instances[request.instance_id].row.event_id)
            } else {
                None
            },
            template: if self.templates.contains_key(request.template_id) {
                Some(
                    StoredTemplateModel {
                        status: self.templates[request.template_id].row.status,
                        template: self.templates[request.template_id].document,
                    },
                )
            } else {
                None
            },
            occupied: self.occupies(request.channel_id),
        }
    }

    /// The facts on an action that someone with this channel role submits.
    pub open spec fn action_facts(
        self,
        submission: ActionSubmission,
        role: Option<Seq<char>>,
    ) -> ActionFactsModel {
        ActionFactsModel {
            role,
            stored: self.stored_action(submission.action.action_id),
            instance: self.stored_instance(submission.action.instance_id),
        }
    }

    /// The facts on an operation that someone with this channel role submits.
    pub open spec fn operation_facts(
        self,
        submission: OperationSubmission,
        role: Option<Seq<char>>,
    ) -> OperationFactsModel {
        OperationFactsModel {
            role,
            stored: self.stored_operation(submission.operation.operation_id),
            instance: self.stored_instance(submission.operation.instance_id),
        }
    }

    /// Whether a template revision is accepted and new.
    pub open spec fn takes_template(
        self,
        submission: TemplateSubmission,
        role: Option<Seq<char>>,
    ) -> bool {
        let facts = self.template_facts(submission, role);
        template_refusal(submission, facts) is None && facts.stored is None
    }

    /// Whether the copying of a template is accepted and new.
    pub open spec fn takes_insert(
        self,
        submission: InsertSubmission,
        role: Option<Seq<char>>,
    ) -> bool {
        let facts = self.insert_facts(submission, role);
        insert_refusal(submission, facts) is None && facts.stored is None
    }

    /// Whether an action is accepted and new.
    pub open spec fn takes_action(
        self,
        submission: ActionSubmission,
        role: Option<Seq<char>>,
    ) -> bool {
        let facts = self.action_facts(submission, role);
        action_refusal(submission, facts) is None && facts.stored is None
    }

    /// Whether an operation is accepted and new.
    pub open spec fn takes_operation(
        self,
        submission: OperationSubmission,
        role: Option<Seq<char>>,
    ) -> bool {
        let facts = self.operation_facts(submission, role);
        operation_refusal(submission, facts) is None && facts.stored is None
    }

    /// The tables after a template revision was submitted: it is written if it is accepted
    /// and new, and else nothing is.
    pub open spec fn after_template(
        self,
        submission: TemplateSubmission,
        role: Option<Seq<char>>,
        accepted_at: Timestamp,
    ) -> Tables {
        let row = template_row(submission);
        let entry = TemplateEntry { row, document: submission.revision@, accepted_at };
        if self.takes_template(submission, role) {
            Tables {
                revisions: self.revisions.insert((row.template_id, row.revision), entry),
                templates: self.templates.insert(row.template_id, entry),
                ..self
            }
        } else {
            self
        }
    }

    /// The tables after the copying of a template was submitted: the instance is written if
    /// it is accepted and new, and else nothing is.
    pub open spec fn after_insert(
        self,
        submission: InsertSubmission,
        role: Option<Seq<char>>,
        accepted_at: Timestamp,
    ) -> Tables {
        let request = submission.request;
        let document = instantiated(
            request.instance_id,
            request.channel_id,
            self.templates[request.template_id].document,
        );
        let entry = InstanceEntry { row: insert_row(submission, document), document, accepted_at };
        if self.takes_insert(submission, role) {
            Tables { instances: self.instances.insert(request.instance_id, entry), ..self }
        } else {
            self
        }
    }

    /// The tables after an action was submitted: it is written if it is accepted and new,
    /// and else nothing is.
    pub open spec fn after_action(
        self,
        submission: ActionSubmission,
        role: Option<Seq<char>>,
        accepted_at: Timestamp,
    ) -> Tables {
        let entry = ActionEntry {
            row: action_row(submission),
            payload: submission.action,
            accepted_at,
        };
        if self.takes_action(submission, role) {
            Tables { actions: self.actions.push(entry), ..self }
        } else {
            self
        }
    }

    /// The tables after an operation was submitted: it is written and its instance edited
    /// if it is accepted and new, and else nothing is.
    pub open spec fn after_operation(
        self,
        submission: OperationSubmission,
        role: Option<Seq<char>>,
        accepted_at: Timestamp,
    ) -> Tables {
        let id = submission.operation.instance_id;
        let old_entry = self.instances[id];
        let document = revised(old_entry.document, submission.operation.operation@);
        let row = operation_row(submission, document);
        let entry = OperationEntry { row, payload: submission.operation@, accepted_at };
        let new_entry = InstanceEntry {
            row: InsertRowModel {
                structure_revision: row.result_revision,
                status: row.status,
                ..old_entry.row
            },
            document,
            ..old_entry
        };
        if self.takes_operation(submission, role) {
            Tables {
                operations: self.operations.push(entry),
                instances: self.instances.insert(id, new_entry),
                ..self
            }
        } else {
            self
        }
    }

    /// The item states that the actions on an instance would give, each alone.
    pub open spec fn states(self, id: Id) -> Seq<StateModel> {
        self.actions.filter(action_on(id)).map_values(|entry: ActionEntry| entry.state())
    }

    /// What happened to an instance since it was inserted.
    pub open spec fn activity(self, id: Id) -> Seq<EntryModel> {
        self.actions.filter(action_on(id)).map_values(|entry: ActionEntry| entry.entry())
            + self.operations.filter(operation_on(id)).map_values(
            |entry: OperationEntry| entry.entry(),
        )
    }

    /// Whether a record is the current revision of a template.
    pub open spec fn reads_template(self, id: Id, record: TemplateRecord) -> bool {
        &&& self.templates.contains_key(id)
        &&& record.template@ == self.templates[id].document
        &&& record.last_actor@ == self.templates[id].row.actor
        &&& record.accepted_at == self.templates[id].accepted_at
        &&& record.last_event_id@ == self.templates[id].row.event_id
    }

    /// Whether records are those of an instance and of all that happened to it, read in any
    /// order.
    pub open spec fn reads_instance(
        self,
        id: Id,
        record: InstanceRecord,
        actions: Seq<ActionRecord>,
        activity: Seq<ActivityRecord>,
    ) -> bool {
        &&& self.instances.contains_key(id)
        &&& record.instance@ == self.instances[id].document
        &&& record.insertion() == self.instances[id].insertion()
        &&& recorded_states(actions).to_multiset() == self.states(id).to_multiset()
        &&& recorded_entries(activity).to_multiset() == self.activity(id).to_multiset()
    }
}

} // verus!
