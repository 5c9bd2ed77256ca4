//! Whole commands against a store in memory.

use std::collections::HashMap;

use buzz_playbook::document::{
    InstanceStatus, PlaybookItem, PlaybookSection, TemplateRevision, TemplateStatus,
    PLAYBOOK_SCHEMA_VERSION,
};
use buzz_playbook::instance::PlaybookInstance;
use buzz_playbook::operation::{
    InstanceInsert, ItemAction, ItemActionKind, StructureOperation, StructureOperationKind,
};
use buzz_playbook::snapshot::{InstanceSnapshot, TemplateSnapshot};
use buzz_playbook::store::action::{
    ActionSettlement, ActionSubmission, InstancePlace, StoredAction, ValidAction,
};
use buzz_playbook::store::apply::SemanticApply;
use buzz_playbook::store::error::DbError;
use buzz_playbook::store::insert::{InsertSettlement, InsertSubmission, ValidInsert};
use buzz_playbook::store::projection::{
    instance_snapshot, template_snapshot, ActionRecord, ActivityRecord, InstanceRecord,
    TemplateRecord,
};
use buzz_playbook::store::structure::{
    CurrentStructure, OperationSettlement, OperationSubmission, StoredOperation, ValidOperation,
};
use buzz_playbook::store::template::{
    CurrentTemplate, TemplateSettlement, TemplateSubmission, TemplateSuccession, ValidTemplate,
};
use buzz_playbook::text::Id;
use buzz_playbook::time::Timestamp;
use uuid::Uuid;

struct TemplateRow {
    revision: i64,
    status: String,
    snapshot: TemplateRevision,
    actor: Vec<u8>,
    event_id: Vec<u8>,
    accepted_at: Timestamp,
}

struct InstanceRow {
    channel_id: Id,
    source_template_id: Id,
    structure_revision: i64,
    status: String,
    snapshot: PlaybookInstance,
    event_id: Vec<u8>,
    actor: Vec<u8>,
    accepted_at: Timestamp,
}

struct ActionRow {
    action: ItemAction,
    name: String,
    event_id: Vec<u8>,
    actor: Vec<u8>,
    accepted_at: Timestamp,
}

struct OperationRow {
    operation: StructureOperation,
    name: String,
    result_revision: i64,
    event_id: Vec<u8>,
    actor: Vec<u8>,
    accepted_at: Timestamp,
}

#[derive(Default)]
struct Memory {
    clock: i64,
    workspace_roles: HashMap<String, String>,
    channel_roles: HashMap<(Id, Vec<u8>), String>,
    revisions: HashMap<(Id, i64), Vec<u8>>,
    templates: HashMap<Id, TemplateRow>,
    instances: HashMap<Id, InstanceRow>,
    actions: Vec<ActionRow>,
    operations: Vec<OperationRow>,
}

impl Memory {
    fn now(&mut self) -> Timestamp {
        self.clock += 1;
        Timestamp {
            seconds: 1_750_000_000 + self.clock,
            nanos: 0,
        }
    }

    fn channel_role(&self, channel_id: Id, actor: &[u8]) -> Option<String> {
        self.channel_roles.get(&(channel_id, actor.to_vec())).cloned()
    }

    fn apply_template_revision(
        &mut self,
        revision: &TemplateRevision,
        event_id: &[u8],
        actor: &[u8],
    ) -> Result<TemplateSnapshot, DbError> {
        let valid = ValidTemplate::check(TemplateSubmission {
            revision,
            event_id,
            actor,
        })?;
        let role = self.workspace_roles.get(&valid.role_key()).cloned();
        let permitted = valid.permit(role)?;
        let key = (revision.template_id, permitted.stored_revision());
        let stored = self.revisions.get(&key).cloned();
        let fresh = match permitted.settle(stored)? {
            TemplateSettlement::Replay => return self.template_snapshot(revision.template_id),
            TemplateSettlement::Fresh(fresh) => fresh,
        };
        let current = self
            .templates
            .get(&revision.template_id)
            .map(|row| CurrentTemplate {
                revision: row.revision,
                status: row.status.clone(),
            });
        let accepted = match fresh.follow(current)? {
            TemplateSuccession::Accept(accepted) => accepted,
            TemplateSuccession::Delete(pending) => {
                let referenced = self
                    .instances
                    .values()
                    .any(|row| row.source_template_id == revision.template_id);
                pending.confirm(referenced)?
            }
        };
        let row = accepted.row();
        let accepted_at = self.now();
        self.revisions
            .insert((row.template_id, row.revision), row.event_id.to_vec());
        self.templates.insert(
            row.template_id,
            TemplateRow {
                revision: row.revision,
                status: row.status.into(),
                snapshot: revision.clone(),
                actor: row.actor.to_vec(),
                event_id: row.event_id.to_vec(),
                accepted_at,
            },
        );
        self.template_snapshot(revision.template_id)
    }

    fn insert_instance(
        &mut self,
        request: &InstanceInsert,
        event_id: &[u8],
        actor: &[u8],
    ) -> Result<InstanceSnapshot, DbError> {
        let valid = ValidInsert::check(InsertSubmission {
            request: *request,
            event_id,
            actor,
        })?;
        let permitted = valid.permit(self.channel_role(request.channel_id, actor))?;
        let stored = self
            .instances
            .get(&request.instance_id)
            .map(|row| row.event_id.clone());
        let fresh = match permitted.settle(stored)? {
            InsertSettlement::Replay => return self.instance_snapshot(request.instance_id),
            InsertSettlement::Fresh(fresh) => fresh,
        };
        let template = self.templates.get(&request.template_id);
        let located = fresh.locate(template.map(|row| row.status.clone()))?;
        let accepted = located.copy(&template.unwrap().snapshot);
        let row = accepted.row();
        let taken = self
            .instances
            .values()
            .any(|other| other.channel_id == row.channel_id && other.status == "active");
        let snapshot = accepted.confirm(taken)?;
        let accepted_at = self.now();
        self.instances.insert(
            row.instance_id,
            InstanceRow {
                channel_id: row.channel_id,
                source_template_id: row.source_template_id,
                structure_revision: row.structure_revision,
                status: row.status.into(),
                snapshot,
                event_id: row.event_id.to_vec(),
                actor: row.actor.to_vec(),
                accepted_at,
            },
        );
        self.instance_snapshot(request.instance_id)
    }

    fn apply_item_action(
        &mut self,
        channel_id: Id,
        action: &ItemAction,
        event_id: &[u8],
        actor: &[u8],
    ) -> Result<SemanticApply<InstanceSnapshot>, DbError> {
        let valid = ValidAction::check(ActionSubmission {
            channel_id,
            action: *action,
            event_id,
            actor,
        })?;
        let permitted = valid.permit(self.channel_role(channel_id, actor))?;
        let stored = self
            .actions
            .iter()
            .find(|row| row.action.action_id == action.action_id)
            .map(|row| StoredAction {
                event_id: row.event_id.clone(),
                actor: row.actor.clone(),
                channel_id: self.instances[&row.action.instance_id].channel_id,
                action: Some(row.action),
            });
        let fresh = match permitted.settle(stored)? {
            ActionSettlement::Replay(replay) => {
                return Ok(replay.conclude(self.instance_snapshot(action.instance_id)?))
            }
            ActionSettlement::Fresh(fresh) => fresh,
        };
        let instance = self.instances.get(&action.instance_id);
        let located = fresh.locate(instance.map(|row| InstancePlace {
            channel_id: row.channel_id,
            status: row.status.clone(),
        }))?;
        let accepted = located.target(&instance.unwrap().snapshot)?;
        let row = accepted.row();
        let accepted_at = self.now();
        self.actions.push(ActionRow {
            action: *action,
            name: row.action.into(),
            event_id: row.event_id.to_vec(),
            actor: row.actor.to_vec(),
            accepted_at,
        });
        Ok(accepted.conclude(self.instance_snapshot(action.instance_id)?))
    }

    fn apply_structure_operation(
        &mut self,
        channel_id: Id,
        operation: &StructureOperation,
        event_id: &[u8],
        actor: &[u8],
    ) -> Result<SemanticApply<InstanceSnapshot>, DbError> {
        let valid = ValidOperation::check(OperationSubmission {
            channel_id,
            operation,
            event_id,
            actor,
        })?;
        let permitted = valid.permit(self.channel_role(channel_id, actor))?;
        let stored = self
            .operations
            .iter()
            .find(|row| row.operation.operation_id == operation.operation_id)
            .map(|row| StoredOperation {
                event_id: row.event_id.clone(),
                actor: row.actor.clone(),
                channel_id: self.instances[&row.operation.instance_id].channel_id,
                operation: Some(row.operation.clone()),
            });
        let fresh = match permitted.settle(stored)? {
            OperationSettlement::Replay(replay) => {
                return Ok(replay.conclude(self.instance_snapshot(operation.instance_id)?))
            }
            OperationSettlement::Fresh(fresh) => fresh,
        };
        let instance = self.instances.get(&operation.instance_id);
        let current = fresh.check_base(instance.map(|row| CurrentStructure {
            channel_id: row.channel_id,
            structure_revision: row.structure_revision,
        }))?;
        let accepted = current.edit(instance.unwrap().snapshot.clone())?;
        let row = accepted.row();
        let accepted_at = self.now();
        self.operations.push(OperationRow {
            operation: operation.clone(),
            name: row.operation_type.into(),
            result_revision: row.result_revision,
            event_id: row.event_id.to_vec(),
            actor: row.actor.to_vec(),
            accepted_at,
        });
        let instance = self.instances.get_mut(&row.instance_id).unwrap();
        instance.structure_revision = row.result_revision;
        instance.status = row.status.into();
        instance.snapshot = accepted.instance().clone();
        Ok(accepted.conclude(self.instance_snapshot(operation.instance_id)?))
    }

    fn template_snapshot(&self, template_id: Id) -> Result<TemplateSnapshot, DbError> {
        template_snapshot(self.templates.get(&template_id).map(|row| TemplateRecord {
            template: row.snapshot.clone(),
            last_actor: row.actor.clone(),
            accepted_at: row.accepted_at,
            last_event_id: row.event_id.clone(),
        }))
    }

    fn instance_snapshot(&self, instance_id: Id) -> Result<InstanceSnapshot, DbError> {
        let record = self.instances.get(&instance_id).map(|row| InstanceRecord {
            instance: row.snapshot.clone(),
            created_event_id: row.event_id.clone(),
            created_by: row.actor.clone(),
            accepted_at: row.accepted_at,
        });
        let actions = self
            .actions
            .iter()
            .filter(|row| row.action.instance_id == instance_id);
        let states = actions
            .clone()
            .map(|row| ActionRecord {
                item_id: row.action.item_id,
                action: row.name.clone(),
                actor: row.actor.clone(),
                accepted_at: row.accepted_at,
                client_created_at: row.action.client_created_at,
                event_id: row.event_id.clone(),
            })
            .collect();
        let mut activity: Vec<ActivityRecord> = actions
            .map(|row| ActivityRecord {
                event_id: row.event_id.clone(),
                actor: row.actor.clone(),
                accepted_at: row.accepted_at,
                client_created_at: Some(row.action.client_created_at),
                action: row.name.clone(),
                item_id: Some(row.action.item_id),
                structure_revision: None,
            })
            .collect();
        activity.extend(
            self.operations
                .iter()
                .filter(|row| row.operation.instance_id == instance_id)
                .map(|row| ActivityRecord {
                    event_id: row.event_id.clone(),
                    actor: row.actor.clone(),
                    accepted_at: row.accepted_at,
                    client_created_at: None,
                    action: row.name.clone(),
                    item_id: None,
                    structure_revision: Some(row.result_revision),
                }),
        );
        instance_snapshot(record, states, activity)
    }
}

fn new_id() -> Id {
    Uuid::new_v4().as_u128()
}

fn at(seconds: i64, nanos: u32) -> Timestamp {
    Timestamp { seconds, nanos }
}

fn setup_fixture() -> (Memory, Id, [u8; 32], [u8; 32]) {
    let mut memory = Memory::default();
    let channel_id = new_id();
    let owner = [1_u8; 32];
    let member = [2_u8; 32];
    memory
        .workspace_roles
        .insert(hex::encode(owner), "owner".into());
    memory
        .channel_roles
        .insert((channel_id, owner.to_vec()), "owner".into());
    memory
        .channel_roles
        .insert((channel_id, member.to_vec()), "member".into());
    (memory, channel_id, owner, member)
}

fn template(template_id: Id, item_id: Id, revision: u64) -> TemplateRevision {
    TemplateRevision {
        schema_version: PLAYBOOK_SCHEMA_VERSION,
        template_id,
        revision,
        name: format!("Launch v{revision}"),
        description: None,
        status: TemplateStatus::Active,
        sections: vec![PlaybookSection {
            section_id: new_id(),
            title: "Discovery".into(),
            position: 1000,
            deleted: false,
            items: vec![PlaybookItem {
                item_id,
                text: format!("Collect access v{revision}"),
                position: 1000,
                deleted: false,
            }],
        }],
    }
}

fn rename(instance_id: Id, base_structure_revision: u64, name: &str) -> StructureOperation {
    StructureOperation {
        schema_version: PLAYBOOK_SCHEMA_VERSION,
        operation_id: new_id(),
        instance_id,
        base_structure_revision,
        operation: StructureOperationKind::InstanceRename { name: name.into() },
    }
}

#[test]
fn phase_one_projection_contract() {
    let (mut memory, channel_id, owner, member) = setup_fixture();
    let template_id = new_id();
    let item_id = new_id();
    let instance_id = new_id();
    let first = template(template_id, item_id, 1);
    memory
        .apply_template_revision(&first, &[11; 32], &owner)
        .expect("create template");

    let request = InstanceInsert {
        schema_version: PLAYBOOK_SCHEMA_VERSION,
        instance_id,
        channel_id,
        template_id,
    };
    let inserted = memory
        .insert_instance(&request, &[12; 32], &owner)
        .expect("insert instance");
    assert_eq!(inserted.instance.source_template_revision, 1);
    assert_eq!(
        inserted.instance.sections[0].items[0].text,
        "Collect access v1"
    );

    let second = template(template_id, item_id, 2);
    memory
        .apply_template_revision(&second, &[13; 32], &owner)
        .expect("revise template");
    let unchanged = memory
        .instance_snapshot(instance_id)
        .expect("read existing instance");
    assert_eq!(
        unchanged.instance.sections[0].items[0].text,
        "Collect access v1"
    );

    let client_created_at = at(1_700_000_000, 0);
    let action = ItemAction {
        schema_version: PLAYBOOK_SCHEMA_VERSION,
        action_id: new_id(),
        instance_id,
        item_id,
        action: ItemActionKind::Complete,
        client_created_at,
    };
    let completed = memory
        .apply_item_action(channel_id, &action, &[14; 32], &member)
        .expect("member completes item");
    assert!(completed.applied);
    assert_eq!(completed.canonical_event_id, vec![14; 32]);
    assert!(completed.snapshot.item_states[0].completed);
    assert_eq!(
        completed.snapshot.item_states[0].client_created_at,
        Some(client_created_at)
    );
    let replay = memory
        .apply_item_action(channel_id, &action, &[19; 32], &member)
        .expect("semantic action retry in a new wrapper");
    assert!(!replay.applied);
    assert_eq!(replay.canonical_event_id, vec![14; 32]);
    assert_eq!(replay.snapshot.activity.len(), 2);

    assert!(matches!(
        memory.apply_item_action(channel_id, &action, &[20; 32], &owner),
        Err(DbError::Conflict(_))
    ));
    let changed_action = ItemAction {
        action: ItemActionKind::Reopen,
        ..action
    };
    assert!(matches!(
        memory.apply_item_action(channel_id, &changed_action, &[21; 32], &member),
        Err(DbError::Conflict(_))
    ));

    let member_edit = rename(instance_id, 1, "Member edit");
    assert!(matches!(
        memory.apply_structure_operation(channel_id, &member_edit, &[15; 32], &member),
        Err(DbError::AccessDenied(_))
    ));

    let owner_edit = rename(instance_id, 1, "Channel copy");
    let edited = memory
        .apply_structure_operation(channel_id, &owner_edit, &[16; 32], &owner)
        .expect("owner edits instance");
    assert!(edited.applied);
    assert_eq!(edited.snapshot.instance.structure_revision, 2);
    let edit_replay = memory
        .apply_structure_operation(channel_id, &owner_edit, &[22; 32], &owner)
        .expect("semantic structure retry in a new wrapper");
    assert!(!edit_replay.applied);
    assert_eq!(edit_replay.canonical_event_id, vec![16; 32]);
    assert_eq!(edit_replay.snapshot.instance.structure_revision, 2);
    assert_eq!(edit_replay.snapshot.activity.len(), 3);

    let changed_edit = StructureOperation {
        operation: StructureOperationKind::InstanceRename {
            name: "Changed reuse".into(),
        },
        ..owner_edit.clone()
    };
    assert!(matches!(
        memory.apply_structure_operation(channel_id, &changed_edit, &[23; 32], &owner),
        Err(DbError::Conflict(_))
    ));

    let stale = rename(instance_id, 1, "Stale");
    assert!(matches!(
        memory.apply_structure_operation(channel_id, &stale, &[17; 32], &owner),
        Err(DbError::Conflict(_))
    ));
    let after_conflict = memory
        .instance_snapshot(instance_id)
        .expect("read after conflict");
    assert_eq!(after_conflict.instance.name, "Channel copy");
    assert_eq!(after_conflict.instance.structure_revision, 2);

    memory.channel_roles.remove(&(channel_id, member.to_vec()));
    let removed_action = ItemAction {
        action_id: new_id(),
        ..action
    };
    assert!(matches!(
        memory.apply_item_action(channel_id, &removed_action, &[18; 32], &member),
        Err(DbError::AccessDenied(_))
    ));
}

#[test]
fn semantic_idempotency_and_concurrency_contract() {
    let (mut memory, channel_id, owner, member_a) = setup_fixture();
    let member_b = [3_u8; 32];
    memory
        .channel_roles
        .insert((channel_id, member_b.to_vec()), "member".into());
    let template_id = new_id();
    let item_id = new_id();
    let instance_id = new_id();
    memory
        .apply_template_revision(&template(template_id, item_id, 1), &[30; 32], &owner)
        .expect("create template");
    memory
        .insert_instance(
            &InstanceInsert {
                schema_version: PLAYBOOK_SCHEMA_VERSION,
                instance_id,
                channel_id,
                template_id,
            },
            &[31; 32],
            &owner,
        )
        .expect("insert instance");

    let action = ItemAction {
        schema_version: PLAYBOOK_SCHEMA_VERSION,
        action_id: new_id(),
        instance_id,
        item_id,
        action: ItemActionKind::Complete,
        client_created_at: at(1_700_000_000, 123_456_000),
    };
    let left = memory
        .apply_item_action(channel_id, &action, &[32; 32], &member_a)
        .expect("first semantic action wrapper");
    let right = memory
        .apply_item_action(channel_id, &action, &[33; 32], &member_a)
        .expect("second semantic action wrapper");
    assert_ne!(left.applied, right.applied);
    assert_eq!(left.canonical_event_id, right.canonical_event_id);
    assert_eq!(left.snapshot.activity.len(), 2);
    assert_eq!(right.snapshot.activity.len(), 2);

    let operation = rename(instance_id, 1, "Semantic rename");
    let left = memory
        .apply_structure_operation(channel_id, &operation, &[34; 32], &owner)
        .expect("first semantic operation wrapper");
    let right = memory
        .apply_structure_operation(channel_id, &operation, &[35; 32], &owner)
        .expect("second semantic operation wrapper");
    assert_ne!(left.applied, right.applied);
    assert_eq!(left.canonical_event_id, right.canonical_event_id);
    assert_eq!(left.snapshot.instance.structure_revision, 2);
    assert_eq!(right.snapshot.instance.structure_revision, 2);
    assert_eq!(left.snapshot.activity.len(), 3);
    assert_eq!(right.snapshot.activity.len(), 3);

    let race_a = rename(instance_id, 2, "Race A");
    let race_b = rename(instance_id, 2, "Race B");
    let race_a_result = memory.apply_structure_operation(channel_id, &race_a, &[36; 32], &owner);
    let race_b_result = memory.apply_structure_operation(channel_id, &race_b, &[37; 32], &owner);
    assert_eq!(
        usize::from(race_a_result.is_ok()) + usize::from(race_b_result.is_ok()),
        1
    );
    assert!(matches!(
        race_a_result
            .as_ref()
            .err()
            .or(race_b_result.as_ref().err()),
        Some(DbError::Conflict(_))
    ));
    let after_race = memory
        .instance_snapshot(instance_id)
        .expect("read after structural race");
    assert_eq!(after_race.instance.structure_revision, 3);
    assert!(matches!(
        after_race.instance.name.as_str(),
        "Race A" | "Race B"
    ));

    let complete = ItemAction {
        action_id: new_id(),
        client_created_at: at(1_700_000_001, 0),
        ..action
    };
    let reopen = ItemAction {
        action_id: new_id(),
        action: ItemActionKind::Reopen,
        client_created_at: at(1_700_000_002, 0),
        ..action
    };
    memory
        .apply_item_action(channel_id, &complete, &[38; 32], &member_a)
        .expect("member A concurrent action");
    memory
        .apply_item_action(channel_id, &reopen, &[39; 32], &member_b)
        .expect("member B concurrent action");
    let concurrent = memory
        .instance_snapshot(instance_id)
        .expect("read concurrent item actions");
    assert_eq!(
        concurrent
            .activity
            .iter()
            .filter(|entry| matches!(entry.action.as_str(), "complete" | "reopen"))
            .count(),
        3
    );
    assert!(concurrent
        .activity
        .iter()
        .any(|entry| entry.actor_pubkey == hex::encode(member_a)));
    assert!(concurrent
        .activity
        .iter()
        .any(|entry| entry.actor_pubkey == hex::encode(member_b)));

    let tied_at = at(1_800_000_000, 0);
    for row in &mut memory.actions {
        if row.action.action_id == complete.action_id || row.action.action_id == reopen.action_id {
            row.accepted_at = tied_at;
        }
    }
    let rebuilt = memory
        .instance_snapshot(instance_id)
        .expect("rebuild from durable action rows");
    let visible = rebuilt
        .item_states
        .iter()
        .find(|state| state.item_id == item_id)
        .expect("visible item state");
    assert!(
        !visible.completed,
        "larger event ID must win equal-time tie"
    );
    assert_eq!(visible.event_id, hex::encode([39; 32]));
    assert_eq!(
        memory
            .instance_snapshot(instance_id)
            .expect("repeat deterministic rebuild"),
        rebuilt
    );
}

#[test]
fn every_structural_operation_is_atomic_at_the_database_boundary() {
    let (mut memory, channel_id, owner, _) = setup_fixture();
    let template_id = new_id();
    let original_item_id = new_id();
    let instance_id = new_id();
    let source = template(template_id, original_item_id, 1);
    let original_section_id = source.sections[0].section_id;
    memory
        .apply_template_revision(&source, &[50; 32], &owner)
        .expect("create template");
    memory
        .insert_instance(
            &InstanceInsert {
                schema_version: PLAYBOOK_SCHEMA_VERSION,
                instance_id,
                channel_id,
                template_id,
            },
            &[51; 32],
            &owner,
        )
        .expect("insert instance");

    let added_section_id = new_id();
    let added_item_id = new_id();
    let duplicate_item_id = new_id();
    let operations = vec![
        StructureOperationKind::SectionAdd {
            section: PlaybookSection {
                section_id: added_section_id,
                title: "Launch".into(),
                position: 2000,
                deleted: false,
                items: vec![],
            },
        },
        StructureOperationKind::SectionUpdate {
            section_id: added_section_id,
            title: "Launch day".into(),
        },
        StructureOperationKind::SectionReorder {
            section_id: added_section_id,
            position: 500,
        },
        StructureOperationKind::SectionRemove {
            section_id: added_section_id,
        },
        StructureOperationKind::SectionRestore {
            section_id: added_section_id,
        },
        StructureOperationKind::ItemAdd {
            section_id: original_section_id,
            item: PlaybookItem {
                item_id: added_item_id,
                text: "Confirm owner".into(),
                position: 2000,
                deleted: false,
            },
        },
        StructureOperationKind::ItemUpdate {
            item_id: added_item_id,
            text: "Confirm launch owner".into(),
        },
        StructureOperationKind::ItemReorder {
            item_id: added_item_id,
            position: 500,
        },
        StructureOperationKind::ItemRemove {
            item_id: added_item_id,
        },
        StructureOperationKind::ItemRestore {
            item_id: added_item_id,
        },
        StructureOperationKind::ItemDuplicate {
            item_id: original_item_id,
            new_item_id: duplicate_item_id,
            position: 3000,
        },
        StructureOperationKind::InstanceRename {
            name: "Channel launch".into(),
        },
        StructureOperationKind::InstanceArchive,
    ];

    for (index, operation) in operations.iter().cloned().enumerate() {
        let result = memory
            .apply_structure_operation(
                channel_id,
                &StructureOperation {
                    schema_version: PLAYBOOK_SCHEMA_VERSION,
                    operation_id: new_id(),
                    instance_id,
                    base_structure_revision: index as u64 + 1,
                    operation,
                },
                &[index as u8 + 52; 32],
                &owner,
            )
            .unwrap_or_else(|error| panic!("operation {} failed: {error:?}", index + 1));
        assert!(result.applied);
        assert_eq!(
            result.snapshot.instance.structure_revision,
            index as u64 + 2
        );
    }

    let snapshot = memory
        .instance_snapshot(instance_id)
        .expect("read final structural projection");
    assert_eq!(snapshot.instance.status, InstanceStatus::Archived);
    assert_eq!(snapshot.instance.structure_revision, 14);
    assert_eq!(snapshot.instance.name, "Channel launch");
    assert_eq!(snapshot.activity.len(), 14);
    assert_eq!(
        snapshot
            .activity
            .iter()
            .skip(1)
            .map(|entry| entry.action.as_str())
            .collect::<Vec<_>>(),
        vec![
            "section.add",
            "section.update",
            "section.reorder",
            "section.remove",
            "section.restore",
            "item.add",
            "item.update",
            "item.reorder",
            "item.remove",
            "item.restore",
            "item.duplicate",
            "instance.rename",
            "instance.archive",
        ]
    );
    let added_section = snapshot
        .instance
        .sections
        .iter()
        .find(|section| section.section_id == added_section_id)
        .expect("stable restored section ID");
    assert_eq!(added_section.title, "Launch day");
    assert_eq!(added_section.position, 500);
    assert!(!added_section.deleted);
    let added_item = snapshot
        .instance
        .sections
        .iter()
        .flat_map(|section| &section.items)
        .find(|item| item.item_id == added_item_id)
        .expect("stable restored item ID");
    assert_eq!(added_item.text, "Confirm launch owner");
    assert_eq!(added_item.position, 500);
    assert!(!added_item.deleted);
    assert!(snapshot
        .instance
        .sections
        .iter()
        .flat_map(|section| &section.items)
        .any(|item| item.item_id == duplicate_item_id));

    let archived_action = ItemAction {
        schema_version: PLAYBOOK_SCHEMA_VERSION,
        action_id: new_id(),
        instance_id,
        item_id: original_item_id,
        action: ItemActionKind::Complete,
        client_created_at: at(1_700_000_000, 0),
    };
    assert!(matches!(
        memory.apply_item_action(channel_id, &archived_action, &[70; 32], &owner),
        Err(DbError::NotFound(_))
    ));
}

#[test]
fn role_table_cross_channel_rejection_and_isolation_contract() {
    let (mut memory, channel_a, _, member) = setup_fixture();
    let channel_b = new_id();
    let admin = [4_u8; 32];
    let non_member = [5_u8; 32];
    memory
        .workspace_roles
        .insert(hex::encode(admin), "admin".into());
    memory
        .workspace_roles
        .insert(hex::encode(member), "member".into());
    for (channel, pubkey, role) in [
        (channel_a, &admin, "admin"),
        (channel_b, &admin, "admin"),
        (channel_b, &member, "member"),
    ] {
        memory
            .channel_roles
            .insert((channel, pubkey.to_vec()), role.into());
    }

    let template_id = new_id();
    let item_id = new_id();
    let source = template(template_id, item_id, 1);
    memory
        .apply_template_revision(&source, &[80; 32], &admin)
        .expect("workspace admin creates template");
    let denied_template = template(new_id(), new_id(), 1);
    assert!(matches!(
        memory.apply_template_revision(&denied_template, &[81; 32], &member),
        Err(DbError::AccessDenied(_))
    ));

    let insert = |instance_id: Id, channel_id: Id| InstanceInsert {
        schema_version: PLAYBOOK_SCHEMA_VERSION,
        instance_id,
        channel_id,
        template_id,
    };
    let instance_a = new_id();
    let instance_b = new_id();
    let inserted_a = memory
        .insert_instance(&insert(instance_a, channel_a), &[82; 32], &admin)
        .expect("channel admin inserts A");
    let inserted_b = memory
        .insert_instance(&insert(instance_b, channel_b), &[83; 32], &admin)
        .expect("channel admin inserts B");
    assert_ne!(instance_a, instance_b);
    assert_eq!(inserted_a.instance.sections, inserted_b.instance.sections);
    assert!(matches!(
        memory.insert_instance(&insert(new_id(), channel_a), &[84; 32], &admin),
        Err(DbError::Conflict(_))
    ));

    let source_before = memory
        .template_snapshot(template_id)
        .expect("template snapshot");
    let edit_a = rename(instance_a, 1, "Only channel A");
    memory
        .apply_structure_operation(channel_a, &edit_a, &[85; 32], &admin)
        .expect("channel admin edits A");
    assert_eq!(
        memory
            .template_snapshot(template_id)
            .expect("template unchanged"),
        source_before
    );
    assert_eq!(
        memory
            .instance_snapshot(instance_b)
            .expect("B unchanged")
            .instance,
        inserted_b.instance
    );

    let member_action = ItemAction {
        schema_version: PLAYBOOK_SCHEMA_VERSION,
        action_id: new_id(),
        instance_id: instance_b,
        item_id,
        action: ItemActionKind::Complete,
        client_created_at: at(1_700_000_000, 0),
    };
    memory
        .apply_item_action(channel_b, &member_action, &[86; 32], &member)
        .expect("current member completes item");
    assert!(matches!(
        memory.apply_structure_operation(
            channel_b,
            &rename(instance_b, 1, "Denied member edit"),
            &[87; 32],
            &member,
        ),
        Err(DbError::AccessDenied(_))
    ));

    let wrong_channel_action = ItemAction {
        action_id: new_id(),
        instance_id: instance_a,
        ..member_action
    };
    assert!(matches!(
        memory.apply_item_action(channel_b, &wrong_channel_action, &[88; 32], &member),
        Err(DbError::NotFound(_))
    ));
    let outsider_action = ItemAction {
        action_id: new_id(),
        ..member_action
    };
    assert!(matches!(
        memory.apply_item_action(channel_b, &outsider_action, &[89; 32], &non_member),
        Err(DbError::AccessDenied(_))
    ));
    memory.channel_roles.remove(&(channel_b, member.to_vec()));
    let removed_action = ItemAction {
        action_id: new_id(),
        ..member_action
    };
    assert!(matches!(
        memory.apply_item_action(channel_b, &removed_action, &[90; 32], &member),
        Err(DbError::AccessDenied(_))
    ));
}

#[test]
fn archived_and_deleted_templates_stay_closed() {
    let (mut memory, channel_id, owner, _) = setup_fixture();
    let template_id = new_id();
    let first = template(template_id, new_id(), 1);
    memory
        .apply_template_revision(&first, &[1; 32], &owner)
        .expect("create template");
    let again = memory
        .apply_template_revision(&first, &[1; 32], &owner)
        .expect("the same event again");
    assert_eq!(again.event_id, hex::encode([1; 32]));
    let request = InstanceInsert {
        schema_version: PLAYBOOK_SCHEMA_VERSION,
        instance_id: new_id(),
        channel_id,
        template_id,
    };
    memory
        .insert_instance(&request, &[2; 32], &owner)
        .expect("insert instance");
    memory
        .insert_instance(&request, &[2; 32], &owner)
        .expect("the same event again");
    let deleted = TemplateRevision {
        status: TemplateStatus::Deleted,
        ..template(template_id, new_id(), 2)
    };
    assert_eq!(
        memory
            .apply_template_revision(&deleted, &[3; 32], &owner)
            .err(),
        Some(DbError::Conflict(
            "referenced templates must be archived instead of deleted".into()
        ))
    );
    let archived = TemplateRevision {
        status: TemplateStatus::Archived,
        ..template(template_id, new_id(), 2)
    };
    memory
        .apply_template_revision(&archived, &[4; 32], &owner)
        .expect("archive template");
    assert_eq!(
        memory
            .apply_template_revision(&template(template_id, new_id(), 3), &[5; 32], &owner)
            .err(),
        Some(DbError::Conflict("archived template is immutable".into()))
    );
    assert_eq!(
        memory
            .insert_instance(
                &InstanceInsert {
                    instance_id: new_id(),
                    ..request
                },
                &[6; 32],
                &owner
            )
            .err(),
        Some(DbError::NotFound("active playbook template".into()))
    );
}

#[test]
fn template_revisions_read_back_and_leave_instances_alone() {
    let (mut memory, channel_id, owner, member) = setup_fixture();
    let template_id = new_id();
    let item_id = new_id();
    let instance_id = new_id();
    let first = template(template_id, item_id, 1);
    memory
        .apply_template_revision(&first, &[1; 32], &owner)
        .expect("create template");
    let inserted = memory
        .insert_instance(
            &InstanceInsert {
                schema_version: PLAYBOOK_SCHEMA_VERSION,
                instance_id,
                channel_id,
                template_id,
            },
            &[2; 32],
            &owner,
        )
        .expect("insert instance");
    assert_eq!(inserted.activity.len(), 1);
    assert!(inserted.item_states.is_empty());
    memory
        .apply_item_action(
            channel_id,
            &ItemAction {
                schema_version: PLAYBOOK_SCHEMA_VERSION,
                action_id: new_id(),
                instance_id,
                item_id,
                action: ItemActionKind::Complete,
                client_created_at: at(1_700_000_000, 0),
            },
            &[3; 32],
            &member,
        )
        .expect("complete item");
    let before = memory.instance_snapshot(instance_id).expect("read before");
    let second = template(template_id, item_id, 2);
    let shown = memory
        .apply_template_revision(&second, &[4; 32], &owner)
        .expect("revise template");
    assert_eq!(shown.template, second);
    assert_eq!(shown.event_id, hex::encode([4; 32]));
    assert_eq!(shown.actor_pubkey, hex::encode(owner));
    assert_eq!(
        memory.instance_snapshot(instance_id).expect("read after"),
        before
    );
    assert_eq!(before.instance.source_template_revision, 1);
}

#[test]
fn whichever_of_two_operations_comes_first_wins() {
    for flipped in [false, true] {
        let (mut memory, channel_id, owner, _) = setup_fixture();
        let template_id = new_id();
        let instance_id = new_id();
        memory
            .apply_template_revision(&template(template_id, new_id(), 1), &[1; 32], &owner)
            .expect("create template");
        memory
            .insert_instance(
                &InstanceInsert {
                    schema_version: PLAYBOOK_SCHEMA_VERSION,
                    instance_id,
                    channel_id,
                    template_id,
                },
                &[2; 32],
                &owner,
            )
            .expect("insert instance");
        let mut pair = [
            rename(instance_id, 1, "Race A"),
            rename(instance_id, 1, "Race B"),
        ];
        if flipped {
            pair.reverse();
        }
        let won = memory
            .apply_structure_operation(channel_id, &pair[0], &[3; 32], &owner)
            .expect("the first wins");
        assert_eq!(won.snapshot.instance.structure_revision, 2);
        assert_eq!(
            memory
                .apply_structure_operation(channel_id, &pair[1], &[4; 32], &owner)
                .err(),
            Some(DbError::Conflict(
                "structure revision conflict: current 2, base 1".into()
            ))
        );
        assert_eq!(
            memory.instance_snapshot(instance_id).expect("read"),
            won.snapshot
        );
    }
}
