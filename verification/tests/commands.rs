//! Whole commands, and which of several faults is answered.

use buzz_playbook::document::{
    InstanceStatus, PlaybookItem, PlaybookSection, TemplateRevision, TemplateStatus,
};
use buzz_playbook::instance::PlaybookInstance;
use buzz_playbook::operation::{
    InstanceInsert, ItemAction, ItemActionKind, StructureOperation, StructureOperationKind,
};
use buzz_playbook::store::action::{ActionSubmission, StoredAction};
use buzz_playbook::store::command::{
    apply_item_action, apply_structure_operation, apply_template_revision, insert_instance,
    ActionFacts, ActionOutcome, InsertFacts, InsertOutcome, OperationFacts, OperationOutcome,
    StoredInstance, StoredTemplate, TemplateFacts, TemplateOutcome,
};
use buzz_playbook::store::error::DbError;
use buzz_playbook::store::insert::InsertSubmission;
use buzz_playbook::store::structure::{OperationSubmission, StoredOperation};
use buzz_playbook::store::template::{CurrentTemplate, TemplateSubmission};
use buzz_playbook::text::Id;
use buzz_playbook::time::Timestamp;

const EVENT: &[u8] = &[1, 2, 3];
const ACTOR: &[u8] = &[4];
const CHANNEL: Id = 61;

fn template(revision: u64, status: TemplateStatus) -> TemplateRevision {
    TemplateRevision {
        schema_version: 1,
        template_id: 21,
        revision,
        name: "Launch".into(),
        description: None,
        status,
        sections: vec![PlaybookSection {
            section_id: 31,
            title: "Discovery".into(),
            position: 1000,
            deleted: false,
            items: vec![PlaybookItem {
                item_id: 41,
                text: "Collect access".into(),
                position: 1000,
                deleted: false,
            }],
        }],
    }
}

fn instance() -> PlaybookInstance {
    PlaybookInstance::from_template(51, CHANNEL, &template(3, TemplateStatus::Active))
}

fn stored_instance(status: &str) -> Option<StoredInstance> {
    Some(StoredInstance {
        channel_id: CHANNEL,
        status: status.into(),
        structure_revision: 1,
        instance: instance(),
    })
}

fn role(name: &str) -> Option<String> {
    Some(name.into())
}

fn submit_template(
    revision: &TemplateRevision,
    facts: TemplateFacts,
) -> Result<Option<(i64, String)>, DbError> {
    let submission = TemplateSubmission {
        revision,
        event_id: EVENT,
        actor: ACTOR,
    };
    match apply_template_revision(submission, facts)? {
        TemplateOutcome::Replay => Ok(None),
        TemplateOutcome::Accepted(accepted) => {
            let row = accepted.row();
            Ok(Some((row.revision, row.status.to_string())))
        }
    }
}

#[test]
fn template_faults_are_answered_in_order() {
    let current = |revision: i64, status: &str| {
        Some(CurrentTemplate {
            revision,
            status: status.into(),
        })
    };
    let mut malformed = template(9, TemplateStatus::Deleted);
    malformed.name = " ".into();
    let worst = |name: &str, stored: Option<Vec<u8>>, revision: i64, status: &str| TemplateFacts {
        role: role(name),
        stored,
        current: current(revision, status),
        referenced: true,
    };
    assert_eq!(
        submit_template(&malformed, worst("member", Some(vec![9]), 3, "deleted")),
        Err(DbError::InvalidData("invalid template name".into()))
    );
    let deletion = template(9, TemplateStatus::Deleted);
    assert_eq!(
        submit_template(&deletion, worst("member", Some(vec![9]), 3, "deleted")),
        Err(DbError::AccessDenied(
            "workspace owner/admin permission required".into()
        ))
    );
    assert_eq!(
        submit_template(&deletion, worst("admin", Some(vec![9]), 3, "deleted")),
        Err(DbError::Conflict(
            "template revision 9 already exists".into()
        ))
    );
    assert_eq!(
        submit_template(&deletion, worst("admin", Some(EVENT.to_vec()), 3, "deleted")),
        Ok(None)
    );
    assert_eq!(
        submit_template(&deletion, worst("admin", None, 3, "deleted")),
        Err(DbError::Conflict(
            "template revision conflict: expected 4, got 9".into()
        ))
    );
    assert_eq!(
        submit_template(&deletion, worst("admin", None, 8, "deleted")),
        Err(DbError::Conflict("deleted template is immutable".into()))
    );
    assert_eq!(
        submit_template(&deletion, worst("admin", None, 8, "archived")),
        Err(DbError::Conflict("archived template is immutable".into()))
    );
    assert_eq!(
        submit_template(&deletion, worst("admin", None, 8, "active")),
        Err(DbError::Conflict(
            "referenced templates must be archived instead of deleted".into()
        ))
    );
    assert_eq!(
        submit_template(
            &deletion,
            TemplateFacts {
                referenced: false,
                ..worst("owner", None, 8, "active")
            }
        ),
        Ok(Some((9, "deleted".into())))
    );
    assert_eq!(
        submit_template(
            &template(9, TemplateStatus::Active),
            worst("owner", None, 8, "active")
        ),
        Ok(Some((9, "active".into())))
    );
}

#[test]
fn insert_faults_are_answered_in_order() {
    let submit = |schema_version: u32, facts: InsertFacts| {
        let submission = InsertSubmission {
            request: InstanceInsert {
                schema_version,
                instance_id: 51,
                channel_id: CHANNEL,
                template_id: 21,
            },
            event_id: EVENT,
            actor: ACTOR,
        };
        match insert_instance(submission, facts) {
            Ok(InsertOutcome::Replay) => Ok(None),
            Ok(InsertOutcome::Accepted(instance)) => Ok(Some(instance)),
            Err(error) => Err(error),
        }
    };
    let facts = |name: &str, stored: Option<Vec<u8>>, status: Option<&str>, occupied: bool| {
        InsertFacts {
            role: role(name),
            stored,
            template: status.map(|status| StoredTemplate {
                status: status.into(),
                template: template(3, TemplateStatus::Active),
            }),
            occupied,
        }
    };
    assert_eq!(
        submit(2, facts("member", Some(vec![]), None, true)),
        Err(DbError::InvalidData("unsupported schema_version 2".into()))
    );
    assert_eq!(
        submit(1, facts("member", Some(vec![]), None, true)),
        Err(DbError::AccessDenied(
            "channel owner/admin permission required".into()
        ))
    );
    assert_eq!(
        submit(1, facts("owner", Some(vec![]), None, true)),
        Err(DbError::Conflict("instance_id already exists".into()))
    );
    assert_eq!(
        submit(1, facts("owner", Some(EVENT.to_vec()), None, true)),
        Ok(None)
    );
    for status in [None, Some("archived")] {
        assert_eq!(
            submit(1, facts("owner", None, status, true)),
            Err(DbError::NotFound("active playbook template".into()))
        );
    }
    assert_eq!(
        submit(1, facts("owner", None, Some("active"), true)),
        Err(DbError::Conflict(
            "channel already has an active playbook".into()
        ))
    );
    assert_eq!(
        submit(1, facts("admin", None, Some("active"), false)),
        Ok(Some(instance()))
    );
}

fn action(schema_version: u32, item_id: Id) -> ItemAction {
    ItemAction {
        schema_version,
        action_id: 71,
        instance_id: 51,
        item_id,
        action: ItemActionKind::Complete,
        client_created_at: Timestamp {
            seconds: 1,
            nanos: 0,
        },
    }
}

fn submit_action(action: ItemAction, facts: ActionFacts) -> Result<(Vec<u8>, bool), DbError> {
    let submission = ActionSubmission {
        channel_id: CHANNEL,
        action,
        event_id: EVENT,
        actor: ACTOR,
    };
    let result = match apply_item_action(submission, facts)? {
        ActionOutcome::Replay(replay) => replay.conclude(()),
        ActionOutcome::Accepted(accepted) => accepted.conclude(()),
    };
    Ok((result.canonical_event_id, result.applied))
}

#[test]
fn action_faults_are_answered_in_order() {
    let stored = |actor: &[u8]| {
        Some(StoredAction {
            event_id: vec![8],
            actor: actor.to_vec(),
            channel_id: CHANNEL,
            action: Some(action(1, 41)),
        })
    };
    assert_eq!(
        submit_action(
            action(7, 42),
            ActionFacts {
                role: None,
                stored: stored(&[5]),
                instance: None
            }
        ),
        Err(DbError::InvalidData("unsupported schema_version 7".into()))
    );
    assert_eq!(
        submit_action(
            action(1, 42),
            ActionFacts {
                role: None,
                stored: stored(&[5]),
                instance: None
            }
        ),
        Err(DbError::AccessDenied(
            "current channel membership required".into()
        ))
    );
    assert_eq!(
        submit_action(
            action(1, 41),
            ActionFacts {
                role: role("guest"),
                stored: stored(&[5]),
                instance: None
            }
        ),
        Err(DbError::Conflict(
            "action_id was already used for a different action".into()
        ))
    );
    // a retry is answered even once the instance is archived
    assert_eq!(
        submit_action(
            action(1, 41),
            ActionFacts {
                role: role("member"),
                stored: stored(ACTOR),
                instance: stored_instance("archived")
            }
        ),
        Ok((vec![8], false))
    );
    for gone in [None, stored_instance("archived")] {
        assert_eq!(
            submit_action(
                action(1, 41),
                ActionFacts {
                    role: role("member"),
                    stored: None,
                    instance: gone
                }
            ),
            Err(DbError::NotFound("active playbook instance".into()))
        );
    }
    assert_eq!(
        submit_action(
            action(1, 42),
            ActionFacts {
                role: role("member"),
                stored: None,
                instance: stored_instance("active")
            }
        ),
        Err(DbError::NotFound("active playbook item".into()))
    );
    assert_eq!(
        submit_action(
            action(1, 41),
            ActionFacts {
                role: role("member"),
                stored: None,
                instance: stored_instance("active")
            }
        ),
        Ok((EVENT.to_vec(), true))
    );
}

fn operation(schema_version: u32, base: u64, name: &str) -> StructureOperation {
    StructureOperation {
        schema_version,
        operation_id: 81,
        instance_id: 51,
        base_structure_revision: base,
        operation: StructureOperationKind::InstanceRename { name: name.into() },
    }
}

fn submit_operation(
    operation: &StructureOperation,
    name: &str,
    stored: Option<StructureOperation>,
    instance: Option<StoredInstance>,
) -> Result<(Vec<u8>, Option<PlaybookInstance>), DbError> {
    let submission = OperationSubmission {
        channel_id: CHANNEL,
        operation,
        event_id: EVENT,
        actor: ACTOR,
    };
    let stored = stored.map(|operation| StoredOperation {
        event_id: vec![8],
        actor: ACTOR.to_vec(),
        channel_id: CHANNEL,
        operation: Some(operation),
    });
    let facts = OperationFacts {
        role: role(name),
        stored,
        instance,
    };
    match apply_structure_operation(submission, facts)? {
        OperationOutcome::Replay(replay) => {
            let result = replay.conclude(());
            assert!(!result.applied);
            Ok((result.canonical_event_id, None))
        }
        OperationOutcome::Accepted(accepted) => {
            let instance = accepted.instance().clone();
            let result = accepted.conclude(());
            assert!(result.applied);
            Ok((result.canonical_event_id, Some(instance)))
        }
    }
}

#[test]
fn operation_faults_are_answered_in_order() {
    let earlier = || Some(operation(1, 1, "Earlier"));
    assert_eq!(
        submit_operation(&operation(0, 5, " "), "member", earlier(), None),
        Err(DbError::InvalidData("unsupported schema_version 0".into()))
    );
    assert_eq!(
        submit_operation(&operation(1, 5, " "), "member", earlier(), None),
        Err(DbError::AccessDenied(
            "channel owner/admin permission required".into()
        ))
    );
    assert_eq!(
        submit_operation(&operation(1, 5, " "), "owner", earlier(), None),
        Err(DbError::Conflict(
            "operation_id was already used for a different operation".into()
        ))
    );
    assert_eq!(
        submit_operation(&operation(1, 1, "Earlier"), "owner", earlier(), None),
        Ok((vec![8], None))
    );
    assert_eq!(
        submit_operation(&operation(1, 5, " "), "owner", None, None),
        Err(DbError::NotFound("playbook instance".into()))
    );
    assert_eq!(
        submit_operation(&operation(1, 5, " "), "owner", None, stored_instance("active")),
        Err(DbError::Conflict(
            "structure revision conflict: current 1, base 5".into()
        ))
    );
    assert_eq!(
        submit_operation(&operation(1, 1, " "), "owner", None, stored_instance("active")),
        Err(DbError::InvalidData("invalid instance name".into()))
    );
    let mut archived = stored_instance("archived").unwrap();
    archived.instance.status = InstanceStatus::Archived;
    assert_eq!(
        submit_operation(&operation(1, 1, "Late"), "owner", None, Some(archived)),
        Err(DbError::InvalidData("instance is archived".into()))
    );
    let mut expected = instance();
    expected.name = "Channel launch".into();
    expected.structure_revision = 2;
    assert_eq!(
        submit_operation(
            &operation(1, 1, "Channel launch"),
            "admin",
            None,
            stored_instance("active")
        ),
        Ok((EVENT.to_vec(), Some(expected)))
    );
}
