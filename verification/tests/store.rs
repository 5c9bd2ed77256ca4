//! Single decisions of the store.

use buzz_playbook::document::{
    InstanceStatus, PlaybookItem, PlaybookSection, TemplateRevision, TemplateStatus,
};
use buzz_playbook::instance::PlaybookInstance;
use buzz_playbook::operation::{
    InstanceInsert, ItemAction, ItemActionKind, StructureOperation, StructureOperationKind,
};
use buzz_playbook::snapshot::{sort_activity, ActivityEntry};
use buzz_playbook::store::access::{require_channel_role, require_schema, require_workspace_admin};
use buzz_playbook::store::action::{
    item_action_name, ActionSettlement, ActionSubmission, InstancePlace, StoredAction, ValidAction,
};
use buzz_playbook::store::cast::{to_signed, to_unsigned};
use buzz_playbook::store::error::DbError;
use buzz_playbook::store::insert::{InsertSettlement, InsertSubmission, ValidInsert};
use buzz_playbook::store::projection::{
    instance_snapshot, template_snapshot, ActionRecord, ActivityRecord, InstanceRecord,
    TemplateRecord,
};
use buzz_playbook::store::structure::{
    instance_status, CurrentStructure, OperationSettlement, OperationSubmission, StoredOperation,
    ValidOperation,
};
use buzz_playbook::store::template::{
    template_status, CurrentTemplate, TemplateSettlement, TemplateSubmission, TemplateSuccession,
    ValidTemplate,
};
use buzz_playbook::text::Id;
use buzz_playbook::time::Timestamp;

const ID: Id = 0x0123_4567_89ab_cdef_0123_4567_89ab_cdef;

fn owner() -> Option<String> {
    Some("owner".into())
}

fn at(seconds: i64) -> Timestamp {
    Timestamp { seconds, nanos: 0 }
}

fn template(revision: u64, status: TemplateStatus) -> TemplateRevision {
    TemplateRevision {
        schema_version: 1,
        template_id: 21,
        revision,
        name: "Launch".into(),
        description: None,
        status,
        sections: vec![PlaybookSection {
            section_id: 31,
            title: "Discovery".into(),
            position: 1000,
            deleted: false,
            items: vec![PlaybookItem {
                item_id: 41,
                text: "Collect access".into(),
                position: 1000,
                deleted: false,
            }],
        }],
    }
}

fn instance() -> PlaybookInstance {
    PlaybookInstance::from_template(51, 61, &template(3, TemplateStatus::Active))
}

fn succession(
    revision: &TemplateRevision,
    current: Option<(i64, &str)>,
) -> Result<bool, DbError> {
    let current = current.map(|(revision, status)| CurrentTemplate {
        revision,
        status: status.into(),
    });
    let submission = TemplateSubmission {
        revision,
        event_id: &[1],
        actor: &[2],
    };
    let permitted = ValidTemplate::check(submission)?.permit(owner())?;
    match permitted.settle(None)? {
        TemplateSettlement::Fresh(fresh) => match fresh.follow(current)? {
            TemplateSuccession::Delete(_) => Ok(false),
            TemplateSuccession::Accept(_) => Ok(true),
        },
        TemplateSettlement::Replay => panic!("nothing is stored"),
    }
}

#[test]
fn words_for_statuses_and_actions() {
    assert_eq!(template_status(TemplateStatus::Active), "active");
    assert_eq!(template_status(TemplateStatus::Archived), "archived");
    assert_eq!(template_status(TemplateStatus::Deleted), "deleted");
    assert_eq!(instance_status(InstanceStatus::Active), "active");
    assert_eq!(instance_status(InstanceStatus::Archived), "archived");
    assert_eq!(item_action_name(ItemActionKind::Complete), "complete");
    assert_eq!(item_action_name(ItemActionKind::Reopen), "reopen");
}

#[test]
fn revision_numbers_keep_their_bits() {
    for n in [0, 1, i64::MAX as u64, i64::MAX as u64 + 1, u64::MAX] {
        assert_eq!(to_signed(n), n as i64);
        assert_eq!(to_unsigned(to_signed(n)), n);
    }
    assert_eq!(to_unsigned(i64::MIN), 1 << 63);
}

#[test]
fn roles() {
    let denied = |text: &str| DbError::AccessDenied(text.into());
    for role in ["owner", "admin"] {
        assert_eq!(require_workspace_admin(Some(role.into())), Ok(()));
        assert_eq!(
            require_channel_role(Some(role.into()), true),
            Ok(role.to_string())
        );
    }
    for role in ["member", "Owner", "guest", ""] {
        assert_eq!(
            require_workspace_admin(Some(role.into())),
            Err(denied("workspace owner/admin permission required"))
        );
        assert_eq!(
            require_channel_role(Some(role.into()), true),
            Err(denied("channel owner/admin permission required"))
        );
        assert_eq!(
            require_channel_role(Some(role.into()), false),
            Ok(role.to_string())
        );
    }
    assert_eq!(
        require_workspace_admin(None),
        Err(denied("workspace owner/admin permission required"))
    );
    for elevated in [true, false] {
        assert_eq!(
            require_channel_role(None, elevated),
            Err(denied("current channel membership required"))
        );
    }
    assert_eq!(require_schema(1), Ok(()));
    assert_eq!(
        require_schema(0),
        Err(DbError::InvalidData("unsupported schema_version 0".into()))
    );
}

#[test]
fn malformed_templates_are_invalid_data() {
    let mut revision = template(1, TemplateStatus::Active);
    revision.sections[0].items[0].position = 0;
    assert_eq!(
        succession(&revision, None),
        Err(DbError::InvalidData("invalid position 0".into()))
    );
}

#[test]
fn workspace_roles_are_looked_up_in_hexadecimal() {
    let revision = template(1, TemplateStatus::Active);
    let valid = ValidTemplate::check(TemplateSubmission {
        revision: &revision,
        event_id: &[1],
        actor: &[0x00, 0x9f, 0xab],
    })
    .ok()
    .unwrap();
    assert_eq!(valid.role_key(), "009fab");
    assert_eq!(
        valid.permit(Some("member".into())).err(),
        Some(DbError::AccessDenied(
            "workspace owner/admin permission required".into()
        ))
    );
}

#[test]
fn template_revisions_follow_each_other() {
    let conflict = |text: &str| Err(DbError::Conflict(text.into()));
    let active = TemplateStatus::Active;
    assert_eq!(succession(&template(1, active), None), Ok(true));
    assert_eq!(
        succession(&template(2, active), None),
        conflict("template revision conflict: expected 1, got 2")
    );
    assert_eq!(
        succession(&template(4, active), Some((3, "active"))),
        Ok(true)
    );
    assert_eq!(
        succession(&template(3, active), Some((3, "active"))),
        conflict("template revision conflict: expected 4, got 3")
    );
    assert_eq!(
        succession(&template(u64::MAX, active), Some((3, "active"))),
        conflict("template revision conflict: expected 4, got 18446744073709551615")
    );
    assert_eq!(
        succession(&template(4, active), Some((3, "archived"))),
        conflict("archived template is immutable")
    );
    assert_eq!(
        succession(&template(4, active), Some((3, "deleted"))),
        conflict("deleted template is immutable")
    );
    assert_eq!(
        succession(&template(5, active), Some((3, "deleted"))),
        conflict("template revision conflict: expected 4, got 5")
    );
    assert_eq!(
        succession(&template(4, TemplateStatus::Archived), Some((3, "active"))),
        Ok(true)
    );
    assert_eq!(
        succession(&template(4, TemplateStatus::Deleted), Some((3, "active"))),
        Ok(false)
    );
}

#[test]
fn stored_template_revisions_stay() {
    let revision = template(5, TemplateStatus::Active);
    let settle = |stored: Vec<u8>| {
        ValidTemplate::check(TemplateSubmission {
            revision: &revision,
            event_id: &[1, 2],
            actor: &[3],
        })
        .and_then(|valid| valid.permit(owner()))
        .and_then(|permitted| {
            assert_eq!(permitted.stored_revision(), 5);
            permitted.settle(Some(stored))
        })
    };
    assert!(matches!(settle(vec![1, 2]), Ok(TemplateSettlement::Replay)));
    assert_eq!(
        settle(vec![1, 2, 3]).err(),
        Some(DbError::Conflict(
            "template revision 5 already exists".into()
        ))
    );
}

#[test]
fn referenced_templates_are_not_deleted() {
    let revision = template(1, TemplateStatus::Deleted);
    for referenced in [true, false] {
        let submission = TemplateSubmission {
            revision: &revision,
            event_id: &[7],
            actor: &[8],
        };
        let fresh = match ValidTemplate::check(submission)
            .and_then(|valid| valid.permit(owner()))
            .and_then(|permitted| permitted.settle(None))
        {
            Ok(TemplateSettlement::Fresh(fresh)) => fresh,
            _ => panic!("nothing is stored"),
        };
        let pending = match fresh.follow(None) {
            Ok(TemplateSuccession::Delete(pending)) => pending,
            _ => panic!("no deletion"),
        };
        let confirmed = pending.confirm(referenced);
        if referenced {
            assert_eq!(
                confirmed.err(),
                Some(DbError::Conflict(
                    "referenced templates must be archived instead of deleted".into()
                ))
            );
        } else {
            let accepted = confirmed.ok().unwrap();
            let row = accepted.row();
            assert_eq!((row.template_id, row.revision), (21, 1));
            assert_eq!(row.status, "deleted");
            assert_eq!((row.event_id, row.actor), (&[7][..], &[8][..]));
        }
    }
}

fn permitted_insert<'a>(schema_version: u32) -> Result<InsertSettlement<'a>, DbError> {
    let request = InstanceInsert {
        schema_version,
        instance_id: 51,
        channel_id: 61,
        template_id: 21,
    };
    ValidInsert::check(InsertSubmission {
        request,
        event_id: &[1],
        actor: &[2],
    })?
    .permit(owner())?
    .settle(None)
}

#[test]
fn instances_are_copied_from_active_templates() {
    assert_eq!(
        permitted_insert(9).err(),
        Some(DbError::InvalidData("unsupported schema_version 9".into()))
    );
    for status in [None, Some("archived"), Some("deleted"), Some("Active")] {
        let fresh = match permitted_insert(1) {
            Ok(InsertSettlement::Fresh(fresh)) => fresh,
            _ => panic!("nothing is stored"),
        };
        assert_eq!(
            fresh.locate(status.map(String::from)).err(),
            Some(DbError::NotFound("active playbook template".into()))
        );
    }
    for unique_violation in [false, true] {
        let fresh = match permitted_insert(1) {
            Ok(InsertSettlement::Fresh(fresh)) => fresh,
            _ => panic!("nothing is stored"),
        };
        let located = fresh.locate(Some("active".into())).ok().unwrap();
        let accepted = located.copy(&template(3, TemplateStatus::Active));
        assert_eq!(accepted.instance(), &instance());
        let row = accepted.row();
        assert_eq!((row.instance_id, row.channel_id), (51, 61));
        assert_eq!(
            (row.source_template_id, row.source_template_revision),
            (21, 3)
        );
        assert_eq!((row.structure_revision, row.status), (1, "active"));
        assert_eq!((row.event_id, row.actor), (&[1][..], &[2][..]));
        let confirmed = accepted.confirm(unique_violation);
        if unique_violation {
            assert_eq!(
                confirmed,
                Err(DbError::Conflict(
                    "channel already has an active playbook".into()
                ))
            );
        } else {
            assert_eq!(confirmed, Ok(instance()));
        }
    }
}

#[test]
fn stored_instances_stay() {
    let settle = |role: &str, stored: Vec<u8>| {
        ValidInsert::check(InsertSubmission {
            request: InstanceInsert {
                schema_version: 1,
                instance_id: 51,
                channel_id: 61,
                template_id: 21,
            },
            event_id: &[1],
            actor: &[2],
        })
        .and_then(|valid| valid.permit(Some(role.into())))
        .and_then(|permitted| permitted.settle(Some(stored)))
    };
    assert!(matches!(
        settle("admin", vec![1]),
        Ok(InsertSettlement::Replay)
    ));
    assert_eq!(
        settle("admin", vec![2]).err(),
        Some(DbError::Conflict("instance_id already exists".into()))
    );
    assert_eq!(
        settle("member", vec![1]).err(),
        Some(DbError::AccessDenied(
            "channel owner/admin permission required".into()
        ))
    );
}

fn action() -> ItemAction {
    ItemAction {
        schema_version: 1,
        action_id: ID,
        instance_id: 51,
        item_id: 41,
        action: ItemActionKind::Complete,
        client_created_at: at(1_700_000_000),
    }
}

fn settle_action<'a>(
    action: ItemAction,
    stored: Option<StoredAction>,
) -> Result<ActionSettlement<'a>, DbError> {
    let submission = ActionSubmission {
        channel_id: 61,
        action,
        event_id: &[9],
        actor: &[2],
    };
    let permitted = ValidAction::check(submission)?.permit(Some("member".into()))?;
    assert_eq!(
        permitted.lock_key(0),
        "playbook-item-action:00000000-0000-0000-0000-000000000000:\
         01234567-89ab-cdef-0123-456789abcdef"
    );
    permitted.settle(stored)
}

fn stored_action() -> StoredAction {
    StoredAction {
        event_id: vec![1],
        actor: vec![2],
        channel_id: 61,
        action: Some(action()),
    }
}

#[test]
fn repeated_actions_are_answered_with_the_first_event() {
    match settle_action(action(), Some(stored_action())) {
        Ok(ActionSettlement::Replay(replay)) => {
            let result = replay.conclude("snapshot");
            assert_eq!(result.snapshot, "snapshot");
            assert_eq!(result.canonical_event_id, vec![1]);
            assert!(!result.applied);
        }
        _ => panic!("no replay"),
    }
}

#[test]
fn different_actions_under_one_identifier_conflict() {
    let other_actor = StoredAction {
        actor: vec![3],
        ..stored_action()
    };
    let other_channel = StoredAction {
        channel_id: 62,
        ..stored_action()
    };
    let other_time = StoredAction {
        action: Some(ItemAction {
            client_created_at: at(1_700_000_001),
            ..action()
        }),
        ..stored_action()
    };
    let unreadable = StoredAction {
        action: None,
        ..stored_action()
    };
    for stored in [other_actor, other_channel, other_time, unreadable] {
        assert_eq!(
            settle_action(action(), Some(stored)).err(),
            Some(DbError::Conflict(
                "action_id was already used for a different action".into()
            ))
        );
    }
    let newer = ItemAction {
        schema_version: 2,
        ..action()
    };
    assert_eq!(
        settle_action(newer, None).err(),
        Some(DbError::InvalidData("unsupported schema_version 2".into()))
    );
}

#[test]
fn actions_need_a_live_item_of_an_active_instance() {
    let fresh = || match settle_action(action(), None) {
        Ok(ActionSettlement::Fresh(fresh)) => fresh,
        _ => panic!("nothing is stored"),
    };
    let place = |channel_id: Id, status: &str| {
        Some(InstancePlace {
            channel_id,
            status: status.into(),
        })
    };
    for missing in [None, place(62, "active"), place(61, "archived")] {
        assert_eq!(
            fresh().locate(missing).err(),
            Some(DbError::NotFound("active playbook instance".into()))
        );
    }
    let mut removed = instance();
    removed.sections[0].items[0].deleted = true;
    let located = fresh().locate(place(61, "active")).ok().unwrap();
    assert_eq!(
        located.target(&removed).err(),
        Some(DbError::NotFound("active playbook item".into()))
    );
    let located = fresh().locate(place(61, "active")).ok().unwrap();
    let accepted = located.target(&instance()).ok().unwrap();
    let row = accepted.row();
    assert_eq!(
        (row.action_id, row.instance_id, row.item_id),
        (ID, 51, 41)
    );
    assert_eq!(row.action, "complete");
    assert_eq!((row.event_id, row.actor), (&[9][..], &[2][..]));
    assert_eq!(row.client_created_at, at(1_700_000_000));
    let result = accepted.conclude(());
    assert_eq!(result.canonical_event_id, vec![9]);
    assert!(result.applied);
}

fn rename(base_structure_revision: u64, name: &str) -> StructureOperation {
    StructureOperation {
        schema_version: 1,
        operation_id: ID,
        instance_id: 51,
        base_structure_revision,
        operation: StructureOperationKind::InstanceRename { name: name.into() },
    }
}

fn settle_operation(
    operation: &StructureOperation,
    stored: Option<StoredOperation>,
) -> Result<OperationSettlement<'_>, DbError> {
    let submission = OperationSubmission {
        channel_id: 61,
        operation,
        event_id: &[9],
        actor: &[2],
    };
    let permitted = ValidOperation::check(submission)?.permit(Some("admin".into()))?;
    assert_eq!(
        permitted.lock_key(ID),
        "playbook-structure-operation:01234567-89ab-cdef-0123-456789abcdef:\
         01234567-89ab-cdef-0123-456789abcdef"
    );
    permitted.settle(stored)
}

#[test]
fn repeated_operations_are_answered_with_the_first_event() {
    let stored = |actor: u8, channel_id: Id, operation: Option<StructureOperation>| {
        Some(StoredOperation {
            event_id: vec![1],
            actor: vec![actor],
            channel_id,
            operation,
        })
    };
    let operation = rename(1, "Channel copy");
    match settle_operation(&operation, stored(2, 61, Some(operation.clone()))) {
        Ok(OperationSettlement::Replay(replay)) => {
            let result = replay.conclude(());
            assert_eq!(result.canonical_event_id, vec![1]);
            assert!(!result.applied);
        }
        _ => panic!("no replay"),
    }
    for different in [
        stored(3, 61, Some(operation.clone())),
        stored(2, 62, Some(operation.clone())),
        stored(2, 61, Some(rename(2, "Channel copy"))),
        stored(2, 61, Some(rename(1, "Changed reuse"))),
        stored(2, 61, None),
    ] {
        assert_eq!(
            settle_operation(&operation, different).err(),
            Some(DbError::Conflict(
                "operation_id was already used for a different operation".into()
            ))
        );
    }
    let newer = StructureOperation {
        schema_version: 3,
        ..rename(1, "Channel copy")
    };
    assert_eq!(
        settle_operation(&newer, None).err(),
        Some(DbError::InvalidData("unsupported schema_version 3".into()))
    );
}

#[test]
fn operations_need_the_current_revision() {
    let check = |base: u64, current: Option<(Id, i64)>| {
        let operation = rename(base, "Channel copy");
        let fresh = match settle_operation(&operation, None) {
            Ok(OperationSettlement::Fresh(fresh)) => fresh,
            _ => panic!("nothing is stored"),
        };
        let current = current.map(|(channel_id, structure_revision)| CurrentStructure {
            channel_id,
            structure_revision,
        });
        fresh.check_base(current).map(|_| ())
    };
    assert_eq!(check(2, Some((61, 2))), Ok(()));
    assert_eq!(
        check(1, Some((61, 2))),
        Err(DbError::Conflict(
            "structure revision conflict: current 2, base 1".into()
        ))
    );
    assert_eq!(
        check(u64::MAX, Some((61, -2))),
        Err(DbError::Conflict(
            "structure revision conflict: current -2, base 18446744073709551615".into()
        ))
    );
    for missing in [None, Some((62, 2))] {
        assert_eq!(
            check(2, missing),
            Err(DbError::NotFound("playbook instance".into()))
        );
    }
}

#[test]
fn accepted_operations_raise_the_revision() {
    let current = |operation: &'static StructureOperation| {
        let fresh = match settle_operation(operation, None) {
            Ok(OperationSettlement::Fresh(fresh)) => fresh,
            _ => panic!("nothing is stored"),
        };
        fresh
            .check_base(Some(CurrentStructure {
                channel_id: 61,
                structure_revision: 1,
            }))
            .ok()
            .unwrap()
    };
    let operation: &'static StructureOperation = Box::leak(Box::new(rename(1, "Channel copy")));
    let accepted = current(operation).edit(instance()).ok().unwrap();
    let mut expected = instance();
    expected.name = "Channel copy".into();
    expected.structure_revision = 2;
    assert_eq!(accepted.instance(), &expected);
    let row = accepted.row();
    assert_eq!((row.operation_id, row.instance_id), (ID, 51));
    assert_eq!((row.base_revision, row.result_revision), (1, 2));
    assert_eq!(
        (row.operation_type, row.status),
        ("instance.rename", "active")
    );
    assert_eq!((row.event_id, row.actor), (&[9][..], &[2][..]));
    let result = accepted.conclude(());
    assert_eq!(result.canonical_event_id, vec![9]);
    assert!(result.applied);

    let mut archived = instance();
    archived.status = InstanceStatus::Archived;
    assert_eq!(
        current(operation).edit(archived).err(),
        Some(DbError::InvalidData("instance is archived".into()))
    );
    let archive: &'static StructureOperation = Box::leak(Box::new(StructureOperation {
        operation: StructureOperationKind::InstanceArchive,
        ..rename(1, "")
    }));
    let accepted = current(archive).edit(instance()).ok().unwrap();
    assert_eq!(accepted.row().status, "archived");
}

#[test]
fn template_projections_show_who_and_when() {
    let record = TemplateRecord {
        template: template(2, TemplateStatus::Active),
        last_actor: vec![0xde, 0xad],
        accepted_at: at(5),
        last_event_id: vec![0x00, 0x0f, 0xff],
    };
    let snapshot = template_snapshot(Some(record)).unwrap();
    assert_eq!(snapshot.template, template(2, TemplateStatus::Active));
    assert_eq!(snapshot.actor_pubkey, "dead");
    assert_eq!(snapshot.accepted_at, at(5));
    assert_eq!(snapshot.event_id, "000fff");
    assert_eq!(
        template_snapshot(None).err(),
        Some(DbError::NotFound("playbook template".into()))
    );
}

#[test]
fn instance_projections_show_states_and_history() {
    let record = || InstanceRecord {
        instance: instance(),
        created_event_id: vec![0xc0],
        created_by: vec![0x01],
        accepted_at: at(10),
    };
    let action = |name: &str, seconds: i64, event: u8| ActionRecord {
        item_id: 41,
        action: name.into(),
        actor: vec![0x02],
        accepted_at: at(seconds),
        client_created_at: at(1),
        event_id: vec![event],
    };
    let entry = |name: &str, seconds: i64, event: u8, revision: Option<i64>| ActivityRecord {
        event_id: vec![event],
        actor: vec![0x02],
        accepted_at: at(seconds),
        client_created_at: None,
        action: name.into(),
        item_id: None,
        structure_revision: revision,
    };
    let snapshot = instance_snapshot(
        Some(record()),
        vec![action("complete", 12, 0xb0), action("reopen", 11, 0xff)],
        vec![
            entry("item.add", 12, 0xb0, Some(-1)),
            entry("complete", 12, 0xa0, None),
            entry("reopen", 9, 0x00, Some(2)),
        ],
    )
    .unwrap();
    assert_eq!(snapshot.instance, instance());
    assert_eq!(snapshot.item_states.len(), 1);
    assert!(snapshot.item_states[0].completed);
    assert_eq!(snapshot.item_states[0].event_id, "b0");
    assert_eq!(snapshot.item_states[0].actor_pubkey, "02");
    assert_eq!(snapshot.item_states[0].client_created_at, Some(at(1)));
    let history: Vec<(&str, &str, Option<u64>)> = snapshot
        .activity
        .iter()
        .map(|entry| {
            (
                entry.action.as_str(),
                entry.event_id.as_str(),
                entry.structure_revision,
            )
        })
        .collect();
    assert_eq!(
        history,
        [
            ("reopen", "00", Some(2)),
            ("instance.insert", "c0", Some(1)),
            ("complete", "a0", None),
            ("item.add", "b0", Some(u64::MAX)),
        ]
    );
    assert_eq!(
        instance_snapshot(None, vec![], vec![]),
        Err(DbError::NotFound("playbook instance".into()))
    );
}

#[test]
fn sorting_is_stable_and_ignores_the_order_of_reading() {
    let entry = |seconds: i64, event_id: &str, action: &str| ActivityEntry {
        event_id: event_id.into(),
        actor_pubkey: String::new(),
        accepted_at: at(seconds),
        client_created_at: None,
        action: action.into(),
        item_id: None,
        structure_revision: None,
    };
    let sorted = sort_activity(vec![
        entry(2, "b", "first"),
        entry(1, "c", "second"),
        entry(2, "a", "third"),
        entry(2, "b", "fourth"),
    ]);
    assert_eq!(
        sorted,
        vec![
            entry(1, "c", "second"),
            entry(2, "a", "third"),
            entry(2, "b", "first"),
            entry(2, "b", "fourth"),
        ]
    );
    assert_eq!(sort_activity(sorted.clone()), sorted);
    let read = vec![entry(3, "x", ""), entry(1, "y", ""), entry(2, "z", "")];
    let mut reversed = read.clone();
    reversed.reverse();
    assert_eq!(sort_activity(read), sort_activity(reversed));
    assert_eq!(sort_activity(vec![]), vec![]);
}

#[test]
fn identifiers_in_print_are_told_apart_and_keep_their_order() {
    let printed = |event_id: &[u8]| {
        let record = TemplateRecord {
            template: template(2, TemplateStatus::Active),
            last_actor: vec![],
            accepted_at: at(5),
            last_event_id: event_id.to_vec(),
        };
        template_snapshot(Some(record)).unwrap().event_id
    };
    let events: [&[u8]; 6] = [&[], &[0x00], &[0x09, 0xff], &[0x0a], &[0x9f], &[0xa0, 0x00]];
    for left in events {
        for right in events {
            assert_eq!(printed(left) < printed(right), left < right);
            assert_eq!(printed(left) == printed(right), left == right);
        }
    }
    let key = |community: Id, action_id: Id| {
        ValidAction::check(ActionSubmission {
            channel_id: 61,
            action: ItemAction {
                action_id,
                ..action()
            },
            event_id: &[9],
            actor: &[2],
        })
        .and_then(|valid| valid.permit(Some("member".into())))
        .map(|permitted| permitted.lock_key(community))
        .ok()
        .unwrap()
    };
    assert_ne!(key(1, 2), key(2, 1));
    assert_ne!(key(1, 2), key(1, 3));
    assert_eq!(key(1, 2), key(1, 2));
}
