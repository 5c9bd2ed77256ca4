//! Documents, edits and item states.

use buzz_playbook::document::{
    InstanceStatus, PlaybookItem, PlaybookSection, TemplateRevision, TemplateStatus,
};
use buzz_playbook::error::PlaybookError;
use buzz_playbook::instance::PlaybookInstance;
use buzz_playbook::operation::StructureOperationKind;
use buzz_playbook::state::{fold_item_states, ItemState};
use buzz_playbook::text::Id;
use buzz_playbook::time::Timestamp;
use buzz_playbook::validate::validate_sections;
use uuid::Uuid;

fn new_id() -> Id {
    Uuid::new_v4().as_u128()
}

fn at(seconds: i64) -> Timestamp {
    Timestamp { seconds, nanos: 0 }
}

fn template() -> TemplateRevision {
    TemplateRevision {
        schema_version: 1,
        template_id: new_id(),
        revision: 1,
        name: "Launch".into(),
        description: None,
        status: TemplateStatus::Active,
        sections: vec![PlaybookSection {
            section_id: new_id(),
            title: "Discovery".into(),
            position: 1000,
            deleted: false,
            items: vec![PlaybookItem {
                item_id: new_id(),
                text: "Collect access".into(),
                position: 1000,
                deleted: false,
            }],
        }],
    }
}

fn instance_of(source: &TemplateRevision) -> PlaybookInstance {
    PlaybookInstance::from_template(new_id(), new_id(), source)
}

#[test]
fn deep_copy_isolation() {
    let source = template();
    let mut instance = instance_of(&source);
    instance.sections[0].items[0].text = "Changed".into();
    assert_eq!(source.sections[0].items[0].text, "Collect access");
}

#[test]
fn duplicate_item_ids_are_rejected_across_sections() {
    let mut value = template();
    let duplicate = value.sections[0].items[0].clone();
    value.sections.push(PlaybookSection {
        section_id: new_id(),
        title: "Other".into(),
        position: 2000,
        items: vec![duplicate],
        deleted: false,
    });
    assert!(matches!(
        value.validate(),
        Err(PlaybookError::DuplicateId("item", _))
    ));
}

#[test]
fn tombstone_and_restore_reuse_item_id() {
    let source = template();
    let item_id = source.sections[0].items[0].item_id;
    let mut instance = instance_of(&source);
    instance
        .apply_operation(&StructureOperationKind::ItemRemove { item_id })
        .unwrap();
    assert!(!instance.has_active_item(item_id));
    instance
        .apply_operation(&StructureOperationKind::ItemRestore { item_id })
        .unwrap();
    assert!(instance.has_active_item(item_id));
}

#[test]
fn restore_item_under_removed_section_is_rejected() {
    let source = template();
    let section_id = source.sections[0].section_id;
    let item_id = source.sections[0].items[0].item_id;
    let mut instance = instance_of(&source);
    instance
        .apply_operation(&StructureOperationKind::ItemRemove { item_id })
        .unwrap();
    instance
        .apply_operation(&StructureOperationKind::SectionRemove { section_id })
        .unwrap();
    assert_eq!(
        instance.apply_operation(&StructureOperationKind::ItemRestore { item_id }),
        Err(PlaybookError::Removed("section"))
    );
}

#[test]
fn edits_to_items_under_removed_sections_are_rejected() {
    let source = template();
    let section_id = source.sections[0].section_id;
    let item_id = source.sections[0].items[0].item_id;
    let mut instance = instance_of(&source);
    instance
        .apply_operation(&StructureOperationKind::SectionRemove { section_id })
        .unwrap();

    for operation in [
        StructureOperationKind::ItemUpdate {
            item_id,
            text: "Hidden edit".into(),
        },
        StructureOperationKind::ItemRemove { item_id },
        StructureOperationKind::ItemReorder {
            item_id,
            position: 2000,
        },
    ] {
        assert_eq!(
            instance.apply_operation(&operation),
            Err(PlaybookError::Removed("section"))
        );
    }
    assert_eq!(instance.sections[0].items[0].text, "Collect access");
    assert_eq!(instance.sections[0].items[0].position, 1000);
    assert!(!instance.sections[0].items[0].deleted);
}

#[test]
fn progress_ignores_tombstones_and_handles_zero_items() {
    let source = template();
    let item_id = source.sections[0].items[0].item_id;
    let mut instance = instance_of(&source);
    let now = chrono::Utc::now();
    let states = vec![ItemState {
        item_id,
        completed: true,
        actor_pubkey: "a".repeat(64),
        accepted_at: Timestamp {
            seconds: now.timestamp(),
            nanos: now.timestamp_subsec_nanos(),
        },
        client_created_at: None,
        event_id: "b".repeat(64),
    }];
    assert_eq!(instance.progress(&states), (1, 1));
    instance.sections[0].items[0].deleted = true;
    assert_eq!(instance.progress(&states), (0, 0));
}

#[test]
fn archived_instance_rejects_further_edits() {
    let source = template();
    let mut instance = instance_of(&source);
    instance
        .apply_operation(&StructureOperationKind::InstanceArchive)
        .unwrap();
    assert_eq!(
        instance.apply_operation(&StructureOperationKind::InstanceRename {
            name: "Nope".into()
        }),
        Err(PlaybookError::Archived)
    );
}

#[test]
fn operation_wire_names_are_stable() {
    assert_eq!(
        StructureOperationKind::InstanceArchive.name(),
        "instance.archive"
    );
}

#[test]
fn duplicate_item_uses_fresh_id_and_independent_position() {
    let source = template();
    let item_id = source.sections[0].items[0].item_id;
    let new_item_id = new_id();
    let mut instance = instance_of(&source);
    instance
        .apply_operation(&StructureOperationKind::ItemDuplicate {
            item_id,
            new_item_id,
            position: 2000,
        })
        .unwrap();
    assert_eq!(instance.sections[0].items.len(), 2);
    assert_eq!(instance.sections[0].items[1].item_id, new_item_id);
    assert_eq!(instance.sections[0].items[1].text, "Collect access");
    assert_eq!(instance.sections[0].items[1].position, 2000);
}

#[test]
fn every_structural_operation_applies_with_stable_tombstones_and_ids() {
    let source = template();
    let original_section_id = source.sections[0].section_id;
    let original_item_id = source.sections[0].items[0].item_id;
    let added_section_id = new_id();
    let added_item_id = new_id();
    let duplicated_item_id = new_id();
    let mut instance = instance_of(&source);

    let operations = [
        StructureOperationKind::SectionAdd {
            section: PlaybookSection {
                section_id: added_section_id,
                title: "Launch".into(),
                position: 2000,
                deleted: false,
                items: vec![],
            },
        },
        StructureOperationKind::SectionUpdate {
            section_id: added_section_id,
            title: "Launch day".into(),
        },
        StructureOperationKind::SectionReorder {
            section_id: added_section_id,
            position: 500,
        },
        StructureOperationKind::SectionRemove {
            section_id: added_section_id,
        },
        StructureOperationKind::SectionRestore {
            section_id: added_section_id,
        },
        StructureOperationKind::ItemAdd {
            section_id: original_section_id,
            item: PlaybookItem {
                item_id: added_item_id,
                text: "Confirm owner".into(),
                position: 2000,
                deleted: false,
            },
        },
        StructureOperationKind::ItemUpdate {
            item_id: added_item_id,
            text: "Confirm launch owner".into(),
        },
        StructureOperationKind::ItemReorder {
            item_id: added_item_id,
            position: 500,
        },
        StructureOperationKind::ItemRemove {
            item_id: added_item_id,
        },
        StructureOperationKind::ItemRestore {
            item_id: added_item_id,
        },
        StructureOperationKind::ItemDuplicate {
            item_id: original_item_id,
            new_item_id: duplicated_item_id,
            position: 3000,
        },
        StructureOperationKind::InstanceRename {
            name: "Channel launch".into(),
        },
    ];
    for operation in operations {
        instance.apply_operation(&operation).unwrap();
    }

    let added_section = instance
        .sections
        .iter()
        .find(|section| section.section_id == added_section_id)
        .unwrap();
    assert_eq!(added_section.title, "Launch day");
    assert_eq!(added_section.position, 500);
    assert!(!added_section.deleted);
    let added_item = instance
        .sections
        .iter()
        .flat_map(|section| &section.items)
        .find(|item| item.item_id == added_item_id)
        .unwrap();
    assert_eq!(added_item.text, "Confirm launch owner");
    assert_eq!(added_item.position, 500);
    assert!(!added_item.deleted);
    assert!(instance
        .sections
        .iter()
        .flat_map(|section| &section.items)
        .any(|item| item.item_id == duplicated_item_id));
    assert_eq!(instance.name, "Channel launch");

    instance
        .apply_operation(&StructureOperationKind::InstanceArchive)
        .unwrap();
    assert_eq!(instance.status, InstanceStatus::Archived);
}

#[test]
fn malformed_template_shapes_fail_closed() {
    let mut value = template();
    value.schema_version = 2;
    assert_eq!(value.validate(), Err(PlaybookError::SchemaVersion(2)));

    let mut value = template();
    value.sections[0].items[0].position = 0;
    assert_eq!(value.validate(), Err(PlaybookError::InvalidPosition(0)));

    let mut value = template();
    value.name = "  ".into();
    assert_eq!(
        value.validate(),
        Err(PlaybookError::InvalidText("template name"))
    );
}

#[test]
fn item_state_fold_is_permutation_independent_with_event_id_tiebreak() {
    let item_id = new_id();
    let complete = ItemState {
        item_id,
        completed: true,
        actor_pubkey: "a".repeat(64),
        accepted_at: at(1_700_000_000),
        client_created_at: None,
        event_id: "1".repeat(64),
    };
    let reopen = ItemState {
        completed: false,
        actor_pubkey: "b".repeat(64),
        event_id: "f".repeat(64),
        ..complete.clone()
    };
    let forward = fold_item_states(vec![complete.clone(), reopen.clone()]);
    let reverse = fold_item_states(vec![reopen, complete]);
    assert_eq!(forward, reverse);
    assert!(!forward[0].completed);
}

// The error that a template with two sections of one item each, changed by `change`, gives.
fn fault_after(change: fn(&mut TemplateRevision)) -> Result<(), PlaybookError> {
    let mut value = template();
    value.sections.push(PlaybookSection {
        section_id: 7,
        title: "Launch".into(),
        position: 2000,
        deleted: false,
        items: vec![PlaybookItem {
            item_id: 8,
            text: "Announce".into(),
            position: 1,
            deleted: true,
        }],
    });
    change(&mut value);
    value.validate()
}

#[test]
fn validation_reports_the_first_fault_in_document_order() {
    assert_eq!(fault_after(|_| {}), Ok(()));
    assert_eq!(
        fault_after(|value| value.revision = 0),
        Err(PlaybookError::InvalidPosition(0))
    );
    assert_eq!(
        fault_after(|value| value.sections[0].section_id = 7),
        Err(PlaybookError::DuplicateId("section", 7))
    );
    assert_eq!(
        fault_after(|value| value.sections[1].title = "\u{3000}\t".into()),
        Err(PlaybookError::InvalidText("section title"))
    );
    assert_eq!(
        fault_after(|value| value.sections[1].position = -5),
        Err(PlaybookError::InvalidPosition(-5))
    );
    assert_eq!(
        fault_after(|value| value.sections[1].items[0].text = String::new()),
        Err(PlaybookError::InvalidText("item text"))
    );
    assert_eq!(
        fault_after(|value| {
            value.sections[1].title = " ".into();
            value.sections[0].items[0].position = 0;
        }),
        Err(PlaybookError::InvalidPosition(0))
    );
    assert_eq!(
        fault_after(|value| {
            let copy = value.sections[1].items[0].clone();
            value.sections[1].items.push(copy);
        }),
        Err(PlaybookError::DuplicateId("item", 8))
    );
    assert_eq!(fault_after(|value| value.sections = vec![]), Ok(()));
}

#[test]
fn errors_in_words() {
    let id = 0x0123_4567_89ab_cdef_0123_4567_89ab_cdef;
    let printed = "01234567-89ab-cdef-0123-456789abcdef";
    assert_eq!(
        PlaybookError::SchemaVersion(u32::MAX).message(),
        "unsupported schema_version 4294967295"
    );
    assert_eq!(
        PlaybookError::InvalidText("item text").message(),
        "invalid item text"
    );
    assert_eq!(
        PlaybookError::DuplicateId("section", id).message(),
        format!("duplicate section id {printed}")
    );
    assert_eq!(
        PlaybookError::InvalidPosition(i64::MIN).message(),
        "invalid position -9223372036854775808"
    );
    assert_eq!(
        PlaybookError::SectionNotFound(id).message(),
        format!("section not found: {printed}")
    );
    assert_eq!(
        PlaybookError::ItemNotFound(0).message(),
        "item not found: 00000000-0000-0000-0000-000000000000"
    );
    assert_eq!(PlaybookError::Removed("item").message(), "item is removed");
    assert_eq!(
        PlaybookError::AlreadyActive("section").message(),
        "section is already active"
    );
    assert_eq!(PlaybookError::Archived.message(), "instance is archived");
}

#[test]
fn refused_edits_leave_the_instance_unchanged() {
    let source = template();
    let section_id = source.sections[0].section_id;
    let item_id = source.sections[0].items[0].item_id;
    let absent = new_id();
    let section = source.sections[0].clone();
    let item = source.sections[0].items[0].clone();
    let mut instance = instance_of(&source);
    let before = instance.clone();
    for (operation, error) in [
        (
            StructureOperationKind::SectionAdd { section },
            PlaybookError::DuplicateId("section", section_id),
        ),
        (
            StructureOperationKind::SectionUpdate {
                section_id: absent,
                title: "Other".into(),
            },
            PlaybookError::SectionNotFound(absent),
        ),
        (
            StructureOperationKind::SectionUpdate {
                section_id,
                title: " ".into(),
            },
            PlaybookError::InvalidText("section title"),
        ),
        (
            StructureOperationKind::SectionRestore { section_id },
            PlaybookError::AlreadyActive("section"),
        ),
        (
            StructureOperationKind::SectionReorder {
                section_id,
                position: 0,
            },
            PlaybookError::InvalidPosition(0),
        ),
        (
            StructureOperationKind::ItemAdd { section_id, item },
            PlaybookError::DuplicateId("item", item_id),
        ),
        (
            StructureOperationKind::ItemUpdate {
                item_id: absent,
                text: "Other".into(),
            },
            PlaybookError::ItemNotFound(absent),
        ),
        (
            StructureOperationKind::ItemRestore { item_id },
            PlaybookError::AlreadyActive("item"),
        ),
        (
            StructureOperationKind::ItemReorder {
                item_id,
                position: -1,
            },
            PlaybookError::InvalidPosition(-1),
        ),
        (
            StructureOperationKind::ItemDuplicate {
                item_id,
                new_item_id: item_id,
                position: 1,
            },
            PlaybookError::DuplicateId("item", item_id),
        ),
        (
            StructureOperationKind::InstanceRename { name: "\n".into() },
            PlaybookError::InvalidText("instance name"),
        ),
    ] {
        assert_eq!(instance.apply_operation(&operation), Err(error));
        assert_eq!(instance, before);
    }
}

#[test]
fn removing_twice_is_refused() {
    let source = template();
    let section_id = source.sections[0].section_id;
    let item_id = source.sections[0].items[0].item_id;
    let mut instance = instance_of(&source);
    let remove_item = StructureOperationKind::ItemRemove { item_id };
    instance.apply_operation(&remove_item).unwrap();
    assert_eq!(
        instance.apply_operation(&remove_item),
        Err(PlaybookError::Removed("item"))
    );
    let remove_section = StructureOperationKind::SectionRemove { section_id };
    instance.apply_operation(&remove_section).unwrap();
    assert_eq!(
        instance.apply_operation(&remove_section),
        Err(PlaybookError::Removed("section"))
    );
    assert_eq!(instance.sections.len(), 1);
    assert_eq!(instance.sections[0].items.len(), 1);
}

#[test]
fn removal_and_restoration_undo_each_other() {
    let source = template();
    let section_id = source.sections[0].section_id;
    let item_id = source.sections[0].items[0].item_id;
    let mut instance = instance_of(&source);
    let before = instance.clone();
    for operation in [
        StructureOperationKind::SectionRemove { section_id },
        StructureOperationKind::SectionRestore { section_id },
        StructureOperationKind::ItemRemove { item_id },
        StructureOperationKind::ItemRestore { item_id },
    ] {
        instance.apply_operation(&operation).unwrap();
    }
    assert_eq!(instance, before);
}

#[test]
fn copies_carry_their_provenance() {
    let mut source = template();
    source.revision = 4;
    let instance = PlaybookInstance::from_template(11, 12, &source);
    assert_eq!(instance.schema_version, 1);
    assert_eq!(instance.instance_id, 11);
    assert_eq!(instance.channel_id, 12);
    assert_eq!(instance.name, "Launch");
    assert_eq!(instance.source_template_id, source.template_id);
    assert_eq!(instance.source_template_revision, 4);
    assert_eq!(instance.structure_revision, 1);
    assert_eq!(instance.status, InstanceStatus::Active);
    assert_eq!(instance.sections, source.sections);
}

#[test]
fn progress_counts_what_is_live_and_completed() {
    let mut source = template();
    for n in 0..3 {
        source.sections[0].items.push(PlaybookItem {
            item_id: n,
            text: format!("Step {n}"),
            position: 2000,
            deleted: false,
        });
    }
    let mut instance = instance_of(&source);
    let state = |item_id: Id, completed: bool| ItemState {
        item_id,
        completed,
        actor_pubkey: "a".into(),
        accepted_at: at(1),
        client_created_at: None,
        event_id: "e".into(),
    };
    let states = [state(0, true), state(1, false), state(2, true), state(9, true)];
    assert_eq!(instance.progress(&states), (2, 4));
    instance.sections[0].deleted = true;
    assert_eq!(instance.progress(&states), (0, 0));
    assert!(!instance.has_active_item(0));
}

#[test]
fn the_latest_action_decides_and_states_are_ordered_by_item() {
    let state = |item_id: Id, completed: bool, seconds: i64, event_id: &str| ItemState {
        item_id,
        completed,
        actor_pubkey: String::new(),
        accepted_at: at(seconds),
        client_created_at: Some(at(100 - seconds)),
        event_id: event_id.into(),
    };
    let folded = fold_item_states(vec![
        state(5, true, 3, "aa"),
        state(2, true, 1, "bb"),
        state(5, false, 2, "ff"),
        state(2, false, 1, "ba"),
        state(9, true, 1, "cc"),
        // the same moment twice: the first stays
        state(9, false, 1, "cc"),
    ]);
    assert_eq!(
        folded,
        vec![
            state(2, true, 1, "bb"),
            state(5, true, 3, "aa"),
            state(9, true, 1, "cc")
        ]
    );
    assert_eq!(fold_item_states(folded.clone()), folded);
    assert_eq!(fold_item_states(vec![]), vec![]);
}

#[test]
fn names_of_all_operations() {
    let item = PlaybookItem {
        item_id: 1,
        text: "Item".into(),
        position: 1,
        deleted: false,
    };
    let section = PlaybookSection {
        section_id: 2,
        title: "Section".into(),
        position: 1,
        deleted: false,
        items: vec![],
    };
    let names: Vec<&str> = [
        StructureOperationKind::SectionAdd { section },
        StructureOperationKind::SectionUpdate {
            section_id: 2,
            title: "Other".into(),
        },
        StructureOperationKind::SectionRemove { section_id: 2 },
        StructureOperationKind::SectionRestore { section_id: 2 },
        StructureOperationKind::SectionReorder {
            section_id: 2,
            position: 3,
        },
        StructureOperationKind::ItemAdd {
            section_id: 2,
            item,
        },
        StructureOperationKind::ItemUpdate {
            item_id: 1,
            text: "Other".into(),
        },
        StructureOperationKind::ItemRemove { item_id: 1 },
        StructureOperationKind::ItemRestore { item_id: 1 },
        StructureOperationKind::ItemReorder {
            item_id: 1,
            position: 3,
        },
        StructureOperationKind::ItemDuplicate {
            item_id: 1,
            new_item_id: 4,
            position: 3,
        },
        StructureOperationKind::InstanceRename {
            name: "Other".into(),
        },
        StructureOperationKind::InstanceArchive,
    ]
    .iter()
    .map(|operation| operation.name())
    .collect();
    assert_eq!(
        names,
        [
            "section.add",
            "section.update",
            "section.remove",
            "section.restore",
            "section.reorder",
            "item.add",
            "item.update",
            "item.remove",
            "item.restore",
            "item.reorder",
            "item.duplicate",
            "instance.rename",
            "instance.archive",
        ]
    );
}

#[test]
fn edits_keep_documents_valid_and_touch_only_their_target() {
    let mut source = template();
    source.sections.push(PlaybookSection {
        section_id: 7,
        title: "Launch".into(),
        position: 2000,
        deleted: false,
        items: vec![PlaybookItem {
            item_id: 8,
            text: "Announce".into(),
            position: 1,
            deleted: false,
        }],
    });
    assert_eq!(validate_sections(&source.sections), Ok(()));
    let mut instance = instance_of(&source);
    assert_eq!(validate_sections(&instance.sections), Ok(()));
    for operation in [
        StructureOperationKind::ItemUpdate {
            item_id: 8,
            text: "Announce widely".into(),
        },
        StructureOperationKind::ItemDuplicate {
            item_id: 8,
            new_item_id: 9,
            position: 5,
        },
        StructureOperationKind::ItemRemove { item_id: 8 },
        StructureOperationKind::SectionReorder {
            section_id: 7,
            position: 1,
        },
        StructureOperationKind::SectionRemove { section_id: 7 },
    ] {
        instance.apply_operation(&operation).unwrap();
        assert_eq!(validate_sections(&instance.sections), Ok(()));
        assert_eq!(instance.sections[0], source.sections[0]);
    }
    assert_eq!(instance.sections.len(), 2);
    assert_eq!(instance.sections[1].items.len(), 2);
    assert_eq!(instance.sections[1].items[0].item_id, 8);
}

#[test]
fn sequences_of_edits_drop_nothing() {
    let source = template();
    let section_id = source.sections[0].section_id;
    let item_id = source.sections[0].items[0].item_id;
    let mut instance = instance_of(&source);
    let mut refused = 0;
    for operation in [
        StructureOperationKind::ItemRemove { item_id },
        StructureOperationKind::ItemRemove { item_id },
        StructureOperationKind::ItemAdd {
            section_id,
            item: PlaybookItem {
                item_id: 5,
                text: "Announce".into(),
                position: 1,
                deleted: false,
            },
        },
        StructureOperationKind::SectionRemove { section_id },
        StructureOperationKind::ItemRestore { item_id },
        StructureOperationKind::InstanceArchive,
        StructureOperationKind::SectionRestore { section_id },
    ] {
        refused += usize::from(instance.apply_operation(&operation).is_err());
    }
    assert_eq!(refused, 3);
    assert_eq!(instance.sections.len(), 1);
    assert_eq!(instance.sections[0].section_id, section_id);
    let ids: Vec<Id> = instance.sections[0]
        .items
        .iter()
        .map(|item| item.item_id)
        .collect();
    assert_eq!(ids, [item_id, 5]);
}
