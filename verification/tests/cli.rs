//! Commands, drafts and failures of the command line client.

use buzz_playbook::cli::command::{
    dispatch, ActionRequest, Plan, PlaybookTemplatesCmd, PlaybooksCmd,
};
use buzz_playbook::cli::draft::{
    act_as, create_template, edit, insert, insert_as, submit_item_action, update_template, Draft,
};
use buzz_playbook::cli::error::{conflict_detail, CliError};
use buzz_playbook::cli::outcome::{
    file_decoded, file_read, output_encoded, payload_encoded, snapshot_decoded,
};
use buzz_playbook::cli::query::{get_instance, get_template, snapshot_content};
use buzz_playbook::cli::tag::exact_tag;
use buzz_playbook::document::{TemplateRevision, TemplateStatus};
use buzz_playbook::operation::{
    InstanceInsert, ItemAction, ItemActionKind, StructureOperation, StructureOperationKind,
};
use buzz_playbook::text::Id;
use buzz_playbook::time::Timestamp;

const CHANNEL: Id = 0x11111111_2222_3333_4444_555555555555;
const TEMPLATE: Id = 0xaaaaaaaa_bbbb_cccc_dddd_eeeeeeeeeeee;
const INSTANCE: Id = 0x0123_4567_89ab_cdef_0123_4567_89ab_cdef;
const PRINTED_CHANNEL: &str = "11111111-2222-3333-4444-555555555555";
const PRINTED_TEMPLATE: &str = "aaaaaaaa-bbbb-cccc-dddd-eeeeeeeeeeee";
const PRINTED_INSTANCE: &str = "01234567-89ab-cdef-0123-456789abcdef";

fn revision(number: u64) -> TemplateRevision {
    TemplateRevision {
        schema_version: 1,
        template_id: TEMPLATE,
        revision: number,
        name: "Launch".into(),
        description: Some("Steps".into()),
        status: TemplateStatus::Active,
        sections: vec![],
    }
}

fn tags_of<T>(draft: &Draft<T>) -> Vec<Vec<String>> {
    draft.tags.iter().map(|tag| tag.as_slice().to_vec()).collect()
}

fn request(action_id: Option<Id>, client_created_at: Option<Timestamp>) -> ActionRequest {
    ActionRequest {
        instance: INSTANCE,
        item: 9,
        action: ItemActionKind::Reopen,
        action_id,
        client_created_at,
    }
}

#[test]
fn conflict_variant_formats_prefix_once() {
    let error = CliError::Conflict(conflict_detail("conflict: current revision 2"));
    assert_eq!(error.message(), "conflict: current revision 2");
}

#[test]
fn conflict_details() {
    assert_eq!(conflict_detail("conflict:"), "");
    assert_eq!(conflict_detail("conflict:\t \u{a0}taken "), "taken ");
    assert_eq!(conflict_detail("conflict: conflict: twice"), "conflict: twice");
    assert_eq!(conflict_detail("  no prefix"), "no prefix");
    assert_eq!(conflict_detail(" conflict: late"), "conflict: late");
    assert_eq!(conflict_detail("conflict"), "conflict");
    assert_eq!(conflict_detail("Conflict: case"), "Conflict: case");
}

#[test]
fn only_conflicts_of_the_relay_are_reported_anew() {
    let relay = |body: &str| CliError::Relay {
        status: 409,
        body: body.into(),
    };
    assert_eq!(
        relay("conflict: stale base").report(),
        CliError::Conflict("stale base".into())
    );
    assert_eq!(relay("restricted: no").report(), relay("restricted: no"));
    assert_eq!(relay(" conflict: x").report(), relay(" conflict: x"));
    let other = CliError::Other("conflict: x".into());
    assert_eq!(other.clone().report(), other);
    assert_eq!(relay("body").message(), "body");
    assert_eq!(other.message(), "conflict: x");
    assert_eq!(CliError::Usage("usage".into()).message(), "usage");
    assert_eq!(CliError::NotFound("absent".into()).message(), "absent");
}

#[test]
fn tags_hold_a_name_and_an_identifier() {
    let tag = exact_tag("h", CHANNEL).unwrap();
    assert_eq!(tag.as_slice(), ["h", PRINTED_CHANNEL]);
}

#[test]
fn creating_a_template_requires_the_first_revision() {
    let draft = create_template(revision(1)).unwrap();
    assert_eq!(draft.kind, 40200);
    assert_eq!(draft.payload, revision(1));
    assert_eq!(tags_of(&draft), [["template", PRINTED_TEMPLATE]]);
    let created = draft.created.unwrap();
    assert_eq!(created.field, "template_id");
    assert_eq!(created.text(), PRINTED_TEMPLATE);
    for number in [0, 2, u64::MAX] {
        assert_eq!(
            create_template(revision(number)).err(),
            Some(CliError::Usage(
                "template create requires revision 1".into()
            ))
        );
    }
}

#[test]
fn updating_a_template_requires_its_own_file() {
    let draft = update_template(TEMPLATE, revision(7)).unwrap();
    assert_eq!(draft.kind, 40200);
    assert_eq!(draft.payload, revision(7));
    assert_eq!(tags_of(&draft), [["template", PRINTED_TEMPLATE]]);
    assert!(draft.created.is_none());
    assert_eq!(
        update_template(CHANNEL, revision(7)).err(),
        Some(CliError::Usage(
            "--template does not match file template_id".into()
        ))
    );
}

#[test]
fn inserting_tags_channel_instance_and_template() {
    let draft = insert_as(CHANNEL, TEMPLATE, INSTANCE).unwrap();
    assert_eq!(draft.kind, 40201);
    assert_eq!(
        draft.payload,
        InstanceInsert {
            schema_version: 1,
            instance_id: INSTANCE,
            channel_id: CHANNEL,
            template_id: TEMPLATE,
        }
    );
    assert_eq!(
        tags_of(&draft),
        [
            ["h", PRINTED_CHANNEL],
            ["instance", PRINTED_INSTANCE],
            ["template", PRINTED_TEMPLATE]
        ]
    );
    let created = draft.created.unwrap();
    assert_eq!(created.field, "instance_id");
    assert_eq!(created.text(), PRINTED_INSTANCE);
}

#[test]
fn inserting_makes_up_a_random_instance() {
    let first = insert(CHANNEL, TEMPLATE).unwrap();
    let second = insert(CHANNEL, TEMPLATE).unwrap();
    assert_ne!(first.payload.instance_id, second.payload.instance_id);
    for draft in [first, second] {
        let id = uuid::Uuid::from_u128(draft.payload.instance_id);
        assert_eq!(id.get_version_num(), 4);
        assert_eq!(id.get_variant(), uuid::Variant::RFC4122);
        assert_eq!(draft.created.unwrap().text(), id.to_string());
        assert_eq!(tags_of(&draft)[1], ["instance".to_string(), id.to_string()]);
    }
}

#[test]
fn actions_keep_what_is_given() {
    let time = Timestamp {
        seconds: 1_700_000_000,
        nanos: 5,
    };
    let draft = submit_item_action(request(Some(3), Some(time)), CHANNEL).unwrap();
    assert_eq!(draft.kind, 40202);
    assert_eq!(
        draft.payload,
        ItemAction {
            schema_version: 1,
            action_id: 3,
            instance_id: INSTANCE,
            item_id: 9,
            action: ItemActionKind::Reopen,
            client_created_at: time,
        }
    );
    assert_eq!(
        tags_of(&draft),
        [["h", PRINTED_CHANNEL], ["instance", PRINTED_INSTANCE]]
    );
    assert!(draft.created.is_none());
    let again = submit_item_action(request(Some(3), Some(time)), CHANNEL).unwrap();
    assert_eq!(again.payload, draft.payload);
}

#[test]
fn actions_make_up_what_is_missing() {
    let before = chrono::Utc::now();
    let draft = submit_item_action(request(None, None), CHANNEL).unwrap();
    let after = chrono::Utc::now();
    let id = uuid::Uuid::from_u128(draft.payload.action_id);
    assert_eq!(id.get_version_num(), 4);
    let time = draft.payload.client_created_at;
    let made = chrono::DateTime::from_timestamp(time.seconds, time.nanos).unwrap();
    assert!(before <= made && made <= after);
    let fixed = act_as(
        request(None, None),
        CHANNEL,
        77,
        Timestamp {
            seconds: 1,
            nanos: 2,
        },
    )
    .unwrap();
    assert_eq!(fixed.payload.action_id, 77);
    assert_eq!(fixed.payload.client_created_at.nanos, 2);
}

#[test]
fn editing_requires_an_operation_on_the_instance() {
    let operation = StructureOperation {
        schema_version: 1,
        operation_id: 4,
        instance_id: INSTANCE,
        base_structure_revision: 2,
        operation: StructureOperationKind::InstanceArchive,
    };
    let draft = edit(INSTANCE, CHANNEL, operation.clone()).unwrap();
    assert_eq!(draft.kind, 40203);
    assert_eq!(draft.payload, operation);
    assert_eq!(
        tags_of(&draft),
        [["h", PRINTED_CHANNEL], ["instance", PRINTED_INSTANCE]]
    );
    assert!(draft.created.is_none());
    assert_eq!(
        edit(TEMPLATE, CHANNEL, operation).err(),
        Some(CliError::Usage(
            "--instance does not match operation_file instance_id".into()
        ))
    );
}

#[test]
fn one_snapshot_is_current() {
    let query = get_instance(INSTANCE);
    assert_eq!(query.kind, 30624);
    assert_eq!(query.identifier(), PRINTED_INSTANCE);
    assert_eq!(query.select(vec!["event"]), Ok("event"));
    assert_eq!(
        query.select(Vec::<&str>::new()),
        Err(CliError::NotFound(format!("instance {PRINTED_INSTANCE}")))
    );
    let query = get_template(TEMPLATE);
    assert_eq!(query.kind, 30623);
    assert_eq!(
        query.select(vec![1, 2]),
        Err(CliError::Other(format!(
            "relay returned multiple current snapshots for template {PRINTED_TEMPLATE}"
        )))
    );
    assert_eq!(
        query.select(Vec::<u8>::new()),
        Err(CliError::NotFound(format!("template {PRINTED_TEMPLATE}")))
    );
}

#[test]
fn snapshots_need_content() {
    assert_eq!(snapshot_content(Some("{}".into())), Ok("{}".into()));
    assert_eq!(
        snapshot_content(None),
        Err(CliError::Other("snapshot event has no content".into()))
    );
}

#[test]
fn commands_are_planned() {
    assert!(matches!(
        dispatch(PlaybooksCmd::Templates(PlaybookTemplatesCmd::List)),
        Plan::ListTemplates { kind: 30623 }
    ));
    match dispatch(PlaybooksCmd::Templates(PlaybookTemplatesCmd::Get {
        template: TEMPLATE,
    })) {
        Plan::ShowTemplate { query } => {
            assert_eq!((query.kind, query.id, query.label), (30623, TEMPLATE, "template"))
        }
        _ => panic!("not shown"),
    }
    match dispatch(PlaybooksCmd::Templates(PlaybookTemplatesCmd::Create {
        file: "a.json".into(),
    })) {
        Plan::CreateTemplate { file } => assert_eq!(file, "a.json"),
        _ => panic!("not created"),
    }
    match dispatch(PlaybooksCmd::Templates(PlaybookTemplatesCmd::Update {
        template: TEMPLATE,
        file: "b.json".into(),
    })) {
        Plan::UpdateTemplate { template, file } => {
            assert_eq!((template, file.as_str()), (TEMPLATE, "b.json"))
        }
        _ => panic!("not updated"),
    }
    assert!(matches!(
        dispatch(PlaybooksCmd::Insert {
            channel: CHANNEL,
            template: TEMPLATE
        }),
        Plan::Insert {
            channel: CHANNEL,
            template: TEMPLATE
        }
    ));
    match dispatch(PlaybooksCmd::Get { instance: INSTANCE }) {
        Plan::ShowInstance { query } => {
            assert_eq!((query.kind, query.id, query.label), (30624, INSTANCE, "instance"))
        }
        _ => panic!("not shown"),
    }
    match dispatch(PlaybooksCmd::Activity { instance: INSTANCE }) {
        Plan::ShowActivity { query } => assert_eq!(query.id, INSTANCE),
        _ => panic!("not shown"),
    }
    match dispatch(PlaybooksCmd::Edit {
        instance: INSTANCE,
        operation_file: "c.json".into(),
    }) {
        Plan::Edit {
            query,
            instance,
            operation_file,
        } => assert_eq!(
            (query.id, instance, operation_file.as_str()),
            (INSTANCE, INSTANCE, "c.json")
        ),
        _ => panic!("not edited"),
    }
}

#[test]
fn checking_completes_and_reopening_reopens() {
    let check = dispatch(PlaybooksCmd::Check {
        instance: INSTANCE,
        item: 9,
        action_id: Some(3),
        client_created_at: None,
    });
    let reopen = dispatch(PlaybooksCmd::Reopen {
        instance: INSTANCE,
        item: 9,
        action_id: None,
        client_created_at: None,
    });
    match (check, reopen) {
        (Plan::Act { query, request }, Plan::Act { request: other, .. }) => {
            assert_eq!(query.id, INSTANCE);
            assert_eq!(request.action, ItemActionKind::Complete);
            assert_eq!((request.item, request.action_id), (9, Some(3)));
            assert_eq!(other.action, ItemActionKind::Reopen);
            assert_eq!(other.action_id, None);
        }
        _ => panic!("no actions"),
    }
}

#[test]
fn failures_of_files_and_encodings_keep_their_words() {
    let failed = || Err::<String, String>("at line 1".into());
    let done = || Ok::<String, String>("{}".into());
    let other = |text: &str| Err(CliError::Other(text.into()));
    assert_eq!(file_read("a.json", done()), Ok("{}".into()));
    assert_eq!(
        file_read("a.json", failed()),
        other("failed to read a.json: at line 1")
    );
    assert_eq!(file_decoded("a.json", Ok(5)), Ok(5));
    assert_eq!(
        file_decoded("a.json", failed()),
        Err(CliError::Usage("invalid JSON in a.json: at line 1".into()))
    );
    assert_eq!(snapshot_decoded(Ok(5)), Ok(5));
    assert_eq!(
        snapshot_decoded(failed()),
        other("invalid snapshot JSON: at line 1")
    );
    assert_eq!(payload_encoded(done()), Ok("{}".into()));
    assert_eq!(
        payload_encoded(failed()),
        other("payload serialization failed: at line 1")
    );
    assert_eq!(output_encoded(done()), Ok("{}".into()));
    assert_eq!(
        output_encoded(failed()),
        other("output serialization failed: at line 1")
    );
}
