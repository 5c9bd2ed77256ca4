//! What each structural edit does, told by places and fields.

use vstd::prelude::*;
use vstd::std_specs::cmp::PartialEqSpec;

use crate::document::{InstanceStatus, ItemModel, SectionModel, TemplateModel, sections_model};
use crate::document_laws::{found, has_item};
use crate::error::PlaybookError;
use crate::instance::{InstanceModel, PlaybookInstance, instantiated};
use crate::operation::{EditModel, StructureOperation, StructureOperationKind};
use crate::search::{
    called_item, called_section, first_where, holding_item, holds_item, lemma_first_where,
    mentions_item,
};
use crate::text::{Id, blank};

verus! {

/// The model of an instance shows every field.
pub proof fn law_instance_models_show_every_field(instance: PlaybookInstance)
    ensures
        instance@.schema_version == instance.schema_version,
        instance@.instance_id == instance.instance_id,
        instance@.channel_id == instance.channel_id,
        instance@.name == instance.name@,
        instance@.source_template_id == instance.source_template_id,
        instance@.source_template_revision == instance.source_template_revision,
        instance@.structure_revision == instance.structure_revision,
        instance@.status == instance.status,
        instance@.sections == sections_model(instance.sections@),
{
}

/// Whether a model shows the kind of an edit and each of its fields.
pub open spec fn shows(edit: StructureOperationKind, model: EditModel) -> bool {
    match edit {
        StructureOperationKind::SectionAdd { section } => model is SectionAdd && model->section
            == section@,
        StructureOperationKind::SectionUpdate { section_id, title } => model is SectionUpdate
            && model->SectionUpdate_section_id == section_id && model->title == title@,
        StructureOperationKind::SectionRemove { section_id } => model is SectionRemove
            && model->SectionRemove_section_id == section_id,
        StructureOperationKind::SectionRestore { section_id } => model is SectionRestore
            && model->SectionRestore_section_id == section_id,
        StructureOperationKind::SectionReorder { section_id, position } => model is SectionReorder
            && model->SectionReorder_section_id == section_id && model->SectionReorder_position
            == position,
        StructureOperationKind::ItemAdd { section_id, item } => model is ItemAdd
            && model->ItemAdd_section_id == section_id && model->item == item@,
        StructureOperationKind::ItemUpdate { item_id, text } => model is ItemUpdate
            && model->ItemUpdate_item_id == item_id && model->text == text@,
        StructureOperationKind::ItemRemove { item_id } => model is ItemRemove
            && model->ItemRemove_item_id == item_id,
        StructureOperationKind::ItemRestore { item_id } => model is ItemRestore
            && model->ItemRestore_item_id == item_id,
        StructureOperationKind::ItemReorder { item_id, position } => model is ItemReorder
            && model->ItemReorder_item_id == item_id && model->ItemReorder_position == position,
        StructureOperationKind::ItemDuplicate { item_id, new_item_id, position } =>
            model is ItemDuplicate && model->ItemDuplicate_item_id == item_id && model->new_item_id
            == new_item_id && model->ItemDuplicate_position == position,
        StructureOperationKind::InstanceRename { name } => model is InstanceRename && model->name
            == name@,
        StructureOperationKind::InstanceArchive => model is InstanceArchive,
    }
}

/// The model of an edit shows its kind and every field, and that of an operation shows every
/// field.
pub proof fn law_edit_models_show_every_field(
    edit: StructureOperationKind,
    operation: StructureOperation,
)
    ensures
        shows(edit, edit@),
        operation@.schema_version == operation.schema_version,
        operation@.operation_id == operation.operation_id,
        operation@.instance_id == operation.instance_id,
        operation@.base_structure_revision == operation.base_structure_revision,
        operation@.operation == operation.operation@,
{
}

/// Edits are equal where their kinds and all their fields are, and operations where every field
/// and the edit is.
pub proof fn law_equal_operations_agree_in_every_field(
    edit: StructureOperationKind,
    other_edit: StructureOperationKind,
    operation: StructureOperation,
    other: StructureOperation,
)
    ensures
        StructureOperationKind::obeys_eq_spec(),
        edit.eq_spec(&other_edit) <==> shows(edit, other_edit@),
        StructureOperation::obeys_eq_spec(),
        operation.eq_spec(&other) <==> {
            &&& operation.schema_version == other.schema_version
            &&& operation.operation_id == other.operation_id
            &&& operation.instance_id == other.instance_id
            &&& operation.base_structure_revision == other.base_structure_revision
            &&& shows(operation.operation, other.operation@)
        },
{
}

/// Edits are named after what they change and how.
pub proof fn law_edits_are_named_after_what_they_do(edit: EditModel)
    ensures
        edit is SectionAdd ==> edit.name() == "section.add"@,
        edit is SectionUpdate ==> edit.name() == "section.update"@,
        edit is SectionRemove ==> edit.name() == "section.remove"@,
        edit is SectionRestore ==> edit.name() == "section.restore"@,
        edit is SectionReorder ==> edit.name() == "section.reorder"@,
        edit is ItemAdd ==> edit.name() == "item.add"@,
        edit is ItemUpdate ==> edit.name() == "item.update"@,
        edit is ItemRemove ==> edit.name() == "item.remove"@,
        edit is ItemRestore ==> edit.name() == "item.restore"@,
        edit is ItemReorder ==> edit.name() == "item.reorder"@,
        edit is ItemDuplicate ==> edit.name() == "item.duplicate"@,
        edit is InstanceRename ==> edit.name() == "instance.rename"@,
        edit is InstanceArchive ==> edit.name() == "instance.archive"@,
{
}

/// Whether `i` is the place of the first section called `id`.
pub open spec fn section_at(sections: Seq<SectionModel>, id: Id, i: int) -> bool {
    &&& 0 <= i < sections.len()
    &&& sections[i].section_id == id
    &&& forall|k: int| 0 <= k < i ==> (#[trigger] sections[k]).section_id != id
}

/// Whether `j` in section `i` is the place of the first item called `id`.
pub open spec fn item_at(sections: Seq<SectionModel>, id: Id, i: int, j: int) -> bool {
    &&& 0 <= i < sections.len()
    &&& 0 <= j < sections[i].items.len()
    &&& sections[i].items[j].item_id == id
    &&& forall|q: int| 0 <= q < j ==> (#[trigger] sections[i].items[q]).item_id != id
    &&& forall|p: int, q: int|
        0 <= p < i && 0 <= q < sections[p].items.len() ==> (
        #[trigger] sections[p].items[q]).item_id != id
}

/// Whether two instances are the same but for their sections.
pub open spec fn same_but_sections(a: InstanceModel, b: InstanceModel) -> bool {
    &&& b.schema_version == a.schema_version
    &&& b.instance_id == a.instance_id
    &&& b.channel_id == a.channel_id
    &&& b.name == a.name
    &&& b.source_template_id == a.source_template_id
    &&& b.source_template_revision == a.source_template_revision
    &&& b.structure_revision == a.structure_revision
    &&& b.status == a.status
}

/// Whether `b` is `a` with the section at `i` replaced by `section`, and nothing else.
pub open spec fn with_section(
    a: InstanceModel,
    b: InstanceModel,
    i: int,
    section: SectionModel,
) -> bool {
    &&& same_but_sections(a, b)
    &&& b.sections.len() == a.sections.len()
    &&& b.sections[i] == section
    &&& forall|k: int|
        0 <= k < a.sections.len() && k != i ==> #[trigger] b.sections[k] == a.sections[k]
}

/// Whether `b` is `a` with the item `j` of section `i` replaced by `item`, and nothing else.
pub open spec fn with_item_at(
    a: InstanceModel,
    b: InstanceModel,
    i: int,
    j: int,
    item: ItemModel,
) -> bool {
    let (x, y) = (a.sections[i], b.sections[i]);
    &&& same_but_sections(a, b)
    &&& b.sections.len() == a.sections.len()
    &&& forall|k: int|
        0 <= k < a.sections.len() && k != i ==> #[trigger] b.sections[k] == a.sections[k]
    &&& y.section_id == x.section_id && y.title == x.title
    &&& y.position == x.position && y.deleted == x.deleted
    &&& y.items.len() == x.items.len()
    &&& y.items[j] == item
    &&& forall|q: int| 0 <= q < x.items.len() && q != j ==> #[trigger] y.items[q] == x.items[q]
}

/// Whether `b` is `a` with `item` added at the end of section `i`, and nothing else.
pub open spec fn with_item_added(
    a: InstanceModel,
    b: InstanceModel,
    i: int,
    item: ItemModel,
) -> bool {
    let (x, y) = (a.sections[i], b.sections[i]);
    &&& same_but_sections(a, b)
    &&& b.sections.len() == a.sections.len()
    &&& forall|k: int|
        0 <= k < a.sections.len() && k != i ==> #[trigger] b.sections[k] == a.sections[k]
    &&& y.section_id == x.section_id && y.title == x.title
    &&& y.position == x.position && y.deleted == x.deleted
    &&& y.items.len() == x.items.len() + 1
    &&& y.items[x.items.len() as int] == item
    &&& forall|q: int| 0 <= q < x.items.len() ==> #[trigger] y.items[q] == x.items[q]
}

proof fn lemma_section_at(sections: Seq<SectionModel>, id: Id, i: int)
    requires
        section_at(sections, id, i),
    ensures
        first_where(sections, called_section(id)) == Some(i),
{
    lemma_first_where(sections, called_section(id));
    match first_where(sections, called_section(id)) {
        Some(k) => {
            if i < k {
                assert(!called_section(id)(sections[i]));
            }
        },
        None => {
            assert(!called_section(id)(sections[i]));
        },
    }
}

proof fn lemma_item_at(sections: Seq<SectionModel>, id: Id, i: int, j: int)
    requires
        item_at(sections, id, i, j),
    ensures
        first_where(sections, holding_item(id)) == Some(i),
        first_where(sections[i].items, called_item(id)) == Some(j),
{
    lemma_first_where(sections, holding_item(id));
    lemma_first_where(sections[i].items, called_item(id));
    assert(holds_item(sections[i], id));
    match first_where(sections, holding_item(id)) {
        Some(k) => {
            if i < k {
                assert(!holding_item(id)(sections[i]));
            }
            if k < i {
                let q = choose|q: int|
                    0 <= q < sections[k].items.len() && #[trigger] sections[k].items[q].item_id
                        == id;
                assert(sections[k].items[q].item_id != id);
            }
        },
        None => {
            assert(!holding_item(id)(sections[i]));
        },
    }
    match first_where(sections[i].items, called_item(id)) {
        Some(q) => {
            if j < q {
                assert(!called_item(id)(sections[i].items[j]));
            }
        },
        None => {
            assert(!called_item(id)(sections[i].items[j]));
        },
    }
}

proof fn lemma_has_item(sections: Seq<SectionModel>, id: Id)
    ensures
        mentions_item(sections, id) <==> has_item(sections, id),
        has_item(sections, id) <==> first_where(sections, holding_item(id)) is Some,
{
    lemma_first_where(sections, holding_item(id));
    if mentions_item(sections, id) {
        let i = choose|i: int| 0 <= i < sections.len() && holds_item(#[trigger] sections[i], id);
        let q = choose|q: int|
            0 <= q < sections[i].items.len() && #[trigger] sections[i].items[q].item_id == id;
        assert(sections[i].items[q].item_id == id);
        assert(holding_item(id)(sections[i]));
    }
    if has_item(sections, id) {
        let (p, q) = choose|p: int, q: int|
            0 <= p < sections.len() && 0 <= q < sections[p].items.len() && (
            #[trigger] sections[p].items[q]).item_id == id;
        assert(holds_item(sections[p], id));
        assert(holding_item(id)(sections[p]));
    }
}

/// Edits of a section that is not there are refused for that, once what they bring is in
/// order.
pub proof fn law_absent_sections_are_not_found(
    instance: InstanceModel,
    id: Id,
    title: Seq<char>,
    position: i64,
    item: ItemModel,
)
    requires
        instance.status == InstanceStatus::Active,
        forall|k: int|
            0 <= k < instance.sections.len() ==> (#[trigger] instance.sections[k]).section_id != id,
    ensures
        instance.refusal(EditModel::SectionRemove { section_id: id }) == Some(
            PlaybookError::SectionNotFound(id),
        ),
        instance.refusal(EditModel::SectionRestore { section_id: id }) == Some(
            PlaybookError::SectionNotFound(id),
        ),
        instance.refusal(EditModel::SectionUpdate { section_id: id, title }) == Some(
            if blank(title) {
                PlaybookError::InvalidText("section title")
            } else {
                PlaybookError::SectionNotFound(id)
            },
        ),
        instance.refusal(EditModel::SectionReorder { section_id: id, position }) == Some(
            if position <= 0 {
                PlaybookError::InvalidPosition(position)
            } else {
                PlaybookError::SectionNotFound(id)
            },
        ),
        !blank(item.text) && item.position > 0 && !has_item(instance.sections, item.item_id)
            ==> instance.refusal(EditModel::ItemAdd { section_id: id, item }) == Some(
            PlaybookError::SectionNotFound(id),
        ),
{
    lemma_first_where(instance.sections, called_section(id));
    lemma_has_item(instance.sections, item.item_id);
    if first_where(instance.sections, called_section(id)) is Some {
        let k = first_where(instance.sections, called_section(id))->Some_0;
        assert(instance.sections[k].section_id != id);
    }
}

/// Renaming a section gives it the title and leaves everything else alone. A blank title is
/// refused, and so is a removed section.
pub proof fn law_renaming_a_section(instance: InstanceModel, id: Id, title: Seq<char>, i: int)
    requires
        instance.status == InstanceStatus::Active,
        section_at(instance.sections, id, i),
    ensures
        ({
            let edit = EditModel::SectionUpdate { section_id: id, title };
            let section = instance.sections[i];
            &&& blank(title) ==> instance.refusal(edit) == Some(
                PlaybookError::InvalidText("section title"),
            )
            &&& !blank(title) && section.deleted ==> instance.refusal(edit) == Some(
                PlaybookError::Removed("section"),
            )
            &&& !blank(title) && !section.deleted ==> instance.refusal(edit) is None
            &&& !blank(title) && !section.deleted ==> with_section(
                instance,
                instance.edited(edit),
                i,
                SectionModel { title, ..section },
            )
        }),
{
    lemma_section_at(instance.sections, id, i);
}

/// Removing a section hides it, with its items, and leaves everything else alone. A removed
/// section is not removed again.
pub proof fn law_removing_a_section(instance: InstanceModel, id: Id, i: int)
    requires
        instance.status == InstanceStatus::Active,
        section_at(instance.sections, id, i),
    ensures
        ({
            let edit = EditModel::SectionRemove { section_id: id };
            let section = instance.sections[i];
            &&& section.deleted ==> instance.refusal(edit) == Some(
                PlaybookError::Removed("section"),
            )
            &&& !section.deleted ==> instance.refusal(edit) is None
            &&& !section.deleted ==> with_section(
                instance,
                instance.edited(edit),
                i,
                SectionModel { deleted: true, ..section },
            )
        }),
{
    lemma_section_at(instance.sections, id, i);
}

/// Restoring a section shows it again, with its items, and leaves everything else alone. A
/// section that is not removed is not restored.
pub proof fn law_restoring_a_section(instance: InstanceModel, id: Id, i: int)
    requires
        instance.status == InstanceStatus::Active,
        section_at(instance.sections, id, i),
    ensures
        ({
            let edit = EditModel::SectionRestore { section_id: id };
            let section = instance.sections[i];
            &&& !section.deleted ==> instance.refusal(edit) == Some(
                PlaybookError::AlreadyActive("section"),
            )
            &&& section.deleted ==> instance.refusal(edit) is None
            &&& section.deleted ==> with_section(
                instance,
                instance.edited(edit),
                i,
                SectionModel { deleted: false, ..section },
            )
        }),
{
    lemma_section_at(instance.sections, id, i);
}

/// Reordering a section gives it the position, in the place where it stands, and leaves
/// everything else alone. A position that is not positive is refused, and so is a removed
/// section.
pub proof fn law_reordering_a_section(instance: InstanceModel, id: Id, position: i64, i: int)
    requires
        instance.status == InstanceStatus::Active,
        section_at(instance.sections, id, i),
    ensures
        ({
            let edit = EditModel::SectionReorder { section_id: id, position };
            let section = instance.sections[i];
            &&& position <= 0 ==> instance.refusal(edit) == Some(
                PlaybookError::InvalidPosition(position),
            )
            &&& position > 0 && section.deleted ==> instance.refusal(edit) == Some(
                PlaybookError::Removed("section"),
            )
            &&& position > 0 && !section.deleted ==> instance.refusal(edit) is None
            &&& position > 0 && !section.deleted ==> with_section(
                instance,
                instance.edited(edit),
                i,
                SectionModel { position, ..section },
            )
        }),
{
    lemma_section_at(instance.sections, id, i);
}

/// Adding a section puts it behind the others, which stay as they are. It is refused for what
/// validation finds in the document that would come of it.
pub proof fn law_adding_a_section(instance: InstanceModel, section: SectionModel)
    requires
        instance.status == InstanceStatus::Active,
    ensures
        ({
            let edit = EditModel::SectionAdd { section };
            let after = instance.edited(edit);
            &&& instance.refusal(edit) == found(instance.sections.push(section))
            &&& same_but_sections(instance, after)
            &&& after.sections.len() == instance.sections.len() + 1
            &&& after.sections[instance.sections.len() as int] == section
            &&& forall|k: int|
                0 <= k < instance.sections.len() ==> #[trigger] after.sections[k]
                    == instance.sections[k]
        }),
{
}

/// Adding an item puts it at the end of the section that is named, and of no other, and
/// leaves everything else alone. It is refused for a blank text, a position that is not
/// positive, an identifier that is taken anywhere, or a removed section.
pub proof fn law_adding_an_item(instance: InstanceModel, id: Id, item: ItemModel, i: int)
    requires
        instance.status == InstanceStatus::Active,
        section_at(instance.sections, id, i),
    ensures
        ({
            let edit = EditModel::ItemAdd { section_id: id, item };
            let taken = has_item(instance.sections, item.item_id);
            &&& blank(item.text) ==> instance.refusal(edit) == Some(
                PlaybookError::InvalidText("item text"),
            )
            &&& !blank(item.text) && item.position <= 0 ==> instance.refusal(edit) == Some(
                PlaybookError::InvalidPosition(item.position),
            )
            &&& !blank(item.text) && item.position > 0 && taken ==> instance.refusal(edit) == Some(
                PlaybookError::DuplicateId("item", item.item_id),
            )
            &&& !blank(item.text) && item.position > 0 && !taken ==> instance.refusal(edit) == (
            if instance.sections[i].deleted {
                Some(PlaybookError::Removed("section"))
            } else {
                None
            })
            &&& instance.refusal(edit) is None ==> with_item_added(
                instance,
                instance.edited(edit),
                i,
                item,
            )
        }),
{
    lemma_section_at(instance.sections, id, i);
    lemma_has_item(instance.sections, item.item_id);
}

/// An item that is added is refused for itself before the section is looked for.
pub proof fn law_added_items_are_checked_first(instance: InstanceModel, id: Id, item: ItemModel)
    requires
        instance.status == InstanceStatus::Active,
    ensures
        ({
            let edit = EditModel::ItemAdd { section_id: id, item };
            let taken = has_item(instance.sections, item.item_id);
            &&& blank(item.text) ==> instance.refusal(edit) == Some(
                PlaybookError::InvalidText("item text"),
            )
            &&& !blank(item.text) && item.position <= 0 ==> instance.refusal(edit) == Some(
                PlaybookError::InvalidPosition(item.position),
            )
            &&& !blank(item.text) && item.position > 0 && taken ==> instance.refusal(edit) == Some(
                PlaybookError::DuplicateId("item", item.item_id),
            )
        }),
{
    lemma_has_item(instance.sections, item.item_id);
}

/// Edits of an item that is not there are refused for that, once what they bring is in order.
pub proof fn law_absent_items_are_not_found(
    instance: InstanceModel,
    id: Id,
    text: Seq<char>,
    position: i64,
    fresh: Id,
)
    requires
        instance.status == InstanceStatus::Active,
        !has_item(instance.sections, id),
    ensures
        instance.refusal(EditModel::ItemRemove { item_id: id }) == Some(
            PlaybookError::ItemNotFound(id),
        ),
        instance.refusal(EditModel::ItemRestore { item_id: id }) == Some(
            PlaybookError::ItemNotFound(id),
        ),
        instance.refusal(EditModel::ItemUpdate { item_id: id, text }) == Some(
            if blank(text) {
                PlaybookError::InvalidText("item text")
            } else {
                PlaybookError::ItemNotFound(id)
            },
        ),
        instance.refusal(EditModel::ItemReorder { item_id: id, position }) == Some(
            if position <= 0 {
                PlaybookError::InvalidPosition(position)
            } else {
                PlaybookError::ItemNotFound(id)
            },
        ),
        instance.refusal(
            EditModel::ItemDuplicate { item_id: id, new_item_id: fresh, position },
        ) == Some(
            if position <= 0 {
                PlaybookError::InvalidPosition(position)
            } else if has_item(instance.sections, fresh) {
                PlaybookError::DuplicateId("item", fresh)
            } else {
                PlaybookError::ItemNotFound(id)
            },
        ),
{
    lemma_has_item(instance.sections, id);
    lemma_has_item(instance.sections, fresh);
}

/// Why the item at this place cannot be changed: its section is removed, or it is.
pub open spec fn hidden(sections: Seq<SectionModel>, i: int, j: int) -> Option<PlaybookError> {
    if sections[i].deleted {
        Some(PlaybookError::Removed("section"))
    } else if sections[i].items[j].deleted {
        Some(PlaybookError::Removed("item"))
    } else {
        None
    }
}

/// Rewording an item gives it the text and leaves everything else alone. A blank text is
/// refused, and so is an item that is removed or whose section is.
pub proof fn law_rewording_an_item(
    instance: InstanceModel,
    id: Id,
    text: Seq<char>,
    i: int,
    j: int,
)
    requires
        instance.status == InstanceStatus::Active,
        item_at(instance.sections, id, i, j),
    ensures
        ({
            let edit = EditModel::ItemUpdate { item_id: id, text };
            let item = instance.sections[i].items[j];
            &&& blank(text) ==> instance.refusal(edit) == Some(
                PlaybookError::InvalidText("item text"),
            )
            &&& !blank(text) ==> instance.refusal(edit) == hidden(instance.sections, i, j)
            &&& instance.refusal(edit) is None ==> with_item_at(
                instance,
                instance.edited(edit),
                i,
                j,
                ItemModel { text, ..item },
            )
        }),
{
    lemma_item_at(instance.sections, id, i, j);
}

/// Removing an item hides it and leaves everything else alone. An item that is removed, or
/// whose section is, is not removed.
pub proof fn law_removing_an_item(instance: InstanceModel, id: Id, i: int, j: int)
    requires
        instance.status == InstanceStatus::Active,
        item_at(instance.sections, id, i, j),
    ensures
        ({
            let edit = EditModel::ItemRemove { item_id: id };
            let item = instance.sections[i].items[j];
            &&& instance.refusal(edit) == hidden(instance.sections, i, j)
            &&& instance.refusal(edit) is None ==> with_item_at(
                instance,
                instance.edited(edit),
                i,
                j,
                ItemModel { deleted: true, ..item },
            )
        }),
{
    lemma_item_at(instance.sections, id, i, j);
}

/// Restoring an item shows it again, in its place, and leaves everything else alone. An item
/// whose section is removed is not restored, nor is one that is not removed.
pub proof fn law_restoring_an_item(instance: InstanceModel, id: Id, i: int, j: int)
    requires
        instance.status == InstanceStatus::Active,
        item_at(instance.sections, id, i, j),
    ensures
        ({
            let edit = EditModel::ItemRestore { item_id: id };
            let item = instance.sections[i].items[j];
            &&& instance.sections[i].deleted ==> instance.refusal(edit) == Some(
                PlaybookError::Removed("section"),
            )
            &&& !instance.sections[i].deleted && !item.deleted ==> instance.refusal(edit) == Some(
                PlaybookError::AlreadyActive("item"),
            )
            &&& !instance.sections[i].deleted && item.deleted ==> instance.refusal(edit) is None
            &&& instance.refusal(edit) is None ==> with_item_at(
                instance,
                instance.edited(edit),
                i,
                j,
                ItemModel { deleted: false, ..item },
            )
        }),
{
    lemma_item_at(instance.sections, id, i, j);
}

/// Reordering an item gives it the position, in the place where it stands, and leaves
/// everything else alone. A position that is not positive is refused, and so is an item that
/// is removed or whose section is.
pub proof fn law_reordering_an_item(
    instance: InstanceModel,
    id: Id,
    position: i64,
    i: int,
    j: int,
)
    requires
        instance.status == InstanceStatus::Active,
        item_at(instance.sections, id, i, j),
    ensures
        ({
            let edit = EditModel::ItemReorder { item_id: id, position };
            let item = instance.sections[i].items[j];
            &&& position <= 0 ==> instance.refusal(edit) == Some(
                PlaybookError::InvalidPosition(position),
            )
            &&& position > 0 ==> instance.refusal(edit) == hidden(instance.sections, i, j)
            &&& instance.refusal(edit) is None ==> with_item_at(
                instance,
                instance.edited(edit),
                i,
                j,
                ItemModel { position, ..item },
            )
        }),
{
    lemma_item_at(instance.sections, id, i, j);
}

/// Duplicating an item puts a live copy of its text at the end of its own section, under the
/// new identifier and position, and leaves everything else alone. A position that is not
/// positive, an identifier that is taken anywhere and a hidden item are refused.
pub proof fn law_duplicating_an_item(
    instance: InstanceModel,
    id: Id,
    fresh: Id,
    position: i64,
    i: int,
    j: int,
)
    requires
        instance.status == InstanceStatus::Active,
        item_at(instance.sections, id, i, j),
    ensures
        ({
            let edit = EditModel::ItemDuplicate { item_id: id, new_item_id: fresh, position };
            &&& position <= 0 ==> instance.refusal(edit) == Some(
                PlaybookError::InvalidPosition(position),
            )
            &&& position > 0 && has_item(instance.sections, fresh) ==> instance.refusal(edit)
                == Some(PlaybookError::DuplicateId("item", fresh))
            &&& position > 0 && !has_item(instance.sections, fresh) ==> instance.refusal(edit)
                == hidden(instance.sections, i, j)
            &&& instance.refusal(edit) is None ==> with_item_added(
                instance,
                instance.edited(edit),
                i,
                ItemModel {
                    item_id: fresh,
                    text: instance.sections[i].items[j].text,
                    position,
                    deleted: false,
                },
            )
        }),
{
    lemma_item_at(instance.sections, id, i, j);
    lemma_has_item(instance.sections, fresh);
}

/// Renaming an instance gives it the name, and archiving it gives it the status; both leave
/// everything else alone. A blank name is refused; archiving an active instance never is.
pub proof fn law_renaming_and_archiving_an_instance(instance: InstanceModel, name: Seq<char>)
    requires
        instance.status == InstanceStatus::Active,
    ensures
        ({
            let rename = EditModel::InstanceRename { name };
            let archive = EditModel::InstanceArchive;
            &&& instance.refusal(rename) == (if blank(name) {
                Some(PlaybookError::InvalidText("instance name"))
            } else {
                None
            })
            &&& instance.edited(rename) == (InstanceModel { name, ..instance })
            &&& instance.refusal(archive) is None
            &&& instance.edited(archive) == (InstanceModel {
                status: InstanceStatus::Archived,
                ..instance
            })
        }),
{
}

/// A new instance has the name and the sections of the template revision that it was copied
/// from, with the template's identifier and the revision's number as its provenance, and is
/// active at its first structure revision, whatever else the template says.
pub proof fn law_copies_are_of_their_template(
    instance_id: Id,
    channel_id: Id,
    source: TemplateModel,
)
    ensures
        ({
            let copy = instantiated(instance_id, channel_id, source);
            &&& copy.schema_version == 1
            &&& copy.instance_id == instance_id && copy.channel_id == channel_id
            &&& copy.name == source.name
            &&& copy.source_template_id == source.template_id
            &&& copy.source_template_revision == source.revision
            &&& copy.structure_revision == 1
            &&& copy.status == InstanceStatus::Active
            &&& copy.sections == source.sections
        }),
{
}

/// Two copies of template revisions differ only where the revisions differ in name, sections,
/// identifier or number.
pub proof fn law_copies_take_nothing_else_from_their_template(
    instance_id: Id,
    channel_id: Id,
    a: TemplateModel,
    b: TemplateModel,
)
    requires
        a.name == b.name,
        a.sections == b.sections,
        a.template_id == b.template_id,
        a.revision == b.revision,
    ensures
        instantiated(instance_id, channel_id, a) == instantiated(instance_id, channel_id, b),
{
}

} // verus!
