//! What holds of instances whatever is asked of them.

use vstd::prelude::*;

use crate::document::{InstanceStatus, ItemModel, SectionModel, TemplateModel};
use crate::error::PlaybookError;
use crate::instance::{
    InstanceModel, active_items, completed, has_active, holder_of, instantiated, item_of, live,
    live_items, place_of, put_item, put_items, reachable_item_fault, section_of,
};
use crate::operation::EditModel;
use crate::search::{
    called_item, called_section, first_where, holding_item, holds_item, lemma_first_where,
    mentions_item,
};
use crate::state::StateModel;
use crate::text::{Id, blank};
use crate::validate::{
    law_validation_accepts_exactly_valid_sections, template_fault, valid_sections,
};

verus! {

impl InstanceModel {
    /// Whether the name and the sections are such as a document may hold.
    pub open spec fn valid(self) -> bool {
        !blank(self.name) && valid_sections(self.sections)
    }
}

/// An archived instance refuses every edit.
pub proof fn law_archived_instances_refuse_every_edit(instance: InstanceModel, edit: EditModel)
    requires
        instance.status == InstanceStatus::Archived,
    ensures
        instance.refusal(edit) == Some(PlaybookError::Archived),
{
}

/// Archiving is never refused while an instance is active, and is final.
pub proof fn law_archiving_is_final(instance: InstanceModel, edit: EditModel)
    requires
        instance.status == InstanceStatus::Active,
    ensures
        instance.refusal(EditModel::InstanceArchive) is None,
        instance.edited(EditModel::InstanceArchive).refusal(edit) == Some(PlaybookError::Archived),
{
}

/// An edit changes neither an instance's identity nor its provenance nor its revision, and
/// only archiving changes its status, only renaming its name.
pub proof fn law_edits_keep_identity(instance: InstanceModel, edit: EditModel)
    requires
        instance.refusal(edit) is None,
    ensures
        instance.edited(edit).schema_version == instance.schema_version,
        instance.edited(edit).instance_id == instance.instance_id,
        instance.edited(edit).channel_id == instance.channel_id,
        instance.edited(edit).source_template_id == instance.source_template_id,
        instance.edited(edit).source_template_revision == instance.source_template_revision,
        instance.edited(edit).structure_revision == instance.structure_revision,
        instance.edited(edit).status != instance.status ==> edit is InstanceArchive,
        instance.edited(edit).name != instance.name ==> edit is InstanceRename,
{
}

/// What is known of the section called `id` once `live_section_fault` finds nothing.
proof fn lemma_section_found(sections: Seq<SectionModel>, id: Id)
    requires
        first_where(sections, called_section(id)) is Some,
    ensures
        0 <= first_where(sections, called_section(id))->Some_0 < sections.len(),
        section_of(sections, id).section_id == id,
        forall|k: int|
            0 <= k < first_where(sections, called_section(id))->Some_0 ==> (
            #[trigger] sections[k]).section_id != id,
{
    lemma_first_where(sections, called_section(id));
    let i = first_where(sections, called_section(id))->Some_0;
    assert forall|k: int| 0 <= k < i implies (#[trigger] sections[k]).section_id != id by {
        assert(!called_section(id)(sections[k]));
    }
}

/// What is known of the item called `id` once some section holds it.
proof fn lemma_item_found(sections: Seq<SectionModel>, id: Id)
    requires
        first_where(sections, holding_item(id)) is Some,
    ensures
        0 <= holder_of(sections, id) < sections.len(),
        0 <= place_of(sections, id) < sections[holder_of(sections, id)].items.len(),
        item_of(sections, id).item_id == id,
{
    lemma_first_where(sections, holding_item(id));
    let i = holder_of(sections, id);
    assert(holding_item(id)(sections[i]));
    lemma_first_where(sections[i].items, called_item(id));
    if first_where(sections[i].items, called_item(id)) is None {
        let j = choose|j: int|
            0 <= j < sections[i].items.len() && #[trigger] sections[i].items[j].item_id == id;
        assert(!called_item(id)(sections[i].items[j]));
    }
}

/// A section replaced by a valid one with the same identifier and items.
proof fn lemma_put_section_valid(sections: Seq<SectionModel>, i: int, section: SectionModel)
    requires
        valid_sections(sections),
        0 <= i < sections.len(),
        section.section_id == sections[i].section_id,
        section.items == sections[i].items,
        !blank(section.title),
        section.position > 0,
    ensures
        valid_sections(sections.update(i, section)),
{
    let after = sections.update(i, section);
    assert forall|p: int| 0 <= p < after.len() implies (#[trigger] after[p]).section_id
        == sections[p].section_id && after[p].items == sections[p].items by {}
}

/// An item replaced by a valid one with the same identifier.
proof fn lemma_put_item_valid(sections: Seq<SectionModel>, i: int, j: int, item: ItemModel)
    requires
        valid_sections(sections),
        0 <= i < sections.len(),
        0 <= j < sections[i].items.len(),
        item.item_id == sections[i].items[j].item_id,
        !blank(item.text),
        item.position > 0,
    ensures
        valid_sections(put_items(sections, i, sections[i].items.update(j, item))),
{
    let after = put_items(sections, i, sections[i].items.update(j, item));
    assert forall|p: int| 0 <= p < after.len() implies (#[trigger] after[p]).section_id
        == sections[p].section_id && after[p].items.len() == sections[p].items.len()
        && after[p].title == sections[p].title && after[p].position == sections[p].position by {}
    assert forall|p: int, q: int|
        0 <= p < after.len() && 0 <= q < after[p].items.len() implies (
    #[trigger] after[p].items[q]).item_id == sections[p].items[q].item_id by {}
    assert forall|p: int, q: int|
        0 <= p < after.len() && 0 <= q < after[p].items.len() implies !blank(
        (#[trigger] after[p].items[q]).text,
    ) && after[p].items[q].position > 0 by {
        let unchanged = sections[p].items[q];
    }
}

/// A valid item with a new identifier, added to a section.
proof fn lemma_push_item_valid(sections: Seq<SectionModel>, i: int, item: ItemModel)
    requires
        valid_sections(sections),
        0 <= i < sections.len(),
        !mentions_item(sections, item.item_id),
        !blank(item.text),
        item.position > 0,
    ensures
        valid_sections(put_items(sections, i, sections[i].items.push(item))),
{
    let after = put_items(sections, i, sections[i].items.push(item));
    assert forall|p: int| 0 <= p < after.len() implies (#[trigger] after[p]).section_id
        == sections[p].section_id && after[p].title == sections[p].title && after[p].position
        == sections[p].position by {}
    assert forall|p: int, q: int|
        0 <= p < after.len() && 0 <= q < after[p].items.len() implies if p == i && q
        == sections[i].items.len() {
        (#[trigger] after[p].items[q]) == item
    } else {
        q < sections[p].items.len() && after[p].items[q] == sections[p].items[q]
            && sections[p].items[q].item_id != item.item_id
    } by {
        if !(p == i && q == sections[i].items.len()) {
            assert(after[p].items[q] == sections[p].items[q]);
            assert(!holds_item(sections[p], item.item_id));
        }
    }
    assert forall|p: int, q: int|
        0 <= p < after.len() && 0 <= q < after[p].items.len() implies !blank(
        (#[trigger] after[p].items[q]).text,
    ) && after[p].items[q].position > 0 by {
        if !(p == i && q == sections[i].items.len()) {
            let unchanged = sections[p].items[q];
        }
    }
    assert forall|p: int, q: int, r: int, t: int|
        0 <= p < after.len() && 0 <= q < after[p].items.len() && 0 <= r < after.len() && 0 <= t
            < after[r].items.len() && #[trigger] after[p].items[q].item_id
            == #[trigger] after[r].items[t].item_id implies p == r && q == t by {
        let a = sections[p].items[q];
        let b = sections[r].items[t];
    }
}

/// A valid instance is still valid after any edit that is not refused.
pub proof fn law_edits_keep_instances_valid(instance: InstanceModel, edit: EditModel)
    requires
        instance.valid(),
        instance.refusal(edit) is None,
    ensures
        instance.edited(edit).valid(),
{
    let sections = instance.sections;
    match edit {
        EditModel::SectionAdd { section } => {
            law_validation_accepts_exactly_valid_sections(sections.push(section));
        },
        EditModel::SectionUpdate { section_id, title } => {
            lemma_section_found(sections, section_id);
            lemma_put_section_valid(
                sections,
                first_where(sections, called_section(section_id))->Some_0,
                SectionModel { title, ..section_of(sections, section_id) },
            );
        },
        EditModel::SectionRemove { section_id } => {
            lemma_section_found(sections, section_id);
            lemma_put_section_valid(
                sections,
                first_where(sections, called_section(section_id))->Some_0,
                SectionModel { deleted: true, ..section_of(sections, section_id) },
            );
        },
        EditModel::SectionRestore { section_id } => {
            lemma_section_found(sections, section_id);
            lemma_put_section_valid(
                sections,
                first_where(sections, called_section(section_id))->Some_0,
                SectionModel { deleted: false, ..section_of(sections, section_id) },
            );
        },
        EditModel::SectionReorder { section_id, position } => {
            lemma_section_found(sections, section_id);
            lemma_put_section_valid(
                sections,
                first_where(sections, called_section(section_id))->Some_0,
                SectionModel { position, ..section_of(sections, section_id) },
            );
        },
        EditModel::ItemAdd { section_id, item } => {
            lemma_section_found(sections, section_id);
            lemma_push_item_valid(
                sections,
                first_where(sections, called_section(section_id))->Some_0,
                item,
            );
        },
        EditModel::ItemUpdate { item_id, text } => {
            lemma_item_found(sections, item_id);
            lemma_put_item_valid(
                sections,
                holder_of(sections, item_id),
                place_of(sections, item_id),
                ItemModel { text, ..item_of(sections, item_id) },
            );
        },
        EditModel::ItemRemove { item_id } => {
            lemma_item_found(sections, item_id);
            lemma_put_item_valid(
                sections,
                holder_of(sections, item_id),
                place_of(sections, item_id),
                ItemModel { deleted: true, ..item_of(sections, item_id) },
            );
        },
        EditModel::ItemRestore { item_id } => {
            lemma_item_found(sections, item_id);
            lemma_put_item_valid(
                sections,
                holder_of(sections, item_id),
                place_of(sections, item_id),
                ItemModel { deleted: false, ..item_of(sections, item_id) },
            );
        },
        EditModel::ItemReorder { item_id, position } => {
            lemma_item_found(sections, item_id);
            lemma_put_item_valid(
                sections,
                holder_of(sections, item_id),
                place_of(sections, item_id),
                ItemModel { position, ..item_of(sections, item_id) },
            );
        },
        EditModel::ItemDuplicate { item_id, new_item_id, position } => {
            lemma_item_found(sections, item_id);
            lemma_push_item_valid(
                sections,
                holder_of(sections, item_id),
                ItemModel {
                    item_id: new_item_id,
                    text: item_of(sections, item_id).text,
                    position,
                    deleted: false,
                },
            );
        },
        EditModel::InstanceRename { name } => {},
        EditModel::InstanceArchive => {},
    }
}

/// Replacing the first match by another match keeps its place.
proof fn lemma_first_where_kept<T>(s: Seq<T>, accept: spec_fn(T) -> bool, value: T)
    requires
        first_where(s, accept) is Some,
        accept(value),
    ensures
        first_where(s.update(first_where(s, accept)->Some_0, value), accept) == first_where(
            s,
            accept,
        ),
{
    let i = first_where(s, accept)->Some_0;
    let t = s.update(i, value);
    lemma_first_where(s, accept);
    lemma_first_where(t, accept);
    assert(accept(t[i]));
    match first_where(t, accept) {
        Some(k) => {
            if k < i {
                assert(t[k] == s[k]);
                assert(!accept(s[k]));
            } else if i < k {
                assert(!accept(t[i]));
            }
        },
        None => {
            assert(!accept(t[i]));
        },
    }
}

/// Replacing an item by one with the same identifier keeps its place.
proof fn lemma_item_place_kept(sections: Seq<SectionModel>, id: Id, item: ItemModel)
    requires
        first_where(sections, holding_item(id)) is Some,
        item.item_id == id,
    ensures
        first_where(put_item(sections, id, item), holding_item(id)) == first_where(
            sections,
            holding_item(id),
        ),
        place_of(put_item(sections, id, item), id) == place_of(sections, id),
        item_of(put_item(sections, id, item), id) == item,
{
    lemma_item_found(sections, id);
    let i = holder_of(sections, id);
    let j = place_of(sections, id);
    let items = sections[i].items.update(j, item);
    let holder = SectionModel { items, ..sections[i] };
    assert(holder.items[j].item_id == id);
    assert(holds_item(holder, id));
    lemma_first_where_kept(sections, holding_item(id), holder);
    lemma_first_where(sections[i].items, called_item(id));
    if first_where(sections[i].items, called_item(id)) is None {
        let q = choose|q: int|
            0 <= q < sections[i].items.len() && #[trigger] sections[i].items[q].item_id == id;
        assert(!called_item(id)(sections[i].items[q]));
    }
    lemma_first_where_kept(sections[i].items, called_item(id), item);
}

/// Removing a section and restoring it gives back the instance.
pub proof fn law_restoring_a_section_undoes_its_removal(instance: InstanceModel, section_id: Id)
    requires
        instance.refusal(EditModel::SectionRemove { section_id }) is None,
    ensures
        ({
            let removed = instance.edited(EditModel::SectionRemove { section_id });
            &&& removed.refusal(EditModel::SectionRestore { section_id }) is None
            &&& removed.edited(EditModel::SectionRestore { section_id }) == instance
        }),
{
    let sections = instance.sections;
    lemma_section_found(sections, section_id);
    let section = SectionModel { deleted: true, ..section_of(sections, section_id) };
    lemma_first_where_kept(sections, called_section(section_id), section);
    let removed = instance.edited(EditModel::SectionRemove { section_id });
    assert(removed.edited(EditModel::SectionRestore { section_id }).sections =~= sections);
}

/// Restoring a section and removing it gives back the instance.
pub proof fn law_removing_a_section_undoes_its_restoration(instance: InstanceModel, section_id: Id)
    requires
        instance.refusal(EditModel::SectionRestore { section_id }) is None,
    ensures
        ({
            let restored = instance.edited(EditModel::SectionRestore { section_id });
            &&& restored.refusal(EditModel::SectionRemove { section_id }) is None
            &&& restored.edited(EditModel::SectionRemove { section_id }) == instance
        }),
{
    let sections = instance.sections;
    lemma_section_found(sections, section_id);
    let section = SectionModel { deleted: false, ..section_of(sections, section_id) };
    lemma_first_where_kept(sections, called_section(section_id), section);
    let restored = instance.edited(EditModel::SectionRestore { section_id });
    assert(restored.edited(EditModel::SectionRemove { section_id }).sections =~= sections);
}

/// Removing an item and restoring it gives back the instance.
pub proof fn law_restoring_an_item_undoes_its_removal(instance: InstanceModel, item_id: Id)
    requires
        instance.refusal(EditModel::ItemRemove { item_id }) is None,
    ensures
        ({
            let removed = instance.edited(EditModel::ItemRemove { item_id });
            &&& removed.refusal(EditModel::ItemRestore { item_id }) is None
            &&& removed.edited(EditModel::ItemRestore { item_id }) == instance
        }),
{
    let sections = instance.sections;
    lemma_item_found(sections, item_id);
    let item = ItemModel { deleted: true, ..item_of(sections, item_id) };
    lemma_item_place_kept(sections, item_id, item);
    let removed = instance.edited(EditModel::ItemRemove { item_id });
    let again = removed.edited(EditModel::ItemRestore { item_id }).sections;
    let i = holder_of(sections, item_id);
    assert(again[i].items =~= sections[i].items);
    assert(again =~= sections);
}

/// Restoring an item and removing it gives back the instance.
pub proof fn law_removing_an_item_undoes_its_restoration(instance: InstanceModel, item_id: Id)
    requires
        instance.refusal(EditModel::ItemRestore { item_id }) is None,
    ensures
        ({
            let restored = instance.edited(EditModel::ItemRestore { item_id });
            &&& restored.refusal(EditModel::ItemRemove { item_id }) is None
            &&& restored.edited(EditModel::ItemRemove { item_id }) == instance
        }),
{
    let sections = instance.sections;
    lemma_item_found(sections, item_id);
    let item = ItemModel { deleted: false, ..item_of(sections, item_id) };
    lemma_item_place_kept(sections, item_id, item);
    let restored = instance.edited(EditModel::ItemRestore { item_id });
    let again = restored.edited(EditModel::ItemRemove { item_id }).sections;
    let i = holder_of(sections, item_id);
    assert(again[i].items =~= sections[i].items);
    assert(again =~= sections);
}

/// An edit never drops a section or an item: each keeps its place and its identifier.
pub proof fn law_edits_drop_nothing(instance: InstanceModel, edit: EditModel, i: int, j: int)
    requires
        instance.refusal(edit) is None,
        0 <= i < instance.sections.len(),
    ensures
        i < instance.edited(edit).sections.len(),
        instance.edited(edit).sections[i].section_id == instance.sections[i].section_id,
        0 <= j < instance.sections[i].items.len() ==> {
            &&& j < instance.edited(edit).sections[i].items.len()
            &&& instance.edited(edit).sections[i].items[j].item_id
                == instance.sections[i].items[j].item_id
        },
{
    lemma_edit_target_found(instance, edit);
}

/// An instance after a sequence of edits was asked for, each made unless it is refused.
pub open spec fn after_edits(instance: InstanceModel, edits: Seq<EditModel>) -> InstanceModel
    decreases edits.len(),
{
    if edits.len() == 0 {
        instance
    } else {
        let before = after_edits(instance, edits.drop_last());
        if before.refusal(edits.last()) is None {
            before.edited(edits.last())
        } else {
            before
        }
    }
}

/// The identifiers of sections, in the order in which they stand.
pub open spec fn section_ids(sections: Seq<SectionModel>) -> Seq<Id> {
    sections.map_values(|section: SectionModel| section.section_id)
}

/// The identifiers of items, in the order in which they stand.
pub open spec fn item_ids(items: Seq<ItemModel>) -> Seq<Id> {
    items.map_values(|item: ItemModel| item.item_id)
}

/// However many edits are asked for, accepted or refused, none ever drops a section or an
/// item: the identifiers of the sections, and of the items of each section, stay at the
/// front of those that come after.
pub proof fn law_edit_sequences_drop_nothing(instance: InstanceModel, edits: Seq<EditModel>)
    ensures
        section_ids(instance.sections).is_prefix_of(
            section_ids(after_edits(instance, edits).sections),
        ),
        forall|i: int|
            0 <= i < instance.sections.len() ==> item_ids(
                (#[trigger] instance.sections[i]).items,
            ).is_prefix_of(item_ids(after_edits(instance, edits).sections[i].items)),
    decreases edits.len(),
{
    let first = instance.sections;
    let last = after_edits(instance, edits).sections;
    if edits.len() > 0 {
        let before = after_edits(instance, edits.drop_last());
        law_edit_sequences_drop_nothing(instance, edits.drop_last());
        assert forall|i: int| 0 <= i < first.len() implies i < last.len() && section_ids(last)[i]
            == #[trigger] section_ids(first)[i] by {
            assert(section_ids(before.sections)[i] == section_ids(first)[i]);
            if before.refusal(edits.last()) is None {
                law_edits_drop_nothing(before, edits.last(), i, 0);
            }
        }
        if first.len() > 0 {
            assert(section_ids(last)[first.len() - 1] == section_ids(first)[first.len() - 1]);
        }
        assert(section_ids(first) =~= section_ids(last).take(first.len() as int));
        assert forall|i: int| 0 <= i < first.len() implies item_ids(
            (#[trigger] first[i]).items,
        ).is_prefix_of(item_ids(last[i].items)) by {
            let (old_ids, new_ids) = (item_ids(first[i].items), item_ids(last[i].items));
            let between = item_ids(before.sections[i].items);
            assert(old_ids.is_prefix_of(between));
            assert(i < before.sections.len()) by {
                assert(section_ids(before.sections)[i] == section_ids(first)[i]);
            }
            if before.refusal(edits.last()) is None {
                assert forall|j: int| 0 <= j < old_ids.len() implies j < new_ids.len() && new_ids[j]
                    == #[trigger] old_ids[j] by {
                    assert(between[j] == old_ids[j]);
                    law_edits_drop_nothing(before, edits.last(), i, j);
                }
                if old_ids.len() > 0 {
                    assert(new_ids[old_ids.len() - 1] == old_ids[old_ids.len() - 1]);
                }
                assert(old_ids =~= new_ids.take(old_ids.len() as int));
            }
        }
    }
}

/// What is known of the place that an edit changes.
proof fn lemma_edit_target_found(instance: InstanceModel, edit: EditModel)
    requires
        instance.refusal(edit) is None,
    ensures
        section_target(edit) is Some ==> {
            let id = section_target(edit)->Some_0;
            &&& 0 <= first_where(instance.sections, called_section(id))->Some_0
                < instance.sections.len()
            &&& section_of(instance.sections, id).section_id == id
        },
        item_target(edit) is Some ==> {
            let id = item_target(edit)->Some_0;
            &&& 0 <= holder_of(instance.sections, id) < instance.sections.len()
            &&& 0 <= place_of(instance.sections, id) < instance.sections[holder_of(
                instance.sections,
                id,
            )].items.len()
            &&& item_of(instance.sections, id).item_id == id
        },
{
    if section_target(edit) is Some {
        lemma_section_found(instance.sections, section_target(edit)->Some_0);
    }
    if item_target(edit) is Some {
        lemma_item_found(instance.sections, item_target(edit)->Some_0);
    }
}

/// The section that an edit names.
spec fn section_target(edit: EditModel) -> Option<Id> {
    match edit {
        EditModel::SectionUpdate { section_id, .. } => Some(section_id),
        EditModel::SectionRemove { section_id } => Some(section_id),
        EditModel::SectionRestore { section_id } => Some(section_id),
        EditModel::SectionReorder { section_id, .. } => Some(section_id),
        EditModel::ItemAdd { section_id, .. } => Some(section_id),
        _ => None,
    }
}

/// The item that an edit names.
spec fn item_target(edit: EditModel) -> Option<Id> {
    match edit {
        EditModel::ItemUpdate { item_id, .. } => Some(item_id),
        EditModel::ItemRemove { item_id } => Some(item_id),
        EditModel::ItemRestore { item_id } => Some(item_id),
        EditModel::ItemReorder { item_id, .. } => Some(item_id),
        EditModel::ItemDuplicate { item_id, .. } => Some(item_id),
        _ => None,
    }
}

/// The section whose title, position or removal an edit changes.
pub open spec fn changed_section(edit: EditModel) -> Option<Id> {
    match edit {
        EditModel::SectionUpdate { section_id, .. } => Some(section_id),
        EditModel::SectionRemove { section_id } => Some(section_id),
        EditModel::SectionRestore { section_id } => Some(section_id),
        EditModel::SectionReorder { section_id, .. } => Some(section_id),
        _ => None,
    }
}

/// The item that an edit changes.
pub open spec fn changed_item(edit: EditModel) -> Option<Id> {
    match edit {
        EditModel::ItemUpdate { item_id, .. } => Some(item_id),
        EditModel::ItemRemove { item_id } => Some(item_id),
        EditModel::ItemRestore { item_id } => Some(item_id),
        EditModel::ItemReorder { item_id, .. } => Some(item_id),
        _ => None,
    }
}

/// An edit changes no item but the one that it is made to, and leaves the title, the
/// position and the removal of every section alone but of the one that it is made to.
/// Adding and copying change nothing that was there.
pub proof fn law_edits_touch_only_their_target(
    instance: InstanceModel,
    edit: EditModel,
    i: int,
    j: int,
)
    requires
        instance.refusal(edit) is None,
        0 <= i < instance.sections.len(),
    ensures
        changed_section(edit) != Some(instance.sections[i].section_id) ==> {
            let before = instance.sections[i];
            let after = instance.edited(edit).sections[i];
            &&& after.title == before.title
            &&& after.position == before.position
            &&& after.deleted == before.deleted
        },
        0 <= j < instance.sections[i].items.len() && changed_item(edit) != Some(
            instance.sections[i].items[j].item_id,
        ) ==> instance.edited(edit).sections[i].items[j] == instance.sections[i].items[j],
{
    lemma_edit_target_found(instance, edit);
}

/// An item whose section is removed cannot be edited, removed, restored, moved or copied.
pub proof fn law_removed_sections_shield_their_items(
    instance: InstanceModel,
    item_id: Id,
    text: Seq<char>,
    position: i64,
    new_item_id: Id,
)
    requires
        instance.status == InstanceStatus::Active,
        reachable_item_fault(instance.sections, item_id) == Some(
            PlaybookError::Removed("section"),
        ),
    ensures
        !blank(text) ==> instance.refusal(EditModel::ItemUpdate { item_id, text }) == Some(
            PlaybookError::Removed("section"),
        ),
        instance.refusal(EditModel::ItemRemove { item_id }) == Some(
            PlaybookError::Removed("section"),
        ),
        instance.refusal(EditModel::ItemRestore { item_id }) == Some(
            PlaybookError::Removed("section"),
        ),
        position > 0 ==> instance.refusal(EditModel::ItemReorder { item_id, position }) == Some(
            PlaybookError::Removed("section"),
        ),
        position > 0 && !mentions_item(instance.sections, new_item_id) ==> instance.refusal(
            EditModel::ItemDuplicate { item_id, new_item_id, position },
        ) == Some(PlaybookError::Removed("section")),
{
}

/// After the removal of a section, the items that it holds are out of reach: for them
/// `law_removed_sections_shield_their_items` applies.
pub proof fn law_removal_of_a_section_covers_its_items(
    instance: InstanceModel,
    section_id: Id,
    item_id: Id,
)
    requires
        instance.valid(),
        instance.refusal(EditModel::SectionRemove { section_id }) is None,
        holds_item(section_of(instance.sections, section_id), item_id),
    ensures
        reachable_item_fault(
            instance.edited(EditModel::SectionRemove { section_id }).sections,
            item_id,
        ) == Some(PlaybookError::Removed("section")),
{
    let sections = instance.sections;
    lemma_section_found(sections, section_id);
    let i = first_where(sections, called_section(section_id))->Some_0;
    let after = instance.edited(EditModel::SectionRemove { section_id }).sections;
    lemma_first_where(after, holding_item(item_id));
    let j = choose|j: int|
        0 <= j < sections[i].items.len() && #[trigger] sections[i].items[j].item_id == item_id;
    assert(after[i].items[j].item_id == item_id);
    assert(holding_item(item_id)(after[i]));
    let k = holder_of(after, item_id);
    let q = choose|q: int|
        0 <= q < after[k].items.len() && #[trigger] after[k].items[q].item_id == item_id;
    assert(sections[k].items[q].item_id == sections[i].items[j].item_id);
}

/// In a valid instance a removed item no longer counts, whatever happens to its section.
pub proof fn law_removed_items_do_not_count(instance: InstanceModel, item_id: Id)
    requires
        instance.valid(),
        instance.refusal(EditModel::ItemRemove { item_id }) is None,
    ensures
        has_active(instance.sections, item_id),
        !has_active(instance.edited(EditModel::ItemRemove { item_id }).sections, item_id),
{
    let sections = instance.sections;
    lemma_item_found(sections, item_id);
    let i = holder_of(sections, item_id);
    let j = place_of(sections, item_id);
    assert(sections[i].items[j].item_id == item_id);
    let after = instance.edited(EditModel::ItemRemove { item_id }).sections;
    assert forall|p: int, q: int|
        0 <= p < after.len() && 0 <= q < after[p].items.len() && (
        #[trigger] after[p].items[q]).item_id == item_id implies after[p].items[q].deleted by {
        assert(sections[p].items[q].item_id == item_id);
        assert(p == i && q == j);
    }
}

/// A restored item counts again.
pub proof fn law_restored_items_count(instance: InstanceModel, item_id: Id)
    requires
        instance.refusal(EditModel::ItemRestore { item_id }) is None,
    ensures
        has_active(instance.edited(EditModel::ItemRestore { item_id }).sections, item_id),
{
    let sections = instance.sections;
    lemma_item_found(sections, item_id);
    let after = instance.edited(EditModel::ItemRestore { item_id }).sections;
    let i = holder_of(sections, item_id);
    let j = place_of(sections, item_id);
    assert(after[i].items[j].item_id == item_id);
}

/// A copy of an item stands at the end of the item's own section, under its own identifier
/// and position and with the text of the item, and counts.
pub proof fn law_copies_are_independent(
    instance: InstanceModel,
    item_id: Id,
    new_item_id: Id,
    position: i64,
)
    requires
        instance.refusal(EditModel::ItemDuplicate { item_id, new_item_id, position }) is None,
    ensures
        new_item_id != item_id,
        ({
            let after = instance.edited(
                EditModel::ItemDuplicate { item_id, new_item_id, position },
            ).sections;
            let copy = after[holder_of(instance.sections, item_id)].items.last();
            &&& copy.item_id == new_item_id
            &&& copy.position == position
            &&& copy.text == item_of(instance.sections, item_id).text
            &&& after[holder_of(instance.sections, item_id)].items.len()
                == instance.sections[holder_of(instance.sections, item_id)].items.len() + 1
            &&& has_active(after, new_item_id)
        }),
{
    let sections = instance.sections;
    lemma_item_found(sections, item_id);
    let i = holder_of(sections, item_id);
    let j = place_of(sections, item_id);
    assert(sections[i].items[j].item_id == item_id);
    assert(holds_item(sections[i], item_id));
    let after = instance.edited(
        EditModel::ItemDuplicate { item_id, new_item_id, position },
    ).sections;
    let last = after[i].items.len() - 1;
    assert(after[i].items[last].item_id == new_item_id);
}

/// A copy of an acceptable template revision is a valid, active instance at its first
/// structural revision, with the template's own sections.
pub proof fn law_new_instances_are_valid(instance_id: Id, channel_id: Id, source: TemplateModel)
    requires
        template_fault(source) is None,
    ensures
        instantiated(instance_id, channel_id, source).valid(),
        instantiated(instance_id, channel_id, source).status == InstanceStatus::Active,
        instantiated(instance_id, channel_id, source).structure_revision == 1,
        instantiated(instance_id, channel_id, source).sections == source.sections,
{
    law_validation_accepts_exactly_valid_sections(source.sections);
}

/// The items that count are those for which `has_active_item` answers yes.
pub proof fn law_counted_items_are_the_active_ones(sections: Seq<SectionModel>, id: Id)
    ensures
        has_active(sections, id) <==> exists|k: int|
            0 <= k < active_items(sections).len() && (
            #[trigger] active_items(sections)[k]).item_id == id,
    decreases sections.len(),
{
    let all = active_items(sections);
    if sections.len() > 0 {
        let shorter = sections.drop_last();
        let earlier = active_items(shorter);
        let section = sections.last();
        let own = live_items(section);
        let n = sections.len() - 1;
        law_counted_items_are_the_active_ones(shorter, id);
        if has_active(sections, id) {
            let (i, j) = choose|i: int, j: int|
                0 <= i < sections.len() && 0 <= j < sections[i].items.len() && !sections[i].deleted
                    && (#[trigger] sections[i].items[j]).item_id == id
                    && !sections[i].items[j].deleted;
            if i < n {
                assert(shorter[i].items[j].item_id == id);
                let k = choose|k: int| 0 <= k < earlier.len() && (#[trigger] earlier[k]).item_id == id;
                assert(all[k] == earlier[k]);
            } else {
                let item = section.items[j];
                section.items.lemma_filter_contains(live(), j);
                let k = own.index_of(item);
                assert(all[earlier.len() + k] == own[k]);
            }
        }
        if exists|k: int| 0 <= k < all.len() && (#[trigger] all[k]).item_id == id {
            let k = choose|k: int| 0 <= k < all.len() && (#[trigger] all[k]).item_id == id;
            if k < earlier.len() {
                assert(earlier[k].item_id == id);
                let (i, j) = choose|i: int, j: int|
                    0 <= i < shorter.len() && 0 <= j < shorter[i].items.len() && !shorter[i].deleted
                        && (#[trigger] shorter[i].items[j]).item_id == id
                        && !shorter[i].items[j].deleted;
                assert(sections[i].items[j].item_id == id);
            } else {
                let item = own[k - earlier.len()];
                section.items.lemma_filter_pred(live(), k - earlier.len());
                assert(own.contains(item));
                section.items.lemma_filter_contains_rev(live(), item);
                let j = section.items.index_of(item);
                assert(sections[n].items[j].item_id == id);
            }
        }
    }
}

/// No more items are completed than there are, and where none counts both counts are nought.
pub proof fn law_progress_is_bounded(sections: Seq<SectionModel>, states: Seq<StateModel>)
    ensures
        active_items(sections).filter(completed(states)).len() <= active_items(sections).len(),
        (forall|id: Id| !has_active(sections, id)) ==> active_items(sections).len() == 0,
{
    active_items(sections).lemma_filter_len(completed(states));
    if active_items(sections).len() > 0 {
        let id = active_items(sections)[0].item_id;
        law_counted_items_are_the_active_ones(sections, id);
    }
}

} // verus!
