//! Channel instances and the structural edits that change them.

use std::collections::HashSet;

use vstd::prelude::*;

use crate::document::{
    InstanceStatus, ItemModel, PLAYBOOK_SCHEMA_VERSION, PlaybookItem, PlaybookSection,
    SectionModel, TemplateModel, TemplateRevision, items_model, sections_model,
};
use crate::error::PlaybookError;
use crate::operation::{EditModel, StructureOperationKind};
use crate::search::{
    called_item, called_section, find_holder, find_item, find_section, first_where, holding_item,
    lemma_first_where, mentions_item,
};
use crate::state::{ItemState, StateModel, states_model};
use crate::text::{Id, blank};
use crate::validate::{sections_fault, text_fault, validate_sections, validate_text, verdict};

verus! {

broadcast use vstd::std_specs::hash::group_hash_axioms;

/// Materialized channel-specific playbook definition.
#[derive(Debug, PartialEq, Eq)]
pub struct PlaybookInstance {
    /// Payload schema version.
    pub schema_version: u32,
    /// Stable instance identifier.
    pub instance_id: Id,
    /// Owning channel identifier.
    pub channel_id: Id,
    /// User-visible instance name.
    pub name: String,
    /// Source template identifier, retained for provenance only.
    pub source_template_id: Id,
    /// Source template revision, retained for provenance only.
    pub source_template_revision: u64,
    /// Monotonically increasing structural revision.
    pub structure_revision: u64,
    /// Instance lifecycle state.
    pub status: InstanceStatus,
    /// Deep-copied, instance-owned section and item data.
    pub sections: Vec<PlaybookSection>,
}

/// What an instance holds.
#[verifier::ext_equal]
pub struct InstanceModel {
    pub schema_version: u32,
    pub instance_id: Id,
    pub channel_id: Id,
    pub name: Seq<char>,
    pub source_template_id: Id,
    pub source_template_revision: u64,
    pub structure_revision: u64,
    pub status: InstanceStatus,
    pub sections: Seq<SectionModel>,
}

impl View for PlaybookInstance {
    type V = InstanceModel;

    open spec fn view(&self) -> InstanceModel {
        InstanceModel {
            schema_version: self.schema_version,
            instance_id: self.instance_id,
            channel_id: self.channel_id,
            name: self.name@,
            source_template_id: self.source_template_id,
            source_template_revision: self.source_template_revision,
            structure_revision: self.structure_revision,
            status: self.status,
            sections: sections_model(self.sections@),
        }
    }
}

impl Clone for PlaybookInstance {
    fn clone(&self) -> (result: Self)
        ensures
            result@ == self@,
    {
        let result = PlaybookInstance {
            schema_version: self.schema_version,
            instance_id: self.instance_id,
            channel_id: self.channel_id,
            name: self.name.clone(),
            source_template_id: self.source_template_id,
            source_template_revision: self.source_template_revision,
            structure_revision: self.structure_revision,
            status: self.status,
            sections: self.sections.clone(),
        };
        assert(sections_model(result.sections@) =~= sections_model(self.sections@));
        result
    }
}

/// Why the section called `id` cannot be edited: it is absent or removed.
pub open spec fn live_section_fault(sections: Seq<SectionModel>, id: Id) -> Option<PlaybookError> {
    match first_where(sections, called_section(id)) {
        None => Some(PlaybookError::SectionNotFound(id)),
        Some(i) => if sections[i].deleted {
            Some(PlaybookError::Removed("section"))
        } else {
            None
        },
    }
}

/// Why the item called `id` cannot be reached: it is absent, or its section is removed.
pub open spec fn reachable_item_fault(sections: Seq<SectionModel>, id: Id) -> Option<
    PlaybookError,
> {
    match first_where(sections, holding_item(id)) {
        None => Some(PlaybookError::ItemNotFound(id)),
        Some(i) => if sections[i].deleted {
            Some(PlaybookError::Removed("section"))
        } else {
            None
        },
    }
}

/// The section that holds the item called `id`.
pub open spec fn holder_of(sections: Seq<SectionModel>, id: Id) -> int {
    first_where(sections, holding_item(id))->Some_0
}

/// The place of the item called `id` in its section.
pub open spec fn place_of(sections: Seq<SectionModel>, id: Id) -> int {
    first_where(sections[holder_of(sections, id)].items, called_item(id))->Some_0
}

/// The item called `id`.
pub open spec fn item_of(sections: Seq<SectionModel>, id: Id) -> ItemModel {
    sections[holder_of(sections, id)].items[place_of(sections, id)]
}

/// Why the item called `id` cannot be edited: it cannot be reached, or it is removed.
pub open spec fn live_item_fault(sections: Seq<SectionModel>, id: Id) -> Option<PlaybookError> {
    if reachable_item_fault(sections, id) is Some {
        reachable_item_fault(sections, id)
    } else if item_of(sections, id).deleted {
        Some(PlaybookError::Removed("item"))
    } else {
        None
    }
}

/// The section called `id`.
pub open spec fn section_of(sections: Seq<SectionModel>, id: Id) -> SectionModel {
    sections[first_where(sections, called_section(id))->Some_0]
}

/// `sections` with the section called `id` replaced.
pub open spec fn put_section(
    sections: Seq<SectionModel>,
    id: Id,
    section: SectionModel,
) -> Seq<SectionModel> {
    sections.update(first_where(sections, called_section(id))->Some_0, section)
}

/// `sections` with the items of the section at `i` replaced.
pub open spec fn put_items(sections: Seq<SectionModel>, i: int, items: Seq<ItemModel>) -> Seq<
    SectionModel,
> {
    sections.update(i, SectionModel { items, ..sections[i] })
}

/// `sections` with the item called `id` replaced.
pub open spec fn put_item(sections: Seq<SectionModel>, id: Id, item: ItemModel) -> Seq<
    SectionModel,
> {
    let i = holder_of(sections, id);
    put_items(sections, i, sections[i].items.update(place_of(sections, id), item))
}

impl InstanceModel {
    /// Why an edit is refused, if it is.
    pub open spec fn refusal(self, edit: EditModel) -> Option<PlaybookError> {
        if self.status == InstanceStatus::Archived {
            Some(PlaybookError::Archived)
        } else {
            match edit {
                EditModel::SectionAdd { section } => sections_fault(
                    self.sections.push(section),
                    self.sections.len() + 1,
                ),
                EditModel::SectionUpdate { section_id, title } => if blank(title) {
                    Some(PlaybookError::InvalidText("section title"))
                } else {
                    live_section_fault(self.sections, section_id)
                },
                EditModel::SectionRemove { section_id } => live_section_fault(
                    self.sections,
                    section_id,
                ),
                EditModel::SectionRestore { section_id } => match first_where(
                    self.sections,
                    called_section(section_id),
                ) {
                    None => Some(PlaybookError::SectionNotFound(section_id)),
                    Some(i) => if !self.sections[i].deleted {
                        Some(PlaybookError::AlreadyActive("section"))
                    } else {
                        None
                    },
                },
                EditModel::SectionReorder { section_id, position } => if position <= 0 {
                    Some(PlaybookError::InvalidPosition(position))
                } else {
                    live_section_fault(self.sections, section_id)
                },
                EditModel::ItemAdd { section_id, item } => if blank(item.text) {
                    Some(PlaybookError::InvalidText("item text"))
                } else if item.position <= 0 {
                    Some(PlaybookError::InvalidPosition(item.position))
                } else if mentions_item(self.sections, item.item_id) {
                    Some(PlaybookError::DuplicateId("item", item.item_id))
                } else {
                    live_section_fault(self.sections, section_id)
                },
                EditModel::ItemUpdate { item_id, text } => if blank(text) {
                    Some(PlaybookError::InvalidText("item text"))
                } else {
                    live_item_fault(self.sections, item_id)
                },
                EditModel::ItemRemove { item_id } => live_item_fault(self.sections, item_id),
                EditModel::ItemRestore { item_id } => if reachable_item_fault(
                    self.sections,
                    item_id,
                ) is Some {
                    reachable_item_fault(self.sections, item_id)
                } else if !item_of(self.sections, item_id).deleted {
                    Some(PlaybookError::AlreadyActive("item"))
                } else {
                    None
                },
                EditModel::ItemReorder { item_id, position } => if position <= 0 {
                    Some(PlaybookError::InvalidPosition(position))
                } else {
                    live_item_fault(self.sections, item_id)
                },
                EditModel::ItemDuplicate { item_id, new_item_id, position } => if position <= 0 {
                    Some(PlaybookError::InvalidPosition(position))
                } else if mentions_item(self.sections, new_item_id) {
                    Some(PlaybookError::DuplicateId("item", new_item_id))
                } else {
                    live_item_fault(self.sections, item_id)
                },
                EditModel::InstanceRename { name } => text_fault(name, "instance name"),
                EditModel::InstanceArchive => None,
            }
        }
    }

    /// The sections once an edit has been made that is not refused.
    pub open spec fn edited_sections(self, edit: EditModel) -> Seq<SectionModel> {
        let sections = self.sections;
        match edit {
            EditModel::SectionAdd { section } => sections.push(section),
            EditModel::SectionUpdate { section_id, title } => put_section(
                sections,
                section_id,
                SectionModel { title, ..section_of(sections, section_id) },
            ),
            EditModel::SectionRemove { section_id } => put_section(
                sections,
                section_id,
                SectionModel { deleted: true, ..section_of(sections, section_id) },
            ),
            EditModel::SectionRestore { section_id } => put_section(
                sections,
                section_id,
                SectionModel { deleted: false, ..section_of(sections, section_id) },
            ),
            EditModel::SectionReorder { section_id, position } => put_section(
                sections,
                section_id,
                SectionModel { position, ..section_of(sections, section_id) },
            ),
            EditModel::ItemAdd { section_id, item } => put_section(
                sections,
                section_id,
                SectionModel {
                    items: section_of(sections, section_id).items.push(item),
                    ..section_of(sections, section_id)
                },
            ),
            EditModel::ItemUpdate { item_id, text } => put_item(
                sections,
                item_id,
                ItemModel { text, ..item_of(sections, item_id) },
            ),
            EditModel::ItemRemove { item_id } => put_item(
                sections,
                item_id,
                ItemModel { deleted: true, ..item_of(sections, item_id) },
            ),
            EditModel::ItemRestore { item_id } => put_item(
                sections,
                item_id,
                ItemModel { deleted: false, ..item_of(sections, item_id) },
            ),
            EditModel::ItemReorder { item_id, position } => put_item(
                sections,
                item_id,
                ItemModel { position, ..item_of(sections, item_id) },
            ),
            EditModel::ItemDuplicate { item_id, new_item_id, position } => {
                let i = holder_of(sections, item_id);
                put_items(
                    sections,
                    i,
                    sections[i].items.push(
                        ItemModel {
                            item_id: new_item_id,
                            text: item_of(sections, item_id).text,
                            position,
                            deleted: false,
                        },
                    ),
                )
            },
            EditModel::InstanceRename { .. } => sections,
            EditModel::InstanceArchive => sections,
        }
    }

    /// The instance once an edit has been made that is not refused.
    pub open spec fn edited(self, edit: EditModel) -> InstanceModel {
        InstanceModel {
            name: match edit {
                EditModel::InstanceRename { name } => name,
                _ => self.name,
            },
            status: match edit {
                EditModel::InstanceArchive => InstanceStatus::Archived,
                _ => self.status,
            },
            sections: self.edited_sections(edit),
            ..self
        }
    }
}

/// The items that are not removed.
pub open spec fn live() -> spec_fn(ItemModel) -> bool {
    |item: ItemModel| !item.deleted
}

/// The items of a section that count: none of a removed section, else those not removed.
pub open spec fn live_items(section: SectionModel) -> Seq<ItemModel> {
    if section.deleted {
        Seq::empty()
    } else {
        section.items.filter(live())
    }
}

/// The items that count, section by section.
pub open spec fn active_items(sections: Seq<SectionModel>) -> Seq<ItemModel>
    decreases sections.len(),
{
    if sections.len() == 0 {
        Seq::empty()
    } else {
        active_items(sections.drop_last()) + live_items(sections.last())
    }
}

/// Whether some state of the list says that item `id` is completed.
pub open spec fn says_completed(states: Seq<StateModel>, id: Id) -> bool {
    exists|k: int|
        0 <= k < states.len() && (#[trigger] states[k]).completed && states[k].item_id == id
}

/// The items that the states say are completed.
pub open spec fn completed(states: Seq<StateModel>) -> spec_fn(ItemModel) -> bool {
    |item: ItemModel| says_completed(states, item.item_id)
}

/// Whether an item called `id` counts.
pub open spec fn has_active(sections: Seq<SectionModel>, id: Id) -> bool {
    exists|i: int, j: int|
        0 <= i < sections.len() && 0 <= j < sections[i].items.len() && !sections[i].deleted && (
        #[trigger] sections[i].items[j]).item_id == id && !sections[i].items[j].deleted
}

/// The instance that a template revision is copied into.
pub open spec fn instantiated(
    instance_id: Id,
    channel_id: Id,
    source: TemplateModel,
) -> InstanceModel {
    InstanceModel {
        schema_version: PLAYBOOK_SCHEMA_VERSION,
        instance_id,
        channel_id,
        name: source.name,
        source_template_id: source.template_id,
        source_template_revision: source.revision,
        structure_revision: 1,
        status: InstanceStatus::Active,
        sections: source.sections,
    }
}

/// One more state says that one more item is completed, or says nothing new.
proof fn lemma_says_completed_step(states: Seq<StateModel>, k: int)
    requires
        0 <= k < states.len(),
    ensures
        forall|id: Id| #[trigger]
            says_completed(states.take(k + 1), id) <==> says_completed(states.take(k), id) || (
            states[k].completed && states[k].item_id == id),
{
    let shorter = states.take(k);
    let longer = states.take(k + 1);
    assert forall|id: Id| #[trigger] says_completed(longer, id) <==> says_completed(shorter, id)
        || (states[k].completed && states[k].item_id == id) by {
        if says_completed(shorter, id) {
            let l = choose|l: int|
                0 <= l < shorter.len() && (#[trigger] shorter[l]).completed && shorter[l].item_id
                    == id;
            assert(longer[l] == shorter[l]);
        }
        if states[k].completed && states[k].item_id == id {
            assert(longer[k] == states[k]);
        }
        if says_completed(longer, id) {
            let l = choose|l: int|
                0 <= l < longer.len() && (#[trigger] longer[l]).completed && longer[l].item_id
                    == id;
            if l < k {
                assert(shorter[l] == longer[l]);
            }
        }
    }
}

/// A prefix has no more elements that `accept` accepts than the whole.
proof fn lemma_filter_of_prefix<T>(s: Seq<T>, accept: spec_fn(T) -> bool, n: int)
    requires
        0 <= n <= s.len(),
    ensures
        s.take(n).filter(accept).len() <= s.filter(accept).len(),
    decreases s.len(),
{
    if n < s.len() {
        assert(s.drop_last().take(n) =~= s.take(n));
        lemma_filter_of_prefix(s.drop_last(), accept, n);
        s.drop_last().lemma_filter_push(s.last(), accept);
        assert(s.drop_last().push(s.last()) =~= s);
    } else {
        assert(s.take(n) =~= s);
    }
}

/// Fewer sections have no more items that count.
proof fn lemma_active_items_grow(sections: Seq<SectionModel>, n: int)
    requires
        0 <= n <= sections.len(),
    ensures
        active_items(sections.take(n)).len() <= active_items(sections).len(),
    decreases sections.len(),
{
    if n < sections.len() {
        assert(sections.drop_last().take(n) =~= sections.take(n));
        lemma_active_items_grow(sections.drop_last(), n);
    } else {
        assert(sections.take(n) =~= sections);
    }
}

/// Index of the section called `id`, unless it is absent or removed.
fn find_live_section(sections: &Vec<PlaybookSection>, id: Id) -> (result: Result<
    usize,
    PlaybookError,
>)
    ensures
        match result {
            Ok(i) => live_section_fault(sections_model(sections@), id) is None && first_where(
                sections_model(sections@),
                called_section(id),
            ) == Some(i as int) && i < sections@.len(),
            Err(error) => live_section_fault(sections_model(sections@), id) == Some(error),
        },
{
    match find_section(sections, id) {
        None => Err(PlaybookError::SectionNotFound(id)),
        Some(i) => {
            assert(sections_model(sections@)[i as int] == sections@[i as int]@);
            if sections[i].deleted {
                Err(PlaybookError::Removed("section"))
            } else {
                Ok(i)
            }
        },
    }
}

/// Section and place of the item called `id`, unless it is absent or its section removed.
fn find_active_section_item(sections: &Vec<PlaybookSection>, id: Id) -> (result: Result<
    (usize, usize),
    PlaybookError,
>)
    ensures
        match result {
            Ok((i, j)) => {
                &&& reachable_item_fault(sections_model(sections@), id) is None
                &&& first_where(sections_model(sections@), holding_item(id)) == Some(i as int)
                &&& i < sections@.len()
                &&& first_where(sections_model(sections@)[i as int].items, called_item(id)) == Some(
                    j as int,
                )
                &&& j < sections@[i as int].items@.len()
            },
            Err(error) => reachable_item_fault(sections_model(sections@), id) == Some(error),
        },
{
    let ghost model = sections_model(sections@);
    proof {
        lemma_first_where(model, holding_item(id));
    }
    match find_holder(sections, id) {
        None => Err(PlaybookError::ItemNotFound(id)),
        Some(i) => {
            assert(model[i as int] == sections@[i as int]@);
            if sections[i].deleted {
                return Err(PlaybookError::Removed("section"));
            }
            proof {
                lemma_first_where(model[i as int].items, called_item(id));
            }
            match find_item(&sections[i].items, id) {
                None => {
                    // the section was found by this very item
                    assert(false);
                    Err(PlaybookError::ItemNotFound(id))
                },
                Some(j) => Ok((i, j)),
            }
        },
    }
}

/// Section and place of the item called `id`, unless it cannot be reached or is removed.
fn find_live_item(sections: &Vec<PlaybookSection>, id: Id) -> (result: Result<
    (usize, usize),
    PlaybookError,
>)
    ensures
        match result {
            Ok((i, j)) => {
                &&& live_item_fault(sections_model(sections@), id) is None
                &&& first_where(sections_model(sections@), holding_item(id)) == Some(i as int)
                &&& i < sections@.len()
                &&& first_where(sections_model(sections@)[i as int].items, called_item(id)) == Some(
                    j as int,
                )
                &&& j < sections@[i as int].items@.len()
            },
            Err(error) => live_item_fault(sections_model(sections@), id) == Some(error),
        },
{
    match find_active_section_item(sections, id) {
        Err(error) => Err(error),
        Ok((i, j)) => {
            assert(sections_model(sections@)[i as int].items[j as int]
                == sections@[i as int].items@[j as int]@);
            if sections[i].items[j].deleted {
                Err(PlaybookError::Removed("item"))
            } else {
                Ok((i, j))
            }
        },
    }
}

/// Whether any item of any section is called `id`.
fn has_item(sections: &Vec<PlaybookSection>, id: Id) -> (result: bool)
    ensures
        result == mentions_item(sections_model(sections@), id),
{
    proof {
        lemma_first_where(sections_model(sections@), holding_item(id));
    }
    find_holder(sections, id).is_some()
}

impl PlaybookInstance {
    /// Create an independent instance by deep-copying a template revision.
    pub fn from_template(instance_id: Id, channel_id: Id, source: &TemplateRevision) -> (result:
        Self)
        ensures
            result@ == instantiated(instance_id, channel_id, source@),
    {
        let sections = source.sections.clone();
        assert(sections_model(sections@) =~= sections_model(source.sections@));
        PlaybookInstance {
            schema_version: PLAYBOOK_SCHEMA_VERSION,
            instance_id,
            channel_id,
            name: source.name.clone(),
            source_template_id: source.template_id,
            source_template_revision: source.revision,
            structure_revision: 1,
            status: InstanceStatus::Active,
            sections,
        }
    }

    /// Return active completed-count and active total-count.
    pub fn progress(&self, states: &[ItemState]) -> (result: (usize, usize))
        requires
            active_items(self@.sections).len() <= usize::MAX,
        ensures
            result.0 == active_items(self@.sections).filter(completed(states_model(states@))).len(),
            result.1 == active_items(self@.sections).len(),
    {
        let ghost model = states_model(states@);
        let ghost sections = self@.sections;
        let ghost finished = completed(model);
        let mut completed_ids: HashSet<Id> = HashSet::new();
        for k in 0..states.len()
            invariant
                model == states_model(states@),
                forall|id: Id| #[trigger]
                    completed_ids@.contains(id) <==> says_completed(model.take(k as int), id),
        {
            assert(model[k as int] == states@[k as int]@);
            proof {
                lemma_says_completed_step(model, k as int);
            }
            if states[k].completed {
                completed_ids.insert(states[k].item_id);
            }
        }
        assert(model.take(model.len() as int) =~= model);
        let mut done: usize = 0;
        let mut total: usize = 0;
        assert(sections.take(0) =~= Seq::empty());
        for i in 0..self.sections.len()
            invariant
                sections == self@.sections,
                active_items(sections).len() <= usize::MAX,
                finished == completed(model),
                forall|id: Id| #[trigger]
                    completed_ids@.contains(id) <==> says_completed(model, id),
                total == active_items(sections.take(i as int)).len(),
                done == active_items(sections.take(i as int)).filter(finished).len(),
                done <= total,
        {
            let section = &self.sections[i];
            let ghost earlier = active_items(sections.take(i as int));
            let ghost items = section@.items;
            assert(sections[i as int] == section@);
            proof {
                assert(sections.take(i + 1).drop_last() =~= sections.take(i as int));
                assert(sections.take(i + 1).last() == section@);
                lemma_active_items_grow(sections, i + 1);
            }
            if !section.deleted {
                assert(items.take(0).filter(live()) =~= Seq::empty()) by {
                    reveal(Seq::filter);
                    assert(items.take(0) =~= Seq::empty());
                }
                assert(earlier + Seq::<ItemModel>::empty() =~= earlier);
                for j in 0..section.items.len()
                    invariant
                        items == items_model(section.items@),
                        finished == completed(model),
                        forall|id: Id| #[trigger]
                            completed_ids@.contains(id) <==> says_completed(model, id),
                        earlier.len() + items.filter(live()).len() <= usize::MAX,
                        total == (earlier + items.take(j as int).filter(live())).len(),
                        done == (earlier + items.take(j as int).filter(live())).filter(
                            finished,
                        ).len(),
                        done <= total,
                {
                    let item = &section.items[j];
                    assert(items[j as int] == item@);
                    let ghost before = items.take(j as int);
                    proof {
                        assert(items.take(j + 1) =~= before.push(item@));
                        before.lemma_filter_push(item@, live());
                        lemma_filter_of_prefix(items, live(), j + 1);
                        (earlier + before.filter(live())).lemma_filter_push(item@, finished);
                        assert((earlier + before.filter(live())).push(item@) =~= earlier
                            + before.filter(live()).push(item@));
                    }
                    if !item.deleted {
                        if completed_ids.contains(&item.item_id) {
                            done = done + 1;
                        }
                        total = total + 1;
                    }
                }
                assert(items.take(items.len() as int) =~= items);
            } else {
                assert(earlier + Seq::<ItemModel>::empty() =~= earlier);
            }
        }
        assert(sections.take(sections.len() as int) =~= sections);
        (done, total)
    }

    /// Return whether an active item exists.
    pub fn has_active_item(&self, item_id: Id) -> (result: bool)
        ensures
            result == has_active(self@.sections, item_id),
    {
        let ghost sections = self@.sections;
        for i in 0..self.sections.len()
            invariant
                sections == self@.sections,
                forall|p: int, q: int|
                    0 <= p < i && 0 <= q < sections[p].items.len() && !sections[p].deleted && (
                    #[trigger] sections[p].items[q]).item_id == item_id
                        ==> sections[p].items[q].deleted,
        {
            let section = &self.sections[i];
            assert(sections[i as int] == section@);
            if !section.deleted {
                for j in 0..section.items.len()
                    invariant
                        0 <= i < sections.len(),
                        sections == self@.sections,
                        sections[i as int] == section@,
                        !section.deleted,
                        forall|q: int|
                            0 <= q < j && (#[trigger] sections[i as int].items[q]).item_id
                                == item_id ==> sections[i as int].items[q].deleted,
                {
                    let item = &section.items[j];
                    assert(sections[i as int].items[j as int] == item@);
                    if item.item_id == item_id && !item.deleted {
                        return true;
                    }
                }
            }
        }
        false
    }

    /// Apply a validated structural operation without incrementing the revision.
    pub fn apply_operation(&mut self, operation: &StructureOperationKind) -> (result: Result<
        (),
        PlaybookError,
    >)
        ensures
            result == verdict(old(self)@.refusal(operation@)),
            final(self)@ == (if result is Ok {
                old(self)@.edited(operation@)
            } else {
                old(self)@
            }),
    {
        if self.status == InstanceStatus::Archived {
            return Err(PlaybookError::Archived);
        }
        let ghost before = self@;
        match operation {
            StructureOperationKind::SectionAdd { section } => {
                let mut candidate = self.sections.clone();
                candidate.push(section.clone());
                assert(sections_model(candidate@) =~= before.sections.push(section@));
                match validate_sections(candidate.as_slice()) {
                    Ok(()) => {},
                    Err(error) => {
                        return Err(error);
                    },
                }
                self.sections.push(section.clone());
                assert(self@.sections =~= before.sections.push(section@));
            },
            StructureOperationKind::SectionUpdate { section_id, title } => {
                match validate_text(title.as_str(), "section title") {
                    Ok(()) => {},
                    Err(error) => {
                        return Err(error);
                    },
                }
                match find_live_section(&self.sections, *section_id) {
                    Err(error) => {
                        return Err(error);
                    },
                    Ok(i) => {
                        self.sections[i].title = title.clone();
                        assert(self@.sections =~= before.edited_sections(operation@));
                    },
                }
            },
            StructureOperationKind::SectionRemove { section_id } => {
                match find_live_section(&self.sections, *section_id) {
                    Err(error) => {
                        return Err(error);
                    },
                    Ok(i) => {
                        self.sections[i].deleted = true;
                        assert(self@.sections =~= before.edited_sections(operation@));
                    },
                }
            },
            StructureOperationKind::SectionRestore { section_id } => {
                match find_section(&self.sections, *section_id) {
                    None => {
                        return Err(PlaybookError::SectionNotFound(*section_id));
                    },
                    Some(i) => {
                        if !self.sections[i].deleted {
                            return Err(PlaybookError::AlreadyActive("section"));
                        }
                        self.sections[i].deleted = false;
                        assert(self@.sections =~= before.edited_sections(operation@));
                    },
                }
            },
            StructureOperationKind::SectionReorder { section_id, position } => {
                if *position <= 0 {
                    return Err(PlaybookError::InvalidPosition(*position));
                }
                match find_live_section(&self.sections, *section_id) {
                    Err(error) => {
                        return Err(error);
                    },
                    Ok(i) => {
                        self.sections[i].position = *position;
                        assert(self@.sections =~= before.edited_sections(operation@));
                    },
                }
            },
            StructureOperationKind::ItemAdd { section_id, item } => {
                match validate_text(item.text.as_str(), "item text") {
                    Ok(()) => {},
                    Err(error) => {
                        return Err(error);
                    },
                }
                if item.position <= 0 {
                    return Err(PlaybookError::InvalidPosition(item.position));
                }
                if has_item(&self.sections, item.item_id) {
                    return Err(PlaybookError::DuplicateId("item", item.item_id));
                }
                match find_live_section(&self.sections, *section_id) {
                    Err(error) => {
                        return Err(error);
                    },
                    Ok(i) => {
                        self.sections[i].items.push(item.clone());
                        assert(self@.sections[i as int].items =~= before.sections[i as int].items.push(
                            item@,
                        ));
                        assert(self@.sections =~= before.edited_sections(operation@));
                    },
                }
            },
            StructureOperationKind::ItemUpdate { item_id, text } => {
                match validate_text(text.as_str(), "item text") {
                    Ok(()) => {},
                    Err(error) => {
                        return Err(error);
                    },
                }
                match find_live_item(&self.sections, *item_id) {
                    Err(error) => {
                        return Err(error);
                    },
                    Ok((i, j)) => {
                        self.sections[i].items[j].text = text.clone();
                        assert(self@.sections[i as int].items
                            =~= before.edited_sections(operation@)[i as int].items);
                        assert(self@.sections =~= before.edited_sections(operation@));
                    },
                }
            },
            StructureOperationKind::ItemRemove { item_id } => {
                match find_live_item(&self.sections, *item_id) {
                    Err(error) => {
                        return Err(error);
                    },
                    Ok((i, j)) => {
                        self.sections[i].items[j].deleted = true;
                        assert(self@.sections[i as int].items
                            =~= before.edited_sections(operation@)[i as int].items);
                        assert(self@.sections =~= before.edited_sections(operation@));
                    },
                }
            },
            StructureOperationKind::ItemRestore { item_id } => {
                match find_active_section_item(&self.sections, *item_id) {
                    Err(error) => {
                        return Err(error);
                    },
                    Ok((i, j)) => {
                        assert(before.sections[i as int].items[j as int]
                            == self.sections@[i as int].items@[j as int]@);
                        if !self.sections[i].items[j].deleted {
                            return Err(PlaybookError::AlreadyActive("item"));
                        }
                        self.sections[i].items[j].deleted = false;
                        assert(self@.sections[i as int].items
                            =~= before.edited_sections(operation@)[i as int].items);
                        assert(self@.sections =~= before.edited_sections(operation@));
                    },
                }
            },
            StructureOperationKind::ItemReorder { item_id, position } => {
                if *position <= 0 {
                    return Err(PlaybookError::InvalidPosition(*position));
                }
                match find_live_item(&self.sections, *item_id) {
                    Err(error) => {
                        return Err(error);
                    },
                    Ok((i, j)) => {
                        self.sections[i].items[j].position = *position;
                        assert(self@.sections[i as int].items
                            =~= before.edited_sections(operation@)[i as int].items);
                        assert(self@.sections =~= before.edited_sections(operation@));
                    },
                }
            },
            StructureOperationKind::ItemDuplicate { item_id, new_item_id, position } => {
                if *position <= 0 {
                    return Err(PlaybookError::InvalidPosition(*position));
                }
                if has_item(&self.sections, *new_item_id) {
                    return Err(PlaybookError::DuplicateId("item", *new_item_id));
                }
                match find_live_item(&self.sections, *item_id) {
                    Err(error) => {
                        return Err(error);
                    },
                    Ok((i, j)) => {
                        let copy = PlaybookItem {
                            item_id: *new_item_id,
                            text: self.sections[i].items[j].text.clone(),
                            position: *position,
                            deleted: false,
                        };
                        self.sections[i].items.push(copy);
                        assert(self@.sections[i as int].items
                            =~= before.edited_sections(operation@)[i as int].items);
                        assert(self@.sections =~= before.edited_sections(operation@));
                    },
                }
            },
            StructureOperationKind::InstanceRename { name } => {
                match validate_text(name.as_str(), "instance name") {
                    Ok(()) => {},
                    Err(error) => {
                        return Err(error);
                    },
                }
                self.name = name.clone();
            },
            StructureOperationKind::InstanceArchive => {
                self.status = InstanceStatus::Archived;
            },
        }
        Ok(())
    }
}

} // verus!
