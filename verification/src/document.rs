//! Checklist documents: items in sections, and the template revisions that hold them.

use vstd::prelude::*;

use crate::text::Id;

verus! {

/// Current playbook payload schema version.
pub const PLAYBOOK_SCHEMA_VERSION: u32 = 1;

/// Lifecycle state of a reusable template.
#[derive(Clone, Copy, Debug, PartialEq, Eq, Structural)]
pub enum TemplateStatus {
    /// May be edited and inserted into channels.
    Active,
    /// Retained for history but unavailable for new insertions.
    Archived,
    /// Soft-deleted; allowed only while no instance references the template.
    Deleted,
}

/// Lifecycle state of a channel instance.
#[derive(Clone, Copy, Debug, PartialEq, Eq, Structural)]
pub enum InstanceStatus {
    /// Visible and mutable.
    Active,
    /// Read-only while its event and activity history remain retained.
    Archived,
}

/// Ordered checklist item.
#[derive(Debug)]
pub struct PlaybookItem {
    /// Stable item identifier.
    pub item_id: Id,
    /// User-visible checklist text.
    pub text: String,
    /// Sparse numeric ordering key.
    pub position: i64,
    /// Whether the item is hidden while retaining its identity and history.
    pub deleted: bool,
}

/// Ordered section containing checklist items.
#[derive(Debug)]
pub struct PlaybookSection {
    /// Stable section identifier.
    pub section_id: Id,
    /// User-visible section title.
    pub title: String,
    /// Sparse numeric ordering key.
    pub position: i64,
    /// Ordered checklist items.
    pub items: Vec<PlaybookItem>,
    /// Whether the section is hidden while retaining its contents and history.
    pub deleted: bool,
}

/// Immutable full template revision submitted by an owner or workspace admin.
#[derive(Debug, PartialEq, Eq)]
pub struct TemplateRevision {
    /// Payload schema version.
    pub schema_version: u32,
    /// Stable template identifier.
    pub template_id: Id,
    /// Monotonically increasing revision, starting at one.
    pub revision: u64,
    /// User-visible template name.
    pub name: String,
    /// Optional template description.
    pub description: Option<String>,
    /// Template lifecycle state.
    pub status: TemplateStatus,
    /// Ordered template definition.
    pub sections: Vec<PlaybookSection>,
}

/// What an item holds.
#[verifier::ext_equal]
pub struct ItemModel {
    pub item_id: Id,
    pub text: Seq<char>,
    pub position: i64,
    pub deleted: bool,
}

/// What a section holds.
#[verifier::ext_equal]
pub struct SectionModel {
    pub section_id: Id,
    pub title: Seq<char>,
    pub position: i64,
    pub items: Seq<ItemModel>,
    pub deleted: bool,
}

/// What a template revision holds.
#[verifier::ext_equal]
pub struct TemplateModel {
    pub schema_version: u32,
    pub template_id: Id,
    pub revision: u64,
    pub name: Seq<char>,
    pub description: Option<Seq<char>>,
    pub status: TemplateStatus,
    pub sections: Seq<SectionModel>,
}

/// The contents of a list of items.
pub open spec fn items_model(items: Seq<PlaybookItem>) -> Seq<ItemModel> {
    items.map_values(|item: PlaybookItem| item@)
}

/// The contents of a list of sections.
pub open spec fn sections_model(sections: Seq<PlaybookSection>) -> Seq<SectionModel> {
    sections.map_values(|section: PlaybookSection| section@)
}

/// The characters of an optional string.
pub open spec fn optional_text(value: Option<String>) -> Option<Seq<char>> {
    match value {
        Some(text) => Some(text@),
        None => None,
    }
}

impl View for PlaybookItem {
    type V = ItemModel;

    open spec fn view(&self) -> ItemModel {
        ItemModel {
            item_id: self.item_id,
            text: self.text@,
            position: self.position,
            deleted: self.deleted,
        }
    }
}

impl View for PlaybookSection {
    type V = SectionModel;

    open spec fn view(&self) -> SectionModel {
        SectionModel {
            section_id: self.section_id,
            title: self.title@,
            position: self.position,
            items: items_model(self.items@),
            deleted: self.deleted,
        }
    }
}

impl View for TemplateRevision {
    type V = TemplateModel;

    open spec fn view(&self) -> TemplateModel {
        TemplateModel {
            schema_version: self.schema_version,
            template_id: self.template_id,
            revision: self.revision,
            name: self.name@,
            description: optional_text(self.description),
            status: self.status,
            sections: sections_model(self.sections@),
        }
    }
}

impl Clone for PlaybookItem {
    fn clone(&self) -> (result: Self)
        ensures
            result@ == self@,
    {
        PlaybookItem {
            item_id: self.item_id,
            text: self.text.clone(),
            position: self.position,
            deleted: self.deleted,
        }
    }
}

impl Clone for PlaybookSection {
    fn clone(&self) -> (result: Self)
        ensures
            result@ == self@,
    {
        let result = PlaybookSection {
            section_id: self.section_id,
            title: self.title.clone(),
            position: self.position,
            items: self.items.clone(),
            deleted: self.deleted,
        };
        assert(items_model(result.items@) =~= items_model(self.items@));
        result
    }
}

impl Clone for TemplateRevision {
    fn clone(&self) -> (result: Self)
        ensures
            result@ == self@,
    {
        let result = TemplateRevision {
            schema_version: self.schema_version,
            template_id: self.template_id,
            revision: self.revision,
            name: self.name.clone(),
            description: self.description.clone(),
            status: self.status,
            sections: self.sections.clone(),
        };
        assert(sections_model(result.sections@) =~= sections_model(self.sections@));
        result
    }
}

impl PartialEq for PlaybookItem {
    fn eq(&self, other: &Self) -> (result: bool) {
        self.item_id == other.item_id && self.text == other.text && self.position == other.position
            && self.deleted == other.deleted
    }
}

impl vstd::std_specs::cmp::PartialEqSpecImpl for PlaybookItem {
    open spec fn obeys_eq_spec() -> bool {
        true
    }

    open spec fn eq_spec(&self, other: &Self) -> bool {
        self@ == other@
    }
}

impl Eq for PlaybookItem {

}

/// Whether two lists hold the same items in the same order.
fn same_items(left: &Vec<PlaybookItem>, right: &Vec<PlaybookItem>) -> (result: bool)
    ensures
        result == (items_model(left@) == items_model(right@)),
{
    let ghost a = items_model(left@);
    let ghost b = items_model(right@);
    if left.len() != right.len() {
        assert(a.len() != b.len());
        return false;
    }
    for i in 0..left.len()
        invariant
            a == items_model(left@),
            b == items_model(right@),
            left@.len() == right@.len(),
            forall|j: int| 0 <= j < i ==> a[j] == b[j],
    {
        if left[i] != right[i] {
            assert(a[i as int] != b[i as int]);
            return false;
        }
    }
    assert(a =~= b);
    true
}

impl PartialEq for PlaybookSection {
    fn eq(&self, other: &Self) -> (result: bool) {
        self.section_id == other.section_id && self.title == other.title && self.position
            == other.position && self.deleted == other.deleted && same_items(
            &self.items,
            &other.items,
        )
    }
}

impl vstd::std_specs::cmp::PartialEqSpecImpl for PlaybookSection {
    open spec fn obeys_eq_spec() -> bool {
        true
    }

    open spec fn eq_spec(&self, other: &Self) -> bool {
        self@ == other@
    }
}

impl Eq for PlaybookSection {

}

} // verus!
