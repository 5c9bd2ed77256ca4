//! What validation answers, document by document, and what models of documents show.

use vstd::prelude::*;
use vstd::std_specs::cmp::PartialEqSpec;

use crate::document::{
    ItemModel, PlaybookItem, PlaybookSection, SectionModel, TemplateModel, TemplateRevision,
    items_model, optional_text, sections_model,
};
use crate::error::PlaybookError;
use crate::text::{Id, blank, decimal, hyphenated, signed_decimal};
use crate::validate::{
    item_before, items_fault, law_validation_accepts_exactly_valid_sections, section_fault,
    sections_fault, template_fault, text_fault, verdict,
};

verus! {

/// The model of a document shows every field, and every element of every list in its place.
pub proof fn law_document_models_show_every_field(
    item: PlaybookItem,
    section: PlaybookSection,
    template: TemplateRevision,
    items: Seq<PlaybookItem>,
    sections: Seq<PlaybookSection>,
)
    ensures
        item@.item_id == item.item_id && item@.text == item.text@,
        item@.position == item.position && item@.deleted == item.deleted,
        section@.section_id == section.section_id && section@.title == section.title@,
        section@.position == section.position && section@.deleted == section.deleted,
        section@.items == items_model(section.items@),
        template@.schema_version == template.schema_version,
        template@.template_id == template.template_id,
        template@.revision == template.revision && template@.name == template.name@,
        template@.description is Some <==> template.description is Some,
        template.description is Some ==> template@.description->Some_0
            == template.description->Some_0@,
        template@.status == template.status,
        template@.sections == sections_model(template.sections@),
        items_model(items).len() == items.len(),
        forall|i: int| 0 <= i < items.len() ==> #[trigger] items_model(items)[i] == items[i]@,
        sections_model(sections).len() == sections.len(),
        forall|i: int|
            0 <= i < sections.len() ==> #[trigger] sections_model(sections)[i] == sections[i]@,
{
}

/// An optional text is shown where it is given.
pub proof fn law_optional_texts_are_shown(text: String)
    ensures
        optional_text(Some(text)) == Some(text@),
        optional_text(None) == None::<Seq<char>>,
{
}

/// A check that finds nothing passes, and one that finds an error fails with that error.
pub proof fn law_checks_fail_with_what_they_find(error: PlaybookError)
    ensures
        verdict(None) == Ok::<(), PlaybookError>(()),
        verdict(Some(error)) == Err::<(), PlaybookError>(error),
{
}

/// A text field is refused exactly where nothing of it is more than white space.
pub proof fn law_blank_texts_are_refused(value: Seq<char>, field: &'static str)
    ensures
        text_fault(value, field) is None <==> !blank(value),
        blank(value) ==> text_fault(value, field) == Some(PlaybookError::InvalidText(field)),
{
}

/// Whether some section of a list has this identifier.
pub open spec fn has_section(sections: Seq<SectionModel>, id: Id) -> bool {
    exists|k: int| 0 <= k < sections.len() && (#[trigger] sections[k]).section_id == id
}

/// Whether some item of some section of a list has this identifier.
pub open spec fn has_item(sections: Seq<SectionModel>, id: Id) -> bool {
    exists|p: int, q: int|
        0 <= p < sections.len() && 0 <= q < sections[p].items.len() && (
        #[trigger] sections[p].items[q]).item_id == id
}

/// What validation finds in a list of sections.
pub open spec fn found(sections: Seq<SectionModel>) -> Option<PlaybookError> {
    sections_fault(sections, sections.len())
}

/// A section with one item more.
pub open spec fn with_item(section: SectionModel, item: ItemModel) -> SectionModel {
    SectionModel { items: section.items.push(item), ..section }
}

/// A section without its items.
pub open spec fn without_items(section: SectionModel) -> SectionModel {
    SectionModel { items: Seq::empty(), ..section }
}

/// Sections that agree up to `n` have the same first fault up to `n`.
proof fn lemma_fault_of_prefix(a: Seq<SectionModel>, b: Seq<SectionModel>, n: nat)
    requires
        n <= a.len(),
        n <= b.len(),
        forall|k: int| 0 <= k < n ==> a[k] == b[k],
    ensures
        sections_fault(a, n) == sections_fault(b, n),
    decreases n,
{
    if n > 0 {
        lemma_fault_of_prefix(a, b, (n - 1) as nat);
        assert(section_fault(a, n - 1) == section_fault(b, n - 1)) by {
            if exists|k: int|
                0 <= k < n - 1 && #[trigger] a[k].section_id == a[n - 1].section_id {
                let k = choose|k: int|
                    0 <= k < n - 1 && #[trigger] a[k].section_id == a[n - 1].section_id;
                assert(b[k].section_id == b[n - 1].section_id);
            }
            if exists|k: int|
                0 <= k < n - 1 && #[trigger] b[k].section_id == b[n - 1].section_id {
                let k = choose|k: int|
                    0 <= k < n - 1 && #[trigger] b[k].section_id == b[n - 1].section_id;
                assert(a[k].section_id == a[n - 1].section_id);
            }
        }
        lemma_items_fault_agrees(a, b, n - 1, a[n - 1].items.len());
    }
}

/// Sections that agree before `i`, and up to `m` items at `i`, have the same first fault
/// among those items.
proof fn lemma_items_fault_agrees(
    a: Seq<SectionModel>,
    b: Seq<SectionModel>,
    i: int,
    m: nat,
)
    requires
        0 <= i < a.len(),
        i < b.len(),
        forall|k: int| 0 <= k < i ==> a[k] == b[k],
        m <= a[i].items.len(),
        m <= b[i].items.len(),
        forall|q: int| 0 <= q < m ==> a[i].items[q] == b[i].items[q],
    ensures
        items_fault(a, i, m) == items_fault(b, i, m),
    decreases m,
{
    if m > 0 {
        lemma_items_fault_agrees(a, b, i, (m - 1) as nat);
        let id = a[i].items[m - 1].item_id;
        lemma_item_before(a, i, m - 1, id);
        lemma_item_before(b, i, m - 1, id);
        assert forall|p: int, q: int|
            0 <= p < i && 0 <= q < a[p].items.len() implies #[trigger] a[p].items[q]
            == b[p].items[q] by {}
        if stands_before(a, i, m - 1, id) {
            let (p, q) = choose|p: int, q: int| #[trigger] is_before(a, i, m - 1, id, p, q);
            assert(is_before(b, i, m - 1, id, p, q));
        }
        if stands_before(b, i, m - 1, id) {
            let (p, q) = choose|p: int, q: int| #[trigger] is_before(b, i, m - 1, id, p, q);
            assert(is_before(a, i, m - 1, id, p, q));
        }
    }
}

/// Whether item `q` of section `p` is called `id` and stands before item `j` of section `i`.
spec fn is_before(sections: Seq<SectionModel>, i: int, j: int, id: Id, p: int, q: int) -> bool {
    &&& 0 <= p <= i
    &&& 0 <= q < sections[p].items.len()
    &&& p == i ==> q < j
    &&& sections[p].items[q].item_id == id
}

spec fn stands_before(sections: Seq<SectionModel>, i: int, j: int, id: Id) -> bool {
    exists|p: int, q: int| #[trigger] is_before(sections, i, j, id, p, q)
}

proof fn lemma_item_before(sections: Seq<SectionModel>, i: int, j: int, id: Id)
    requires
        0 <= i < sections.len(),
        0 <= j <= sections[i].items.len(),
    ensures
        item_before(sections, i, j, id) <==> stands_before(sections, i, j, id),
{
    if stands_before(sections, i, j, id) {
        let (p, q) = choose|p: int, q: int| #[trigger] is_before(sections, i, j, id, p, q);
        assert(sections[p].items[q].item_id == id);
    }
    if item_before(sections, i, j, id) {
        if exists|q: int| 0 <= q < j && #[trigger] sections[i].items[q].item_id == id {
            let q = choose|q: int| 0 <= q < j && #[trigger] sections[i].items[q].item_id == id;
            assert(is_before(sections, i, j, id, i, q));
        } else {
            let (p, q) = choose|p: int, q: int|
                0 <= p < i && 0 <= q < sections[p].items.len()
                    && #[trigger] sections[p].items[q].item_id == id;
            assert(is_before(sections, i, j, id, p, q));
        }
    }
}

/// Validation reads a document from the front: nothing is wrong with no sections, what is
/// wrong with some is wrong with more, and a further section is refused first for an
/// identifier that is taken, then for a blank title, then for its position.
pub proof fn law_validation_reads_section_by_section(
    sections: Seq<SectionModel>,
    section: SectionModel,
)
    ensures
        found(Seq::empty()) is None,
        found(sections) is Some ==> found(sections.push(section)) == found(sections),
        found(sections) is None ==> found(sections.push(without_items(section))) == (
        if has_section(sections, section.section_id) {
            Some(PlaybookError::DuplicateId("section", section.section_id))
        } else if blank(section.title) {
            Some(PlaybookError::InvalidText("section title"))
        } else if section.position <= 0 {
            Some(PlaybookError::InvalidPosition(section.position))
        } else {
            None
        }),
{
    let n = sections.len();
    lemma_fault_of_prefix(sections, sections.push(section), n);
    let longer = sections.push(without_items(section));
    lemma_fault_of_prefix(sections, longer, n);
    assert(longer[n as int] == without_items(section));
    assert forall|k: int| 0 <= k < n implies longer[k] == #[trigger] sections[k] by {}
    if has_section(sections, section.section_id) {
        let k = choose|k: int|
            0 <= k < n && (#[trigger] sections[k]).section_id == section.section_id;
        assert(longer[k].section_id == section.section_id);
    }
    if exists|k: int| 0 <= k < n && #[trigger] longer[k].section_id == longer[n as int].section_id {
        let k = choose|k: int|
            0 <= k < n && #[trigger] longer[k].section_id == longer[n as int].section_id;
        assert(sections[k].section_id == section.section_id);
    }
    assert(items_fault(longer, n as int, 0) is None);
    assert(longer[n as int].items.len() == 0);
}

/// Validation reads a section item by item: what is wrong with some items is wrong with
/// more, and a further item is refused first for an identifier that is taken anywhere
/// before, then for a blank text, then for its position.
pub proof fn law_validation_reads_item_by_item(
    sections: Seq<SectionModel>,
    section: SectionModel,
    item: ItemModel,
)
    ensures
        found(sections.push(section)) is Some ==> found(sections.push(with_item(section, item)))
            == found(sections.push(section)),
        found(sections.push(section)) is None ==> found(sections.push(with_item(section, item)))
            == (if has_item(sections.push(section), item.item_id) {
            Some(PlaybookError::DuplicateId("item", item.item_id))
        } else if blank(item.text) {
            Some(PlaybookError::InvalidText("item text"))
        } else if item.position <= 0 {
            Some(PlaybookError::InvalidPosition(item.position))
        } else {
            None
        }),
{
    let n = sections.len();
    let a = sections.push(section);
    let b = sections.push(with_item(section, item));
    let m = section.items.len();
    let id = item.item_id;
    lemma_fault_of_prefix(a, b, n);
    assert(section_fault(a, n as int) == section_fault(b, n as int)) by {
        assert forall|k: int| 0 <= k < n implies #[trigger] a[k].section_id == b[k].section_id by {}
        if exists|k: int| 0 <= k < n && #[trigger] a[k].section_id == a[n as int].section_id {
            let k = choose|k: int|
                0 <= k < n && #[trigger] a[k].section_id == a[n as int].section_id;
            assert(b[k].section_id == b[n as int].section_id);
        }
        if exists|k: int| 0 <= k < n && #[trigger] b[k].section_id == b[n as int].section_id {
            let k = choose|k: int|
                0 <= k < n && #[trigger] b[k].section_id == b[n as int].section_id;
            assert(a[k].section_id == a[n as int].section_id);
        }
    }
    assert forall|q: int| 0 <= q < m implies a[n as int].items[q] == b[n as int].items[q] by {}
    lemma_items_fault_agrees(a, b, n as int, m);
    lemma_item_before(b, n as int, m as int, id);
    assert(b[n as int].items[m as int] == item);
    assert(b[n as int].items.len() == m + 1);
    if has_item(a, id) {
        let (p, q) = choose|p: int, q: int|
            0 <= p < a.len() && 0 <= q < a[p].items.len() && (#[trigger] a[p].items[q]).item_id
                == id;
        assert(is_before(b, n as int, m as int, id, p, q));
    }
    if stands_before(b, n as int, m as int, id) {
        let (p, q) = choose|p: int, q: int| #[trigger] is_before(b, n as int, m as int, id, p, q);
        assert(a[p].items[q].item_id == id);
    }
}

/// A template revision is refused first for its schema version, then for its number, then
/// for its name, then for its sections, and is accepted where all four are in order.
pub proof fn law_templates_are_checked_in_order(template: TemplateModel)
    ensures
        template.schema_version != 1 ==> template_fault(template) == Some(
            PlaybookError::SchemaVersion(template.schema_version),
        ),
        template.schema_version == 1 && template.revision == 0 ==> template_fault(template) == Some(
            PlaybookError::InvalidPosition(0),
        ),
        template.schema_version == 1 && template.revision > 0 && blank(template.name)
            ==> template_fault(template) == Some(PlaybookError::InvalidText("template name")),
        template.schema_version == 1 && template.revision > 0 && !blank(template.name)
            ==> template_fault(template) == found(template.sections),
{
}

/// Nothing is wrong with a list of sections exactly where sections and items have identifiers
/// of their own, texts that are more than white space, and positive positions.
pub proof fn law_sections_are_accepted_exactly_where_well_formed(sections: Seq<SectionModel>)
    ensures
        found(sections) is None <==> {
            &&& forall|i: int, k: int|
                0 <= i < sections.len() && 0 <= k < sections.len() && (
                #[trigger] sections[i]).section_id == (#[trigger] sections[k]).section_id ==> i == k
            &&& forall|p: int, q: int, r: int, t: int|
                0 <= p < sections.len() && 0 <= q < sections[p].items.len() && 0 <= r
                    < sections.len() && 0 <= t < sections[r].items.len() && (
                #[trigger] sections[p].items[q]).item_id == (
                #[trigger] sections[r].items[t]).item_id ==> p == r && q == t
            &&& forall|i: int|
                0 <= i < sections.len() ==> !blank((#[trigger] sections[i]).title)
                    && sections[i].position > 0
            &&& forall|p: int, q: int|
                0 <= p < sections.len() && 0 <= q < sections[p].items.len() ==> !blank(
                    (#[trigger] sections[p].items[q]).text,
                ) && sections[p].items[q].position > 0
        },
{
    law_validation_accepts_exactly_valid_sections(sections);
}

/// Errors in words name what they are about.
pub proof fn law_errors_say_what_is_wrong(
    version: u32,
    word: &'static str,
    id: Id,
    position: i64,
)
    ensures
        PlaybookError::SchemaVersion(version).text() == "unsupported schema_version "@ + decimal(
            version as nat,
        ),
        PlaybookError::InvalidText(word).text() == "invalid "@ + word@,
        PlaybookError::DuplicateId(word, id).text() == "duplicate "@ + word@ + " id "@ + hyphenated(
            id,
        ),
        PlaybookError::InvalidPosition(position).text() == "invalid position "@ + signed_decimal(
            position as int,
        ),
        PlaybookError::SectionNotFound(id).text() == "section not found: "@ + hyphenated(id),
        PlaybookError::ItemNotFound(id).text() == "item not found: "@ + hyphenated(id),
        PlaybookError::Removed(word).text() == word@ + " is removed"@,
        PlaybookError::AlreadyActive(word).text() == word@ + " is already active"@,
        PlaybookError::Archived.text() == "instance is archived"@,
{
}

/// Items are equal where every field is, and sections where every field and every item is, in
/// its place.
pub proof fn law_equal_documents_agree_in_every_field(
    item: PlaybookItem,
    other_item: PlaybookItem,
    section: PlaybookSection,
    other_section: PlaybookSection,
)
    ensures
        PlaybookItem::obeys_eq_spec(),
        item.eq_spec(&other_item) <==> {
            &&& item.item_id == other_item.item_id
            &&& item.text@ == other_item.text@
            &&& item.position == other_item.position
            &&& item.deleted == other_item.deleted
        },
        PlaybookSection::obeys_eq_spec(),
        section.eq_spec(&other_section) <==> {
            &&& section.section_id == other_section.section_id
            &&& section.title@ == other_section.title@
            &&& section.position == other_section.position
            &&& section.deleted == other_section.deleted
            &&& section.items@.len() == other_section.items@.len()
            &&& forall|i: int|
                0 <= i < section.items@.len() ==> (#[trigger] section.items@[i])@
                    == other_section.items@[i]@
        },
{
    let (a, b) = (items_model(section.items@), items_model(other_section.items@));
    assert(forall|i: int|
        0 <= i < section.items@.len() ==> a[i] == (#[trigger] section.items@[i])@);
    assert(forall|i: int|
        0 <= i < other_section.items@.len() ==> b[i] == (#[trigger] other_section.items@[i])@);
    if section.eq_spec(&other_section) {
        assert(a.len() == b.len());
        assert(forall|i: int|
            0 <= i < section.items@.len() ==> (#[trigger] section.items@[i])@ == b[i]);
    }
    if section.items@.len() == other_section.items@.len() && forall|i: int|
        0 <= i < section.items@.len() ==> (#[trigger] section.items@[i])@
            == other_section.items@[i]@ {
        assert(a =~= b);
    }
}

} // verus!
