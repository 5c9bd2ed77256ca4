//! What makes a playbook document acceptable.

use std::collections::HashSet;

use vstd::prelude::*;

use crate::document::{
    PLAYBOOK_SCHEMA_VERSION, PlaybookSection, SectionModel, TemplateModel, TemplateRevision,
    sections_model,
};
use crate::error::PlaybookError;
use crate::text::{Id, blank, is_blank};

verus! {

broadcast use vstd::std_specs::hash::group_hash_axioms;

/// Sections as a document may hold them: every section and every item has an identifier
/// of its own, a text that is more than white space, and a positive position.
pub open spec fn valid_sections(sections: Seq<SectionModel>) -> bool {
    &&& forall|i: int, k: int|
        0 <= i < k < sections.len() ==> #[trigger] sections[i].section_id
            != #[trigger] sections[k].section_id
    &&& forall|p: int, q: int, r: int, t: int|
        0 <= p < sections.len() && 0 <= q < sections[p].items.len() && 0 <= r < sections.len()
            && 0 <= t < sections[r].items.len() && #[trigger] sections[p].items[q].item_id
            == #[trigger] sections[r].items[t].item_id ==> p == r && q == t
    &&& forall|i: int|
        0 <= i < sections.len() ==> !blank((#[trigger] sections[i]).title) && sections[i].position
            > 0
    &&& forall|p: int, q: int|
        0 <= p < sections.len() && 0 <= q < sections[p].items.len() ==> !blank(
            (#[trigger] sections[p].items[q]).text,
        ) && sections[p].items[q].position > 0
}

/// What is wrong with a text field: it must hold more than white space.
pub open spec fn text_fault(value: Seq<char>, field: &'static str) -> Option<PlaybookError> {
    if blank(value) {
        Some(PlaybookError::InvalidText(field))
    } else {
        None
    }
}

/// What is wrong with the section at `i` itself, leaving its items aside.
pub open spec fn section_fault(sections: Seq<SectionModel>, i: int) -> Option<PlaybookError> {
    let section = sections[i];
    if exists|k: int| 0 <= k < i && #[trigger] sections[k].section_id == section.section_id {
        Some(PlaybookError::DuplicateId("section", section.section_id))
    } else if blank(section.title) {
        Some(PlaybookError::InvalidText("section title"))
    } else if section.position <= 0 {
        Some(PlaybookError::InvalidPosition(section.position))
    } else {
        None
    }
}

/// Whether an item `id` stands before item `j` of section `i`, in document order.
pub open spec fn item_before(sections: Seq<SectionModel>, i: int, j: int, id: Id) -> bool {
    ||| exists|p: int, q: int|
        0 <= p < i && 0 <= q < sections[p].items.len()
            && #[trigger] sections[p].items[q].item_id == id
    ||| exists|q: int| 0 <= q < j && #[trigger] sections[i].items[q].item_id == id
}

/// What is wrong with item `j` of section `i`.
pub open spec fn item_fault(sections: Seq<SectionModel>, i: int, j: int) -> Option<PlaybookError> {
    let item = sections[i].items[j];
    if item_before(sections, i, j, item.item_id) {
        Some(PlaybookError::DuplicateId("item", item.item_id))
    } else if blank(item.text) {
        Some(PlaybookError::InvalidText("item text"))
    } else if item.position <= 0 {
        Some(PlaybookError::InvalidPosition(item.position))
    } else {
        None
    }
}

/// The first thing wrong among the first `m` items of section `i`.
pub open spec fn items_fault(sections: Seq<SectionModel>, i: int, m: nat) -> Option<PlaybookError>
    decreases m,
{
    if m == 0 {
        None
    } else if items_fault(sections, i, (m - 1) as nat) is Some {
        items_fault(sections, i, (m - 1) as nat)
    } else {
        item_fault(sections, i, m - 1)
    }
}

/// The first thing wrong among the first `n` sections, in document order: each section
/// comes before its items.
pub open spec fn sections_fault(sections: Seq<SectionModel>, n: nat) -> Option<PlaybookError>
    decreases n,
{
    if n == 0 {
        None
    } else if sections_fault(sections, (n - 1) as nat) is Some {
        sections_fault(sections, (n - 1) as nat)
    } else if section_fault(sections, n - 1) is Some {
        section_fault(sections, n - 1)
    } else {
        items_fault(sections, n - 1, sections[n - 1].items.len())
    }
}

/// The first thing wrong with a template revision.
pub open spec fn template_fault(template: TemplateModel) -> Option<PlaybookError> {
    if template.schema_version != PLAYBOOK_SCHEMA_VERSION {
        Some(PlaybookError::SchemaVersion(template.schema_version))
    } else if template.revision == 0 {
        Some(PlaybookError::InvalidPosition(0))
    } else if blank(template.name) {
        Some(PlaybookError::InvalidText("template name"))
    } else {
        sections_fault(template.sections, template.sections.len())
    }
}

/// A check that fails with the given fault and passes where there is none.
pub open spec fn verdict(fault: Option<PlaybookError>) -> Result<(), PlaybookError> {
    match fault {
        Some(error) => Err(error),
        None => Ok(()),
    }
}

/// Check that a text field holds more than white space.
pub fn validate_text(value: &str, field: &'static str) -> (result: Result<(), PlaybookError>)
    ensures
        result == verdict(text_fault(value@, field)),
{
    if is_blank(value) {
        Err(PlaybookError::InvalidText(field))
    } else {
        Ok(())
    }
}

/// Validate section shape and stable identifier uniqueness.
pub fn validate_sections(sections: &[PlaybookSection]) -> (result: Result<(), PlaybookError>)
    ensures
        result == verdict(sections_fault(sections_model(sections@), sections@.len())),
{
    let ghost model = sections_model(sections@);
    let mut section_ids: HashSet<Id> = HashSet::new();
    let mut item_ids: HashSet<Id> = HashSet::new();
    for i in 0..sections.len()
        invariant
            model == sections_model(sections@),
            forall|id: Id| #[trigger]
                section_ids@.contains(id) <==> exists|k: int|
                    0 <= k < i && #[trigger] model[k].section_id == id,
            forall|id: Id| #[trigger]
                item_ids@.contains(id) <==> item_before(model, i as int, 0, id),
            sections_fault(model, i as nat) is None,
    {
        let section = &sections[i];
        assert(model[i as int] == section@);
        proof {
            lemma_sections_fault_prefix(model, (i + 1) as nat, model.len());
        }
        if !section_ids.insert(section.section_id) {
            return Err(PlaybookError::DuplicateId("section", section.section_id));
        }
        match validate_text(section.title.as_str(), "section title") {
            Ok(()) => {},
            Err(error) => {
                return Err(error);
            },
        }
        if section.position <= 0 {
            return Err(PlaybookError::InvalidPosition(section.position));
        }
        for j in 0..section.items.len()
            invariant
                0 <= i < sections@.len(),
                model == sections_model(sections@),
                model[i as int] == section@,
                forall|id: Id| #[trigger]
                    item_ids@.contains(id) <==> item_before(model, i as int, j as int, id),
                items_fault(model, i as int, j as nat) is None,
                sections_fault(model, i as nat) is None,
                section_fault(model, i as int) is None,
                sections_fault(model, (i + 1) as nat) is Some ==> sections_fault(model, model.len())
                    == sections_fault(model, (i + 1) as nat),
        {
            let item = &section.items[j];
            assert(model[i as int].items[j as int] == item@);
            proof {
                lemma_items_fault_prefix(
                    model,
                    i as int,
                    (j + 1) as nat,
                    model[i as int].items.len(),
                );
            }
            if !item_ids.insert(item.item_id) {
                return Err(PlaybookError::DuplicateId("item", item.item_id));
            }
            match validate_text(item.text.as_str(), "item text") {
                Ok(()) => {},
                Err(error) => {
                    return Err(error);
                },
            }
            if item.position <= 0 {
                return Err(PlaybookError::InvalidPosition(item.position));
            }
        }
    }
    Ok(())
}

/// A fault among the first `m` items is the fault of every longer run.
proof fn lemma_items_fault_prefix(sections: Seq<SectionModel>, i: int, m: nat, n: nat)
    requires
        m <= n,
    ensures
        items_fault(sections, i, m) is Some ==> items_fault(sections, i, n) == items_fault(
            sections,
            i,
            m,
        ),
    decreases n,
{
    if m < n {
        lemma_items_fault_prefix(sections, i, m, (n - 1) as nat);
    }
}

/// A fault among the first `m` sections is the fault of every longer run.
proof fn lemma_sections_fault_prefix(sections: Seq<SectionModel>, m: nat, n: nat)
    requires
        m <= n,
    ensures
        sections_fault(sections, m) is Some ==> sections_fault(sections, n) == sections_fault(
            sections,
            m,
        ),
    decreases n,
{
    if m < n {
        lemma_sections_fault_prefix(sections, m, (n - 1) as nat);
    }
}

/// Validation finds nothing wrong with a list of sections exactly where the list is valid.
pub proof fn law_validation_accepts_exactly_valid_sections(sections: Seq<SectionModel>)
    ensures
        sections_fault(sections, sections.len()) is None <==> valid_sections(sections),
{
    if valid_sections(sections) {
        lemma_valid_sections_have_no_fault(sections, sections.len());
    }
    if sections_fault(sections, sections.len()) is None {
        assert forall|i: int| 0 <= i < sections.len() implies section_fault(sections, i) is None
            && items_fault(sections, i, (#[trigger] sections[i]).items.len()) is None by {
            lemma_sections_fault_prefix(sections, (i + 1) as nat, sections.len());
            lemma_sections_fault_prefix(sections, i as nat, sections.len());
        }
        assert forall|p: int, q: int|
            0 <= p < sections.len() && 0 <= q < sections[p].items.len() implies item_fault(
            sections,
            p,
            q,
        ) is None && !blank((#[trigger] sections[p].items[q]).text) && sections[p].items[q].position
            > 0 by {
            assert(items_fault(sections, p, sections[p].items.len()) is None);
            lemma_items_fault_prefix(sections, p, (q + 1) as nat, sections[p].items.len());
            lemma_items_fault_prefix(sections, p, q as nat, sections[p].items.len());
        }
        assert forall|p: int, q: int, r: int, t: int|
            0 <= p < sections.len() && 0 <= q < sections[p].items.len() && 0 <= r < sections.len()
                && 0 <= t < sections[r].items.len() && #[trigger] sections[p].items[q].item_id
                == #[trigger] sections[r].items[t].item_id implies p == r && q == t by {
            assert(item_fault(sections, p, q) is None);
            assert(item_fault(sections, r, t) is None);
        }
    }
}

proof fn lemma_valid_items_have_no_fault(sections: Seq<SectionModel>, i: int, m: nat)
    requires
        valid_sections(sections),
        0 <= i < sections.len(),
        m <= sections[i].items.len(),
    ensures
        items_fault(sections, i, m) is None,
    decreases m,
{
    if m > 0 {
        lemma_valid_items_have_no_fault(sections, i, (m - 1) as nat);
        let item = sections[i].items[m - 1];
        assert(item_fault(sections, i, m - 1) is None);
    }
}

proof fn lemma_valid_sections_have_no_fault(sections: Seq<SectionModel>, n: nat)
    requires
        valid_sections(sections),
        n <= sections.len(),
    ensures
        sections_fault(sections, n) is None,
    decreases n,
{
    if n > 0 {
        lemma_valid_sections_have_no_fault(sections, (n - 1) as nat);
        let section = sections[n - 1];
        lemma_valid_items_have_no_fault(sections, n - 1, section.items.len());
    }
}

impl TemplateRevision {
    /// Validate schema, revision, text, positions, and identifiers.
    pub fn validate(&self) -> (result: Result<(), PlaybookError>)
        ensures
            result == verdict(template_fault(self@)),
    {
        if self.schema_version != PLAYBOOK_SCHEMA_VERSION {
            return Err(PlaybookError::SchemaVersion(self.schema_version));
        }
        if self.revision == 0 {
            return Err(PlaybookError::InvalidPosition(0));
        }
        match validate_text(self.name.as_str(), "template name") {
            Ok(()) => {},
            Err(error) => {
                return Err(error);
            },
        }
        validate_sections(self.sections.as_slice())
    }
}

} // verus!
