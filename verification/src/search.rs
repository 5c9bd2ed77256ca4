//! Finding sections and items by identifier.

use vstd::prelude::*;

use crate::document::{
    ItemModel, PlaybookItem, PlaybookSection, SectionModel, items_model, sections_model,
};
use crate::text::Id;

verus! {

/// The index of the first element of `s` that `accept` accepts.
pub open spec fn first_where<T>(s: Seq<T>, accept: spec_fn(T) -> bool) -> Option<int>
    decreases s.len(),
{
    if s.len() == 0 {
        None
    } else if accept(s[0]) {
        Some(0)
    } else {
        match first_where(s.drop_first(), accept) {
            Some(i) => Some(i + 1),
            None => None,
        }
    }
}

/// The sections called `id`.
pub open spec fn called_section(id: Id) -> spec_fn(SectionModel) -> bool {
    |section: SectionModel| section.section_id == id
}

/// The items called `id`.
pub open spec fn called_item(id: Id) -> spec_fn(ItemModel) -> bool {
    |item: ItemModel| item.item_id == id
}

/// Whether some item of `section` is called `id`.
pub open spec fn holds_item(section: SectionModel, id: Id) -> bool {
    exists|j: int| 0 <= j < section.items.len() && #[trigger] section.items[j].item_id == id
}

/// The sections with an item called `id`.
pub open spec fn holding_item(id: Id) -> spec_fn(SectionModel) -> bool {
    |section: SectionModel| holds_item(section, id)
}

/// Whether any item of any section is called `id`.
pub open spec fn mentions_item(sections: Seq<SectionModel>, id: Id) -> bool {
    exists|i: int| 0 <= i < sections.len() && holds_item(#[trigger] sections[i], id)
}

/// What the first match is: accepted, with nothing accepted before it.
pub proof fn lemma_first_where<T>(s: Seq<T>, accept: spec_fn(T) -> bool)
    ensures
        match first_where(s, accept) {
            Some(i) => 0 <= i < s.len() && accept(s[i]) && forall|j: int|
                0 <= j < i ==> !accept(#[trigger] s[j]),
            None => forall|j: int| 0 <= j < s.len() ==> !accept(#[trigger] s[j]),
        },
    decreases s.len(),
{
    if s.len() > 0 && !accept(s[0]) {
        let rest = s.drop_first();
        lemma_first_where(rest, accept);
        assert forall|j: int| 1 <= j < s.len() implies s[j] == #[trigger] rest[j - 1] by {}
        match first_where(rest, accept) {
            Some(i) => {
                assert forall|j: int| 0 <= j < i + 1 implies !accept(#[trigger] s[j]) by {
                    if j > 0 {
                        assert(!accept(rest[j - 1]));
                    }
                }
            },
            None => {
                assert forall|j: int| 0 <= j < s.len() implies !accept(#[trigger] s[j]) by {
                    if j > 0 {
                        assert(!accept(rest[j - 1]));
                    }
                }
            },
        }
    }
}

/// Index of the first section called `id`.
pub fn find_section(sections: &Vec<PlaybookSection>, id: Id) -> (result: Option<usize>)
    ensures
        match result {
            Some(i) => first_where(sections_model(sections@), called_section(id)) == Some(i as int)
                && i < sections@.len(),
            None => first_where(sections_model(sections@), called_section(id)) is None,
        },
{
    let ghost model = sections_model(sections@);
    proof {
        lemma_first_where(model, called_section(id));
    }
    for i in 0..sections.len()
        invariant
            model == sections_model(sections@),
            forall|j: int| 0 <= j < i ==> !called_section(id)(#[trigger] model[j]),
            match first_where(model, called_section(id)) {
                Some(k) => 0 <= k < model.len() && called_section(id)(model[k]) && forall|j: int|
                    0 <= j < k ==> !called_section(id)(#[trigger] model[j]),
                None => forall|j: int|
                    0 <= j < model.len() ==> !called_section(id)(#[trigger] model[j]),
            },
    {
        assert(model[i as int] == sections@[i as int]@);
        if sections[i].section_id == id {
            return Some(i);
        }
    }
    None
}

/// Index of the first item called `id`.
pub fn find_item(items: &Vec<PlaybookItem>, id: Id) -> (result: Option<usize>)
    ensures
        match result {
            Some(j) => first_where(items_model(items@), called_item(id)) == Some(j as int) && j
                < items@.len(),
            None => first_where(items_model(items@), called_item(id)) is None,
        },
{
    let ghost model = items_model(items@);
    proof {
        lemma_first_where(model, called_item(id));
    }
    for i in 0..items.len()
        invariant
            model == items_model(items@),
            forall|j: int| 0 <= j < i ==> !called_item(id)(#[trigger] model[j]),
            match first_where(model, called_item(id)) {
                Some(k) => 0 <= k < model.len() && called_item(id)(model[k]) && forall|j: int|
                    0 <= j < k ==> !called_item(id)(#[trigger] model[j]),
                None => forall|j: int|
                    0 <= j < model.len() ==> !called_item(id)(#[trigger] model[j]),
            },
    {
        assert(model[i as int] == items@[i as int]@);
        if items[i].item_id == id {
            return Some(i);
        }
    }
    None
}

/// Index of the first section with an item called `id`.
pub fn find_holder(sections: &Vec<PlaybookSection>, id: Id) -> (result: Option<usize>)
    ensures
        match result {
            Some(i) => first_where(sections_model(sections@), holding_item(id)) == Some(i as int)
                && i < sections@.len(),
            None => first_where(sections_model(sections@), holding_item(id)) is None,
        },
{
    let ghost model = sections_model(sections@);
    proof {
        lemma_first_where(model, holding_item(id));
    }
    for i in 0..sections.len()
        invariant
            model == sections_model(sections@),
            forall|j: int| 0 <= j < i ==> !holding_item(id)(#[trigger] model[j]),
            match first_where(model, holding_item(id)) {
                Some(k) => 0 <= k < model.len() && holding_item(id)(model[k]) && forall|j: int|
                    0 <= j < k ==> !holding_item(id)(#[trigger] model[j]),
                None => forall|j: int|
                    0 <= j < model.len() ==> !holding_item(id)(#[trigger] model[j]),
            },
    {
        let section = &sections[i];
        assert(model[i as int] == section@);
        proof {
            lemma_first_where(section@.items, called_item(id));
        }
        if find_item(&section.items, id).is_some() {
            assert(holding_item(id)(model[i as int]));
            return Some(i);
        }
    }
    None
}

} // verus!
