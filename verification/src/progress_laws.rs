//! What counts as progress, told item by item and state by state.

use vstd::prelude::*;

use crate::document::{ItemModel, SectionModel};
use crate::document_laws::{with_item, without_items};
use crate::instance::{active_items, completed, has_active, live, live_items};
use crate::state::{ItemState, StateModel, states_model};
use crate::text::Id;

verus! {

/// How many live items are completed, and how many there are.
pub open spec fn counts(sections: Seq<SectionModel>, states: Seq<StateModel>) -> (nat, nat) {
    (active_items(sections).filter(completed(states)).len(), active_items(sections).len())
}

/// Whether some state in the list has this item and says that it is completed.
pub open spec fn told_completed(states: Seq<StateModel>, id: Id) -> bool {
    exists|k: int|
        0 <= k < states.len() && (#[trigger] states[k]).item_id == id && states[k].completed
}

/// The model of a list of states shows every state in its place, with every field.
pub proof fn law_state_models_show_every_field(states: Seq<ItemState>, i: int)
    requires
        0 <= i < states.len(),
    ensures
        states_model(states).len() == states.len(),
        states_model(states)[i].item_id == states[i].item_id,
        states_model(states)[i].completed == states[i].completed,
        states_model(states)[i].actor_pubkey == states[i].actor_pubkey@,
        states_model(states)[i].accepted_at == states[i].accepted_at,
        states_model(states)[i].client_created_at == states[i].client_created_at,
        states_model(states)[i].event_id == states[i].event_id@,
{
}

/// An item counts as completed exactly where some state has its identifier and is completed,
/// whatever else the state says.
pub proof fn law_items_are_completed_by_identifier(states: Seq<StateModel>, item: ItemModel)
    ensures
        completed(states)(item) <==> told_completed(states, item.item_id),
{
    if completed(states)(item) {
        let k = choose|k: int|
            0 <= k < states.len() && (#[trigger] states[k]).completed && states[k].item_id
                == item.item_id;
        assert(states[k].item_id == item.item_id && states[k].completed);
    }
    if told_completed(states, item.item_id) {
        let k = choose|k: int|
            0 <= k < states.len() && (#[trigger] states[k]).item_id == item.item_id
                && states[k].completed;
        assert(states[k].completed && states[k].item_id == item.item_id);
    }
}

/// What one more section adds to the items that count.
proof fn lemma_active_push(sections: Seq<SectionModel>, section: SectionModel)
    ensures
        active_items(sections.push(section)) == active_items(sections) + live_items(section),
{
    assert(sections.push(section).drop_last() =~= sections);
    assert(sections.push(section).last() == section);
}

/// No sections give no progress, and a section counts for nothing where it is removed or
/// empty.
pub proof fn law_progress_starts_from_nothing(
    sections: Seq<SectionModel>,
    section: SectionModel,
    states: Seq<StateModel>,
)
    ensures
        counts(Seq::empty(), states) == (0nat, 0nat),
        section.deleted ==> counts(sections.push(section), states) == counts(sections, states),
        counts(sections.push(without_items(section)), states) == counts(sections, states),
{
    reveal(Seq::filter);
    lemma_active_push(sections, section);
    lemma_active_push(sections, without_items(section));
    assert(active_items(sections) + Seq::<ItemModel>::empty() =~= active_items(sections));
    assert(live_items(without_items(section)) =~= Seq::empty());
}

/// One item more in a section that is not removed adds one to the items, unless the item is
/// removed, and one to the completed ones where some state says that it is completed.
pub proof fn law_progress_counts_item_by_item(
    sections: Seq<SectionModel>,
    section: SectionModel,
    item: ItemModel,
    states: Seq<StateModel>,
)
    ensures
        ({
            let before = counts(sections.push(section), states);
            let after = counts(sections.push(with_item(section, item)), states);
            let counted = !section.deleted && !item.deleted;
            &&& !counted ==> after == before
            &&& counted ==> after.1 == before.1 + 1
            &&& counted && told_completed(states, item.item_id) ==> after.0 == before.0 + 1
            &&& counted && !told_completed(states, item.item_id) ==> after.0 == before.0
        }),
{
    let front = active_items(sections);
    let pushed = with_item(section, item);
    lemma_active_push(sections, section);
    lemma_active_push(sections, pushed);
    law_items_are_completed_by_identifier(states, item);
    section.items.lemma_filter_push(item, live());
    if section.deleted {
        assert(live_items(pushed) =~= live_items(section));
    } else if item.deleted {
        assert(live_items(pushed) == live_items(section));
    } else {
        assert(live_items(pushed) == live_items(section).push(item));
        assert(front + live_items(section).push(item) =~= (front + live_items(section)).push(item));
        (front + live_items(section)).lemma_filter_push(item, completed(states));
    }
}

/// Picks the items with an identifier.
pub open spec fn with_id(id: Id) -> spec_fn(ItemModel) -> bool {
    |item: ItemModel| item.item_id == id
}

/// A completed state for an item that was not completed raises the first count by the number
/// of live items with that identifier, and the second not at all. A state that is not
/// completed changes neither.
pub proof fn law_completing_an_item_raises_progress(
    sections: Seq<SectionModel>,
    states: Seq<StateModel>,
    state: StateModel,
)
    ensures
        ({
            let before = counts(sections, states);
            let after = counts(sections, states.push(state));
            let live_copies = active_items(sections).filter(with_id(state.item_id)).len();
            &&& after.1 == before.1
            &&& state.completed && !told_completed(states, state.item_id) ==> after.0 == before.0
                + live_copies
            &&& !state.completed || told_completed(states, state.item_id) ==> after.0 == before.0
        }),
{
    lemma_completing(active_items(sections), states, state);
}

proof fn lemma_told_push(states: Seq<StateModel>, state: StateModel, id: Id)
    ensures
        told_completed(states.push(state), id) <==> told_completed(states, id) || (state.completed
            && state.item_id == id),
{
    let longer = states.push(state);
    if told_completed(states, id) {
        let k = choose|k: int|
            0 <= k < states.len() && (#[trigger] states[k]).item_id == id && states[k].completed;
        assert(longer[k].item_id == id && longer[k].completed);
    }
    if state.completed && state.item_id == id {
        assert(longer[states.len() as int].item_id == id);
    }
    if told_completed(longer, id) {
        let k = choose|k: int|
            0 <= k < longer.len() && (#[trigger] longer[k]).item_id == id && longer[k].completed;
        if k < states.len() {
            assert(states[k].item_id == id && states[k].completed);
        }
    }
}

proof fn lemma_completing(items: Seq<ItemModel>, states: Seq<StateModel>, state: StateModel)
    ensures
        ({
            let before = items.filter(completed(states)).len();
            let after = items.filter(completed(states.push(state))).len();
            &&& state.completed && !told_completed(states, state.item_id) ==> after == before
                + items.filter(with_id(state.item_id)).len()
            &&& !state.completed || told_completed(states, state.item_id) ==> after == before
        }),
    decreases items.len(),
{
    reveal(Seq::filter);
    if items.len() > 0 {
        let (front, item) = (items.drop_last(), items.last());
        lemma_completing(front, states, state);
        law_items_are_completed_by_identifier(states, item);
        law_items_are_completed_by_identifier(states.push(state), item);
        lemma_told_push(states, state, item.item_id);
        assert(items =~= front.push(item));
        front.lemma_filter_push(item, completed(states));
        front.lemma_filter_push(item, completed(states.push(state)));
        front.lemma_filter_push(item, with_id(state.item_id));
    }
}

/// An item is active exactly where it stands, not removed, in a section that is not removed.
pub proof fn law_active_items_are_live_in_live_sections(sections: Seq<SectionModel>, id: Id)
    ensures
        has_active(sections, id) <==> exists|i: int, j: int|
            0 <= i < sections.len() && 0 <= j < sections[i].items.len() && (
            #[trigger] sections[i].items[j]).item_id == id && !sections[i].deleted
                && !sections[i].items[j].deleted,
{
}

} // verus!
