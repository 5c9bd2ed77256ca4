//! What folding and sorting give, told by times and event identifiers.

use vstd::prelude::*;

use crate::snapshot::{
    ActivityEntry, EntryModel, InstanceSnapshot, TemplateSnapshot, earlier, entries_model,
    law_sorting_keeps_every_record, of_moment, sorts_to,
};
use crate::state::{
    StateModel, covers, decides, folds_to, is_latest, law_fold_keeps_the_latest, precedes,
    states_model, supersedes,
};
use crate::text::text_less;
use crate::time::{Timestamp, epoch_nanos, law_earlier_moments_have_fewer_nanoseconds};

verus! {

/// Whether `a` was accepted before `b`, or at the same time under a smaller event identifier.
pub open spec fn came_before(
    a: Timestamp,
    a_event: Seq<char>,
    b: Timestamp,
    b_event: Seq<char>,
) -> bool {
    ||| a.seconds < b.seconds
    ||| a.seconds == b.seconds && a.nanos < b.nanos
    ||| a.seconds == b.seconds && a.nanos == b.nanos && text_less(a_event, b_event)
}

proof fn lemma_came_before(a: Timestamp, a_event: Seq<char>, b: Timestamp, b_event: Seq<char>)
    ensures
        precedes(a, a_event, b, b_event) <==> came_before(a, a_event, b, b_event),
{
    law_earlier_moments_have_fewer_nanoseconds(a, b);
}

/// What is accepted earlier in nanoseconds since the epoch came before, and at the same
/// nanosecond the event identifier decides.
pub proof fn law_acceptance_is_ordered_by_nanoseconds(
    a: Timestamp,
    a_event: Seq<char>,
    b: Timestamp,
    b_event: Seq<char>,
)
    requires
        a.nanos < 1_000_000_000,
        b.nanos < 1_000_000_000,
    ensures
        came_before(a, a_event, b, b_event) <==> epoch_nanos(a) < epoch_nanos(b) || (epoch_nanos(a)
            == epoch_nanos(b) && text_less(a_event, b_event)),
{
}

/// Whether action `i` gives the state of its item: all earlier ones on the item in the list
/// came before it, and it came before none of the later ones.
pub open spec fn gives_state(actions: Seq<StateModel>, i: int) -> bool {
    let a = actions[i];
    &&& 0 <= i < actions.len()
    &&& forall|j: int|
        0 <= j < i && (#[trigger] actions[j]).item_id == a.item_id ==> came_before(
            actions[j].accepted_at,
            actions[j].event_id,
            a.accepted_at,
            a.event_id,
        )
    &&& forall|j: int|
        i < j < actions.len() && (#[trigger] actions[j]).item_id == a.item_id ==> !came_before(
            a.accepted_at,
            a.event_id,
            actions[j].accepted_at,
            actions[j].event_id,
        )
}

/// Whether a state is that of an action that gives the state of its item.
pub open spec fn is_given(actions: Seq<StateModel>, state: StateModel) -> bool {
    exists|i: int| #[trigger] gives_state(actions, i) && actions[i] == state
}

/// Actions fold into one state for each item that was acted on, in the order of the items'
/// identifiers: the action that was accepted last, the greatest event identifier deciding
/// between those accepted at the same time, and the first in the list between those equal in
/// both.
pub proof fn law_folding_gives_the_last_accepted_action(
    actions: Seq<StateModel>,
    states: Seq<StateModel>,
)
    requires
        folds_to(actions, states),
    ensures
        forall|k: int, l: int|
            0 <= k < l < states.len() ==> (#[trigger] states[k]).item_id < (
            #[trigger] states[l]).item_id,
        forall|k: int|
            0 <= k < states.len() ==> is_given(actions, #[trigger] states[k]),
        forall|i: int|
            0 <= i < actions.len() ==> exists|k: int|
                0 <= k < states.len() && (#[trigger] states[k]).item_id == (
                #[trigger] actions[i]).item_id,
{
    assert forall|k: int| 0 <= k < states.len() implies is_given(actions, #[trigger] states[k]) by {
        assert(decides(actions, states[k]));
        let i = choose|i: int| #[trigger] is_latest(actions, i) && actions[i] == states[k];
        let a = actions[i];
        assert forall|j: int|
            0 <= j < actions.len() && (#[trigger] actions[j]).item_id == a.item_id implies (
        supersedes(a, actions[j]) <==> came_before(
            actions[j].accepted_at,
            actions[j].event_id,
            a.accepted_at,
            a.event_id,
        )) && (supersedes(actions[j], a) <==> came_before(
            a.accepted_at,
            a.event_id,
            actions[j].accepted_at,
            actions[j].event_id,
        )) by {
            let b = actions[j];
            lemma_came_before(b.accepted_at, b.event_id, a.accepted_at, a.event_id);
            lemma_came_before(a.accepted_at, a.event_id, b.accepted_at, b.event_id);
        }
        assert(gives_state(actions, i));
    }
    assert forall|i: int| 0 <= i < actions.len() implies exists|k: int|
        0 <= k < states.len() && (#[trigger] states[k]).item_id == (
        #[trigger] actions[i]).item_id by {
        assert(covers(states, actions[i].item_id));
    }
}

/// The state of an item is that of an action on it than which none was accepted in a later
/// nanosecond, or in the same one under a greater event identifier.
pub proof fn law_folding_keeps_the_latest_nanosecond(
    actions: Seq<StateModel>,
    states: Seq<StateModel>,
    k: int,
    j: int,
)
    requires
        folds_to(actions, states),
        0 <= k < states.len(),
        0 <= j < actions.len(),
        actions[j].item_id == states[k].item_id,
        actions[j].accepted_at.nanos < 1_000_000_000,
        states[k].accepted_at.nanos < 1_000_000_000,
    ensures
        actions.contains(states[k]),
        epoch_nanos(actions[j].accepted_at) <= epoch_nanos(states[k].accepted_at),
        epoch_nanos(actions[j].accepted_at) == epoch_nanos(states[k].accepted_at) ==> !text_less(
            states[k].event_id,
            actions[j].event_id,
        ),
{
    law_fold_keeps_the_latest(actions, states, k, j);
    law_earlier_moments_have_fewer_nanoseconds(states[k].accepted_at, actions[j].accepted_at);
}

/// Sorting a history puts its records in the order in which they were accepted, event
/// identifiers deciding between those accepted at the same time. Records equal in both stay
/// in the order in which they stood, and none is lost, added or repeated.
pub proof fn law_sorting_gives_the_order_of_acceptance(
    before: Seq<EntryModel>,
    after: Seq<EntryModel>,
    at: Timestamp,
    event_id: Seq<char>,
)
    requires
        sorts_to(before, after),
    ensures
        forall|k: int, l: int|
            0 <= k < l < after.len() ==> !came_before(
                (#[trigger] after[l]).accepted_at,
                after[l].event_id,
                (#[trigger] after[k]).accepted_at,
                after[k].event_id,
            ),
        before.filter(|e: EntryModel| e.accepted_at == at && e.event_id == event_id)
            == after.filter(|e: EntryModel| e.accepted_at == at && e.event_id == event_id),
        after.to_multiset() == before.to_multiset(),
        after.len() == before.len(),
{
    law_sorting_keeps_every_record(before, after);
    assert forall|k: int, l: int| 0 <= k < l < after.len() implies !came_before(
        (#[trigger] after[l]).accepted_at,
        after[l].event_id,
        (#[trigger] after[k]).accepted_at,
        after[k].event_id,
    ) by {
        let (x, y) = (after[l], after[k]);
        assert(!earlier(after[l], after[k]));
        lemma_came_before(x.accepted_at, x.event_id, y.accepted_at, y.event_id);
    }
    let here = |e: EntryModel| e.accepted_at == at && e.event_id == event_id;
    assert(here =~= of_moment(at, event_id));
    assert(before.filter(of_moment(at, event_id)) == after.filter(of_moment(at, event_id)));
}

/// Of two records of a sorted history the one in front was accepted no later, in nanoseconds
/// since the epoch.
pub proof fn law_sorted_histories_run_forward(
    before: Seq<EntryModel>,
    after: Seq<EntryModel>,
    k: int,
    l: int,
)
    requires
        sorts_to(before, after),
        0 <= k < l < after.len(),
        after[k].accepted_at.nanos < 1_000_000_000,
        after[l].accepted_at.nanos < 1_000_000_000,
    ensures
        epoch_nanos(after[k].accepted_at) <= epoch_nanos(after[l].accepted_at),
        epoch_nanos(after[k].accepted_at) == epoch_nanos(after[l].accepted_at) ==> !text_less(
            after[l].event_id,
            after[k].event_id,
        ),
{
    law_sorting_gives_the_order_of_acceptance(before, after, after[k].accepted_at, Seq::empty());
}

/// The models of histories and projections show every field.
pub proof fn law_snapshot_models_show_every_field(
    entries: Seq<ActivityEntry>,
    i: int,
    template: TemplateSnapshot,
    instance: InstanceSnapshot,
)
    requires
        0 <= i < entries.len(),
    ensures
        entries_model(entries).len() == entries.len(),
        entries_model(entries)[i].event_id == entries[i].event_id@,
        entries_model(entries)[i].actor_pubkey == entries[i].actor_pubkey@,
        entries_model(entries)[i].accepted_at == entries[i].accepted_at,
        entries_model(entries)[i].client_created_at == entries[i].client_created_at,
        entries_model(entries)[i].action == entries[i].action@,
        entries_model(entries)[i].item_id == entries[i].item_id,
        entries_model(entries)[i].structure_revision == entries[i].structure_revision,
        template@.template == template.template@,
        template@.actor_pubkey == template.actor_pubkey@,
        template@.accepted_at == template.accepted_at,
        template@.event_id == template.event_id@,
        instance@.instance == instance.instance@,
        instance@.item_states == states_model(instance.item_states@),
        instance@.activity == entries_model(instance.activity@),
{
}

} // verus!
