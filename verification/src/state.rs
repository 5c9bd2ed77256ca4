//! The completion state of items, folded from the actions that members signed.

use vstd::prelude::*;

use crate::text::{
    Id, is_text_less, lemma_text_less_irreflexive, lemma_text_less_total,
    lemma_text_less_transitive, text_less,
};
use crate::time::Timestamp;

verus! {

/// Latest materialized state of one item.
#[derive(Clone, Debug, PartialEq, Eq)]
pub struct ItemState {
    /// Target item.
    pub item_id: Id,
    /// Whether the latest valid action completed the item.
    pub completed: bool,
    /// Pubkey of the latest actor.
    pub actor_pubkey: String,
    /// Canonical relay acceptance time.
    pub accepted_at: Timestamp,
    /// Advisory timestamp from a completion-state action, when applicable.
    pub client_created_at: Option<Timestamp>,
    /// Source signed event identifier.
    pub event_id: String,
}

/// What an item state holds.
#[verifier::ext_equal]
pub struct StateModel {
    pub item_id: Id,
    pub completed: bool,
    pub actor_pubkey: Seq<char>,
    pub accepted_at: Timestamp,
    pub client_created_at: Option<Timestamp>,
    pub event_id: Seq<char>,
}

impl View for ItemState {
    type V = StateModel;

    open spec fn view(&self) -> StateModel {
        StateModel {
            item_id: self.item_id,
            completed: self.completed,
            actor_pubkey: self.actor_pubkey@,
            accepted_at: self.accepted_at,
            client_created_at: self.client_created_at,
            event_id: self.event_id@,
        }
    }
}

/// The contents of a list of states.
pub open spec fn states_model(states: Seq<ItemState>) -> Seq<StateModel> {
    states.map_values(|state: ItemState| state@)
}

/// Whether the moment `(a, x)` comes before `(b, y)`: earlier acceptance first, then the
/// smaller event identifier.
pub open spec fn precedes(a: Timestamp, x: Seq<char>, b: Timestamp, y: Seq<char>) -> bool {
    a.before(b) || (a == b && text_less(x, y))
}

/// Whether the moment `(a, x)` comes before `(b, y)`.
pub fn is_preceding(a: &Timestamp, x: &str, b: &Timestamp, y: &str) -> (result: bool)
    ensures
        result == precedes(*a, x@, *b, y@),
{
    a.is_before(b) || (*a == *b && is_text_less(x, y))
}

/// No moment comes before itself, and of two different moments one comes before the other.
pub proof fn lemma_precedes_total(a: Timestamp, x: Seq<char>, b: Timestamp, y: Seq<char>)
    ensures
        precedes(a, x, b, y) ==> !precedes(b, y, a, x),
        a == b && x == y <==> !precedes(a, x, b, y) && !precedes(b, y, a, x),
{
    lemma_text_less_irreflexive(x);
    if x != y {
        lemma_text_less_total(x, y);
    }
    if text_less(x, y) && text_less(y, x) {
        lemma_text_less_transitive(x, y, x);
    }
}

/// The order of moments is transitive.
pub proof fn lemma_precedes_transitive(
    a: Timestamp,
    x: Seq<char>,
    b: Timestamp,
    y: Seq<char>,
    c: Timestamp,
    z: Seq<char>,
)
    requires
        precedes(a, x, b, y),
        precedes(b, y, c, z),
    ensures
        precedes(a, x, c, z),
{
    if a == b && b == c {
        lemma_text_less_transitive(x, y, z);
    }
}

/// Whether state `a` takes the place of state `b`: it was accepted later, or at the same
/// time under a greater event identifier.
pub open spec fn supersedes(a: StateModel, b: StateModel) -> bool {
    precedes(b.accepted_at, b.event_id, a.accepted_at, a.event_id)
}

/// Whether action `i` decides the state of its item: it supersedes all earlier actions on
/// the item, and no later one supersedes it.
pub open spec fn is_latest(actions: Seq<StateModel>, i: int) -> bool {
    &&& 0 <= i < actions.len()
    &&& forall|j: int|
        0 <= j < i && (#[trigger] actions[j]).item_id == actions[i].item_id ==> supersedes(
            actions[i],
            actions[j],
        )
    &&& forall|j: int|
        i < j < actions.len() && (#[trigger] actions[j]).item_id == actions[i].item_id
            ==> !supersedes(actions[j], actions[i])
}

/// Whether a list of states is strictly ordered by item.
pub open spec fn ordered_by_item(states: Seq<StateModel>) -> bool {
    forall|k: int, l: int|
        0 <= k < l < states.len() ==> (#[trigger] states[k]).item_id < (#[trigger] states[l]).item_id
}

/// Whether `state` is the action that decides the state of its item.
pub open spec fn decides(actions: Seq<StateModel>, state: StateModel) -> bool {
    exists|i: int| #[trigger] is_latest(actions, i) && actions[i] == state
}

/// Whether some state of the list is that of item `id`.
pub open spec fn covers(states: Seq<StateModel>, id: Id) -> bool {
    exists|k: int| 0 <= k < states.len() && (#[trigger] states[k]).item_id == id
}

/// Whether `states` is what `actions` fold into: one state for each item that occurs, the
/// one that decides, in the order of the item identifiers.
pub open spec fn folds_to(actions: Seq<StateModel>, states: Seq<StateModel>) -> bool {
    &&& ordered_by_item(states)
    &&& forall|k: int| 0 <= k < states.len() ==> #[trigger] decides(actions, states[k])
    &&& forall|i: int| 0 <= i < actions.len() ==> #[trigger] covers(states, actions[i].item_id)
}

/// Where the state of item `id` stands or belongs.
fn place_of_item(states: &Vec<ItemState>, id: Id) -> (result: usize)
    requires
        ordered_by_item(states_model(states@)),
    ensures
        result <= states@.len(),
        forall|k: int| 0 <= k < result ==> (#[trigger] states@[k]).item_id < id,
        forall|k: int| result <= k < states@.len() ==> (#[trigger] states@[k]).item_id >= id,
{
    let mut low: usize = 0;
    let mut high: usize = states.len();
    while low < high
        invariant
            ordered_by_item(states_model(states@)),
            low <= high <= states@.len(),
            forall|k: int| 0 <= k < low ==> (#[trigger] states@[k]).item_id < id,
            forall|k: int| high <= k < states@.len() ==> (#[trigger] states@[k]).item_id >= id,
        decreases high - low,
    {
        let middle: usize = low + (high - low) / 2;
        let ghost model = states_model(states@);
        assert(forall|k: int| 0 <= k < states@.len() ==> model[k].item_id == (
        #[trigger] states@[k]).item_id);
        if states[middle].item_id < id {
            assert(forall|k: int|
                0 <= k <= middle ==> (#[trigger] states@[k]).item_id
                    <= states@[middle as int].item_id);
            low = middle + 1;
        } else {
            assert(forall|k: int|
                middle <= k < states@.len() ==> (#[trigger] states@[k]).item_id
                    >= states@[middle as int].item_id);
            high = middle;
        }
    }
    low
}

/// A state superseding one that another does not supersede supersedes that other too.
proof fn lemma_supersedes_weakly(a: StateModel, b: StateModel, c: StateModel)
    requires
        supersedes(a, b),
        !supersedes(c, b),
    ensures
        supersedes(a, c),
{
    lemma_precedes_total(b.accepted_at, b.event_id, c.accepted_at, c.event_id);
    if supersedes(b, c) {
        lemma_precedes_transitive(
            c.accepted_at,
            c.event_id,
            b.accepted_at,
            b.event_id,
            a.accepted_at,
            a.event_id,
        );
    }
}

/// The action that decides an item still decides it after an action that does not
/// supersede it, or that is on another item.
proof fn lemma_latest_stays(actions: Seq<StateModel>, added: StateModel, i: int)
    requires
        is_latest(actions, i),
        added.item_id != actions[i].item_id || !supersedes(added, actions[i]),
    ensures
        is_latest(actions.push(added), i),
{
}

/// An action that supersedes the one that decides its item decides it from then on.
proof fn lemma_latest_moves(actions: Seq<StateModel>, added: StateModel, i: int)
    requires
        is_latest(actions, i),
        added.item_id == actions[i].item_id,
        supersedes(added, actions[i]),
    ensures
        is_latest(actions.push(added), actions.len() as int),
{
    let next = actions.push(added);
    assert forall|j: int|
        0 <= j < actions.len() && (#[trigger] next[j]).item_id == added.item_id implies supersedes(
        added,
        next[j],
    ) by {
        assert(next[j] == actions[j]);
        if j < i {
            assert(supersedes(actions[i], actions[j]));
            lemma_precedes_transitive(
                actions[j].accepted_at,
                actions[j].event_id,
                actions[i].accepted_at,
                actions[i].event_id,
                added.accepted_at,
                added.event_id,
            );
        } else if j > i {
            assert(!supersedes(actions[j], actions[i]));
            lemma_supersedes_weakly(added, actions[i], actions[j]);
        }
    }
}

/// The states after one more action, whose item stands or belongs at `p`.
spec fn stepped(states: Seq<StateModel>, added: StateModel, p: int) -> Seq<StateModel> {
    if p < states.len() && states[p].item_id == added.item_id {
        if supersedes(added, states[p]) {
            states.update(p, added)
        } else {
            states
        }
    } else {
        states.insert(p, added)
    }
}

proof fn lemma_fold_step(actions: Seq<StateModel>, added: StateModel, states: Seq<StateModel>, p: int)
    requires
        folds_to(actions, states),
        0 <= p <= states.len(),
        forall|k: int| 0 <= k < p ==> (#[trigger] states[k]).item_id < added.item_id,
        forall|k: int| p <= k < states.len() ==> (#[trigger] states[k]).item_id >= added.item_id,
    ensures
        folds_to(actions.push(added), stepped(states, added, p)),
{
    let next = actions.push(added);
    let after = stepped(states, added, p);
    let n = actions.len() as int;
    let known = p < states.len() && states[p].item_id == added.item_id;
    let replaced = known && supersedes(added, states[p]);
    if replaced {
        assert(decides(actions, states[p]));
        let i = choose|i: int| #[trigger] is_latest(actions, i) && actions[i] == states[p];
        lemma_latest_moves(actions, added, i);
    } else if !known {
        assert forall|j: int| 0 <= j < n implies (#[trigger] next[j]).item_id != added.item_id by {
            assert(next[j] == actions[j]);
            assert(covers(states, actions[j].item_id));
        }
        assert(is_latest(next, n));
    }
    assert forall|k: int| 0 <= k < after.len() implies #[trigger] decides(next, after[k]) by {
        if k == p && (replaced || !known) {
            assert(is_latest(next, n) && next[n] == after[k]);
        } else {
            let l = if known || k < p {
                k
            } else {
                k - 1
            };
            assert(after[k] == states[l]);
            assert(decides(actions, states[l]));
            let i = choose|i: int| #[trigger] is_latest(actions, i) && actions[i] == states[l];
            lemma_latest_stays(actions, added, i);
            assert(next[i] == actions[i]);
        }
    }
    assert forall|i: int| 0 <= i < next.len() implies #[trigger] covers(
        after,
        next[i].item_id,
    ) by {
        if i == n {
            assert(after[p].item_id == added.item_id);
        } else {
            assert(next[i] == actions[i]);
            assert(covers(states, actions[i].item_id));
            let k = choose|k: int|
                0 <= k < states.len() && (#[trigger] states[k]).item_id == actions[i].item_id;
            if known || k < p {
                assert(after[k].item_id == states[k].item_id);
            } else {
                assert(after[k + 1] == states[k]);
            }
        }
    }
}

/// Fold append-only item actions into one deterministic latest state per item.
pub fn fold_item_states(actions: Vec<ItemState>) -> (result: Vec<ItemState>)
    ensures
        folds_to(states_model(actions@), states_model(result@)),
{
    let ghost all = states_model(actions@);
    let mut states: Vec<ItemState> = Vec::new();
    for action in it: actions
        invariant
            it.seq() == actions@,
            all == states_model(actions@),
            folds_to(all.take(it.index() as int), states_model(states@)),
    {
        let ghost n = it.index() as int;
        let ghost before = states_model(states@);
        let p = place_of_item(&states, action.item_id);
        assert(forall|k: int| 0 <= k < states@.len() ==> before[k] == (#[trigger] states@[k])@);
        proof {
            assert(all[n] == action@);
            assert(all.take(n + 1) =~= all.take(n).push(action@));
            lemma_fold_step(all.take(n), action@, before, p as int);
        }
        if p < states.len() && states[p].item_id == action.item_id {
            if is_preceding(
                &states[p].accepted_at,
                states[p].event_id.as_str(),
                &action.accepted_at,
                action.event_id.as_str(),
            ) {
                states[p] = action;
            }
        } else {
            states.insert(p, action);
        }
        assert(states_model(states@) =~= stepped(before, action@, p as int));
    }
    assert(all.take(all.len() as int) =~= all);
    states
}

/// Two lists that are strictly ordered by item and hold the same states are equal.
proof fn lemma_ordered_lists_agree(s: Seq<StateModel>, t: Seq<StateModel>)
    requires
        ordered_by_item(s),
        ordered_by_item(t),
        forall|k: int| 0 <= k < s.len() ==> t.contains(#[trigger] s[k]),
        forall|k: int| 0 <= k < t.len() ==> s.contains(#[trigger] t[k]),
    ensures
        s == t,
    decreases s.len(),
{
    if s.len() == 0 {
        if t.len() > 0 {
            assert(s.contains(t[0]));
        }
        assert(s =~= t);
    } else {
        assert(t.contains(s[s.len() - 1]));
        assert(t.len() > 0);
        assert(s.contains(t[t.len() - 1]));
        assert(s.last() == t.last());
        let u = s.drop_last();
        let v = t.drop_last();
        assert forall|k: int| 0 <= k < u.len() implies v.contains(#[trigger] u[k]) by {
            assert(t.contains(s[k]));
            let l = t.index_of(s[k]);
            assert(v[l] == u[k]);
        }
        assert forall|k: int| 0 <= k < v.len() implies u.contains(#[trigger] v[k]) by {
            assert(s.contains(t[k]));
            let l = s.index_of(t[k]);
            assert(u[l] == v[k]);
        }
        lemma_ordered_lists_agree(u, v);
        assert(s =~= u.push(s.last()));
        assert(t =~= v.push(t.last()));
    }
}

/// No action on an item supersedes the one that decides it.
proof fn lemma_latest_is_unsurpassed(actions: Seq<StateModel>, i: int, j: int)
    requires
        is_latest(actions, i),
        0 <= j < actions.len(),
        actions[j].item_id == actions[i].item_id,
    ensures
        !supersedes(actions[j], actions[i]),
{
    lemma_precedes_total(
        actions[i].accepted_at,
        actions[i].event_id,
        actions[j].accepted_at,
        actions[j].event_id,
    );
}

/// Folding is deterministic: a list of actions folds into one list of states.
pub proof fn law_fold_is_deterministic(
    actions: Seq<StateModel>,
    s: Seq<StateModel>,
    t: Seq<StateModel>,
)
    requires
        folds_to(actions, s),
        folds_to(actions, t),
    ensures
        s == t,
{
    lemma_fold_included(actions, s, t);
    lemma_fold_included(actions, t, s);
    lemma_ordered_lists_agree(s, t);
}

proof fn lemma_fold_included(actions: Seq<StateModel>, s: Seq<StateModel>, t: Seq<StateModel>)
    requires
        folds_to(actions, s),
        folds_to(actions, t),
    ensures
        forall|k: int| 0 <= k < s.len() ==> t.contains(#[trigger] s[k]),
{
    assert forall|k: int| 0 <= k < s.len() implies t.contains(#[trigger] s[k]) by {
        assert(decides(actions, s[k]));
        let i = choose|i: int| #[trigger] is_latest(actions, i) && actions[i] == s[k];
        assert(covers(t, actions[i].item_id));
        let l = choose|l: int|
            0 <= l < t.len() && (#[trigger] t[l]).item_id == actions[i].item_id;
        assert(decides(actions, t[l]));
        let j = choose|j: int| #[trigger] is_latest(actions, j) && actions[j] == t[l];
        if i < j {
            assert(supersedes(actions[j], actions[i]));
        } else if j < i {
            assert(supersedes(actions[i], actions[j]));
        }
        assert(i == j);
        assert(t[l] == s[k]);
    }
}

/// Whether actions on one item that were accepted at the same time under the same event
/// identifier are the same action.
pub open spec fn moments_identify(actions: Seq<StateModel>) -> bool {
    forall|i: int, j: int|
        0 <= i < actions.len() && 0 <= j < actions.len() && (#[trigger] actions[i]).item_id == (
        #[trigger] actions[j]).item_id && actions[i].accepted_at == actions[j].accepted_at
            && actions[i].event_id == actions[j].event_id ==> actions[i] == actions[j]
}

/// Folding does not depend on the order of the actions, as long as no two different actions
/// on an item share their acceptance time and event identifier.
pub proof fn law_fold_is_permutation_independent(
    actions: Seq<StateModel>,
    permuted: Seq<StateModel>,
    s: Seq<StateModel>,
    t: Seq<StateModel>,
)
    requires
        actions.to_multiset() == permuted.to_multiset(),
        moments_identify(actions),
        folds_to(actions, s),
        folds_to(permuted, t),
    ensures
        s == t,
{
    broadcast use vstd::seq_lib::group_to_multiset_ensures;

    assert forall|e: StateModel| actions.contains(e) <==> permuted.contains(e) by {
        assert(actions.contains(e) <==> actions.to_multiset().count(e) > 0);
        assert(permuted.contains(e) <==> permuted.to_multiset().count(e) > 0);
    }
    assert forall|i: int, j: int|
        0 <= i < permuted.len() && 0 <= j < permuted.len() && (#[trigger] permuted[i]).item_id == (
        #[trigger] permuted[j]).item_id && permuted[i].accepted_at == permuted[j].accepted_at
            && permuted[i].event_id == permuted[j].event_id implies permuted[i] == permuted[j] by {
        assert(permuted.contains(permuted[i]));
        assert(permuted.contains(permuted[j]));
        assert(actions[actions.index_of(permuted[i])] == permuted[i]);
        assert(actions[actions.index_of(permuted[j])] == permuted[j]);
    }
    lemma_permuted_fold_included(actions, permuted, s, t);
    lemma_permuted_fold_included(permuted, actions, t, s);
    lemma_ordered_lists_agree(s, t);
}

proof fn lemma_permuted_fold_included(
    actions: Seq<StateModel>,
    permuted: Seq<StateModel>,
    s: Seq<StateModel>,
    t: Seq<StateModel>,
)
    requires
        forall|e: StateModel| actions.contains(e) <==> permuted.contains(e),
        moments_identify(actions),
        folds_to(actions, s),
        folds_to(permuted, t),
    ensures
        forall|k: int| 0 <= k < s.len() ==> t.contains(#[trigger] s[k]),
{
    assert forall|k: int| 0 <= k < s.len() implies t.contains(#[trigger] s[k]) by {
        assert(decides(actions, s[k]));
        let i = choose|i: int| #[trigger] is_latest(actions, i) && actions[i] == s[k];
        assert(actions.contains(actions[i]));
        let x = permuted.index_of(s[k]);
        assert(permuted[x] == s[k]);
        assert(covers(t, permuted[x].item_id));
        let l = choose|l: int|
            0 <= l < t.len() && (#[trigger] t[l]).item_id == permuted[x].item_id;
        assert(decides(permuted, t[l]));
        let j = choose|j: int| #[trigger] is_latest(permuted, j) && permuted[j] == t[l];
        assert(permuted.contains(permuted[j]));
        let y = actions.index_of(t[l]);
        assert(actions[y] == t[l]);
        lemma_latest_is_unsurpassed(actions, i, y);
        lemma_latest_is_unsurpassed(permuted, j, x);
        lemma_precedes_total(
            s[k].accepted_at,
            s[k].event_id,
            t[l].accepted_at,
            t[l].event_id,
        );
        assert(actions[i] == actions[y]);
    }
}

/// Folded states fold into themselves.
pub proof fn law_fold_is_idempotent(actions: Seq<StateModel>, states: Seq<StateModel>)
    requires
        folds_to(actions, states),
    ensures
        folds_to(states, states),
{
    assert forall|k: int| 0 <= k < states.len() implies #[trigger] decides(
        states,
        states[k],
    ) by {
        assert(is_latest(states, k));
    }
    assert forall|k: int| 0 <= k < states.len() implies #[trigger] covers(
        states,
        states[k].item_id,
    ) by {
        assert(states[k].item_id == states[k].item_id);
    }
}

/// The state of an item is that of an action accepted no earlier than any other action on
/// the item, and among those accepted at the same time one with the greatest event
/// identifier.
pub proof fn law_fold_keeps_the_latest(
    actions: Seq<StateModel>,
    states: Seq<StateModel>,
    k: int,
    j: int,
)
    requires
        folds_to(actions, states),
        0 <= k < states.len(),
        0 <= j < actions.len(),
        actions[j].item_id == states[k].item_id,
    ensures
        actions.contains(states[k]),
        !states[k].accepted_at.before(actions[j].accepted_at),
        states[k].accepted_at == actions[j].accepted_at ==> !text_less(
            states[k].event_id,
            actions[j].event_id,
        ),
{
    assert(decides(actions, states[k]));
    let i = choose|i: int| #[trigger] is_latest(actions, i) && actions[i] == states[k];
    lemma_latest_is_unsurpassed(actions, i, j);
}

} // verus!
