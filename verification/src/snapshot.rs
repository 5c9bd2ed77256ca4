//! What readers are shown: current documents with their provenance and history.

use vstd::prelude::*;

use crate::document::{TemplateModel, TemplateRevision};
use crate::instance::{InstanceModel, PlaybookInstance};
use crate::state::{
    ItemState, StateModel, is_preceding, lemma_precedes_total, lemma_precedes_transitive, precedes,
    states_model,
};
use crate::text::Id;
use crate::time::Timestamp;

verus! {

/// One immutable activity record of an instance.
#[derive(Clone, Debug, PartialEq, Eq)]
pub struct ActivityEntry {
    /// Source signed event identifier.
    pub event_id: String,
    /// Actor pubkey.
    pub actor_pubkey: String,
    /// Canonical relay acceptance time.
    pub accepted_at: Timestamp,
    /// Advisory timestamp from a completion-state action, when applicable.
    pub client_created_at: Option<Timestamp>,
    /// Action or operation name.
    pub action: String,
    /// Optional item target.
    pub item_id: Option<Id>,
    /// Optional structural revision produced by the operation.
    pub structure_revision: Option<u64>,
}

/// What an activity record holds.
#[verifier::ext_equal]
pub struct EntryModel {
    pub event_id: Seq<char>,
    pub actor_pubkey: Seq<char>,
    pub accepted_at: Timestamp,
    pub client_created_at: Option<Timestamp>,
    pub action: Seq<char>,
    pub item_id: Option<Id>,
    pub structure_revision: Option<u64>,
}

impl View for ActivityEntry {
    type V = EntryModel;

    open spec fn view(&self) -> EntryModel {
        EntryModel {
            event_id: self.event_id@,
            actor_pubkey: self.actor_pubkey@,
            accepted_at: self.accepted_at,
            client_created_at: self.client_created_at,
            action: self.action@,
            item_id: self.item_id,
            structure_revision: self.structure_revision,
        }
    }
}

/// The contents of a list of activity records.
pub open spec fn entries_model(entries: Seq<ActivityEntry>) -> Seq<EntryModel> {
    entries.map_values(|entry: ActivityEntry| entry@)
}

/// Read projection for a template.
#[derive(Clone, Debug, PartialEq, Eq)]
pub struct TemplateSnapshot {
    /// Current template definition.
    pub template: TemplateRevision,
    /// Pubkey that authored the current revision.
    pub actor_pubkey: String,
    /// Canonical relay acceptance time.
    pub accepted_at: Timestamp,
    /// Source event identifier.
    pub event_id: String,
}

/// What a template projection holds.
#[verifier::ext_equal]
pub struct TemplateSnapshotModel {
    pub template: TemplateModel,
    pub actor_pubkey: Seq<char>,
    pub accepted_at: Timestamp,
    pub event_id: Seq<char>,
}

impl View for TemplateSnapshot {
    type V = TemplateSnapshotModel;

    open spec fn view(&self) -> TemplateSnapshotModel {
        TemplateSnapshotModel {
            template: self.template@,
            actor_pubkey: self.actor_pubkey@,
            accepted_at: self.accepted_at,
            event_id: self.event_id@,
        }
    }
}

/// Read projection for a channel instance.
#[derive(Clone, Debug, PartialEq, Eq)]
pub struct InstanceSnapshot {
    /// Current structural definition.
    pub instance: PlaybookInstance,
    /// Latest item states.
    pub item_states: Vec<ItemState>,
    /// Complete append-only activity history.
    pub activity: Vec<ActivityEntry>,
}

/// What an instance projection holds.
#[verifier::ext_equal]
pub struct InstanceSnapshotModel {
    pub instance: InstanceModel,
    pub item_states: Seq<StateModel>,
    pub activity: Seq<EntryModel>,
}

impl View for InstanceSnapshot {
    type V = InstanceSnapshotModel;

    open spec fn view(&self) -> InstanceSnapshotModel {
        InstanceSnapshotModel {
            instance: self.instance@,
            item_states: states_model(self.item_states@),
            activity: entries_model(self.activity@),
        }
    }
}

/// Whether record `a` belongs before record `b`: it was accepted earlier, or at the same
/// time under a smaller event identifier.
pub open spec fn earlier(a: EntryModel, b: EntryModel) -> bool {
    precedes(a.accepted_at, a.event_id, b.accepted_at, b.event_id)
}

/// Picks the records of one moment: one acceptance time and event identifier.
pub open spec fn of_moment(at: Timestamp, event_id: Seq<char>) -> spec_fn(EntryModel) -> bool {
    |entry: EntryModel| entry.accepted_at == at && entry.event_id == event_id
}

/// Whether no record stands behind one that it belongs before.
pub open spec fn in_order(entries: Seq<EntryModel>) -> bool {
    forall|k: int, l: int|
        0 <= k < l < entries.len() ==> !earlier(#[trigger] entries[l], #[trigger] entries[k])
}

/// Whether two lists hold the same records of each moment, in the same order.
pub open spec fn same_moments(a: Seq<EntryModel>, b: Seq<EntryModel>) -> bool {
    forall|at: Timestamp, event_id: Seq<char>|
        a.filter(#[trigger] of_moment(at, event_id)) == b.filter(of_moment(at, event_id))
}

/// Whether `after` is `before` in order of time, records of one moment staying in the order
/// in which they stood.
pub open spec fn sorts_to(before: Seq<EntryModel>, after: Seq<EntryModel>) -> bool {
    in_order(after) && same_moments(before, after)
}

/// Nothing is picked where nothing is wanted.
proof fn lemma_filter_nothing(s: Seq<EntryModel>, wanted: spec_fn(EntryModel) -> bool)
    requires
        forall|k: int| 0 <= k < s.len() ==> !wanted(#[trigger] s[k]),
    ensures
        s.filter(wanted) == Seq::<EntryModel>::empty(),
    decreases s.len(),
{
    reveal(Seq::filter);
    if s.len() > 0 {
        lemma_filter_nothing(s.drop_last(), wanted);
    }
}

/// One record more at the end is picked last or not at all.
proof fn lemma_filter_push(s: Seq<EntryModel>, x: EntryModel, wanted: spec_fn(EntryModel) -> bool)
    ensures
        s.push(x).filter(wanted) == if wanted(x) {
            s.filter(wanted).push(x)
        } else {
            s.filter(wanted)
        },
{
    reveal(Seq::filter);
    assert(s.push(x).drop_last() =~= s);
}

/// What is picked does not change when a wanted record moves over unwanted ones.
proof fn lemma_filter_insert(
    s: Seq<EntryModel>,
    p: int,
    x: EntryModel,
    wanted: spec_fn(EntryModel) -> bool,
)
    requires
        0 <= p <= s.len(),
        wanted(x) ==> forall|k: int| p <= k < s.len() ==> !wanted(#[trigger] s[k]),
    ensures
        s.insert(p, x).filter(wanted) == s.push(x).filter(wanted),
    decreases s.len(),
{
    lemma_filter_push(s, x, wanted);
    if p == s.len() {
        assert(s.insert(p, x) =~= s.push(x));
    } else {
        let front = s.drop_last();
        lemma_filter_insert(front, p, x, wanted);
        assert(s.insert(p, x) =~= front.insert(p, x).push(s.last()));
        lemma_filter_push(front.insert(p, x), s.last(), wanted);
        lemma_filter_push(front, x, wanted);
        assert(s =~= front.push(s.last()));
        lemma_filter_push(front, s.last(), wanted);
    }
}

/// A record put behind all that it does not belong before keeps a list in order.
proof fn lemma_insert_in_order(s: Seq<EntryModel>, p: int, x: EntryModel)
    requires
        in_order(s),
        0 <= p <= s.len(),
        p > 0 ==> !earlier(x, s[p - 1]),
        forall|k: int| p <= k < s.len() ==> earlier(x, #[trigger] s[k]),
    ensures
        in_order(s.insert(p, x)),
{
    let after = s.insert(p, x);
    assert forall|k: int, l: int| 0 <= k < l < after.len() implies !earlier(
        #[trigger] after[l],
        #[trigger] after[k],
    ) by {
        if k == p {
            let y = s[l - 1];
            lemma_precedes_total(x.accepted_at, x.event_id, y.accepted_at, y.event_id);
        } else if l == p && k < p - 1 {
            // x is not before s[p - 1], which is not before s[k]
            let y = s[p - 1];
            let z = s[k];
            lemma_precedes_total(x.accepted_at, x.event_id, y.accepted_at, y.event_id);
            if earlier(x, z) && earlier(y, x) {
                lemma_precedes_transitive(
                    y.accepted_at,
                    y.event_id,
                    x.accepted_at,
                    x.event_id,
                    z.accepted_at,
                    z.event_id,
                );
            }
        }
    }
}

/// Put activity records in order of time: by acceptance, then by event identifier. Records
/// of one moment stay in the order in which they stood.
pub fn sort_activity(entries: Vec<ActivityEntry>) -> (result: Vec<ActivityEntry>)
    ensures
        sorts_to(entries_model(entries@), entries_model(result@)),
{
    let ghost all = entries_model(entries@);
    let mut sorted: Vec<ActivityEntry> = Vec::new();
    assert(all.take(0) =~= entries_model(sorted@));
    for entry in it: entries
        invariant
            it.seq() == entries@,
            all == entries_model(entries@),
            sorts_to(all.take(it.index() as int), entries_model(sorted@)),
    {
        let ghost n = it.index() as int;
        let ghost model = entries_model(sorted@);
        let mut p: usize = sorted.len();
        while p > 0 && is_preceding(
            &entry.accepted_at,
            entry.event_id.as_str(),
            &sorted[p - 1].accepted_at,
            sorted[p - 1].event_id.as_str(),
        )
            invariant
                p <= sorted@.len(),
                model == entries_model(sorted@),
                forall|k: int| p <= k < model.len() ==> earlier(entry@, #[trigger] model[k]),
            decreases p,
        {
            assert(model[p - 1] == sorted@[p - 1]@);
            p = p - 1;
        }
        proof {
            let x = entry@;
            if p > 0 {
                assert(model[p - 1] == sorted@[p - 1]@);
            }
            lemma_insert_in_order(model, p as int, x);
            assert(all.take(n + 1) =~= all.take(n).push(x));
            assert forall|at: Timestamp, event_id: Seq<char>|
                all.take(n + 1).filter(#[trigger] of_moment(at, event_id)) == model.insert(
                    p as int,
                    x,
                ).filter(of_moment(at, event_id)) by {
                let wanted = of_moment(at, event_id);
                assert forall|k: int| wanted(x) && p <= k < model.len() implies !wanted(
                    #[trigger] model[k],
                ) by {
                    let y = model[k];
                    lemma_precedes_total(x.accepted_at, x.event_id, y.accepted_at, y.event_id);
                }
                lemma_filter_insert(model, p as int, x, wanted);
                lemma_filter_push(model, x, wanted);
                lemma_filter_push(all.take(n), x, wanted);
            }
        }
        sorted.insert(p, entry);
        assert(entries_model(sorted@) =~= model.insert(p as int, entry@));
    }
    assert(all.take(all.len() as int) =~= all);
    sorted
}

/// A record is among those of its own moment, in whatever list it stands.
proof fn lemma_member_is_picked(s: Seq<EntryModel>, k: int)
    requires
        0 <= k < s.len(),
    ensures
        s.filter(of_moment(s[k].accepted_at, s[k].event_id)).contains(s[k]),
    decreases s.len(),
{
    let x = s[k];
    let wanted = of_moment(x.accepted_at, x.event_id);
    let front = s.drop_last();
    assert(s =~= front.push(s.last()));
    lemma_filter_push(front, s.last(), wanted);
    if k == s.len() - 1 {
        assert(s.filter(wanted).last() == x);
    } else {
        lemma_member_is_picked(front, k);
        let i = choose|i: int|
            0 <= i < front.filter(wanted).len() && front.filter(wanted)[i] == x;
        assert(s.filter(wanted)[i] == x);
    }
}

/// What is picked from a list stands in it and is wanted.
proof fn lemma_picked_is_member(
    s: Seq<EntryModel>,
    wanted: spec_fn(EntryModel) -> bool,
    x: EntryModel,
)
    requires
        s.filter(wanted).contains(x),
    ensures
        s.contains(x),
        wanted(x),
    decreases s.len(),
{
    reveal(Seq::filter);
    if s.len() > 0 {
        let front = s.drop_last();
        assert(s =~= front.push(s.last()));
        lemma_filter_push(front, s.last(), wanted);
        let i = choose|i: int| 0 <= i < s.filter(wanted).len() && s.filter(wanted)[i] == x;
        if wanted(s.last()) && i == s.filter(wanted).len() - 1 {
            assert(s[s.len() - 1] == x);
        } else {
            assert(front.filter(wanted)[i] == x);
            lemma_picked_is_member(front, wanted, x);
            let k = choose|k: int| 0 <= k < front.len() && front[k] == x;
            assert(s[k] == x);
        }
    }
}

/// Lists with the same records of each moment have the same members.
proof fn lemma_same_moments_same_members(a: Seq<EntryModel>, b: Seq<EntryModel>, k: int)
    requires
        same_moments(a, b),
        0 <= k < a.len(),
    ensures
        b.contains(a[k]),
{
    let wanted = of_moment(a[k].accepted_at, a[k].event_id);
    lemma_member_is_picked(a, k);
    assert(a.filter(wanted) == b.filter(wanted));
    lemma_picked_is_member(b, wanted, a[k]);
}

/// In a list in order no member belongs behind the last one.
proof fn lemma_last_is_latest(s: Seq<EntryModel>, x: EntryModel)
    requires
        in_order(s),
        s.contains(x),
    ensures
        !earlier(s.last(), x),
{
    let k = choose|k: int| 0 <= k < s.len() && s[k] == x;
    if k < s.len() - 1 {
        assert(!earlier(s[s.len() - 1], s[k]));
    } else {
        lemma_precedes_total(x.accepted_at, x.event_id, x.accepted_at, x.event_id);
    }
}

proof fn lemma_order_is_unique(a: Seq<EntryModel>, b: Seq<EntryModel>)
    requires
        in_order(a),
        in_order(b),
        same_moments(a, b),
    ensures
        a == b,
    decreases a.len(),
{
    if a.len() == 0 {
        if b.len() > 0 {
            lemma_same_moments_same_members(b, a, 0);
        }
    } else {
        lemma_same_moments_same_members(a, b, a.len() - 1);
        let x = a.last();
        let y = b.last();
        lemma_same_moments_same_members(b, a, b.len() - 1);
        lemma_last_is_latest(a, y);
        lemma_last_is_latest(b, x);
        lemma_precedes_total(x.accepted_at, x.event_id, y.accepted_at, y.event_id);
        let (c, d) = (a.drop_last(), b.drop_last());
        assert(a =~= c.push(x));
        assert(b =~= d.push(y));
        let wanted = of_moment(x.accepted_at, x.event_id);
        lemma_filter_push(c, x, wanted);
        lemma_filter_push(d, y, wanted);
        assert(a.filter(wanted).last() == x);
        assert(b.filter(wanted).last() == y);
        assert forall|at: Timestamp, event_id: Seq<char>|
            c.filter(#[trigger] of_moment(at, event_id)) == d.filter(of_moment(at, event_id)) by {
            let picked = of_moment(at, event_id);
            lemma_filter_push(c, x, picked);
            lemma_filter_push(d, y, picked);
            assert(a.filter(picked) == b.filter(picked));
            if picked(x) {
                assert(c.filter(picked) =~= a.filter(picked).drop_last());
                assert(d.filter(picked) =~= b.filter(picked).drop_last());
            }
        }
        lemma_order_is_unique(c, d);
    }
}

/// The order of a history is decided by the history alone: there is one way to sort it.
pub proof fn law_sorting_is_deterministic(
    before: Seq<EntryModel>,
    left: Seq<EntryModel>,
    right: Seq<EntryModel>,
)
    requires
        sorts_to(before, left),
        sorts_to(before, right),
    ensures
        left == right,
{
    assert forall|at: Timestamp, event_id: Seq<char>|
        left.filter(#[trigger] of_moment(at, event_id)) == right.filter(
            of_moment(at, event_id),
        ) by {
        assert(before.filter(of_moment(at, event_id)) == left.filter(of_moment(at, event_id)));
    }
    lemma_order_is_unique(left, right);
}

/// A history that is in order stays as it is.
pub proof fn law_sorting_keeps_what_is_in_order(before: Seq<EntryModel>, after: Seq<EntryModel>)
    requires
        in_order(before),
        sorts_to(before, after),
    ensures
        after == before,
{
    lemma_order_is_unique(before, after);
}

/// How often a record stands in a list is how often it stands among those of its moment.
proof fn lemma_count_in_moment(s: Seq<EntryModel>, x: EntryModel)
    ensures
        s.to_multiset().count(x) == s.filter(
            of_moment(x.accepted_at, x.event_id),
        ).to_multiset().count(x),
    decreases s.len(),
{
    broadcast use vstd::seq_lib::group_to_multiset_ensures;

    let wanted = of_moment(x.accepted_at, x.event_id);
    if s.len() == 0 {
        lemma_filter_nothing(s, wanted);
        assert(s =~= Seq::<EntryModel>::empty());
    } else {
        let front = s.drop_last();
        assert(s =~= front.push(s.last()));
        lemma_count_in_moment(front, x);
        lemma_filter_push(front, s.last(), wanted);
    }
}

/// Sorting a history loses nothing, adds nothing and repeats nothing.
pub proof fn law_sorting_keeps_every_record(before: Seq<EntryModel>, after: Seq<EntryModel>)
    requires
        sorts_to(before, after),
    ensures
        after.to_multiset() == before.to_multiset(),
        after.len() == before.len(),
{
    broadcast use vstd::seq_lib::group_to_multiset_ensures;

    assert forall|x: EntryModel|
        before.to_multiset().count(x) == #[trigger] after.to_multiset().count(x) by {
        lemma_count_in_moment(before, x);
        lemma_count_in_moment(after, x);
        assert(before.filter(of_moment(x.accepted_at, x.event_id)) == after.filter(
            of_moment(x.accepted_at, x.event_id),
        ));
    }
    assert(after.to_multiset() =~= before.to_multiset());
    assert(after.to_multiset().len() == after.len());
    assert(before.to_multiset().len() == before.len());
}

/// Whether records of one moment are the same record.
pub open spec fn moments_identify_entries(entries: Seq<EntryModel>) -> bool {
    forall|k: int, l: int|
        0 <= k < entries.len() && 0 <= l < entries.len() && (#[trigger] entries[k]).accepted_at == (
        #[trigger] entries[l]).accepted_at && entries[k].event_id == entries[l].event_id
            ==> entries[k] == entries[l]
}

/// A list of nothing but `x` holds it as often as it is long.
proof fn lemma_count_of_copies(s: Seq<EntryModel>, x: EntryModel)
    requires
        forall|k: int| 0 <= k < s.len() ==> #[trigger] s[k] == x,
    ensures
        s.to_multiset().count(x) == s.len(),
    decreases s.len(),
{
    broadcast use vstd::seq_lib::group_to_multiset_ensures;

    if s.len() > 0 {
        let front = s.drop_last();
        assert forall|k: int| 0 <= k < front.len() implies #[trigger] front[k] == x by {
            assert(front[k] == s[k]);
        }
        lemma_count_of_copies(front, x);
        assert(s =~= front.push(x));
    }
}

/// Where moments identify records, rearranging a list changes nothing within a moment.
proof fn lemma_permutation_keeps_moments(a: Seq<EntryModel>, b: Seq<EntryModel>)
    requires
        a.to_multiset() == b.to_multiset(),
        moments_identify_entries(a),
    ensures
        same_moments(a, b),
{
    broadcast use vstd::seq_lib::group_to_multiset_ensures;

    assert forall|at: Timestamp, event_id: Seq<char>|
        a.filter(#[trigger] of_moment(at, event_id)) == b.filter(of_moment(at, event_id)) by {
        let wanted = of_moment(at, event_id);
        let (c, d) = (a.filter(wanted), b.filter(wanted));
        if c.len() + d.len() > 0 {
            let x = if c.len() > 0 {
                c[0]
            } else {
                d[0]
            };
            assert(c.contains(x) || d.contains(x)) by {
                if c.len() > 0 {
                    assert(c[0] == x);
                } else {
                    assert(d[0] == x);
                }
            }
            if c.contains(x) {
                lemma_picked_is_member(a, wanted, x);
            } else {
                lemma_picked_is_member(b, wanted, x);
            }
            assert(a.contains(x)) by {
                assert(a.to_multiset().count(x) > 0);
            }
            assert forall|k: int| 0 <= k < c.len() implies #[trigger] c[k] == x by {
                assert(c.contains(c[k]));
                lemma_picked_is_member(a, wanted, c[k]);
            }
            assert forall|k: int| 0 <= k < d.len() implies #[trigger] d[k] == x by {
                assert(d.contains(d[k]));
                lemma_picked_is_member(b, wanted, d[k]);
                assert(b.to_multiset().count(d[k]) > 0);
                assert(a.contains(d[k]));
            }
            lemma_count_of_copies(c, x);
            lemma_count_of_copies(d, x);
            lemma_count_in_moment(a, x);
            lemma_count_in_moment(b, x);
            assert(wanted =~= of_moment(x.accepted_at, x.event_id));
            assert(c =~= d);
        } else {
            assert(c =~= d);
        }
    }
}

/// A history comes out the same in whatever order its records were read, where records of
/// one moment are the same record.
pub proof fn law_sorting_is_permutation_independent(
    a: Seq<EntryModel>,
    b: Seq<EntryModel>,
    left: Seq<EntryModel>,
    right: Seq<EntryModel>,
)
    requires
        a.to_multiset() == b.to_multiset(),
        moments_identify_entries(a),
        sorts_to(a, left),
        sorts_to(b, right),
    ensures
        left == right,
{
    lemma_permutation_keeps_moments(a, b);
    assert forall|at: Timestamp, event_id: Seq<char>|
        left.filter(#[trigger] of_moment(at, event_id)) == right.filter(
            of_moment(at, event_id),
        ) by {
        assert(a.filter(of_moment(at, event_id)) == b.filter(of_moment(at, event_id)));
    }
    lemma_order_is_unique(left, right);
}

} // verus!
