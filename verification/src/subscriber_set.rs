//! A registry mapping emitter keys to ordered collections of callbacks.
//!
//! Each registered callback gets a fresh, never-reused subscriber id, so the
//! ids under one emitter key are strictly ascending and define the firing
//! order. Firing is done either by [`SubscriberSet::remove`] (detach every
//! callback and hand them to the caller) or by a retain pass
//! ([`SubscriberSet::retain`] / [`SubscriberSet::reconcile`]): the key's
//! entries are checked out of the table, the caller invokes them one by one
//! while the table stays free for re-entrant inserts and unsubscriptions,
//! and the survivors are then merged back with whatever happened meanwhile.
//!
//! The registry itself is a plain value: sharing it lives with the
//! embedder, which typically keeps it reference-counted behind a lock. The
//! checkout protocol is what makes that safe — no step of a retain pass
//! needs the table while a callback runs, so the lock is never held across
//! caller code, and whatever the callbacks did meanwhile is reconciled
//! afterwards without losing or duplicating a registration.

use vstd::prelude::*;

verus! {

/// One registered callback under an emitter key.
struct Entry<C> {
    id: u64,
    callback: C,
}

/// All callbacks registered under one emitter key.
struct EmitterEntry<C> {
    key: u64,
    entries: Vec<Entry<C>>,
}

/// The mathematical state of a [`SubscriberSet`]:
/// the table of live callbacks, the set of unsubscriptions deferred while a
/// retain pass had an entry checked out, and the next fresh subscriber id.
pub struct RegistryModel<C> {
    /// Emitter key -> the (id, callback) pairs registered under it,
    /// in ascending id order. A key is present iff it has a live callback.
    pub table: Map<u64, Seq<(u64, C)>>,
    /// (key, id) pairs whose unsubscription arrived while the key's entry
    /// was checked out for a retain pass; applied when that pass reconciles.
    pub dropped: Set<(u64, u64)>,
    /// The id the next `insert` will hand out.
    pub next_id: u64,
}

/// The (id, callback) pairs held by a sequence of entries, in storage order.
spec fn inner_view<C>(entries: Seq<Entry<C>>) -> Seq<(u64, C)> {
    entries.map(|_i: int, e: Entry<C>| (e.id, e.callback))
}

/// The table represented by an association sequence of emitter entries.
spec fn table_of<C>(s: Seq<EmitterEntry<C>>) -> Map<u64, Seq<(u64, C)>>
    decreases s.len(),
{
    if s.len() == 0 {
        Map::empty()
    } else {
        table_of(s.drop_last()).insert(s.last().key, inner_view(s.last().entries@))
    }
}

/// The set of pairs held by a sequence of pairs.
spec fn pair_set(s: Seq<(u64, u64)>) -> Set<(u64, u64)>
    decreases s.len(),
{
    if s.len() == 0 {
        Set::empty()
    } else {
        pair_set(s.drop_last()).insert(s.last())
    }
}

/// Whether some entry of `s` carries the emitter key `k`.
spec fn has_key<C>(s: Seq<EmitterEntry<C>>, k: u64) -> bool {
    exists|i: int| 0 <= i < s.len() && (#[trigger] s[i]).key == k
}

/// The outer keys of `s` are pairwise distinct.
spec fn distinct_keys<C>(s: Seq<EmitterEntry<C>>) -> bool {
    forall|i: int, j: int|
        0 <= i < j < s.len() ==> (#[trigger] s[i]).key != (#[trigger] s[j]).key
}

/// The domain of the denoted table is exactly the keys occurring in `s`.
proof fn lemma_table_of_dom<C>(s: Seq<EmitterEntry<C>>)
    ensures
        forall|k: u64| #[trigger] table_of(s).dom().contains(k) <==> has_key(s, k),
    decreases s.len(),
{
    if s.len() > 0 {
        let dl = s.drop_last();
        lemma_table_of_dom(dl);
        assert(table_of(s) == table_of(dl).insert(s.last().key, inner_view(s.last().entries@)));
        assert forall|k: u64| has_key(s, k) implies #[trigger] table_of(s).dom().contains(k) by {
            let i = choose|i: int| 0 <= i < s.len() && (#[trigger] s[i]).key == k;
            if i < s.len() - 1 {
                assert(dl[i].key == k);
                assert(has_key(dl, k));
                assert(table_of(dl).dom().contains(k));
            } else {
                assert(k == s.last().key);
            }
        }
        assert forall|k: u64| #[trigger] table_of(s).dom().contains(k) implies has_key(s, k) by {
            if k == s.last().key {
                assert(s[s.len() - 1].key == k);
            } else {
                assert(table_of(dl).dom().contains(k));
                assert(has_key(dl, k));
                let i = choose|i: int| 0 <= i < dl.len() && (#[trigger] dl[i]).key == k;
                assert(s[i].key == k);
            }
        }
    }
}

/// With distinct keys, the table maps each occurring key to its entry.
proof fn lemma_table_of_get<C>(s: Seq<EmitterEntry<C>>, i: int)
    requires
        distinct_keys(s),
        0 <= i < s.len(),
    ensures
        table_of(s).dom().contains(s[i].key),
        table_of(s)[s[i].key] == inner_view(s[i].entries@),
    decreases s.len(),
{
    if i < s.len() - 1 {
        assert(s.drop_last()[i] == s[i]);
        lemma_table_of_get(s.drop_last(), i);
        assert(s[i].key != s.last().key);
    }
}

/// With distinct keys, removing the entry at `i` removes its key from the table.
proof fn lemma_table_of_remove<C>(s: Seq<EmitterEntry<C>>, i: int)
    requires
        distinct_keys(s),
        0 <= i < s.len(),
    ensures
        table_of(s.remove(i)) == table_of(s).remove(s[i].key),
    decreases s.len(),
{
    let k = s[i].key;
    if i == s.len() - 1 {
        assert(s.remove(i) =~= s.drop_last());
        lemma_table_of_dom(s.drop_last());
        assert(!has_key(s.drop_last(), k));
        assert(table_of(s.drop_last()) =~= table_of(s).remove(k));
    } else {
        assert(s.remove(i).last() == s.last());
        assert(s.remove(i).drop_last() =~= s.drop_last().remove(i));
        assert(distinct_keys(s.drop_last()));
        lemma_table_of_remove(s.drop_last(), i);
        assert(s.drop_last()[i] == s[i]);
        assert(table_of(s.remove(i)) == table_of(s.drop_last()).remove(k).insert(
            s.last().key,
            inner_view(s.last().entries@),
        ));
        assert(k != s.last().key);
        assert(table_of(s.drop_last()).remove(k).insert(s.last().key, inner_view(s.last().entries@))
            =~= table_of(s.drop_last()).insert(s.last().key, inner_view(s.last().entries@)).remove(
            k,
        ));
    }
}

/// Appending an entry at the end sets its key in the table.
proof fn lemma_table_of_push<C>(s: Seq<EmitterEntry<C>>, e: EmitterEntry<C>)
    ensures
        table_of(s.push(e)) == table_of(s).insert(e.key, inner_view(e.entries@)),
{
    assert(s.push(e).drop_last() =~= s);
    assert(s.push(e).last() == e);
}

/// Membership in the denoted set is membership in the sequence.
proof fn lemma_pair_set_contains(s: Seq<(u64, u64)>)
    ensures
        forall|p: (u64, u64)| #[trigger] pair_set(s).contains(p) <==> s.contains(p),
    decreases s.len(),
{
    if s.len() > 0 {
        let dl = s.drop_last();
        lemma_pair_set_contains(dl);
        assert(pair_set(s) == pair_set(dl).insert(s.last()));
        assert forall|p: (u64, u64)| s.contains(p) implies #[trigger] pair_set(s).contains(p) by {
            let i = choose|i: int| 0 <= i < s.len() && s[i] == p;
            if i < s.len() - 1 {
                assert(dl[i] == p);
                assert(dl.contains(p));
                assert(pair_set(dl).contains(p));
            } else {
                assert(p == s.last());
            }
        }
        assert forall|p: (u64, u64)| #[trigger] pair_set(s).contains(p) implies s.contains(p) by {
            if p == s.last() {
                assert(s[s.len() - 1] == p);
            } else {
                assert(pair_set(dl).contains(p));
                assert(dl.contains(p));
                let i = choose|i: int| 0 <= i < dl.len() && dl[i] == p;
                assert(s[i] == p);
            }
        }
    }
}

/// Appending a pair at the end inserts it into the denoted set.
proof fn lemma_pair_set_push(s: Seq<(u64, u64)>, p: (u64, u64))
    ensures
        pair_set(s.push(p)) == pair_set(s).insert(p),
{
    assert(s.push(p).drop_last() =~= s);
    assert(s.push(p).last() == p);
}

/// The callbacks held by a sequence of entries, in storage order.
spec fn callbacks_view<C>(entries: Seq<Entry<C>>) -> Seq<C> {
    entries.map(|_i: int, e: Entry<C>| e.callback)
}

/// `s` is strictly ascending in its id component.
pub open spec fn ids_ascending<C>(s: Seq<(u64, C)>) -> bool {
    forall|i: int, j: int| 0 <= i < j < s.len() ==> s[i].0 < s[j].0
}

/// Whether `s` holds a pair with id component `id`.
pub open spec fn contains_id<C>(s: Seq<(u64, C)>, id: u64) -> bool {
    exists|i: int| 0 <= i < s.len() && (#[trigger] s[i]).0 == id
}

/// `s` with every pair whose id component is `id` left out, order kept.
pub open spec fn without_id<C>(s: Seq<(u64, C)>, id: u64) -> Seq<(u64, C)>
    decreases s.len(),
{
    if s.len() == 0 {
        s
    } else if s.last().0 == id {
        without_id(s.drop_last(), id)
    } else {
        without_id(s.drop_last(), id).push(s.last())
    }
}

/// Removing an absent id changes nothing.
proof fn lemma_without_id_absent<C>(s: Seq<(u64, C)>, id: u64)
    requires
        !contains_id(s, id),
    ensures
        without_id(s, id) == s,
    decreases s.len(),
{
    if s.len() > 0 {
        assert(forall|i: int|
            0 <= i < s.drop_last().len() ==> (#[trigger] s.drop_last()[i]).0 == s[i].0);
        lemma_without_id_absent(s.drop_last(), id);
        assert(s[s.len() - 1].0 != id);
        assert(without_id(s, id) =~= s);
    }
}

/// On a strictly ascending sequence, removing an id removes exactly the one
/// pair that carries it.
proof fn lemma_without_id_remove<C>(s: Seq<(u64, C)>, j: int)
    requires
        ids_ascending(s),
        0 <= j < s.len(),
    ensures
        without_id(s, s[j].0) == s.remove(j),
    decreases s.len(),
{
    let id = s[j].0;
    if j == s.len() - 1 {
        assert(!contains_id(s.drop_last(), id)) by {
            assert(forall|i: int|
                0 <= i < s.drop_last().len() ==> (#[trigger] s.drop_last()[i]).0 == s[i].0);
        }
        lemma_without_id_absent(s.drop_last(), id);
        assert(s.remove(j) =~= s.drop_last());
    } else {
        assert(s.drop_last()[j] == s[j]);
        assert(ids_ascending(s.drop_last())) by {
            assert(forall|i: int|
                0 <= i < s.drop_last().len() ==> (#[trigger] s.drop_last()[i]).0 == s[i].0);
        }
        lemma_without_id_remove(s.drop_last(), j);
        assert(s.last().0 != id);
        assert(s.remove(j).drop_last() =~= s.drop_last().remove(j));
        assert(s.remove(j).last() == s.last());
        assert(without_id(s, id) == s.drop_last().remove(j).push(s.last()));
        assert(s.drop_last().remove(j).push(s.last()) =~= s.remove(j));
    }
}

/// Every id in `s` is below `bound`.
pub open spec fn ids_below<C>(s: Seq<(u64, C)>, bound: u64) -> bool {
    forall|i: int| 0 <= i < s.len() ==> s[i].0 < bound
}

/// Every id in `s` is at or above `bound`.
pub open spec fn ids_at_least<C>(s: Seq<(u64, C)>, bound: u64) -> bool {
    forall|i: int| 0 <= i < s.len() ==> (#[trigger] s[i]).0 >= bound
}

impl<C> RegistryModel<C> {
    /// Validity of a registry state: no empty inner sequence is kept, ids
    /// under a key ascend strictly (they were handed out in order and never
    /// reused), and no recorded id is ahead of the id counter.
    pub open spec fn wf(self) -> bool {
        &&& forall|k: u64|
            self.table.dom().contains(k) ==> {
                &&& (#[trigger] self.table[k]).len() > 0
                &&& ids_ascending(self.table[k])
                &&& ids_below(self.table[k], self.next_id)
            }
        &&& forall|p: (u64, u64)| #[trigger] self.dropped.contains(p) ==> p.1 < self.next_id
    }

    /// The callbacks registered under `k`, in firing order.
    pub open spec fn callbacks_of(self, k: u64) -> Seq<C> {
        if self.table.dom().contains(k) {
            self.table[k].map(|_i: int, p: (u64, C)| p.1)
        } else {
            Seq::empty()
        }
    }

    /// The (id, callback) pairs registered under `k`; empty when `k` is absent.
    pub open spec fn entries_of(self, k: u64) -> Seq<(u64, C)> {
        if self.table.dom().contains(k) {
            self.table[k]
        } else {
            Seq::empty()
        }
    }

    /// The state after registering `callback` under `k`: the callback is
    /// appended under `k` with the fresh id `self.next_id`, and the id
    /// counter advances. Nothing else changes.
    pub open spec fn insert_effect(self, k: u64, callback: C) -> RegistryModel<C> {
        RegistryModel {
            table: self.table.insert(k, self.entries_of(k).push((self.next_id, callback))),
            dropped: self.dropped,
            next_id: (self.next_id + 1) as u64,
        }
    }

    /// The state after detaching the whole entry for `k`: the key is gone,
    /// everything else is untouched.
    pub open spec fn remove_effect(self, k: u64) -> RegistryModel<C> {
        RegistryModel { table: self.table.remove(k), dropped: self.dropped, next_id: self.next_id }
    }

    /// The state after the unsubscription `(k, id)` lands. If the
    /// registration is live in the table it is removed (and the key pruned
    /// when nothing is left under it). Otherwise — the key is absent or the
    /// id is not under it, which happens exactly while a retain pass has the
    /// entry checked out — the pair is recorded as deferred, to be applied
    /// when that pass reconciles.
    pub open spec fn unsubscribe_effect(self, k: u64, id: u64) -> RegistryModel<C> {
        if self.table.dom().contains(k) && contains_id(self.table[k], id) {
            let inner = without_id(self.table[k], id);
            RegistryModel {
                table: if inner.len() == 0 {
                    self.table.remove(k)
                } else {
                    self.table.insert(k, inner)
                },
                dropped: self.dropped,
                next_id: self.next_id,
            }
        } else {
            RegistryModel {
                table: self.table,
                dropped: self.dropped.insert((k, id)),
                next_id: self.next_id,
            }
        }
    }

    /// The state after a retain pass on `k` merges back in. `kept` are the
    /// checked-out pairs the pass decided to keep; whatever is under `k` now
    /// was inserted re-entrantly during the pass and is appended after them.
    /// Unsubscriptions deferred for `k` during the pass are then authoritative:
    /// their ids are deleted from the merged entries (ids are never reused, so
    /// a deferred id is unambiguous), and those deferred pairs are consumed.
    /// Deferred pairs of other keys are left for their own passes. The key
    /// stays absent when nothing survives.
    pub open spec fn reconcile_effect(self, k: u64, kept: Seq<(u64, C)>) -> RegistryModel<C> {
        let merged = kept + self.entries_of(k);
        let survivors = drop_deferred(merged, k, self.dropped);
        RegistryModel {
            table: if survivors.len() == 0 {
                self.table.remove(k)
            } else {
                self.table.insert(k, survivors)
            },
            dropped: self.dropped.difference(Set::new(|p: (u64, u64)| p.0 == k)),
            next_id: self.next_id,
        }
    }
}

/// The mathematical state of a [`RetainPass`]: the checked-out pairs not yet
/// offered to the caller, the id of the pair currently offered (handed out
/// and awaiting its keep-or-discard decision), the pairs already kept, and
/// the registry's id counter at checkout time (every checked-out id is below
/// it, every id inserted during the pass is at or above it).
pub struct RetainPassModel<C> {
    /// The emitter key whose entry this pass checked out.
    pub emitter: u64,
    /// Checked-out pairs not yet offered, in ascending id order.
    pub pending: Seq<(u64, C)>,
    /// The id of the callback currently handed out for invocation, if any.
    pub offered: Option<u64>,
    /// The pairs already decided to keep, in ascending id order.
    pub kept: Seq<(u64, C)>,
    /// The registry's `next_id` when the pass checked its entry out.
    pub id_bound: u64,
}

impl<C> RetainPassModel<C> {
    /// Validity of a pass: ids ascend strictly across kept, offered and
    /// pending, and all of them predate the checkout.
    pub open spec fn wf(self) -> bool {
        &&& ids_ascending(self.kept)
        &&& ids_ascending(self.pending)
        &&& ids_below(self.kept, self.id_bound)
        &&& ids_below(self.pending, self.id_bound)
        &&& match self.offered {
            Some(id) => {
                &&& id < self.id_bound
                &&& forall|i: int| 0 <= i < self.kept.len() ==> (#[trigger] self.kept[i]).0 < id
                &&& forall|i: int| 0 <= i < self.pending.len() ==> id < (#[trigger] self.pending[i]).0
            },
            None => forall|i: int, j: int|
                0 <= i < self.kept.len() && 0 <= j < self.pending.len() ==> (
                #[trigger] self.kept[i]).0 < (#[trigger] self.pending[j]).0,
        }
    }
}

/// One in-progress retain pass over an emitter key: the key's entries,
/// checked out of the table by [`SubscriberSet::retain`] so that callbacks
/// can be invoked with the table unlocked. The caller draws each callback
/// with [`RetainPass::next_callback`], invokes it, and hands it back with
/// [`RetainPass::decide`], saying whether it stays registered; the stable
/// order of the survivors is kept here. [`SubscriberSet::reconcile`] then
/// merges the result back into the table.
pub struct RetainPass<C> {
    emitter: u64,
    pending: Vec<Entry<C>>,
    offered: Option<u64>,
    kept: Vec<Entry<C>>,
    id_bound: Ghost<u64>,
}

impl<C> View for RetainPass<C> {
    type V = RetainPassModel<C>;

    closed spec fn view(&self) -> RetainPassModel<C> {
        RetainPassModel {
            emitter: self.emitter,
            pending: inner_view(self.pending@),
            offered: self.offered,
            kept: inner_view(self.kept@),
            id_bound: self.id_bound@,
        }
    }
}

impl<C> RetainPass<C> {
    /// The emitter key this pass checked out.
    pub fn emitter_key(&self) -> (k: u64)
        ensures
            k == self@.emitter,
    {
        self.emitter
    }

    /// Whether a callback is still waiting to be offered.
    pub fn has_pending(&self) -> (r: bool)
        ensures
            r == (self@.pending.len() > 0),
    {
        self.pending.len() > 0
    }

    /// Hand out the next checked-out callback for invocation, in
    /// registration order. Ownership moves to the caller, who must give the
    /// callback back — possibly mutated — through [`RetainPass::decide`]
    /// before drawing another; each checked-out callback is offered exactly
    /// once. Returns `None` when the pass has offered them all.
    pub fn next_callback(&mut self) -> (r: Option<C>)
        requires
            old(self)@.wf(),
            old(self)@.offered is None,
        ensures
            final(self)@.wf(),
            final(self)@.emitter == old(self)@.emitter,
            final(self)@.kept == old(self)@.kept,
            final(self)@.id_bound == old(self)@.id_bound,
            match r {
                Some(callback) => {
                    &&& old(self)@.pending.len() > 0
                    &&& callback == old(self)@.pending[0].1
                    &&& final(self)@.offered == Some(old(self)@.pending[0].0)
                    &&& final(self)@.pending == old(self)@.pending.drop_first()
                },
                None => {
                    &&& old(self)@.pending.len() == 0
                    &&& *final(self) == *old(self)
                },
            },
    {
        if self.pending.len() == 0 {
            return None;
        }
        let ghost p0 = inner_view(old(self).pending@);
        let entry = self.pending.remove(0);
        self.offered = Some(entry.id);
        proof {
            assert(inner_view(self.pending@) =~= p0.drop_first());
            assert(p0[0].0 == entry.id);
            let m1 = self@;
            assert forall|i: int| 0 <= i < m1.kept.len() implies (#[trigger] m1.kept[i]).0
                < entry.id by {
                assert(inner_view(old(self).kept@)[i].0 < p0[0].0);
            }
            assert forall|i: int| 0 <= i < m1.pending.len() implies entry.id < (
            #[trigger] m1.pending[i]).0 by {
                assert(p0[0].0 < p0[i + 1].0);
            }
        }
        Some(entry.callback)
    }

    /// Give the offered callback back and decide its fate: with `keep` it
    /// stays registered, in its original position relative to the other
    /// kept callbacks; without it, it is discarded. The pass is then ready
    /// to offer the next callback.
    pub fn decide(&mut self, callback: C, keep: bool)
        requires
            old(self)@.wf(),
            old(self)@.offered is Some,
        ensures
            final(self)@.wf(),
            final(self)@.emitter == old(self)@.emitter,
            final(self)@.pending == old(self)@.pending,
            final(self)@.id_bound == old(self)@.id_bound,
            final(self)@.offered is None,
            final(self)@.kept == if keep {
                old(self)@.kept.push((old(self)@.offered->Some_0, callback))
            } else {
                old(self)@.kept
            },
    {
        let id = self.offered.unwrap();
        self.offered = None;
        if keep {
            let ghost cb = callback;
            self.kept.push(Entry { id, callback });
            proof {
                assert(inner_view(self.kept@) =~= inner_view(old(self).kept@).push((id, cb)));
            }
        }
    }
}

/// `s` with every pair deferred-dropped under `k` left out, order kept.
pub open spec fn drop_deferred<C>(s: Seq<(u64, C)>, k: u64, dropped: Set<(u64, u64)>) -> Seq<
    (u64, C),
>
    decreases s.len(),
{
    if s.len() == 0 {
        s
    } else {
        let rest = drop_deferred(s.drop_last(), k, dropped);
        if dropped.contains((k, s.last().0)) {
            rest
        } else {
            rest.push(s.last())
        }
    }
}

/// Dropping deferred pairs keeps every id below a bound that the input obeyed.
proof fn lemma_drop_deferred_below<C>(
    s: Seq<(u64, C)>,
    k: u64,
    dropped: Set<(u64, u64)>,
    bound: u64,
)
    requires
        ids_below(s, bound),
    ensures
        ids_below(drop_deferred(s, k, dropped), bound),
    decreases s.len(),
{
    if s.len() > 0 {
        assert(forall|i: int|
            0 <= i < s.drop_last().len() ==> (#[trigger] s.drop_last()[i]).0 == s[i].0);
        lemma_drop_deferred_below(s.drop_last(), k, dropped, bound);
    }
}

/// Dropping deferred pairs keeps the remaining ids strictly ascending.
proof fn lemma_drop_deferred_ascending<C>(s: Seq<(u64, C)>, k: u64, dropped: Set<(u64, u64)>)
    requires
        ids_ascending(s),
    ensures
        ids_ascending(drop_deferred(s, k, dropped)),
    decreases s.len(),
{
    if s.len() > 0 {
        assert(forall|i: int|
            0 <= i < s.drop_last().len() ==> (#[trigger] s.drop_last()[i]).0 == s[i].0);
        lemma_drop_deferred_ascending(s.drop_last(), k, dropped);
        lemma_drop_deferred_below(s.drop_last(), k, dropped, s.last().0);
    }
}

/// A pair survives `drop_deferred` iff it was there and is not deferred.
proof fn lemma_drop_deferred_contains<C>(s: Seq<(u64, C)>, k: u64, dropped: Set<(u64, u64)>)
    ensures
        forall|id: u64|
            contains_id(drop_deferred(s, k, dropped), id) <==> contains_id(s, id)
                && !dropped.contains((k, id)),
    decreases s.len(),
{
    if s.len() > 0 {
        let dl = s.drop_last();
        let rest = drop_deferred(dl, k, dropped);
        let out = drop_deferred(s, k, dropped);
        lemma_drop_deferred_contains(dl, k, dropped);
        assert(forall|i: int| 0 <= i < dl.len() ==> #[trigger] dl[i] == s[i]);
        if dropped.contains((k, s.last().0)) {
            assert(out == rest);
            assert forall|id: u64|
                contains_id(out, id) implies contains_id(s, id) && !dropped.contains((k, id)) by {
                assert(contains_id(dl, id));
                let j = choose|j: int| 0 <= j < dl.len() && (#[trigger] dl[j]).0 == id;
                assert(s[j].0 == id);
            }
            assert forall|id: u64|
                contains_id(s, id) && !dropped.contains((k, id)) implies contains_id(out, id) by {
                let i = choose|i: int| 0 <= i < s.len() && (#[trigger] s[i]).0 == id;
                assert(i < s.len() - 1);
                assert(dl[i].0 == id);
                assert(contains_id(dl, id));
            }
        } else {
            assert(out == rest.push(s.last()));
            assert forall|id: u64|
                contains_id(out, id) implies contains_id(s, id) && !dropped.contains((k, id)) by {
                let i = choose|i: int| 0 <= i < out.len() && (#[trigger] out[i]).0 == id;
                if i < out.len() - 1 {
                    assert(out[i] == rest[i]);
                    assert(contains_id(rest, id));
                    assert(contains_id(dl, id));
                    let j = choose|j: int| 0 <= j < dl.len() && (#[trigger] dl[j]).0 == id;
                    assert(s[j].0 == id);
                } else {
                    assert(out[i] == s.last());
                    assert(s[s.len() - 1].0 == id);
                }
            }
            assert forall|id: u64|
                contains_id(s, id) && !dropped.contains((k, id)) implies contains_id(out, id) by {
                let i = choose|i: int| 0 <= i < s.len() && (#[trigger] s[i]).0 == id;
                if i < s.len() - 1 {
                    assert(dl[i].0 == id);
                    assert(contains_id(dl, id));
                    assert(contains_id(rest, id));
                    let j = choose|j: int| 0 <= j < rest.len() && (#[trigger] rest[j]).0 == id;
                    assert(out[j] == rest[j]);
                    assert(out[j].0 == id);
                } else {
                    assert(out[out.len() - 1] == s.last());
                    assert(out[out.len() - 1].0 == id);
                }
            }
        }
    }
}

/// `s` with every pair whose key component is `k` left out, order kept.
spec fn drop_key_pairs(s: Seq<(u64, u64)>, k: u64) -> Seq<(u64, u64)>
    decreases s.len(),
{
    if s.len() == 0 {
        s
    } else {
        let rest = drop_key_pairs(s.drop_last(), k);
        if s.last().0 == k {
            rest
        } else {
            rest.push(s.last())
        }
    }
}

/// Removing the pairs of one key denotes the set difference with that key's pairs.
proof fn lemma_drop_key_pairs_set(s: Seq<(u64, u64)>, k: u64)
    ensures
        pair_set(drop_key_pairs(s, k)) == pair_set(s).difference(
            Set::new(|p: (u64, u64)| p.0 == k),
        ),
    decreases s.len(),
{
    if s.len() == 0 {
        assert(pair_set(drop_key_pairs(s, k)) =~= pair_set(s).difference(
            Set::new(|p: (u64, u64)| p.0 == k),
        ));
    } else {
        let dl = s.drop_last();
        lemma_drop_key_pairs_set(dl, k);
        assert(pair_set(s) == pair_set(dl).insert(s.last()));
        if s.last().0 == k {
            assert(pair_set(drop_key_pairs(s, k)) =~= pair_set(s).difference(
                Set::new(|p: (u64, u64)| p.0 == k),
            ));
        } else {
            assert(drop_key_pairs(s, k) == drop_key_pairs(dl, k).push(s.last()));
            lemma_pair_set_push(drop_key_pairs(dl, k), s.last());
            assert(pair_set(drop_key_pairs(s, k)) =~= pair_set(s).difference(
                Set::new(|p: (u64, u64)| p.0 == k),
            ));
        }
    }
}

/// Removing the pairs of one key keeps every id below a bound the input obeyed.
proof fn lemma_drop_key_pairs_below(s: Seq<(u64, u64)>, k: u64, bound: u64)
    requires
        forall|i: int| 0 <= i < s.len() ==> (#[trigger] s[i]).1 < bound,
    ensures
        forall|i: int|
            0 <= i < drop_key_pairs(s, k).len() ==> (#[trigger] drop_key_pairs(s, k)[i]).1 < bound,
    decreases s.len(),
{
    if s.len() > 0 {
        let dl = s.drop_last();
        assert(forall|i: int| 0 <= i < dl.len() ==> #[trigger] dl[i] == s[i]);
        lemma_drop_key_pairs_below(dl, k, bound);
        assert(s[s.len() - 1].1 < bound);
        let out = drop_key_pairs(s, k);
        let rest = drop_key_pairs(dl, k);
        if s.last().0 != k {
            assert(out == rest.push(s.last()));
            assert forall|i: int| 0 <= i < out.len() implies (#[trigger] out[i]).1 < bound by {
                if i < out.len() - 1 {
                    assert(out[i] == rest[i]);
                } else {
                    assert(out[i] == s.last());
                }
            }
        }
    }
}

/// A deferred id never survives `drop_deferred`.
proof fn lemma_drop_deferred_drops_id<C>(
    s: Seq<(u64, C)>,
    k: u64,
    dropped: Set<(u64, u64)>,
    id: u64,
)
    requires
        dropped.contains((k, id)),
    ensures
        !contains_id(drop_deferred(s, k, dropped), id),
    decreases s.len(),
{
    if s.len() > 0 {
        let dl = s.drop_last();
        lemma_drop_deferred_drops_id(dl, k, dropped, id);
        let rest = drop_deferred(dl, k, dropped);
        let out = drop_deferred(s, k, dropped);
        if !dropped.contains((k, s.last().0)) {
            assert(out == rest.push(s.last()));
            assert(s.last().0 != id);
            assert forall|i: int| 0 <= i < out.len() implies (#[trigger] out[i]).0 != id by {
                if i < out.len() - 1 {
                    assert(out[i] == rest[i]);
                    if out[i].0 == id {
                        assert(contains_id(rest, id));
                        assert(false);
                    }
                } else {
                    assert(out[i] == s.last());
                }
            }
        }
    }
}

/// Dropping deferred pairs of a key that has none deferred changes nothing.
proof fn lemma_drop_deferred_none<C>(s: Seq<(u64, C)>, k: u64, dropped: Set<(u64, u64)>)
    requires
        forall|id: u64| !dropped.contains((k, id)),
    ensures
        drop_deferred(s, k, dropped) == s,
    decreases s.len(),
{
    if s.len() > 0 {
        lemma_drop_deferred_none(s.drop_last(), k, dropped);
        assert(!dropped.contains((k, s.last().0)));
        assert(drop_deferred(s, k, dropped) =~= s);
    }
}

/// The capability returned by [`SubscriberSet::insert`]: a single-use handle
/// that identifies one registration. Handing it back to
/// [`SubscriberSet::unsubscribe`] removes that registration; calling
/// [`Subscription::detach`] consumes the handle without removing anything,
/// making the registration permanent. Because both take the handle by value,
/// the removal can run at most once.
#[must_use]
pub struct Subscription {
    emitter_key: u64,
    subscriber_id: u64,
}

impl View for Subscription {
    type V = (u64, u64);

    closed spec fn view(&self) -> (u64, u64) {
        (self.emitter_key, self.subscriber_id)
    }
}

impl Subscription {
    /// The emitter key this subscription was registered under.
    pub fn emitter_key(&self) -> (k: u64)
        ensures
            k == self@.0,
    {
        self.emitter_key
    }

    /// The subscriber id of this registration.
    pub fn subscriber_id(&self) -> (id: u64)
        ensures
            id == self@.1,
    {
        self.subscriber_id
    }

    /// Consume the handle without unsubscribing: the registration becomes
    /// permanent (until a `remove` or a retain pass discards it). Since the
    /// handle is consumed, the removal it carried can never run.
    pub fn detach(self) {
    }
}

/// A table mapping emitter keys to ordered collections of callbacks, each
/// callback under a unique subscriber id.
///
/// An emitter key is a 64-bit identity supplied by the caller — an entity
/// handle, a window id, or any other integer naming an event source; the
/// registry has no opinion on its meaning. The callback type `C` is opaque
/// to the registry: it is stored, handed back for invocation, and removed,
/// nothing more.
pub struct SubscriberSet<C> {
    subscribers: Vec<EmitterEntry<C>>,
    dropped_subscribers: Vec<(u64, u64)>,
    next_subscriber_id: u64,
}

impl<C> View for SubscriberSet<C> {
    type V = RegistryModel<C>;

    closed spec fn view(&self) -> RegistryModel<C> {
        RegistryModel {
            table: table_of(self.subscribers@),
            dropped: pair_set(self.dropped_subscribers@),
            next_id: self.next_subscriber_id,
        }
    }
}

impl<C> SubscriberSet<C> {
    /// Concrete well-formedness: the outer keys are distinct (so the
    /// association sequence denotes its table unambiguously), no inner
    /// vector is empty, ids ascend within a key, and all ids are below the
    /// counter.
    closed spec fn wf_rep(self) -> bool {
        &&& forall|i: int, j: int|
            0 <= i < j < self.subscribers@.len()
                ==> (#[trigger] self.subscribers@[i]).key != (#[trigger] self.subscribers@[j]).key
        &&& forall|i: int|
            0 <= i < self.subscribers@.len() ==> {
                &&& (#[trigger] self.subscribers@[i]).entries@.len() > 0
                &&& ids_ascending(inner_view(self.subscribers@[i].entries@))
                &&& ids_below(inner_view(self.subscribers@[i].entries@), self.next_subscriber_id)
            }
        &&& forall|i: int|
            0 <= i < self.dropped_subscribers@.len()
                ==> (#[trigger] self.dropped_subscribers@[i]).1 < self.next_subscriber_id
    }

    /// The public validity predicate: every operation requires and preserves
    /// it, and `new` establishes it.
    pub closed spec fn wf(self) -> bool {
        self.wf_rep()
    }

    /// An empty registry: no subscribers, no deferred unsubscriptions, ids
    /// starting at zero.
    pub fn new() -> (s: Self)
        ensures
            s.wf(),
            s@.table == Map::<u64, Seq<(u64, C)>>::empty(),
            s@.dropped == Set::<(u64, u64)>::empty(),
            s@.next_id == 0,
    {
        SubscriberSet {
            subscribers: Vec::new(),
            dropped_subscribers: Vec::new(),
            next_subscriber_id: 0,
        }
    }

    /// The id the next `insert` will hand out. Ids count up from zero and
    /// are never reused.
    pub fn next_subscriber_id(&self) -> (id: u64)
        ensures
            id == self@.next_id,
    {
        self.next_subscriber_id
    }

    /// The position of `key`'s entry in the outer vector, if any.
    fn find_key(&self, key: u64) -> (r: Option<usize>)
        ensures
            match r {
                Some(i) => i < self.subscribers@.len() && self.subscribers@[i as int].key == key,
                None => !has_key(self.subscribers@, key),
            },
    {
        let n = self.subscribers.len();
        let mut i: usize = 0;
        while i < n
            invariant
                n == self.subscribers@.len(),
                i <= n,
                forall|j: int| 0 <= j < i ==> (#[trigger] self.subscribers@[j]).key != key,
            decreases n - i,
        {
            if self.subscribers[i].key == key {
                return Some(i);
            }
            i = i + 1;
        }
        None
    }

    /// Register `callback` under `emitter_key`: it is stored under a fresh,
    /// never-reused subscriber id, after every callback already registered
    /// for that key. Returns the handle that identifies (and can later
    /// remove) exactly this registration. Never fails; a previously absent
    /// key gets a new table entry.
    pub fn insert(&mut self, emitter_key: u64, callback: C) -> (subscription: Subscription)
        requires
            old(self).wf(),
            old(self)@.next_id < u64::MAX,
        ensures
            final(self).wf(),
            final(self)@ == old(self)@.insert_effect(emitter_key, callback),
            subscription@ == (emitter_key, old(self)@.next_id),
    {
        proof {
            lemma_table_of_dom(self.subscribers@);
        }
        let subscriber_id = self.next_subscriber_id;
        self.next_subscriber_id = subscriber_id + 1;
        let ghost cb = callback;
        match self.find_key(emitter_key) {
            Some(i) => {
                proof {
                    lemma_table_of_get(self.subscribers@, i as int);
                    lemma_table_of_remove(self.subscribers@, i as int);
                }
                let ghost s0 = self.subscribers@;
                let mut entry = self.subscribers.remove(i);
                let ghost inner0 = entry.entries@;
                entry.entries.push(Entry { id: subscriber_id, callback });
                proof {
                    assert(inner_view(entry.entries@) =~= inner_view(inner0).push(
                        (subscriber_id, cb),
                    ));
                    lemma_table_of_push(self.subscribers@, entry);
                    assert(!has_key(s0.remove(i as int), emitter_key));
                    assert(table_of(s0.remove(i as int)).insert(
                        emitter_key,
                        inner_view(entry.entries@),
                    ) =~= table_of(s0).insert(emitter_key, inner_view(entry.entries@)));
                }
                self.subscribers.push(entry);
                Subscription { emitter_key, subscriber_id }
            },
            None => {
                let mut entries: Vec<Entry<C>> = Vec::new();
                entries.push(Entry { id: subscriber_id, callback });
                let entry = EmitterEntry { key: emitter_key, entries };
                proof {
                    assert(inner_view(entry.entries@) =~= Seq::<(u64, C)>::empty().push(
                        (subscriber_id, cb),
                    ));
                    lemma_table_of_push(self.subscribers@, entry);
                }
                self.subscribers.push(entry);
                Subscription { emitter_key, subscriber_id }
            },
        }
    }

    /// Atomically detach the entire entry for `emitter` and hand every
    /// stored callback to the caller, in registration (ascending id) order,
    /// for invocation. Afterwards no callback exists for the key until one
    /// is re-registered. An absent key yields an empty vector; this never
    /// fails.
    pub fn remove(&mut self, emitter: u64) -> (callbacks: Vec<C>)
        requires
            old(self).wf(),
        ensures
            final(self).wf(),
            final(self)@ == old(self)@.remove_effect(emitter),
            callbacks@ == old(self)@.callbacks_of(emitter),
    {
        proof {
            lemma_table_of_dom(self.subscribers@);
        }
        match self.find_key(emitter) {
            Some(i) => {
                proof {
                    lemma_table_of_get(self.subscribers@, i as int);
                    lemma_table_of_remove(self.subscribers@, i as int);
                }
                let entry = self.subscribers.remove(i);
                let mut entries = entry.entries;
                let ghost orig = entries@;
                let mut callbacks: Vec<C> = Vec::new();
                while entries.len() > 0
                    invariant
                        callbacks@.len() + entries@.len() == orig.len(),
                        entries@ == orig.skip(callbacks@.len() as int),
                        callbacks@ == callbacks_view(orig.take(callbacks@.len() as int)),
                    decreases entries@.len(),
                {
                    let ghost done = callbacks@.len() as int;
                    let e = entries.remove(0);
                    callbacks.push(e.callback);
                    proof {
                        assert(orig.take(done + 1) =~= orig.take(done).push(orig[done]));
                        assert(callbacks_view(orig.take(done + 1)) =~= callbacks_view(
                            orig.take(done),
                        ).push(orig[done].callback));
                        assert(entries@ =~= orig.skip(done + 1));
                    }
                }
                proof {
                    assert(orig.take(orig.len() as int) =~= orig);
                    assert(callbacks_view(orig) =~= inner_view(orig).map(
                        |_i: int, p: (u64, C)| p.1,
                    ));
                }
                callbacks
            },
            None => {
                proof {
                    assert(self@.table.remove(emitter) =~= self@.table);
                }
                Vec::new()
            },
        }
    }

    /// Deliver the unsubscription carried by `subscription` (this is what
    /// dropping a live subscription handle means): if the registration is
    /// still in the table it is removed, and its key pruned when nothing is
    /// left under it; if it is not — its entry is checked out by a retain
    /// pass — the pair is recorded as deferred and applied when that pass
    /// reconciles. Consuming the handle by value makes the removal
    /// single-shot.
    pub fn unsubscribe(&mut self, subscription: Subscription)
        requires
            old(self).wf(),
            subscription@.1 < old(self)@.next_id,
        ensures
            final(self).wf(),
            final(self)@ == old(self)@.unsubscribe_effect(subscription@.0, subscription@.1),
    {
        proof {
            lemma_table_of_dom(self.subscribers@);
        }
        let Subscription { emitter_key, subscriber_id } = subscription;
        match self.find_key(emitter_key) {
            Some(i) => {
                proof {
                    lemma_table_of_get(self.subscribers@, i as int);
                    lemma_table_of_remove(self.subscribers@, i as int);
                }
                let ghost s0 = self.subscribers@;
                let mut entry = self.subscribers.remove(i);
                let ghost inner0 = entry.entries@;
                match Self::find_id(&entry.entries, subscriber_id) {
                    Some(j) => {
                        proof {
                            lemma_without_id_remove(inner_view(inner0), j as int);
                            assert(inner_view(inner0.remove(j as int)) =~= inner_view(
                                inner0,
                            ).remove(j as int));
                        }
                        entry.entries.remove(j);
                        if entry.entries.len() > 0 {
                            proof {
                                lemma_table_of_push(self.subscribers@, entry);
                                assert(table_of(s0).remove(emitter_key).insert(
                                    emitter_key,
                                    inner_view(entry.entries@),
                                ) =~= table_of(s0).insert(emitter_key, inner_view(entry.entries@)));
                            }
                            self.subscribers.push(entry);
                        }
                    },
                    None => {
                        proof {
                            lemma_table_of_push(self.subscribers@, entry);
                            assert(table_of(s0).remove(emitter_key).insert(
                                emitter_key,
                                inner_view(entry.entries@),
                            ) =~= table_of(s0));
                            lemma_pair_set_push(
                                self.dropped_subscribers@,
                                (emitter_key, subscriber_id),
                            );
                        }
                        self.subscribers.push(entry);
                        self.dropped_subscribers.push((emitter_key, subscriber_id));
                    },
                }
            },
            None => {
                proof {
                    lemma_pair_set_push(self.dropped_subscribers@, (emitter_key, subscriber_id));
                }
                self.dropped_subscribers.push((emitter_key, subscriber_id));
            },
        }
    }

    /// The position of the entry with `id` in `entries`, if any.
    fn find_id(entries: &Vec<Entry<C>>, id: u64) -> (r: Option<usize>)
        ensures
            match r {
                Some(j) => j < entries@.len() && entries@[j as int].id == id,
                None => !contains_id(inner_view(entries@), id),
            },
    {
        let n = entries.len();
        let mut j: usize = 0;
        while j < n
            invariant
                n == entries@.len(),
                j <= n,
                forall|i: int| 0 <= i < j ==> (#[trigger] entries@[i]).id != id,
            decreases n - j,
        {
            if entries[j].id == id {
                return Some(j);
            }
            j = j + 1;
        }
        proof {
            assert forall|i: int| 0 <= i < inner_view(entries@).len() implies (#[trigger] inner_view(
                entries@,
            )[i]).0 != id by {
                assert(entries@[i].id != id);
            }
        }
        None
    }

    /// Whether the unsubscription `(k, id)` is recorded as deferred.
    fn dropped_contains(&self, k: u64, id: u64) -> (r: bool)
        ensures
            r == self@.dropped.contains((k, id)),
    {
        let n = self.dropped_subscribers.len();
        let mut i: usize = 0;
        while i < n
            invariant
                n == self.dropped_subscribers@.len(),
                i <= n,
                forall|j: int| 0 <= j < i ==> #[trigger] self.dropped_subscribers@[j] != (k, id),
            decreases n - i,
        {
            let p = self.dropped_subscribers[i];
            if p.0 == k && p.1 == id {
                proof {
                    lemma_pair_set_contains(self.dropped_subscribers@);
                    assert(self.dropped_subscribers@[i as int] == (k, id));
                    assert(self.dropped_subscribers@.contains((k, id)));
                    assert(pair_set(self.dropped_subscribers@).contains((k, id)));
                }
                return true;
            }
            i = i + 1;
        }
        proof {
            lemma_pair_set_contains(self.dropped_subscribers@);
            assert(!self.dropped_subscribers@.contains((k, id)));
            assert(!pair_set(self.dropped_subscribers@).contains((k, id)));
        }
        false
    }

    /// Begin the re-entrancy-safe "fire and keep the live ones" path:
    /// atomically check the whole entry for `emitter` out of the table and
    /// return it as a [`RetainPass`]. While the pass runs, the table is free:
    /// an `insert` for the same key lands in a fresh entry (registered for
    /// future passes, never offered by this one), and an `unsubscribe` whose
    /// registration is checked out is deferred. [`SubscriberSet::reconcile`]
    /// merges everything back. Returns `None`, leaving the registry
    /// untouched, when the key has no subscribers — there is nothing to fire.
    pub fn retain(&mut self, emitter: u64) -> (pass: Option<RetainPass<C>>)
        requires
            old(self).wf(),
        ensures
            final(self).wf(),
            match pass {
                Some(p) => {
                    &&& old(self)@.table.dom().contains(emitter)
                    &&& final(self)@ == old(self)@.remove_effect(emitter)
                    &&& p@.wf()
                    &&& p@.emitter == emitter
                    &&& p@.pending == old(self)@.table[emitter]
                    &&& p@.offered is None
                    &&& p@.kept == Seq::<(u64, C)>::empty()
                    &&& p@.id_bound == old(self)@.next_id
                },
                None => {
                    &&& !old(self)@.table.dom().contains(emitter)
                    &&& *final(self) == *old(self)
                },
            },
    {
        proof {
            lemma_table_of_dom(self.subscribers@);
        }
        match self.find_key(emitter) {
            Some(i) => {
                proof {
                    lemma_table_of_get(self.subscribers@, i as int);
                    lemma_table_of_remove(self.subscribers@, i as int);
                }
                let entry = self.subscribers.remove(i);
                Some(
                    RetainPass {
                        emitter,
                        pending: entry.entries,
                        offered: None,
                        kept: Vec::new(),
                        id_bound: Ghost(self.next_subscriber_id),
                    },
                )
            },
            None => None,
        }
    }

    /// Merge a finished retain pass back into the table: the kept entries
    /// come first, in their original order; entries inserted for the key
    /// during the pass follow (their ids are younger); ids whose
    /// unsubscription was deferred during the pass are then removed, and the
    /// deferred records for this key consumed; the key is reinserted only if
    /// something survived. The pass must have offered every callback and
    /// received a decision for each, and belong to this registry's current
    /// window: nothing under its key predates its checkout.
    pub fn reconcile(&mut self, pass: RetainPass<C>)
        requires
            old(self).wf(),
            pass@.wf(),
            pass@.pending.len() == 0,
            pass@.offered is None,
            pass@.id_bound <= old(self)@.next_id,
            ids_at_least(old(self)@.entries_of(pass@.emitter), pass@.id_bound),
        ensures
            final(self).wf(),
            final(self)@ == old(self)@.reconcile_effect(pass@.emitter, pass@.kept),
    {
        proof {
            lemma_table_of_dom(self.subscribers@);
        }
        let RetainPass { emitter, pending: _, offered: _, kept, id_bound } = pass;
        let ghost m0 = self@;
        let mut merged = kept;
        match self.find_key(emitter) {
            Some(i) => {
                proof {
                    lemma_table_of_get(self.subscribers@, i as int);
                    lemma_table_of_remove(self.subscribers@, i as int);
                }
                let entry = self.subscribers.remove(i);
                let mut fresh = entry.entries;
                merged.append(&mut fresh);
            },
            None => {},
        }
        proof {
            let mk = pass@.kept;
            let mf = m0.entries_of(emitter);
            assert(ids_at_least(mf, pass@.id_bound));
            assert(inner_view(merged@) =~= mk + mf);
            assert(self@.table =~= m0.table.remove(emitter));
            assert forall|a: int, b: int| 0 <= a < b < (mk + mf).len() implies ((mk + mf)[a]).0 < ((
            mk + mf)[b]).0 by {
                if b < mk.len() {
                    assert(mk[a].0 < mk[b].0);
                } else if a >= mk.len() {
                    assert(mf[a - mk.len()].0 < mf[b - mk.len()].0);
                } else {
                    assert(mk[a].0 < pass@.id_bound);
                    assert(mf[b - mk.len()].0 >= pass@.id_bound);
                }
            }
            assert(ids_ascending(inner_view(merged@)));
            assert forall|a: int| 0 <= a < (mk + mf).len() implies ((mk + mf)[a]).0
                < self.next_subscriber_id by {
                if a < mk.len() {
                    assert(mk[a].0 < pass@.id_bound);
                } else {
                    assert(mf[a - mk.len()].0 < m0.next_id);
                }
            }
            assert(ids_below(inner_view(merged@), self.next_subscriber_id));
        }
        let ghost merged0 = inner_view(merged@);
        let survivors = self.filter_deferred(emitter, merged);
        self.consume_deferred_records(emitter);
        // Reinsert the survivors, or leave the key absent.
        if survivors.len() > 0 {
            proof {
                lemma_drop_deferred_ascending(merged0, emitter, m0.dropped);
                lemma_drop_deferred_below(merged0, emitter, m0.dropped, self.next_subscriber_id);
            }
            let entry = EmitterEntry { key: emitter, entries: survivors };
            let ghost s_before = self.subscribers@;
            proof {
                lemma_table_of_push(s_before, entry);
                lemma_table_of_dom(s_before);
                assert(!self@.table.dom().contains(emitter));
                assert(!has_key(s_before, emitter));
                assert(m0.table.remove(emitter).insert(emitter, inner_view(entry.entries@)) =~= m0
                    .table.insert(emitter, inner_view(entry.entries@)));
                assert(ids_ascending(inner_view(entry.entries@)));
                assert(ids_below(inner_view(entry.entries@), self.next_subscriber_id));
                assert(entry.entries@.len() > 0);
            }
            self.subscribers.push(entry);
            proof {
                let s1 = self.subscribers@;
                assert forall|a: int, b: int|
                    0 <= a < b < s1.len() implies (#[trigger] s1[a]).key != (
                #[trigger] s1[b]).key by {
                    if b == s1.len() - 1 {
                        assert(s1[a] == s_before[a]);
                        assert(s_before[a].key != emitter);
                    } else {
                        assert(s1[a] == s_before[a]);
                        assert(s1[b] == s_before[b]);
                    }
                }
            }
        }
        proof {
            let eff = m0.reconcile_effect(emitter, pass@.kept);
            assert(self@.dropped == eff.dropped);
            assert(self@.table == eff.table);
            assert(self@ == eff);
        }
    }

    /// Keep, in order, the entries of `merged` whose unsubscription under
    /// `emitter` is not recorded as deferred.
    fn filter_deferred(&self, emitter: u64, merged: Vec<Entry<C>>) -> (survivors: Vec<Entry<C>>)
        ensures
            inner_view(survivors@) == drop_deferred(inner_view(merged@), emitter, self@.dropped),
    {
        let ghost merged0 = inner_view(merged@);
        let mut merged = merged;
        let mut survivors: Vec<Entry<C>> = Vec::new();
        proof {
            assert(merged0.skip(0) =~= merged0);
            assert(merged0.take(0) =~= Seq::<(u64, C)>::empty());
            assert(inner_view(survivors@) =~= Seq::<(u64, C)>::empty());
        }
        while merged.len() > 0
            invariant
                inner_view(merged@).len() <= merged0.len(),
                inner_view(merged@) == merged0.skip(merged0.len() - inner_view(merged@).len()),
                inner_view(survivors@) == drop_deferred(
                    merged0.take(merged0.len() - inner_view(merged@).len()),
                    emitter,
                    self@.dropped,
                ),
            decreases merged@.len(),
        {
            let ghost done = merged0.len() - inner_view(merged@).len();
            let ghost mv0 = inner_view(merged@);
            let e = merged.remove(0);
            let is_deferred = self.dropped_contains(emitter, e.id);
            proof {
                assert(mv0[0] == merged0[done]);
                assert(merged0[done] == (e.id, e.callback));
                assert(inner_view(merged@) =~= mv0.drop_first());
                assert(mv0.drop_first() =~= merged0.skip(done + 1));
                assert(merged0.take(done + 1).drop_last() =~= merged0.take(done));
                assert(merged0.take(done + 1).last() == merged0[done]);
            }
            if !is_deferred {
                let ghost sv0 = inner_view(survivors@);
                survivors.push(e);
                proof {
                    assert(inner_view(survivors@) =~= sv0.push(merged0[done]));
                    assert(inner_view(survivors@) == drop_deferred(
                        merged0.take(done + 1),
                        emitter,
                        self@.dropped,
                    ));
                }
            } else {
                proof {
                    assert(inner_view(survivors@) == drop_deferred(
                        merged0.take(done + 1),
                        emitter,
                        self@.dropped,
                    ));
                }
            }
        }
        proof {
            assert(merged0.take(merged0.len() as int) =~= merged0);
        }
        survivors
    }

    /// Consume the deferred unsubscription records of `emitter`; records of
    /// other keys stay for the passes that own them. The table and the id
    /// counter are untouched.
    fn consume_deferred_records(&mut self, emitter: u64)
        requires
            old(self).wf(),
        ensures
            final(self).wf(),
            final(self)@.table == old(self)@.table,
            final(self)@.next_id == old(self)@.next_id,
            final(self)@.dropped == old(self)@.dropped.difference(
                Set::new(|p: (u64, u64)| p.0 == emitter),
            ),
    {
        let ghost d0 = self.dropped_subscribers@;
        let mut kept_dropped: Vec<(u64, u64)> = Vec::new();
        proof {
            assert(d0.take(0) =~= Seq::<(u64, u64)>::empty());
        }
        let n = self.dropped_subscribers.len();
        let mut i: usize = 0;
        while i < n
            invariant
                n == d0.len(),
                i <= n,
                self.dropped_subscribers@ == d0,
                kept_dropped@ == drop_key_pairs(d0.take(i as int), emitter),
            decreases n - i,
        {
            let p = self.dropped_subscribers[i];
            proof {
                assert(d0.take(i + 1).drop_last() =~= d0.take(i as int));
                assert(d0.take(i + 1).last() == d0[i as int]);
                assert(d0[i as int] == p);
            }
            if p.0 != emitter {
                kept_dropped.push(p);
            }
            i = i + 1;
        }
        proof {
            assert(d0.take(d0.len() as int) =~= d0);
            lemma_drop_key_pairs_set(d0, emitter);
            lemma_drop_key_pairs_below(d0, emitter, self.next_subscriber_id);
        }
        self.dropped_subscribers = kept_dropped;
    }
}


/// In every valid registry state — hence after any sequence of `insert`
/// calls, each of which appends under a fresh, larger id — the entries under
/// an emitter key ascend strictly in subscriber id. Since
/// [`SubscriberSet::remove`] returns the callbacks in exactly this stored
/// order, it hands them out in strictly ascending registration order.
pub proof fn lemma_remove_in_registration_order<C>(m: RegistryModel<C>, k: u64)
    requires
        m.wf(),
        m.table.dom().contains(k),
    ensures
        ids_ascending(m.table[k]),
        m.callbacks_of(k) == m.table[k].map(|_i: int, p: (u64, C)| p.1),
{
}

/// Delivering a live subscription's unsubscription removes exactly that one
/// registration: the key's entries shrink by one — precisely the pair with
/// that id — and every other key is untouched. A detached subscription, by
/// contrast, is consumed by [`Subscription::detach`] without ever reaching
/// [`SubscriberSet::unsubscribe`], so it removes nothing.
pub proof fn lemma_unsubscribe_removes_exactly_one<C>(m: RegistryModel<C>, k: u64, id: u64)
    requires
        m.wf(),
        m.table.dom().contains(k),
        contains_id(m.table[k], id),
    ensures
        m.unsubscribe_effect(k, id).entries_of(k) == without_id(m.table[k], id),
        m.unsubscribe_effect(k, id).entries_of(k).len() == m.table[k].len() - 1,
        !contains_id(m.unsubscribe_effect(k, id).entries_of(k), id),
        forall|k2: u64|
            k2 != k ==> #[trigger] m.unsubscribe_effect(k, id).entries_of(k2) == m.entries_of(k2),
        m.unsubscribe_effect(k, id).dropped == m.dropped,
{
    let s = m.table[k];
    let j = choose|j: int| 0 <= j < s.len() && (#[trigger] s[j]).0 == id;
    lemma_without_id_remove(s, j);
    let out = without_id(s, id);
    assert(out == s.remove(j));
    assert forall|i: int| 0 <= i < out.len() implies (#[trigger] out[i]).0 != id by {
        if i < j {
            assert(out[i] == s[i]);
        } else {
            assert(out[i] == s[i + 1]);
        }
    }
    if out.len() == 0 {
        assert(m.unsubscribe_effect(k, id).entries_of(k) =~= out);
    }
}

/// A retain pass that keeps every callback restores the registry exactly,
/// provided nothing happened re-entrantly: checking the key's entries out,
/// keeping each of them (each is offered exactly once, in order), and
/// reconciling yields the state the pass started from. In particular, after
/// inserting N callbacks and running such a pass, all N are still
/// registered.
pub proof fn lemma_retain_keep_all_restores<C>(m: RegistryModel<C>, k: u64)
    requires
        m.wf(),
        m.table.dom().contains(k),
        forall|id: u64| !m.dropped.contains((k, id)),
    ensures
        m.remove_effect(k).reconcile_effect(k, m.table[k]) == m,
{
    let m1 = m.remove_effect(k);
    let checked = m.table[k];
    assert(checked + m1.entries_of(k) =~= checked);
    lemma_drop_deferred_none(checked, k, m.dropped);
    let m2 = m1.reconcile_effect(k, checked);
    assert(m2.table =~= m.table);
    assert forall|p: (u64, u64)| m.dropped.contains(p) implies p.0 != k by {
        if p.0 == k {
            assert(p == (k, p.1));
            assert(!m.dropped.contains((k, p.1)));
        }
    }
    assert(m2.dropped =~= m.dropped);
}

/// While a key's entry is checked out by a retain pass, the key is absent
/// from the table, so an unsubscription for it is not lost: it is recorded
/// as deferred, with the table untouched.
pub proof fn lemma_unsubscribe_during_pass_defers<C>(m: RegistryModel<C>, k: u64, id: u64)
    requires
        !m.table.dom().contains(k),
    ensures
        m.unsubscribe_effect(k, id).table == m.table,
        m.unsubscribe_effect(k, id).dropped == m.dropped.insert((k, id)),
{
}

/// An unsubscription deferred during a retain pass is authoritative: once
/// the pass reconciles, no registration with that id remains under the key —
/// even if the pass itself decided to keep it, and whether or not it was
/// re-inserted meanwhile. Ids are never reused, so the deferred id cannot
/// name anything but the registration that was dropped.
pub proof fn lemma_deferred_drop_is_final<C>(m: RegistryModel<C>, k: u64, id: u64, kept: Seq<(u64, C)>)
    requires
        m.dropped.contains((k, id)),
    ensures
        !contains_id(m.reconcile_effect(k, kept).entries_of(k), id),
{
    let merged = kept + m.entries_of(k);
    lemma_drop_deferred_drops_id(merged, k, m.dropped, id);
    let survivors = drop_deferred(merged, k, m.dropped);
    let m2 = m.reconcile_effect(k, kept);
    if survivors.len() == 0 {
        assert(m2.entries_of(k) =~= Seq::<(u64, C)>::empty());
    } else {
        assert(m2.entries_of(k) == survivors);
    }
}

/// A callback inserted for a key while that key's entry is checked out is
/// registered for future passes: it survives reconciliation (unless its own
/// unsubscription was deferred meanwhile). It is never offered by the
/// running pass itself: see [`lemma_pass_offers_only_checked_out`].
pub proof fn lemma_reentrant_insert_registered<C>(
    m: RegistryModel<C>,
    k: u64,
    callback: C,
    kept: Seq<(u64, C)>,
)
    requires
        m.wf(),
        m.next_id < u64::MAX,
        !m.dropped.contains((k, m.next_id)),
    ensures
        contains_id(m.insert_effect(k, callback).reconcile_effect(k, kept).entries_of(k), m.next_id),
{
    let m1 = m.insert_effect(k, callback);
    let merged = kept + m1.entries_of(k);
    assert(merged[merged.len() - 1].0 == m.next_id);
    assert(contains_id(merged, m.next_id));
    lemma_drop_deferred_contains(merged, k, m1.dropped);
    let survivors = drop_deferred(merged, k, m1.dropped);
    assert(contains_id(survivors, m.next_id));
    let m2 = m1.reconcile_effect(k, kept);
    assert(survivors.len() > 0) by {
        let i = choose|i: int| 0 <= i < survivors.len() && (#[trigger] survivors[i]).0 == m.next_id;
    }
    assert(m2.entries_of(k) == survivors);
}

/// A retain pass only ever offers ids that it checked out, all of which
/// predate its checkout bound: a callback whose id was minted at or after
/// checkout — a re-entrant insert — is never offered (never invoked) by the
/// running pass.
pub proof fn lemma_pass_offers_only_checked_out<C>(p: RetainPassModel<C>, id: u64)
    requires
        p.wf(),
        id >= p.id_bound,
    ensures
        !contains_id(p.pending, id),
        match p.offered {
            Some(offered_id) => offered_id != id,
            None => true,
        },
{
}


/// Subscriber ids are never reused: the id that the next `insert` hands out
/// occurs nowhere in the table — under no key — and is not recorded as
/// deferred either, in any valid state. Once handed out, an id therefore
/// names exactly one registration, ever.
pub proof fn lemma_fresh_id_never_reused<C>(m: RegistryModel<C>)
    requires
        m.wf(),
    ensures
        forall|k: u64|
            m.table.dom().contains(k) ==> !contains_id(#[trigger] m.table[k], m.next_id),
        forall|k: u64| !(#[trigger] m.dropped.contains((k, m.next_id))),
{
    assert forall|k: u64| !(#[trigger] m.dropped.contains((k, m.next_id))) by {
        if m.dropped.contains((k, m.next_id)) {
            assert(((k, m.next_id)).1 < m.next_id);
        }
    }
    assert forall|k: u64| m.table.dom().contains(k) implies !contains_id(
        #[trigger] m.table[k],
        m.next_id,
    ) by {
        if contains_id(m.table[k], m.next_id) {
            let i = choose|i: int|
                0 <= i < m.table[k].len() && (#[trigger] m.table[k][i]).0 == m.next_id;
            assert(m.table[k][i].0 < m.next_id);
        }
    }
}

/// Within one retain pass a callback never fires twice: every id already
/// decided on (kept or not) is strictly below the id currently offered, and
/// ids are offered in strictly ascending order, so no id can come up again.
pub proof fn lemma_pass_never_offers_twice<C>(p: RetainPassModel<C>)
    requires
        p.wf(),
        p.offered is Some,
    ensures
        forall|i: int| 0 <= i < p.kept.len() ==> (#[trigger] p.kept[i]).0 < p.offered->Some_0,
        forall|i: int| 0 <= i < p.pending.len() ==> p.offered->Some_0 < (#[trigger] p.pending[i]).0,
{
}

} // verus!
