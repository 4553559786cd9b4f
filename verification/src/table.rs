//! A small table of values keyed by subscription identifier, kept in a `Vec`
//! in insertion order. A hash map keyed by the identifier would need a model
//! of its hashing and equality that a struct over a `String` does not give;
//! the `Vec` lets every operation be proved over a `Map` of identifier texts.
use crate::destinations::SubscriptionId;
use vstd::prelude::*;

verus! {

/// The map that a sequence of entries stands for: each entry binds its key,
/// later entries overriding earlier ones.
pub open spec fn map_of<V>(entries: Seq<(SubscriptionId, V)>) -> Map<Seq<char>, V>
    decreases entries.len(),
{
    if entries.len() == 0 {
        Map::empty()
    } else {
        map_of(entries.drop_last()).insert(entries.last().0@, entries.last().1)
    }
}

/// Entries whose keys all differ from `k` leave the binding of `k` as it was.
proof fn lemma_map_of_suffix_without_key<V>(entries: Seq<(SubscriptionId, V)>, i: int, k: Seq<char>)
    requires
        0 <= i <= entries.len(),
        forall|j: int| i <= j < entries.len() ==> #[trigger] entries[j].0@ != k,
    ensures
        map_of(entries).contains_key(k) == map_of(entries.subrange(0, i)).contains_key(k),
        map_of(entries).contains_key(k) ==> map_of(entries)[k] == map_of(entries.subrange(0, i))[k],
    decreases entries.len() - i,
{
    if i == entries.len() {
        assert(entries.subrange(0, i) =~= entries);
    } else {
        lemma_map_of_suffix_without_key(entries.drop_last(), i, k);
        assert(entries.drop_last().subrange(0, i) =~= entries.subrange(0, i));
    }
}

/// A table of values keyed by subscription identifier.
pub struct Table<V> {
    entries: Vec<(SubscriptionId, V)>,
}

impl<V> View for Table<V> {
    type V = Map<Seq<char>, V>;

    closed spec fn view(&self) -> Map<Seq<char>, V> {
        map_of(self.entries@)
    }
}

/// No two entries share a key.
pub open spec fn distinct_keys<V>(entries: Seq<(SubscriptionId, V)>) -> bool {
    forall|i: int, j: int|
        0 <= i < j < entries.len() ==> #[trigger] entries[i].0@ != #[trigger] entries[j].0@
}

/// With distinct keys, each entry's value is what its key is bound to.
proof fn lemma_value_at<V>(entries: Seq<(SubscriptionId, V)>, i: int)
    requires
        distinct_keys(entries),
        0 <= i < entries.len(),
    ensures
        map_of(entries).contains_key(entries[i].0@),
        map_of(entries)[entries[i].0@] == entries[i].1,
{
    let k = entries[i].0@;
    assert forall|j: int| i + 1 <= j < entries.len() implies #[trigger] entries[j].0@ != k by {
        assert(entries[i].0@ != entries[j].0@);
    }
    lemma_map_of_suffix_without_key(entries, i + 1, k);
    assert(entries.subrange(0, i + 1).drop_last() =~= entries.subrange(0, i));
}

/// Every bound key has an entry.
proof fn lemma_dom_has_entry<V>(entries: Seq<(SubscriptionId, V)>, k: Seq<char>)
    requires
        map_of(entries).contains_key(k),
    ensures
        exists|i: int| 0 <= i < entries.len() && #[trigger] entries[i].0@ == k,
    decreases entries.len(),
{
    if entries.last().0@ == k {
        assert(entries[entries.len() - 1].0@ == k);
    } else {
        lemma_dom_has_entry(entries.drop_last(), k);
        let i = choose|i: int| 0 <= i < entries.drop_last().len() && #[trigger] entries.drop_last()[i].0@ == k;
        assert(entries[i].0@ == k);
    }
}

impl<V> Table<V> {
    /// No two entries share a key.
    pub closed spec fn wf(&self) -> bool {
        distinct_keys(self.entries@)
    }

    /// With distinct keys, the entry at `i` holds what its key is bound to,
    /// and every bound key is held by an entry.
    pub proof fn lemma_entries_agree(&self)
        requires
            self.wf(),
        ensures
            forall|i: int|
                0 <= i < self.spec_len() ==> self@.contains_key(#[trigger] self.spec_entry(i).0@)
                    && self@[self.spec_entry(i).0@] == self.spec_entry(i).1,
            forall|k: Seq<char>|
                self@.contains_key(k) ==> exists|i: int|
                    0 <= i < self.spec_len() && #[trigger] self.spec_entry(i).0@ == k,
            forall|i: int, j: int|
                0 <= i < j < self.spec_len() ==> #[trigger] self.spec_entry(i).0@ != #[trigger] self.spec_entry(j).0@,
    {
        assert forall|i: int| 0 <= i < self.spec_len() implies self@.contains_key(
            #[trigger] self.spec_entry(i).0@,
        ) && self@[self.spec_entry(i).0@] == self.spec_entry(i).1 by {
            lemma_value_at(self.entries@, i);
        }
        assert forall|k: Seq<char>| self@.contains_key(k) implies exists|i: int|
            0 <= i < self.spec_len() && #[trigger] self.spec_entry(i).0@ == k by {
            lemma_dom_has_entry(self.entries@, k);
            let i = choose|i: int| 0 <= i < self.entries@.len() && #[trigger] self.entries@[i].0@ == k;
            assert(self.spec_entry(i).0@ == k);
        }
    }

    /// The empty table.
    pub fn new() -> (t: Table<V>)
        ensures
            t@ == Map::<Seq<char>, V>::empty(),
            t.wf(),
    {
        let t = Table { entries: Vec::new() };
        assert(t.entries@.len() == 0);
        t
    }

    /// The number of entries.
    pub closed spec fn spec_len(&self) -> nat {
        self.entries@.len()
    }

    /// The key and value of the entry at position `i`.
    pub closed spec fn spec_entry(&self, i: int) -> (SubscriptionId, V) {
        self.entries@[i]
    }

    /// The number of entries.
    pub fn len(&self) -> (n: usize)
        ensures
            n == self.spec_len(),
    {
        self.entries.len()
    }

    /// The entry at position `i`.
    pub fn entry(&self, i: usize) -> (r: &(SubscriptionId, V))
        requires
            i < self.spec_len(),
        ensures
            *r == self.spec_entry(i as int),
    {
        &self.entries[i]
    }

    /// The value bound to `key`, if any.
    pub fn get(&self, key: &SubscriptionId) -> (r: Option<&V>)
        ensures
            r matches Some(v) ==> self@.contains_key(key@) && *v == self@[key@],
            r is None ==> !self@.contains_key(key@),
    {
        let mut i = self.entries.len();
        while i > 0
            invariant
                i <= self.entries@.len(),
                forall|j: int| i <= j < self.entries@.len() ==> #[trigger] self.entries@[j].0@ != key@,
            decreases i,
        {
            let entry = &self.entries[i - 1];
            if entry.0.same_as(key) {
                proof {
                    lemma_map_of_suffix_without_key(self.entries@, i as int, key@);
                    let pre = self.entries@.subrange(0, i as int);
                    assert(pre.drop_last() =~= self.entries@.subrange(0, i - 1));
                }
                return Some(&entry.1);
            }
            i = i - 1;
        }
        proof {
            lemma_map_of_suffix_without_key(self.entries@, 0, key@);
            assert(self.entries@.subrange(0, 0) =~= Seq::<(SubscriptionId, V)>::empty());
        }
        None
    }

    /// Removes the binding of `key`, returning its value, if any.
    pub fn remove(&mut self, key: &SubscriptionId) -> (r: Option<V>)
        requires
            old(self).wf(),
        ensures
            final(self).wf(),
            final(self)@ == old(self)@.remove(key@),
            r matches Some(v) ==> old(self)@.contains_key(key@) && v == old(self)@[key@],
            r is None ==> !old(self)@.contains_key(key@),
    {
        let ghost initial = self.entries@;
        let mut rest = Vec::new();
        std::mem::swap(&mut rest, &mut self.entries);
        let mut kept: Vec<(SubscriptionId, V)> = Vec::new();
        let mut removed: Option<V> = None;
        let ghost mut done: int = 0;
        while rest.len() > 0
            invariant
                0 <= done <= initial.len(),
                rest@ == initial.subrange(done, initial.len() as int),
                map_of(kept@) == map_of(initial.subrange(0, done)).remove(key@),
                distinct_keys(initial),
                distinct_keys(kept@),
                forall|a: int| #![trigger kept@[a]] 0 <= a < kept@.len() ==> exists|t: int| 0 <= t < done && #[trigger] initial[t] == kept@[a],
                removed matches Some(v) ==> map_of(initial.subrange(0, done)).contains_key(key@)
                    && v == map_of(initial.subrange(0, done))[key@],
                removed is None ==> !map_of(initial.subrange(0, done)).contains_key(key@),
            decreases rest.len(),
        {
            let entry = rest.remove(0);
            proof {
                assert(entry == initial[done]);
                assert(initial.subrange(0, done + 1).drop_last() =~= initial.subrange(0, done));
                assert(initial.subrange(0, done + 1).last() == entry);
            }
            if entry.0.same_as(key) {
                removed = Some(entry.1);
                proof {
                    assert(map_of(kept@) =~= map_of(initial.subrange(0, done + 1)).remove(key@));
                }
            } else {
                let ghost before = kept@;
                let ghost pushed = entry;
                kept.push(entry);
                proof {
                    assert(kept@.drop_last() =~= before);
                    assert forall|a: int, b: int| 0 <= a < b < kept@.len() implies #[trigger] kept@[a].0@ != #[trigger] kept@[b].0@ by {
                        if b == kept@.len() - 1 {
                            let t = choose|t: int| 0 <= t < done && #[trigger] initial[t] == before[a];
                            assert(initial[t].0@ != initial[done].0@);
                        } else {
                            assert(before[a].0@ != before[b].0@);
                        }
                    }
                    assert forall|a: int| #![trigger kept@[a]] 0 <= a < kept@.len() implies exists|t: int| 0 <= t < done + 1 && #[trigger] initial[t] == kept@[a] by {
                        if a == kept@.len() - 1 {
                            assert(initial[done] == kept@[a]);
                        } else {
                            let t = choose|t: int| 0 <= t < done && #[trigger] initial[t] == before[a];
                            assert(initial[t] == kept@[a]);
                        }
                    }
                    assert(map_of(kept@) =~= map_of(initial.subrange(0, done + 1)).remove(key@));
                }
            }
            proof {
                done = done + 1;
            }
        }
        proof {
            assert(initial.subrange(0, done) =~= initial);
        }
        self.entries = kept;
        removed
    }

    /// Binds `key` to `value`, replacing any earlier binding.
    pub fn insert(&mut self, key: SubscriptionId, value: V)
        requires
            old(self).wf(),
        ensures
            final(self).wf(),
            final(self)@ == old(self)@.insert(key@, value),
    {
        let _ = self.remove(&key);
        let ghost before = self.entries@;
        proof {
            assert forall|i: int| 0 <= i < before.len() implies #[trigger] before[i].0@ != key@ by {
                lemma_map_of_contains(before, i);
            }
        }
        self.entries.push((key, value));
        proof {
            assert(self.entries@.drop_last() =~= before);
            assert forall|a: int, b: int| 0 <= a < b < self.entries@.len() implies #[trigger] self.entries@[a].0@
                != #[trigger] self.entries@[b].0@ by {
                if b < before.len() {
                    assert(before[a].0@ != before[b].0@);
                }
            }
            assert(map_of(self.entries@) =~= old(self)@.insert(key@, value));
        }
    }
}

/// The keys bound by a sequence of entries are finitely many, at most one per entry.
proof fn lemma_map_of_dom_size<V>(entries: Seq<(SubscriptionId, V)>)
    ensures
        map_of(entries).dom().finite(),
        map_of(entries).dom().len() <= entries.len(),
    decreases entries.len(),
{
    if entries.len() > 0 {
        lemma_map_of_dom_size(entries.drop_last());
        let prior = map_of(entries.drop_last()).dom();
        assert(map_of(entries).dom() =~= prior.insert(entries.last().0@));
        vstd::set::axiom_set_insert_len(prior, entries.last().0@);
    }
}

impl<V> Table<V> {
    /// A table binds finitely many keys, at most as many as it has entries.
    pub proof fn lemma_dom_size(&self)
        ensures
            self@.dom().finite(),
            self@.dom().len() <= self.spec_len(),
    {
        lemma_map_of_dom_size(self.entries@);
    }
}

proof fn lemma_map_of_contains<V>(entries: Seq<(SubscriptionId, V)>, i: int)
    requires
        0 <= i < entries.len(),
    ensures
        map_of(entries).contains_key(entries[i].0@),
    decreases entries.len(),
{
    if i < entries.len() - 1 {
        lemma_map_of_contains(entries.drop_last(), i);
    }
}

} // verus!
