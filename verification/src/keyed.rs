//! An insertion-ordered map from integer keys to values.
//!
//! The state of the library's registries (discovered peers, outstanding
//! property-exchange requests, profile declarations, command tables, ...)
//! is kept in this one container. It holds each key at most once, keeps the
//! order in which keys were first inserted, and is specified as a `Map`
//! together with that order.
use vstd::prelude::*;

verus! {

/// Whether no key occurs twice among the entries.
pub open spec fn spec_keys_distinct<V>(e: Seq<(u64, V)>) -> bool {
    forall|i: int, j: int| 0 <= i < e.len() && 0 <= j < e.len() && i != j ==> e[i].0 != e[j].0
}

/// The map that a sequence of entries with distinct keys stands for.
pub open spec fn spec_entries_map<V>(e: Seq<(u64, V)>) -> Map<u64, V> {
    Map::new(
        |k: u64| exists|i: int| 0 <= i < e.len() && e[i].0 == k,
        |k: u64| e[choose|i: int| 0 <= i < e.len() && e[i].0 == k].1,
    )
}

/// An entry of a sequence with distinct keys is what the map holds for its key.
pub proof fn lemma_entries_lookup<V>(e: Seq<(u64, V)>, i: int)
    requires
        spec_keys_distinct(e),
        0 <= i < e.len(),
    ensures
        spec_entries_map(e).contains_key(e[i].0),
        spec_entries_map(e)[e[i].0] == e[i].1,
{
    let k = e[i].0;
    assert(exists|j: int| 0 <= j < e.len() && e[j].0 == k);
    let j = choose|j: int| 0 <= j < e.len() && e[j].0 == k;
    assert(i == j);
}

/// A key that no entry holds is not in the map.
pub proof fn lemma_entries_absent<V>(e: Seq<(u64, V)>, k: u64)
    requires forall|i: int| 0 <= i < e.len() ==> e[i].0 != k,
    ensures !spec_entries_map(e).contains_key(k),
{
}

/// For entries with distinct keys, the key order lists the map's keys, each
/// once, and the values follow it.
pub proof fn lemma_entries_order<V>(e: Seq<(u64, V)>)
    requires spec_keys_distinct(e),
    ensures
        e.map_values(|x: (u64, V)| x.0).no_duplicates(),
        e.map_values(|x: (u64, V)| x.0).to_set() == spec_entries_map(e).dom(),
        spec_entries_map(e).dom().len() == e.len(),
        forall|i: int| 0 <= i < e.len() ==> #[trigger] spec_entries_map(e)[e[i].0] == e[i].1,
{
    let ks = e.map_values(|x: (u64, V)| x.0);
    assert forall|i: int, j: int| 0 <= i < ks.len() && 0 <= j < ks.len() && i != j implies ks[i] != ks[j] by {}
    assert forall|k: u64| ks.to_set().contains(k) <==> spec_entries_map(e).dom().contains(k) by {
        if ks.to_set().contains(k) {
            let i = choose|i: int| 0 <= i < ks.len() && ks[i] == k;
            lemma_entries_lookup(e, i);
        }
        if spec_entries_map(e).dom().contains(k) {
            let i = choose|i: int| 0 <= i < e.len() && e[i].0 == k;
            assert(ks[i] == k);
        }
    }
    assert(ks.to_set() =~= spec_entries_map(e).dom());
    ks.unique_seq_to_set();
    assert forall|i: int| 0 <= i < e.len() implies #[trigger] spec_entries_map(e)[e[i].0] == e[i].1 by {
        lemma_entries_lookup(e, i);
    }
}

/// An insertion-ordered map with `u64` keys.
#[derive(Debug)]
pub struct KeyedList<V> {
    entries: Vec<(u64, V)>,
}

impl<V> View for KeyedList<V> {
    type V = Map<u64, V>;

    closed spec fn view(&self) -> Map<u64, V> {
        spec_entries_map(self.entries@)
    }
}

impl<V> KeyedList<V> {
    #[verifier::type_invariant]
    spec fn distinct(self) -> bool {
        spec_keys_distinct(self.entries@)
    }

    /// The keys in the order they were first inserted.
    pub closed spec fn key_order(self) -> Seq<u64> {
        self.entries@.map_values(|e: (u64, V)| e.0)
    }

    /// The values in key order.
    pub closed spec fn value_order(self) -> Seq<V> {
        self.entries@.map_values(|e: (u64, V)| e.1)
    }

    /// An empty map.
    pub fn new() -> (m: KeyedList<V>)
        ensures
            m@ == Map::<u64, V>::empty(),
            m.key_order() == Seq::<u64>::empty(),
            m.value_order() == Seq::<V>::empty(),
    {
        let m = KeyedList { entries: Vec::new() };
        assert(m@ =~= Map::<u64, V>::empty());
        assert(m.key_order() =~= Seq::<u64>::empty());
        assert(m.value_order() =~= Seq::<V>::empty());
        m
    }

    /// The number of keys.
    pub fn len(&self) -> (n: usize)
        ensures
            n == self@.dom().len(),
            n == self.key_order().len(),
            n == self.value_order().len(),
            self@.dom().finite(),
            self.key_order().no_duplicates(),
            self.key_order().to_set() == self@.dom(),
    {
        proof {
            use_type_invariant(self);
            lemma_entries_order(self.entries@);
            vstd::seq_lib::seq_to_set_is_finite(self.key_order());
        }
        self.entries.len()
    }

    /// Whether there are no keys.
    pub fn is_empty(&self) -> (b: bool)
        ensures b == (self@.dom().len() == 0),
    {
        self.len() == 0
    }

    /// Where a key sits in the key order, if present.
    pub fn position(&self, key: u64) -> (r: Option<usize>)
        ensures
            r is None <==> !self@.contains_key(key),
            r matches Some(i) ==> i < self.key_order().len() && self.key_order()[i as int] == key,
    {
        proof { use_type_invariant(self); }
        let mut i: usize = 0;
        while i < self.entries.len()
            invariant
                i <= self.entries@.len(),
                spec_keys_distinct(self.entries@),
                forall|j: int| 0 <= j < i ==> self.entries@[j].0 != key,
            decreases self.entries@.len() - i,
        {
            if self.entries[i].0 == key {
                proof { lemma_entries_lookup(self.entries@, i as int); }
                return Some(i);
            }
            i = i + 1;
        }
        proof { lemma_entries_absent(self.entries@, key); }
        None
    }

    /// Whether a key is present.
    pub fn contains_key(&self, key: u64) -> (b: bool)
        ensures b == self@.contains_key(key),
    {
        self.position(key).is_some()
    }

    /// The value stored for a key.
    pub fn get(&self, key: u64) -> (r: Option<&V>)
        ensures
            r is None <==> !self@.contains_key(key),
            r matches Some(v) ==> *v == self@[key],
    {
        match self.position(key) {
            Some(i) => {
                proof {
                    use_type_invariant(self);
                    lemma_entries_lookup(self.entries@, i as int);
                }
                Some(&self.entries[i].1)
            },
            None => None,
        }
    }

    /// The key and value at a place in the key order.
    pub fn entry_at(&self, i: usize) -> (r: (u64, &V))
        requires i < self.key_order().len(),
        ensures
            r.0 == self.key_order()[i as int],
            *r.1 == self.value_order()[i as int],
            *r.1 == self@[r.0],
    {
        proof {
            use_type_invariant(self);
            lemma_entries_lookup(self.entries@, i as int);
        }
        let e = &self.entries[i];
        (e.0, &e.1)
    }

    /// Store a value for a key, returning the value it replaces. A new key
    /// goes to the end of the key order; an existing key keeps its place.
    pub fn insert(&mut self, key: u64, value: V) -> (r: Option<V>)
        ensures
            final(self)@ == old(self)@.insert(key, value),
            old(self)@.contains_key(key) ==> (r matches Some(v) && v == old(self)@[key])
                && final(self).key_order() == old(self).key_order(),
            !old(self)@.contains_key(key) ==> r is None
                && final(self).key_order() == old(self).key_order().push(key),
    {
        proof { use_type_invariant(&*self); }
        match self.position(key) {
            Some(i) => {
                let ghost e0 = self.entries@;
                proof { lemma_entries_lookup(e0, i as int); }
                let mut entries = Vec::new();
                std::mem::swap(&mut entries, &mut self.entries);
                let (_, old_value) = entries.remove(i);
                entries.insert(i, (key, value));
                proof {
                    let e1 = entries@;
                    assert(e1 =~= e0.update(i as int, (key, value)));
                    assert(spec_keys_distinct(e1));
                    assert forall|k: u64| #[trigger] spec_entries_map(e1).contains_key(k) == old(self)@.insert(key, value).contains_key(k) by {
                        if spec_entries_map(e1).contains_key(k) {
                            let j = choose|j: int| 0 <= j < e1.len() && e1[j].0 == k;
                            if j != i { lemma_entries_lookup(e0, j); }
                        }
                        if old(self)@.contains_key(k) && k != key {
                            let j = choose|j: int| 0 <= j < e0.len() && e0[j].0 == k;
                            assert(e1[j].0 == k);
                        }
                        if k == key { assert(e1[i as int].0 == k); }
                    }
                    assert forall|k: u64| #[trigger] spec_entries_map(e1).contains_key(k) implies spec_entries_map(e1)[k] == old(self)@.insert(key, value)[k] by {
                        let j = choose|j: int| 0 <= j < e1.len() && e1[j].0 == k;
                        lemma_entries_lookup(e1, j);
                        if j != i { lemma_entries_lookup(e0, j); }
                    }
                    assert(spec_entries_map(e1) =~= old(self)@.insert(key, value));
                    assert(e1.map_values(|e: (u64, V)| e.0) =~= e0.map_values(|e: (u64, V)| e.0));
                }
                self.entries = entries;
                Some(old_value)
            },
            None => {
                let ghost e0 = self.entries@;
                let mut entries = Vec::new();
                std::mem::swap(&mut entries, &mut self.entries);
                entries.push((key, value));
                proof {
                    let e1 = entries@;
                    assert(spec_keys_distinct(e1));
                    assert forall|k: u64| #[trigger] spec_entries_map(e1).contains_key(k) == old(self)@.insert(key, value).contains_key(k) by {
                        if spec_entries_map(e1).contains_key(k) {
                            let j = choose|j: int| 0 <= j < e1.len() && e1[j].0 == k;
                            if j < e0.len() { lemma_entries_lookup(e0, j); }
                        }
                        if old(self)@.contains_key(k) {
                            let j = choose|j: int| 0 <= j < e0.len() && e0[j].0 == k;
                            assert(e1[j].0 == k);
                        }
                        if k == key { assert(e1[e0.len() as int].0 == k); }
                    }
                    assert forall|k: u64| #[trigger] spec_entries_map(e1).contains_key(k) implies spec_entries_map(e1)[k] == old(self)@.insert(key, value)[k] by {
                        let j = choose|j: int| 0 <= j < e1.len() && e1[j].0 == k;
                        lemma_entries_lookup(e1, j);
                        if j < e0.len() { lemma_entries_lookup(e0, j); }
                    }
                    assert(spec_entries_map(e1) =~= old(self)@.insert(key, value));
                    assert(e1.map_values(|e: (u64, V)| e.0) =~= e0.map_values(|e: (u64, V)| e.0).push(key));
                }
                self.entries = entries;
                None
            },
        }
    }

    /// Remove a key, returning its value. The other keys keep their order.
    pub fn remove(&mut self, key: u64) -> (r: Option<V>)
        ensures
            final(self)@ == old(self)@.remove(key),
            old(self)@.contains_key(key) ==> (r matches Some(v) && v == old(self)@[key]),
            !old(self)@.contains_key(key) ==> r is None && final(self).key_order() == old(self).key_order(),
            old(self)@.contains_key(key) ==> exists|i: int| 0 <= i < old(self).key_order().len()
                && old(self).key_order()[i] == key
                && final(self).key_order() == old(self).key_order().remove(i),
    {
        proof { use_type_invariant(&*self); }
        match self.position(key) {
            Some(i) => {
                let ghost e0 = self.entries@;
                proof { lemma_entries_lookup(e0, i as int); }
                let mut entries = Vec::new();
                std::mem::swap(&mut entries, &mut self.entries);
                let (_, old_value) = entries.remove(i);
                proof {
                    let e1 = entries@;
                    assert(e1 =~= e0.remove(i as int));
                    assert(spec_keys_distinct(e1)) by {
                        assert forall|a: int, b: int| 0 <= a < e1.len() && 0 <= b < e1.len() && a != b implies e1[a].0 != e1[b].0 by {
                            let a0 = if a < i { a } else { a + 1 };
                            let b0 = if b < i { b } else { b + 1 };
                            assert(e1[a] == e0[a0]);
                            assert(e1[b] == e0[b0]);
                        }
                    }
                    assert forall|k: u64| #[trigger] spec_entries_map(e1).contains_key(k) == old(self)@.remove(key).contains_key(k) by {
                        if spec_entries_map(e1).contains_key(k) {
                            let j = choose|j: int| 0 <= j < e1.len() && e1[j].0 == k;
                            let j0 = if j < i { j } else { j + 1 };
                            assert(e1[j] == e0[j0]);
                            lemma_entries_lookup(e0, j0);
                        }
                        if old(self)@.contains_key(k) && k != key {
                            let j = choose|j: int| 0 <= j < e0.len() && e0[j].0 == k;
                            assert(j != i);
                            let j1 = if j < i { j } else { j - 1 };
                            assert(e1[j1] == e0[j]);
                        }
                    }
                    assert forall|k: u64| #[trigger] spec_entries_map(e1).contains_key(k) implies spec_entries_map(e1)[k] == old(self)@.remove(key)[k] by {
                        let j = choose|j: int| 0 <= j < e1.len() && e1[j].0 == k;
                        lemma_entries_lookup(e1, j);
                        let j0 = if j < i { j } else { j + 1 };
                        assert(e1[j] == e0[j0]);
                        lemma_entries_lookup(e0, j0);
                    }
                    assert(spec_entries_map(e1) =~= old(self)@.remove(key));
                    assert(e1.map_values(|e: (u64, V)| e.0) =~= e0.map_values(|e: (u64, V)| e.0).remove(i as int));
                }
                self.entries = entries;
                Some(old_value)
            },
            None => {
                proof { assert(old(self)@.remove(key) =~= old(self)@); }
                None
            },
        }
    }

    /// The keys in insertion order.
    pub fn keys(&self) -> (ks: Vec<u64>)
        ensures
            ks@ == self.key_order(),
            ks@.no_duplicates(),
            ks@.to_set() == self@.dom(),
    {
        proof {
            use_type_invariant(self);
            lemma_entries_order(self.entries@);
        }
        let mut ks: Vec<u64> = Vec::new();
        let mut i: usize = 0;
        while i < self.entries.len()
            invariant
                i <= self.entries@.len(),
                ks@ == self.entries@.take(i as int).map_values(|e: (u64, V)| e.0),
            decreases self.entries@.len() - i,
        {
            ks.push(self.entries[i].0);
            assert(self.entries@.take(i as int + 1).map_values(|e: (u64, V)| e.0) =~= ks@);
            i = i + 1;
        }
        assert(self.entries@.take(i as int) =~= self.entries@);
        ks
    }
}

/// Insert a key into a strictly increasing list of keys.
pub fn insert_sorted(v: &mut Vec<u32>, x: u32)
    requires forall|i: int, j: int| 0 <= i < j < old(v)@.len() ==> old(v)@[i] < old(v)@[j],
    ensures
        forall|i: int, j: int| 0 <= i < j < final(v)@.len() ==> final(v)@[i] < final(v)@[j],
        final(v)@.to_set() == old(v)@.to_set().insert(x),
        old(v)@.contains(x) ==> final(v)@ == old(v)@,
        !old(v)@.contains(x) ==> final(v)@.len() == old(v)@.len() + 1,
{
    let mut j: usize = 0;
    while j < v.len() && v[j] < x
        invariant
            j <= v@.len(),
            forall|i: int| 0 <= i < j ==> v@[i] < x,
        decreases v@.len() - j,
    {
        j = j + 1;
    }
    if j < v.len() && v[j] == x {
        assert(old(v)@.to_set().insert(x) =~= old(v)@.to_set());
        return;
    }
    let ghost before = v@;
    assert(!before.contains(x)) by {
        if before.contains(x) {
            let k = choose|k: int| 0 <= k < before.len() && before[k] == x;
            if k >= j {
                assert(before[j as int] <= before[k]);
            }
        }
    }
    v.insert(j, x);
    assert(v@.to_set() =~= before.to_set().insert(x)) by {
        assert forall|y: u32| v@.to_set().contains(y) <==> before.to_set().insert(x).contains(y) by {
            if v@.to_set().contains(y) {
                let k = choose|k: int| 0 <= k < v@.len() && v@[k] == y;
                if k < j {
                    assert(before[k] == y);
                } else if k > j {
                    assert(before[k - 1] == y);
                }
            }
            if before.to_set().contains(y) {
                let k = choose|k: int| 0 <= k < before.len() && before[k] == y;
                if k < j {
                    assert(v@[k] == y);
                } else {
                    assert(v@[k + 1] == y);
                }
            }
            if y == x {
                assert(v@[j as int] == x);
            }
        }
    }
}

/// The keys of a list, converted to 32-bit keys, in increasing order.
pub fn sorted_keys<V>(list: &KeyedList<V>) -> (r: Vec<u32>)
    requires forall|k: u64| #[trigger] list@.contains_key(k) ==> k <= u32::MAX,
    ensures
        forall|i: int, j: int| 0 <= i < j < r@.len() ==> r@[i] < r@[j],
        r@.map_values(|k: u32| k as u64).to_set() == list@.dom(),
{
    let ks = list.keys();
    let mut out: Vec<u32> = Vec::new();
    let mut i: usize = 0;
    while i < ks.len()
        invariant
            ks@.to_set() == list@.dom(),
            forall|k: u64| #[trigger] list@.contains_key(k) ==> k <= u32::MAX,
            i <= ks@.len(),
            forall|a: int, b: int| 0 <= a < b < out@.len() ==> out@[a] < out@[b],
            out@.map_values(|k: u32| k as u64).to_set() == ks@.take(i as int).to_set(),
        decreases ks@.len() - i,
    {
        let k = ks[i];
        proof { assert(ks@.to_set().contains(k)); }
        let ghost before = out@;
        insert_sorted(&mut out, k as u32);
        proof {
            let t0 = ks@.take(i as int);
            let t1 = ks@.take(i as int + 1);
            let o1 = out@.map_values(|k: u32| k as u64);
            let o0 = before.map_values(|k: u32| k as u64);
            assert(t1 =~= t0.push(k));
            assert forall|y: u64| o1.to_set().contains(y) <==> t1.to_set().contains(y) by {
                if o1.to_set().contains(y) {
                    let a = choose|a: int| 0 <= a < o1.len() && o1[a] == y;
                    assert(out@.to_set().contains(out@[a]));
                    if out@[a] == k as u32 {
                        assert(t1[i as int] == k);
                    } else {
                        assert(before.to_set().contains(out@[a]));
                        let b = choose|b: int| 0 <= b < before.len() && before[b] == out@[a];
                        assert(o0[b] == y);
                        assert(t0.to_set().contains(y));
                        let c = choose|c: int| 0 <= c < t0.len() && t0[c] == y;
                        assert(t1[c] == y);
                    }
                }
                if t1.to_set().contains(y) {
                    let c = choose|c: int| 0 <= c < t1.len() && t1[c] == y;
                    if c == i {
                        assert(out@.to_set().contains(k as u32));
                        let a = choose|a: int| 0 <= a < out@.len() && out@[a] == k as u32;
                        assert(o1[a] == y);
                    } else {
                        assert(t0[c] == y);
                        assert(t0.to_set().contains(y));
                        let b = choose|b: int| 0 <= b < o0.len() && o0[b] == y;
                        assert(out@.to_set().contains(before[b]));
                        let a = choose|a: int| 0 <= a < out@.len() && out@[a] == before[b];
                        assert(o1[a] == y);
                    }
                }
            }
            assert(o1.to_set() =~= t1.to_set());
        }
        i = i + 1;
    }
    assert(ks@.take(i as int) =~= ks@);
    out
}

} // verus!
