//! A storage map keyed by integers, kept in insertion order so that it can be walked
//! deterministically.
use vstd::prelude::*;

verus! {

/// No key occurs twice among the entries.
pub open spec fn keys_distinct<V>(s: Seq<(u64, V)>) -> bool {
    forall|i: int, j: int| 0 <= i < s.len() && 0 <= j < s.len() && i != j ==> s[i].0 != s[j].0
}

/// Some entry has key `k`.
pub open spec fn seq_has_key<V>(s: Seq<(u64, V)>, k: u64) -> bool {
    exists|i: int| 0 <= i < s.len() && s[i].0 == k
}

/// The position of an entry with key `k`.
pub open spec fn seq_index_of<V>(s: Seq<(u64, V)>, k: u64) -> int {
    choose|i: int| 0 <= i < s.len() && s[i].0 == k
}

/// The map that a sequence of entries with distinct keys stands for.
pub open spec fn seq_to_map<V>(s: Seq<(u64, V)>) -> Map<u64, V> {
    Map::new(|k: u64| seq_has_key(s, k), |k: u64| s[seq_index_of(s, k)].1)
}

/// The keys of the entries, in order.
pub open spec fn seq_keys<V>(s: Seq<(u64, V)>) -> Seq<u64> {
    s.map_values(|e: (u64, V)| e.0)
}

proof fn lemma_index_of<V>(s: Seq<(u64, V)>, i: int)
    requires
        keys_distinct(s),
        0 <= i < s.len(),
    ensures
        seq_has_key(s, s[i].0),
        seq_index_of(s, s[i].0) == i,
{
    assert(seq_has_key(s, s[i].0));
    let j = seq_index_of(s, s[i].0);
    assert(0 <= j < s.len() && s[j].0 == s[i].0);
}

proof fn lemma_push<V>(s: Seq<(u64, V)>, k: u64, v: V)
    requires
        keys_distinct(s),
        !seq_has_key(s, k),
    ensures
        keys_distinct(s.push((k, v))),
        seq_to_map(s.push((k, v))) == seq_to_map(s).insert(k, v),
{
    let t = s.push((k, v));
    assert forall|i: int, j: int| 0 <= i < t.len() && 0 <= j < t.len() && i != j implies t[i].0
        != t[j].0 by {
        if i < s.len() && j < s.len() {
            assert(t[i] == s[i] && t[j] == s[j]);
        } else if i < s.len() {
            assert(t[i] == s[i]);
        } else {
            assert(t[j] == s[j]);
        }
    }
    assert forall|k2: u64| #[trigger] seq_has_key(t, k2) == (seq_has_key(s, k2) || k2 == k) by {
        if seq_has_key(s, k2) {
            let i = choose|i: int| 0 <= i < s.len() && s[i].0 == k2;
            assert(t[i] == s[i]);
        }
        if k2 == k {
            assert(t[s.len() as int].0 == k);
        }
        if seq_has_key(t, k2) && k2 != k {
            let i = choose|i: int| 0 <= i < t.len() && t[i].0 == k2;
            assert(i < s.len());
            assert(s[i] == t[i]);
        }
    }
    assert forall|k2: u64| seq_has_key(t, k2) implies seq_to_map(t)[k2] == seq_to_map(s).insert(
        k,
        v,
    )[k2] by {
        if k2 == k {
            lemma_index_of(t, s.len() as int);
        } else {
            let i = choose|i: int| 0 <= i < t.len() && t[i].0 == k2;
            assert(i < s.len());
            assert(s[i] == t[i]);
            lemma_index_of(t, i);
            lemma_index_of(s, i);
        }
    }
    assert(seq_to_map(t) =~= seq_to_map(s).insert(k, v));
}

proof fn lemma_update<V>(s: Seq<(u64, V)>, i: int, v: V)
    requires
        keys_distinct(s),
        0 <= i < s.len(),
    ensures
        keys_distinct(s.update(i, (s[i].0, v))),
        seq_to_map(s.update(i, (s[i].0, v))) == seq_to_map(s).insert(s[i].0, v),
        seq_keys(s.update(i, (s[i].0, v))) == seq_keys(s),
{
    let k = s[i].0;
    let t = s.update(i, (k, v));
    assert forall|a: int| 0 <= a < t.len() implies #[trigger] t[a].0 == s[a].0 by {}
    assert forall|k2: u64| #[trigger] seq_has_key(t, k2) == seq_has_key(s, k2) by {
        if seq_has_key(s, k2) {
            let a = choose|a: int| 0 <= a < s.len() && s[a].0 == k2;
            assert(t[a].0 == k2);
        }
        if seq_has_key(t, k2) {
            let a = choose|a: int| 0 <= a < t.len() && t[a].0 == k2;
            assert(s[a].0 == k2);
        }
    }
    assert forall|k2: u64| seq_has_key(t, k2) implies seq_to_map(t)[k2] == seq_to_map(s).insert(
        k,
        v,
    )[k2] by {
        let a = choose|a: int| 0 <= a < t.len() && t[a].0 == k2;
        lemma_index_of(t, a);
        lemma_index_of(s, a);
    }
    assert(seq_to_map(t) =~= seq_to_map(s).insert(k, v));
    assert(seq_keys(t) =~= seq_keys(s));
}

proof fn lemma_remove<V>(s: Seq<(u64, V)>, i: int)
    requires
        keys_distinct(s),
        0 <= i < s.len(),
    ensures
        keys_distinct(s.remove(i)),
        seq_to_map(s.remove(i)) == seq_to_map(s).remove(s[i].0),
        seq_keys(s.remove(i)) == seq_keys(s).remove(i),
{
    let k = s[i].0;
    let t = s.remove(i);
    assert forall|a: int| 0 <= a < t.len() implies #[trigger] t[a] == (if a < i {
        s[a]
    } else {
        s[a + 1]
    }) by {}
    assert forall|k2: u64| #[trigger] seq_has_key(t, k2) == (seq_has_key(s, k2) && k2 != k) by {
        if seq_has_key(s, k2) && k2 != k {
            let a = choose|a: int| 0 <= a < s.len() && s[a].0 == k2;
            assert(a != i);
            if a < i {
                assert(t[a] == s[a]);
            } else {
                assert(t[a - 1] == s[a]);
            }
        }
        if seq_has_key(t, k2) {
            let a = choose|a: int| 0 <= a < t.len() && t[a].0 == k2;
            if a < i {
                assert(s[a] == t[a]);
            } else {
                assert(s[a + 1] == t[a]);
            }
        }
    }
    assert forall|k2: u64| seq_has_key(t, k2) implies seq_to_map(t)[k2] == seq_to_map(s).remove(
        k,
    )[k2] by {
        let a = choose|a: int| 0 <= a < t.len() && t[a].0 == k2;
        lemma_index_of(t, a);
        if a < i {
            lemma_index_of(s, a);
        } else {
            lemma_index_of(s, a + 1);
        }
    }
    assert(seq_to_map(t) =~= seq_to_map(s).remove(k));
    assert(seq_keys(t) =~= seq_keys(s).remove(i));
}

/// A map from integer keys to values, stored as a list of entries in insertion order.
pub struct KeyMap<V> {
    entries: Vec<(u64, V)>,
}

impl<V> View for KeyMap<V> {
    type V = Map<u64, V>;

    closed spec fn view(&self) -> Map<u64, V> {
        seq_to_map(self.entries@)
    }
}

impl<V> KeyMap<V> {
    #[verifier::type_invariant]
    spec fn keys_are_distinct(self) -> bool {
        keys_distinct(self.entries@)
    }

    /// The keys of the map, in insertion order.
    pub closed spec fn key_seq(&self) -> Seq<u64> {
        seq_keys(self.entries@)
    }

    /// An empty map.
    pub fn new() -> (m: Self)
        ensures
            m@ == Map::<u64, V>::empty(),
            m.key_seq() == Seq::<u64>::empty(),
    {
        let m = KeyMap { entries: Vec::new() };
        assert(m@ =~= Map::<u64, V>::empty());
        assert(m.key_seq() =~= Seq::<u64>::empty());
        m
    }

    fn find(&self, k: u64) -> (r: Option<usize>)
        ensures
            match r {
                Some(i) => i < self.entries@.len() && self.entries@[i as int].0 == k,
                None => !seq_has_key(self.entries@, k),
            },
    {
        let mut i: usize = 0;
        while i < self.entries.len()
            invariant
                i <= self.entries@.len(),
                forall|j: int| 0 <= j < i ==> self.entries@[j].0 != k,
            decreases self.entries@.len() - i,
        {
            if self.entries[i].0 == k {
                return Some(i);
            }
            i += 1;
        }
        None
    }

    /// The number of entries, together with the facts that relate the key sequence to the map.
    pub fn len(&self) -> (n: usize)
        ensures
            n == self.key_seq().len(),
            self.key_seq().no_duplicates(),
            forall|k: u64| #[trigger] self@.contains_key(k) <==> self.key_seq().contains(k),
    {
        proof {
            use_type_invariant(self);
            let s = self.entries@;
            assert forall|k: u64| #[trigger] self@.contains_key(k) <==> self.key_seq().contains(
                k,
            ) by {
                if seq_has_key(s, k) {
                    let i = choose|i: int| 0 <= i < s.len() && s[i].0 == k;
                    assert(self.key_seq()[i] == k);
                }
                if self.key_seq().contains(k) {
                    let i = choose|i: int|
                        0 <= i < self.key_seq().len() && self.key_seq()[i] == k;
                    assert(s[i].0 == k);
                }
            }
        }
        self.entries.len()
    }

    /// Whether the map holds key `k`.
    pub fn contains_key(&self, k: u64) -> (r: bool)
        ensures
            r == self@.contains_key(k),
    {
        match self.find(k) {
            Some(i) => {
                proof {
                    assert(seq_has_key(self.entries@, k));
                }
                true
            },
            None => false,
        }
    }

    /// The value stored under `k`, if any.
    pub fn get(&self, k: u64) -> (r: Option<&V>)
        ensures
            match r {
                Some(v) => self@.contains_key(k) && *v == self@[k],
                None => !self@.contains_key(k),
            },
    {
        proof {
            use_type_invariant(self);
        }
        match self.find(k) {
            Some(i) => {
                proof {
                    lemma_index_of(self.entries@, i as int);
                }
                Some(&self.entries[i].1)
            },
            None => None,
        }
    }

    /// The key at position `i` of the key sequence.
    pub fn key_at(&self, i: usize) -> (r: u64)
        requires
            i < self.key_seq().len(),
        ensures
            r == self.key_seq()[i as int],
            self@.contains_key(r),
    {
        proof {
            assert(seq_has_key(self.entries@, self.entries@[i as int].0));
        }
        self.entries[i].0
    }

    /// The value stored under the key at position `i` of the key sequence.
    pub fn value_at(&self, i: usize) -> (r: &V)
        requires
            i < self.key_seq().len(),
        ensures
            self@.contains_key(self.key_seq()[i as int]),
            *r == self@[self.key_seq()[i as int]],
    {
        proof {
            use_type_invariant(self);
            lemma_index_of(self.entries@, i as int);
        }
        &self.entries[i].1
    }

    /// Stores `v` under `k`; a new key goes to the end of the key sequence.
    pub fn insert(&mut self, k: u64, v: V)
        ensures
            final(self)@ == old(self)@.insert(k, v),
            old(self)@.contains_key(k) ==> final(self).key_seq() == old(self).key_seq(),
            !old(self)@.contains_key(k) ==> final(self).key_seq() == old(self).key_seq().push(k),
    {
        proof {
            use_type_invariant(&*self);
        }
        let idx = self.find(k);
        let mut e: Vec<(u64, V)> = Vec::new();
        std::mem::swap(&mut e, &mut self.entries);
        let ghost s = e@;
        match idx {
            Some(i) => {
                proof {
                    lemma_update(s, i as int, v);
                    assert(seq_has_key(s, k));
                }
                e.set(i, (k, v));
            },
            None => {
                proof {
                    lemma_push(s, k, v);
                    assert(seq_keys(s.push((k, v))) =~= seq_keys(s).push(k));
                }
                e.push((k, v));
            },
        }
        self.entries = e;
    }

    /// Removes the entry under `k`, returning its value; the other keys keep their order.
    pub fn remove(&mut self, k: u64) -> (r: Option<V>)
        ensures
            final(self)@ == old(self)@.remove(k),
            match r {
                Some(v) => old(self)@.contains_key(k) && v == old(self)@[k],
                None => !old(self)@.contains_key(k) && *final(self) == *old(self),
            },
    {
        proof {
            use_type_invariant(&*self);
        }
        let idx = self.find(k);
        match idx {
            Some(i) => {
                let mut e: Vec<(u64, V)> = Vec::new();
                std::mem::swap(&mut e, &mut self.entries);
                let ghost s = e@;
                proof {
                    lemma_remove(s, i as int);
                    lemma_index_of(s, i as int);
                }
                let (_, v) = e.remove(i);
                self.entries = e;
                Some(v)
            },
            None => {
                proof {
                    assert(old(self)@.remove(k) =~= old(self)@);
                }
                None
            },
        }
    }
}

impl<V: Copy> KeyMap<V> {
    /// A copy of the map, with the same keys in the same order.
    pub fn duplicate(&self) -> (r: Self)
        ensures
            r@ == self@,
            r.key_seq() == self.key_seq(),
    {
        let mut e: Vec<(u64, V)> = Vec::new();
        let mut i: usize = 0;
        while i < self.entries.len()
            invariant
                i <= self.entries@.len(),
                e@ == self.entries@.take(i as int),
            decreases self.entries@.len() - i,
        {
            let (k, v) = self.entries[i];
            e.push((k, v));
            proof {
                assert(self.entries@.take(i + 1) =~= self.entries@.take(i as int).push(
                    self.entries@[i as int],
                ));
            }
            i += 1;
        }
        proof {
            use_type_invariant(self);
            assert(self.entries@.take(i as int) =~= self.entries@);
        }
        KeyMap { entries: e }
    }
}

/// The sum of the values stored under `keys` in `m`.
pub open spec fn value_sum(keys: Seq<u64>, m: Map<u64, u128>) -> int
    decreases keys.len(),
{
    if keys.len() == 0 {
        0
    } else {
        value_sum(keys.drop_last(), m) + m[keys.last()]
    }
}

/// A sum of values is never negative.
pub proof fn lemma_value_sum_nonneg(keys: Seq<u64>, m: Map<u64, u128>)
    ensures
        value_sum(keys, m) >= 0,
    decreases keys.len(),
{
    if keys.len() > 0 {
        lemma_value_sum_nonneg(keys.drop_last(), m);
    }
}

proof fn lemma_value_sum_frame(keys: Seq<u64>, m: Map<u64, u128>, k: u64, v: u128)
    requires
        !keys.contains(k),
    ensures
        value_sum(keys, m.insert(k, v)) == value_sum(keys, m),
    decreases keys.len(),
{
    if keys.len() > 0 {
        assert(keys.drop_last().contains(k) ==> keys.contains(k));
        assert(keys.last() != k) by {
            assert(keys[keys.len() - 1] == keys.last());
        }
        lemma_value_sum_frame(keys.drop_last(), m, k, v);
    }
}

/// Storing `v` under `k` changes the sum by the difference with what `k` held, or (for a
/// new key, appended to the keys) adds `v`.
pub proof fn lemma_value_sum_insert(keys: Seq<u64>, m: Map<u64, u128>, k: u64, v: u128)
    requires
        keys.no_duplicates(),
    ensures
        keys.contains(k) ==> value_sum(keys, m.insert(k, v)) == value_sum(keys, m) - m[k] + v,
        !keys.contains(k) ==> value_sum(keys.push(k), m.insert(k, v)) == value_sum(keys, m) + v,
    decreases keys.len(),
{
    if !keys.contains(k) {
        lemma_value_sum_frame(keys, m, k, v);
        assert(keys.push(k).drop_last() =~= keys);
    } else {
        let init = keys.drop_last();
        if keys.last() == k {
            assert(!init.contains(k)) by {
                if init.contains(k) {
                    let i = choose|i: int| 0 <= i < init.len() && init[i] == k;
                    assert(keys[i] == keys[keys.len() - 1]);
                }
            }
            lemma_value_sum_frame(init, m, k, v);
        } else {
            assert(init.contains(k)) by {
                let i = choose|i: int| 0 <= i < keys.len() && keys[i] == k;
                assert(i != keys.len() - 1);
                assert(init[i] == k);
            }
            assert(init.no_duplicates()) by {
                assert forall|i: int, j: int|
                    0 <= i < init.len() && 0 <= j < init.len() && i != j implies init[i]
                    != init[j] by {
                    assert(init[i] == keys[i] && init[j] == keys[j]);
                }
            }
            lemma_value_sum_insert(init, m, k, v);
        }
    }
}

/// A value is at most the sum of the values.
pub proof fn lemma_value_le_sum(keys: Seq<u64>, m: Map<u64, u128>, k: u64)
    requires
        keys.contains(k),
    ensures
        m[k] <= value_sum(keys, m),
    decreases keys.len(),
{
    let init = keys.drop_last();
    lemma_value_sum_nonneg(init, m);
    if keys.last() != k {
        assert(init.contains(k)) by {
            let i = choose|i: int| 0 <= i < keys.len() && keys[i] == k;
            assert(i != keys.len() - 1);
            assert(init[i] == k);
        }
        lemma_value_le_sum(init, m, k);
    }
}

impl KeyMap<u128> {
    /// The sum of the stored values, saturated at the largest `u128`, with the number of
    /// entries, saturated at the largest `u32`.
    pub fn saturating_sum_and_count(&self) -> (r: (u128, u32))
        ensures
            r.0 == (if value_sum(self.key_seq(), self@) > u128::MAX {
                u128::MAX
            } else {
                value_sum(self.key_seq(), self@) as u128
            }),
            r.1 == (if self.key_seq().len() > u32::MAX {
                u32::MAX
            } else {
                self.key_seq().len() as u32
            }),
    {
        let n = self.len();
        let mut sum: u128 = 0;
        let mut count: u32 = 0;
        let mut i: usize = 0;
        while i < n
            invariant
                i <= n,
                n == self.key_seq().len(),
                forall|k: u64| #[trigger] self@.contains_key(k) <==> self.key_seq().contains(k),
                sum == (if value_sum(self.key_seq().take(i as int), self@) > u128::MAX {
                    u128::MAX
                } else {
                    value_sum(self.key_seq().take(i as int), self@) as u128
                }),
                count == (if i > u32::MAX {
                    u32::MAX
                } else {
                    i as u32
                }),
            decreases n - i,
        {
            let v = *self.value_at(i);
            proof {
                let ks = self.key_seq();
                assert(ks.take(i + 1).drop_last() =~= ks.take(i as int));
                assert(ks.take(i + 1).last() == ks[i as int]);
                lemma_value_sum_nonneg(ks.take(i as int), self@);
            }
            sum = sum.saturating_add(v);
            count = count.saturating_add(1);
            i += 1;
        }
        proof {
            assert(self.key_seq().take(i as int) =~= self.key_seq());
        }
        (sum, count)
    }
}

} // verus!
