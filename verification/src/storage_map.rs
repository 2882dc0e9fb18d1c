use vstd::prelude::*;

use crate::types::AccountId;

verus! {

/// Keys that can be compared at run time with the same meaning as equality
/// in specifications.
pub trait MapKey: Sized {
    fn key_eq(&self, other: &Self) -> (r: bool)
        ensures
            r == (*self == *other),
    ;
}

impl MapKey for u32 {
    fn key_eq(&self, other: &Self) -> (r: bool) {
        *self == *other
    }
}

impl MapKey for AccountId {
    fn key_eq(&self, other: &Self) -> (r: bool) {
        self.same(other)
    }
}

impl MapKey for [u8; 4] {
    fn key_eq(&self, other: &Self) -> (r: bool) {
        let mut i: usize = 0;
        while i < 4
            invariant
                i <= 4,
                forall|j: int| 0 <= j < i ==> self[j] == other[j],
            decreases 4 - i,
        {
            if self[i] != other[i] {
                return false;
            }
            i = i + 1;
        }
        assert(*self =~= *other);
        true
    }
}

impl<A: MapKey> MapKey for Option<A> {
    fn key_eq(&self, other: &Self) -> (r: bool) {
        match (self, other) {
            (Some(a), Some(b)) => a.key_eq(b),
            (None, None) => true,
            _ => false,
        }
    }
}

impl<A: MapKey, B: MapKey> MapKey for (A, B) {
    fn key_eq(&self, other: &Self) -> (r: bool) {
        self.0.key_eq(&other.0) && self.1.key_eq(&other.1)
    }
}

impl<A: MapKey, B: MapKey, C: MapKey> MapKey for (A, B, C) {
    fn key_eq(&self, other: &Self) -> (r: bool) {
        self.0.key_eq(&other.0) && self.1.key_eq(&other.1) && self.2.key_eq(&other.2)
    }
}

/// No key occurs twice in a list of entries.
pub open spec fn unique_keys<K, V>(s: Seq<(K, V)>) -> bool {
    forall|i: int, j: int| 0 <= i < s.len() && 0 <= j < s.len() && i != j ==> s[i].0 != s[j].0
}

/// `k` is the key of some entry.
pub open spec fn has_key<K, V>(s: Seq<(K, V)>, k: K) -> bool {
    exists|i: int| 0 <= i < s.len() && s[i].0 == k
}

/// The position of the entry whose key is `k`.
pub open spec fn key_index<K, V>(s: Seq<(K, V)>, k: K) -> int {
    choose|i: int| 0 <= i < s.len() && s[i].0 == k
}

/// The map that a list of entries with unique keys stands for.
pub open spec fn entries_map<K, V>(s: Seq<(K, V)>) -> Map<K, V> {
    Map::new(|k: K| has_key(s, k), |k: K| s[key_index(s, k)].1)
}

/// The sum of the values of a list of entries.
pub open spec fn sum_values<K>(s: Seq<(K, u128)>) -> int
    decreases s.len(),
{
    if s.len() == 0 {
        0
    } else {
        sum_values(s.drop_last()) + s.last().1
    }
}

/// In a list with unique keys, the entry at `i` gives the map's value for its key.
pub proof fn lemma_entry_in_map<K, V>(s: Seq<(K, V)>, i: int)
    requires
        unique_keys(s),
        0 <= i < s.len(),
    ensures
        entries_map(s).contains_key(s[i].0),
        entries_map(s)[s[i].0] == s[i].1,
        key_index(s, s[i].0) == i,
{
    assert(has_key(s, s[i].0));
}

/// Replacing the value at `i` changes the sum by the difference of the values.
pub proof fn lemma_sum_update<K>(s: Seq<(K, u128)>, i: int, e: (K, u128))
    requires
        0 <= i < s.len(),
    ensures
        sum_values(s.update(i, e)) == sum_values(s) - s[i].1 + e.1,
    decreases s.len(),
{
    if i == s.len() - 1 {
        assert(s.update(i, e).drop_last() =~= s.drop_last());
    } else {
        lemma_sum_update(s.drop_last(), i, e);
        assert(s.update(i, e).drop_last() =~= s.drop_last().update(i, e));
    }
}

/// Adding an entry at the end adds its value to the sum.
pub proof fn lemma_sum_push<K>(s: Seq<(K, u128)>, e: (K, u128))
    ensures
        sum_values(s.push(e)) == sum_values(s) + e.1,
{
    assert(s.push(e).drop_last() =~= s);
}

/// Every value is at most the sum.
pub proof fn lemma_value_le_sum<K>(s: Seq<(K, u128)>, i: int)
    requires
        0 <= i < s.len(),
    ensures
        s[i].1 <= sum_values(s),
    decreases s.len(),
{
    if i < s.len() - 1 {
        lemma_value_le_sum(s.drop_last(), i);
    }
    lemma_sum_nonneg(s.drop_last());
}

/// The sum of `u128` values is never negative.
pub proof fn lemma_sum_nonneg<K>(s: Seq<(K, u128)>)
    ensures
        sum_values(s) >= 0,
    decreases s.len(),
{
    if s.len() > 0 {
        lemma_sum_nonneg(s.drop_last());
    }
}

/// Two distinct values are at most the sum.
pub proof fn lemma_two_values_le_sum<K>(s: Seq<(K, u128)>, i: int, j: int)
    requires
        0 <= i < s.len(),
        0 <= j < s.len(),
        i != j,
    ensures
        s[i].1 + s[j].1 <= sum_values(s),
    decreases s.len(),
{
    let n = s.len() - 1;
    lemma_sum_nonneg(s.drop_last());
    if i == n {
        lemma_value_le_sum(s.drop_last(), j);
    } else if j == n {
        lemma_value_le_sum(s.drop_last(), i);
    } else {
        lemma_two_values_le_sum(s.drop_last(), i, j);
    }
}

/// A finite map held as a list of (key, value) entries without repeated keys.
pub struct StorageMap<K, V> {
    entries: Vec<(K, V)>,
}

impl<K, V> StorageMap<K, V> {
    /// The entries in storage order.
    pub closed spec fn entries(&self) -> Seq<(K, V)> {
        self.entries@
    }

    /// Well-formed: the entries never repeat a key.
    pub open spec fn wf(&self) -> bool {
        unique_keys(self.entries())
    }
}

impl<K, V> View for StorageMap<K, V> {
    type V = Map<K, V>;

    open spec fn view(&self) -> Map<K, V> {
        entries_map(self.entries())
    }
}

impl<K: MapKey + Copy, V: Copy> StorageMap<K, V> {
    /// An empty map.
    pub fn new() -> (m: Self)
        ensures
            m.wf(),
            m@ == Map::<K, V>::empty(),
            m.entries() == Seq::<(K, V)>::empty(),
    {
        let m = StorageMap { entries: Vec::new() };
        assert(m@ =~= Map::<K, V>::empty());
        m
    }

    /// The position of `k`, if it is stored.
    fn find(&self, k: &K) -> (r: Option<usize>)
        ensures
            r is None <==> !has_key(self.entries(), *k),
            r matches Some(i) ==> i < self.entries().len() && self.entries()[i as int].0 == *k,
    {
        let mut i: usize = 0;
        while i < self.entries.len()
            invariant
                i <= self.entries@.len(),
                forall|j: int| 0 <= j < i ==> self.entries@[j].0 != *k,
            decreases self.entries@.len() - i,
        {
            if self.entries[i].0.key_eq(k) {
                return Some(i);
            }
            i = i + 1;
        }
        None
    }

    /// The value stored under `k`.
    pub fn get(&self, k: &K) -> (r: Option<V>)
        requires
            self.wf(),
        ensures
            r == (if self@.contains_key(*k) { Some(self@[*k]) } else { None::<V> }),
    {
        match self.find(k) {
            Some(i) => {
                proof {
                    lemma_entry_in_map(self.entries(), i as int);
                }
                Some(self.entries[i].1)
            },
            None => None,
        }
    }

    /// Whether `k` is stored.
    pub fn contains(&self, k: &K) -> (r: bool)
        requires
            self.wf(),
        ensures
            r == self@.contains_key(*k),
    {
        self.find(k).is_some()
    }

    /// Stores `v` under `k`, replacing what was there.
    pub fn insert(&mut self, k: K, v: V)
        requires
            old(self).wf(),
        ensures
            final(self).wf(),
            final(self)@ == old(self)@.insert(k, v),
            has_key(old(self).entries(), k) ==> final(self).entries() == old(self).entries().update(
                key_index(old(self).entries(), k),
                (k, v),
            ),
            !has_key(old(self).entries(), k) ==> final(self).entries() == old(self).entries().push(
                (k, v),
            ),
    {
        let ghost s0 = self.entries@;
        match self.find(&k) {
            Some(i) => {
                proof {
                    lemma_entry_in_map(s0, i as int);
                }
                self.entries.set(i, (k, v));
                proof {
                    let s1 = self.entries@;
                    assert(s1 == s0.update(i as int, (k, v)));
                    assert forall|k2: K| #[trigger] entries_map(s1).contains_key(k2) == entries_map(
                        s0,
                    ).insert(k, v).contains_key(k2) by {
                        if has_key(s1, k2) {
                            let j = choose|j: int| 0 <= j < s1.len() && s1[j].0 == k2;
                            if j != i {
                                assert(s0[j].0 == k2);
                            }
                        }
                        if has_key(s0, k2) {
                            let j = choose|j: int| 0 <= j < s0.len() && s0[j].0 == k2;
                            assert(s1[j].0 == k2);
                        }
                    }
                    assert forall|k2: K| #[trigger] entries_map(s1).contains_key(k2) implies entries_map(
                        s1,
                    )[k2] == entries_map(s0).insert(k, v)[k2] by {
                        let j = choose|j: int| 0 <= j < s1.len() && s1[j].0 == k2;
                        lemma_entry_in_map(s1, j);
                        if j != i {
                            lemma_entry_in_map(s0, j);
                        }
                    }
                    assert(entries_map(s1) =~= entries_map(s0).insert(k, v));
                }
            },
            None => {
                self.entries.push((k, v));
                proof {
                    let s1 = self.entries@;
                    assert(s1 == s0.push((k, v)));
                    assert(unique_keys(s1));
                    assert forall|k2: K| #[trigger] entries_map(s1).contains_key(k2) == entries_map(
                        s0,
                    ).insert(k, v).contains_key(k2) by {
                        if has_key(s1, k2) {
                            let j = choose|j: int| 0 <= j < s1.len() && s1[j].0 == k2;
                            if j < s0.len() {
                                assert(s0[j].0 == k2);
                            }
                        }
                        if has_key(s0, k2) {
                            let j = choose|j: int| 0 <= j < s0.len() && s0[j].0 == k2;
                            assert(s1[j].0 == k2);
                        }
                        if k2 == k {
                            assert(s1[s0.len() as int].0 == k2);
                        }
                    }
                    assert forall|k2: K| #[trigger] entries_map(s1).contains_key(k2) implies entries_map(
                        s1,
                    )[k2] == entries_map(s0).insert(k, v)[k2] by {
                        let j = choose|j: int| 0 <= j < s1.len() && s1[j].0 == k2;
                        lemma_entry_in_map(s1, j);
                        if j < s0.len() {
                            lemma_entry_in_map(s0, j);
                        }
                    }
                    assert(entries_map(s1) =~= entries_map(s0).insert(k, v));
                }
            },
        }
    }

    /// Removes what is stored under `k`.
    pub fn remove(&mut self, k: &K)
        requires
            old(self).wf(),
        ensures
            final(self).wf(),
            final(self)@ == old(self)@.remove(*k),
    {
        let ghost s0 = self.entries@;
        match self.find(k) {
            Some(i) => {
                proof {
                    lemma_entry_in_map(s0, i as int);
                }
                let _ = self.entries.swap_remove(i);
                proof {
                    let s1 = self.entries@;
                    let n = s0.len() - 1;
                    assert(s1 == s0.update(i as int, s0[n]).drop_last());
                    assert forall|a: int| 0 <= a < s1.len() implies (s1[a] == s0[a] || (a == i
                        && s1[a] == s0[n])) by {}
                    assert forall|k2: K| #[trigger] entries_map(s1).contains_key(k2) == entries_map(
                        s0,
                    ).remove(*k).contains_key(k2) by {
                        if has_key(s1, k2) {
                            let j = choose|j: int| 0 <= j < s1.len() && s1[j].0 == k2;
                            if j == i {
                                assert(s0[n].0 == k2);
                            } else {
                                assert(s0[j].0 == k2);
                            }
                        }
                        if has_key(s0, k2) && k2 != *k {
                            let j = choose|j: int| 0 <= j < s0.len() && s0[j].0 == k2;
                            if j == n {
                                assert(s1[i as int].0 == k2);
                            } else {
                                assert(s1[j].0 == k2);
                            }
                        }
                    }
                    assert forall|k2: K| #[trigger] entries_map(s1).contains_key(k2) implies entries_map(
                        s1,
                    )[k2] == entries_map(s0).remove(*k)[k2] by {
                        let j = choose|j: int| 0 <= j < s1.len() && s1[j].0 == k2;
                        lemma_entry_in_map(s1, j);
                        if j == i {
                            lemma_entry_in_map(s0, n);
                        } else {
                            lemma_entry_in_map(s0, j);
                        }
                    }
                    assert(entries_map(s1) =~= entries_map(s0).remove(*k));
                }
            },
            None => {
                assert(entries_map(s0) =~= entries_map(s0).remove(*k));
            },
        }
    }
}

} // verus!

verus! {

/// In a list with unique keys, the value stored under `k` is at most the sum.
pub proof fn lemma_map_value_le_sum<K>(s: Seq<(K, u128)>, k: K)
    requires
        unique_keys(s),
        entries_map(s).contains_key(k),
    ensures
        entries_map(s)[k] <= sum_values(s),
{
    let i = key_index(s, k);
    lemma_entry_in_map(s, i);
    lemma_value_le_sum(s, i);
}

/// In a list with unique keys, the values under two distinct keys add up to at
/// most the sum.
pub proof fn lemma_map_two_values_le_sum<K>(s: Seq<(K, u128)>, k1: K, k2: K)
    requires
        unique_keys(s),
        entries_map(s).contains_key(k1),
        entries_map(s).contains_key(k2),
        k1 != k2,
    ensures
        entries_map(s)[k1] + entries_map(s)[k2] <= sum_values(s),
{
    let i = key_index(s, k1);
    let j = key_index(s, k2);
    lemma_entry_in_map(s, i);
    lemma_entry_in_map(s, j);
    lemma_two_values_le_sum(s, i, j);
}

/// How the sum of the values changes when `insert(k, v)` writes into a list
/// with unique keys.
pub proof fn lemma_insert_sum<K>(s0: Seq<(K, u128)>, s1: Seq<(K, u128)>, k: K, v: u128)
    requires
        unique_keys(s0),
        has_key(s0, k) ==> s1 == s0.update(key_index(s0, k), (k, v)),
        !has_key(s0, k) ==> s1 == s0.push((k, v)),
    ensures
        sum_values(s1) == sum_values(s0) - (if entries_map(s0).contains_key(k) {
            entries_map(s0)[k] as int
        } else {
            0
        }) + v,
{
    if has_key(s0, k) {
        let i = key_index(s0, k);
        lemma_entry_in_map(s0, i);
        lemma_sum_update(s0, i, (k, v));
    } else {
        lemma_sum_push(s0, (k, v));
    }
}

} // verus!
