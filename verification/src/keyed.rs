//! A keyed store held as a list of distinct keys with their values: the
//! shape of a contract's storage map.
use vstd::prelude::*;

verus! {

/// A key whose equality in executable code agrees with equality of views.
pub trait Key: DeepView + Sized {
    fn key_eq(&self, other: &Self) -> (res: bool)
        ensures
            res == (self.deep_view() == other.deep_view()),
    ;
}

impl Key for u64 {
    fn key_eq(&self, other: &Self) -> (res: bool) {
        *self == *other
    }
}

impl Key for String {
    fn key_eq(&self, other: &Self) -> (res: bool) {
        *self == *other
    }
}

impl Key for Vec<u8> {
    fn key_eq(&self, other: &Self) -> (res: bool) {
        if self.len() != other.len() {
            assert(self.deep_view().len() != other.deep_view().len());
            return false;
        }
        let mut i: usize = 0;
        while i < self.len()
            invariant
                self.len() == other.len(),
                i <= self.len(),
                forall|j: int| 0 <= j < i ==> self@[j] == other@[j],
            decreases self.len() - i,
        {
            if self[i] != other[i] {
                assert(self.deep_view()[i as int] != other.deep_view()[i as int]);
                return false;
            }
            i = i + 1;
        }
        assert(self.deep_view() =~= other.deep_view());
        true
    }
}

/// Some entry of `s` has key `k`.
pub open spec fn entries_has<K: DeepView, V>(s: Seq<(K, V)>, k: K::V) -> bool {
    exists|i: int| 0 <= i < s.len() && (#[trigger] s[i]).0.deep_view() == k
}

/// An entry of `s` with key `k`, if there is one.
pub open spec fn entries_index<K: DeepView, V>(s: Seq<(K, V)>, k: K::V) -> int {
    choose|i: int| 0 <= i < s.len() && (#[trigger] s[i]).0.deep_view() == k
}

/// The map that a list of entries stands for.
pub open spec fn entries_map<K: DeepView, V>(s: Seq<(K, V)>) -> Map<K::V, V> {
    Map::new(|k: K::V| entries_has(s, k), |k: K::V| s[entries_index(s, k)].1)
}

/// No two entries share a key.
pub open spec fn distinct_keys<K: DeepView, V>(s: Seq<(K, V)>) -> bool {
    forall|i: int, j: int|
        0 <= i < s.len() && 0 <= j < s.len() && i != j ==> (#[trigger] s[i]).0.deep_view() != (
        #[trigger] s[j]).0.deep_view()
}

pub proof fn lemma_entries_lookup<K: DeepView, V>(s: Seq<(K, V)>, i: int)
    requires
        distinct_keys(s),
        0 <= i < s.len(),
    ensures
        entries_map(s).contains_key(s[i].0.deep_view()),
        entries_map(s)[s[i].0.deep_view()] == s[i].1,
{
    let k = s[i].0.deep_view();
    assert(entries_has(s, k));
    let c = entries_index(s, k);
    assert(s[c].0.deep_view() == k);
}

proof fn lemma_entries_update<K: DeepView, V>(s: Seq<(K, V)>, i: int, e: (K, V))
    requires
        distinct_keys(s),
        0 <= i < s.len(),
        e.0.deep_view() == s[i].0.deep_view(),
    ensures
        distinct_keys(s.update(i, e)),
        entries_map(s.update(i, e)) == entries_map(s).insert(e.0.deep_view(), e.1),
{
    let t = s.update(i, e);
    assert(distinct_keys(t)) by {
        assert forall|a: int, b: int|
            0 <= a < t.len() && 0 <= b < t.len() && a != b implies (#[trigger] t[a]).0.deep_view()
            != (#[trigger] t[b]).0.deep_view() by {
            assert(s[a].0.deep_view() != s[b].0.deep_view());
        }
    }
    assert forall|k: K::V| #[trigger] entries_has(t, k) == entries_has(s, k) by {
        if entries_has(s, k) {
            let j = choose|j: int| 0 <= j < s.len() && (#[trigger] s[j]).0.deep_view() == k;
            assert(t[j].0.deep_view() == k);
        }
        if entries_has(t, k) {
            let j = choose|j: int| 0 <= j < t.len() && (#[trigger] t[j]).0.deep_view() == k;
            assert(s[j].0.deep_view() == k);
        }
    }
    assert forall|k: K::V| entries_has(t, k) implies entries_map(t)[k] == entries_map(s).insert(
        e.0.deep_view(),
        e.1,
    )[k] by {
        let j = choose|j: int| 0 <= j < t.len() && (#[trigger] t[j]).0.deep_view() == k;
        lemma_entries_lookup(t, j);
        lemma_entries_lookup(s, j);
    }
    assert(entries_map(t) =~= entries_map(s).insert(e.0.deep_view(), e.1));
}

proof fn lemma_entries_push<K: DeepView, V>(s: Seq<(K, V)>, e: (K, V))
    requires
        distinct_keys(s),
        !entries_has(s, e.0.deep_view()),
    ensures
        distinct_keys(s.push(e)),
        entries_map(s.push(e)) == entries_map(s).insert(e.0.deep_view(), e.1),
{
    let t = s.push(e);
    assert(distinct_keys(t)) by {
        assert forall|a: int, b: int|
            0 <= a < t.len() && 0 <= b < t.len() && a != b implies (#[trigger] t[a]).0.deep_view()
            != (#[trigger] t[b]).0.deep_view() by {
            if a < s.len() && b < s.len() {
                assert(s[a].0.deep_view() != s[b].0.deep_view());
            } else if a < s.len() {
                assert(s[a].0.deep_view() != e.0.deep_view());
            } else if b < s.len() {
                assert(s[b].0.deep_view() != e.0.deep_view());
            }
        }
    }
    assert forall|k: K::V| #[trigger] entries_has(t, k) == (entries_has(s, k) || k == e.0.deep_view()) by {
        if entries_has(s, k) {
            let j = choose|j: int| 0 <= j < s.len() && (#[trigger] s[j]).0.deep_view() == k;
            assert(t[j].0.deep_view() == k);
        }
        if k == e.0.deep_view() {
            assert(t[s.len() as int].0.deep_view() == k);
        }
        if entries_has(t, k) && k != e.0.deep_view() {
            let j = choose|j: int| 0 <= j < t.len() && (#[trigger] t[j]).0.deep_view() == k;
            assert(s[j].0.deep_view() == k);
        }
    }
    assert forall|k: K::V| entries_has(t, k) implies entries_map(t)[k] == entries_map(s).insert(
        e.0.deep_view(),
        e.1,
    )[k] by {
        let j = choose|j: int| 0 <= j < t.len() && (#[trigger] t[j]).0.deep_view() == k;
        lemma_entries_lookup(t, j);
        if j < s.len() {
            lemma_entries_lookup(s, j);
        }
    }
    assert(entries_map(t) =~= entries_map(s).insert(e.0.deep_view(), e.1));
}

proof fn lemma_entries_remove<K: DeepView, V>(s: Seq<(K, V)>, i: int)
    requires
        distinct_keys(s),
        0 <= i < s.len(),
    ensures
        distinct_keys(s.remove(i)),
        entries_map(s.remove(i)) == entries_map(s).remove(s[i].0.deep_view()),
{
    let t = s.remove(i);
    let ki = s[i].0.deep_view();
    assert forall|a: int| 0 <= a < t.len() implies #[trigger] t[a] == (if a < i { s[a] } else { s[a + 1] }) by {}
    assert(distinct_keys(t)) by {
        assert forall|a: int, b: int|
            0 <= a < t.len() && 0 <= b < t.len() && a != b implies (#[trigger] t[a]).0.deep_view()
            != (#[trigger] t[b]).0.deep_view() by {
            let a1 = if a < i { a } else { a + 1 };
            let b1 = if b < i { b } else { b + 1 };
            assert(s[a1].0.deep_view() != s[b1].0.deep_view());
        }
    }
    assert forall|k: K::V| #[trigger] entries_has(t, k) == (entries_has(s, k) && k != ki) by {
        if entries_has(s, k) && k != ki {
            let j = choose|j: int| 0 <= j < s.len() && (#[trigger] s[j]).0.deep_view() == k;
            if j < i {
                assert(t[j].0.deep_view() == k);
            } else {
                assert(j != i);
                assert(t[j - 1].0.deep_view() == k);
            }
        }
        if entries_has(t, k) {
            let j = choose|j: int| 0 <= j < t.len() && (#[trigger] t[j]).0.deep_view() == k;
            let j1 = if j < i { j } else { j + 1 };
            assert(s[j1].0.deep_view() == k);
            assert(s[j1].0.deep_view() != s[i].0.deep_view());
        }
    }
    assert forall|k: K::V| entries_has(t, k) implies entries_map(t)[k] == entries_map(s)[k] by {
        let j = choose|j: int| 0 <= j < t.len() && (#[trigger] t[j]).0.deep_view() == k;
        let j1 = if j < i { j } else { j + 1 };
        lemma_entries_lookup(t, j);
        lemma_entries_lookup(s, j1);
    }
    assert(entries_map(t) =~= entries_map(s).remove(ki));
}

/// Values stored under distinct keys.
#[derive(Debug)]
pub struct KeyedList<K: Key, V> {
    entries: Vec<(K, V)>,
}

impl<K: Key, V> KeyedList<K, V> {
    #[verifier::type_invariant]
    spec fn keys_distinct(&self) -> bool {
        distinct_keys(self.entries@)
    }

    /// The store as a map from keys to values.
    pub closed spec fn map(&self) -> Map<K::V, V> {
        entries_map(self.entries@)
    }

    /// An empty store.
    pub fn new() -> (res: Self)
        ensures
            res.map() == Map::<K::V, V>::empty(),
    {
        let res = KeyedList { entries: Vec::new() };
        assert(res.map() =~= Map::<K::V, V>::empty());
        res
    }

    /// The entries, in the order they were first stored.
    pub fn entries(&self) -> (res: &Vec<(K, V)>)
        ensures
            entries_map(res@) == self.map(),
            distinct_keys(res@),
    {
        proof {
            use_type_invariant(self);
        }
        &self.entries
    }

    /// The value stored under `k`, if any.
    pub fn get(&self, k: &K) -> (res: Option<&V>)
        ensures
            match res {
                Some(v) => self.map().contains_key(k.deep_view()) && *v == self.map()[k.deep_view()],
                None => !self.map().contains_key(k.deep_view()),
            },
    {
        proof {
            use_type_invariant(self);
        }
        let mut i: usize = 0;
        while i < self.entries.len()
            invariant
                i <= self.entries@.len(),
                forall|j: int| 0 <= j < i ==> (#[trigger] self.entries@[j]).0.deep_view() != k.deep_view(),
                distinct_keys(self.entries@),
            decreases self.entries@.len() - i,
        {
            if self.entries[i].0.key_eq(k) {
                proof {
                    lemma_entries_lookup(self.entries@, i as int);
                }
                return Some(&self.entries[i].1);
            }
            i = i + 1;
        }
        proof {
            if entries_has(self.entries@, k.deep_view()) {
                let j = choose|j: int| 0 <= j < self.entries@.len() && (#[trigger] self.entries@[j]).0.deep_view() == k.deep_view();
                assert(self.entries@[j].0.deep_view() != k.deep_view());
            }
        }
        None
    }

    /// Whether a value is stored under `k`.
    pub fn contains(&self, k: &K) -> (res: bool)
        ensures
            res == self.map().contains_key(k.deep_view()),
    {
        self.get(k).is_some()
    }

    /// Removes and returns the value stored under `k`, if any.
    pub fn take(&mut self, k: &K) -> (res: Option<V>)
        ensures
            final(self).map() == old(self).map().remove(k.deep_view()),
            match res {
                Some(v) => old(self).map().contains_key(k.deep_view()) && v == old(self).map()[k.deep_view()],
                None => !old(self).map().contains_key(k.deep_view()),
            },
    {
        proof {
            use_type_invariant(&*self);
        }
        let mut i: usize = 0;
        while i < self.entries.len()
            invariant
                i <= self.entries@.len(),
                forall|j: int| 0 <= j < i ==> (#[trigger] self.entries@[j]).0.deep_view() != k.deep_view(),
                self.entries@ == old(self).entries@,
                distinct_keys(self.entries@),
            decreases self.entries@.len() - i,
        {
            if self.entries[i].0.key_eq(k) {
                let ghost old_entries = self.entries@;
                proof {
                    lemma_entries_lookup(old_entries, i as int);
                    lemma_entries_remove(old_entries, i as int);
                }
                let mut entries = Vec::new();
                std::mem::swap(&mut entries, &mut self.entries);
                let (_, v) = entries.remove(i);
                self.entries = entries;
                return Some(v);
            }
            i = i + 1;
        }
        proof {
            if entries_has(self.entries@, k.deep_view()) {
                let j = choose|j: int| 0 <= j < self.entries@.len() && (#[trigger] self.entries@[j]).0.deep_view() == k.deep_view();
                assert(self.entries@[j].0.deep_view() != k.deep_view());
            }
            assert(self.map() =~= old(self).map().remove(k.deep_view()));
        }
        None
    }

    /// Stores `v` under `k`, replacing what was stored there.
    pub fn insert(&mut self, k: K, v: V)
        ensures
            final(self).map() == old(self).map().insert(k.deep_view(), v),
    {
        proof {
            use_type_invariant(&*self);
        }
        let ghost kv = k.deep_view();
        let mut i: usize = 0;
        while i < self.entries.len()
            invariant
                i <= self.entries@.len(),
                forall|j: int| 0 <= j < i ==> (#[trigger] self.entries@[j]).0.deep_view() != kv,
                kv == k.deep_view(),
                self.entries@ == old(self).entries@,
                distinct_keys(self.entries@),
            decreases self.entries@.len() - i,
        {
            if self.entries[i].0.key_eq(&k) {
                let ghost old_entries = self.entries@;
                proof {
                    lemma_entries_update(old_entries, i as int, (k, v));
                }
                let mut entries = Vec::new();
                std::mem::swap(&mut entries, &mut self.entries);
                entries.set(i, (k, v));
                assert(entries@ == old_entries.update(i as int, (k, v)));
                self.entries = entries;
                return;
            }
            i = i + 1;
        }
        let ghost old_entries = self.entries@;
        proof {
            if entries_has(old_entries, kv) {
                let j = choose|j: int| 0 <= j < old_entries.len() && (#[trigger] old_entries[j]).0.deep_view() == kv;
                assert(old_entries[j].0.deep_view() != kv);
            }
            lemma_entries_push(old_entries, (k, v));
        }
        let mut entries = Vec::new();
        std::mem::swap(&mut entries, &mut self.entries);
        entries.push((k, v));
        self.entries = entries;
    }
}

} // verus!
