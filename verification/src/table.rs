//! A finite map kept as a list of entries with pairwise distinct keys.
use vstd::prelude::*;

use crate::primitives::{Address, Bytes32};

verus! {

/// A key type whose executable comparison agrees with equality.
pub trait TableKey: Copy + Sized {
    fn same(&self, other: &Self) -> (r: bool)
        ensures
            r == (*self == *other),
    ;
}

impl TableKey for Bytes32 {
    fn same(&self, other: &Self) -> (r: bool) {
        *self == *other
    }
}

impl TableKey for Address {
    fn same(&self, other: &Self) -> (r: bool) {
        *self == *other
    }
}

/// A finite map from keys to copyable records.
#[derive(Clone)]
pub struct Table<K, V> {
    entries: Vec<(K, V)>,
}

pub open spec fn key_at<K, V>(s: Seq<(K, V)>, i: int, k: K) -> bool {
    0 <= i < s.len() && s[i].0 == k
}

pub open spec fn seq_map<K, V>(s: Seq<(K, V)>) -> Map<K, V> {
    Map::new(
        |k: K| exists|i: int| #[trigger] key_at(s, i, k),
        |k: K| s[choose|i: int| #[trigger] key_at(s, i, k)].1,
    )
}

pub open spec fn distinct_keys<K, V>(s: Seq<(K, V)>) -> bool {
    forall|i: int, j: int|
        0 <= i < s.len() && 0 <= j < s.len() && i != j ==> #[trigger] s[i].0 != #[trigger] s[j].0
}

/// The value stored at a position whose key is `k` is the map's value at `k`.
pub proof fn lemma_value_at<K, V>(s: Seq<(K, V)>, i: int, k: K)
    requires
        distinct_keys(s),
        key_at(s, i, k),
    ensures
        seq_map(s).contains_key(k),
        seq_map(s)[k] == s[i].1,
{
    let j = choose|j: int| #[trigger] key_at(s, j, k);
    assert(key_at(s, j, k));
    assert(s[j].0 == s[i].0);
}

proof fn lemma_absent<K, V>(s: Seq<(K, V)>, k: K)
    requires
        forall|i: int| 0 <= i < s.len() ==> s[i].0 != k,
    ensures
        !seq_map(s).contains_key(k),
{
    if exists|i: int| #[trigger] key_at(s, i, k) {
        let i = choose|i: int| #[trigger] key_at(s, i, k);
        assert(s[i].0 != k);
    }
}

/// The map built by inserting the entries in order: where a key repeats,
/// the later entry wins.
pub open spec fn entries_map<K, V>(s: Seq<(K, V)>) -> Map<K, V>
    decreases s.len(),
{
    if s.len() == 0 {
        Map::empty()
    } else {
        entries_map(s.drop_last()).insert(s.last().0, s.last().1)
    }
}

/// Appending an entry with a new key adds exactly that key.
proof fn lemma_push_new_key<K, V>(s0: Seq<(K, V)>, k: K, v: V)
    requires
        distinct_keys(s0.push((k, v))),
    ensures
        seq_map(s0.push((k, v))) == seq_map(s0).insert(k, v),
{
    let s1 = s0.push((k, v));
    assert forall|i: int| 0 <= i < s0.len() implies s0[i].0 != k by {
        assert(s1[i] == s0[i]);
        assert(s1[s0.len() as int] == (k, v));
        assert(s1[i].0 != s1[s0.len() as int].0);
    }
    assert(distinct_keys(s0)) by {
        assert forall|a: int, b: int|
            0 <= a < s0.len() && 0 <= b < s0.len() && a != b implies #[trigger] s0[a].0 != #[trigger] s0[b].0 by {
            assert(s1[a] == s0[a]);
            assert(s1[b] == s0[b]);
            assert(s1[a].0 != s1[b].0);
        }
    }
    assert forall|x: K| #[trigger] seq_map(s1).contains_key(x) == seq_map(s0).insert(k, v).contains_key(x) by {
        if seq_map(s1).contains_key(x) {
            let j = choose|j: int| #[trigger] key_at(s1, j, x);
            assert(key_at(s1, j, x));
            if j < s0.len() {
                assert(s1[j] == s0[j]);
                assert(key_at(s0, j, x));
            } else {
                assert(s1[j] == (k, v));
            }
        }
        if seq_map(s0).contains_key(x) {
            let j = choose|j: int| #[trigger] key_at(s0, j, x);
            assert(s1[j] == s0[j]);
            assert(key_at(s1, j, x));
        }
        if x == k {
            assert(s1[s0.len() as int] == (k, v));
            assert(key_at(s1, s0.len() as int, x));
        }
    }
    assert forall|x: K| #[trigger] seq_map(s1).contains_key(x) implies seq_map(s1)[x] == seq_map(s0).insert(
        k,
        v,
    )[x] by {
        let j = choose|j: int| #[trigger] key_at(s1, j, x);
        lemma_value_at(s1, j, x);
        if x != k {
            assert(s1[j] == s0[j]);
            assert(key_at(s0, j, x));
            lemma_value_at(s0, j, x);
        } else {
            assert(key_at(s1, s0.len() as int, k));
            lemma_value_at(s1, s0.len() as int, k);
        }
    }
    assert(seq_map(s1) =~= seq_map(s0).insert(k, v));
}

/// Over entries with distinct keys, inserting them in order builds the map
/// they list.
pub proof fn lemma_entries_map_of_distinct<K, V>(s: Seq<(K, V)>)
    requires
        distinct_keys(s),
    ensures
        entries_map(s) == seq_map(s),
    decreases s.len(),
{
    if s.len() == 0 {
        assert forall|x: K| !#[trigger] seq_map(s).contains_key(x) by {
            lemma_absent(s, x);
        }
        assert(seq_map(s) =~= Map::empty());
    } else {
        let p = s.drop_last();
        assert(distinct_keys(p)) by {
            assert forall|a: int, b: int|
                0 <= a < p.len() && 0 <= b < p.len() && a != b implies #[trigger] p[a].0 != #[trigger] p[b].0 by {
                assert(p[a] == s[a]);
                assert(p[b] == s[b]);
            }
        }
        lemma_entries_map_of_distinct(p);
        assert(s =~= p.push(s.last()));
        lemma_push_new_key(p, s.last().0, s.last().1);
    }
}

impl<K, V> View for Table<K, V> {
    type V = Map<K, V>;

    closed spec fn view(&self) -> Map<K, V> {
        seq_map(self.entries@)
    }
}

impl<K: TableKey, V: Copy> Table<K, V> {
    /// The table's internal invariant: no key is stored twice.
    pub closed spec fn wf(&self) -> bool {
        distinct_keys(self.entries@)
    }

    pub fn new() -> (t: Self)
        ensures
            t.wf(),
            t@ == Map::<K, V>::empty(),
    {
        let t = Table { entries: Vec::new() };
        proof {
            assert(t@ =~= Map::<K, V>::empty());
        }
        t
    }

    fn find(&self, k: &K) -> (r: Option<usize>)
        ensures
            match r {
                Some(i) => i < self.entries@.len() && self.entries@[i as int].0 == *k,
                None => forall|i: int| 0 <= i < self.entries@.len() ==> self.entries@[i].0 != *k,
            },
    {
        let n = self.entries.len();
        let mut i: usize = 0;
        while i < n
            invariant
                n == self.entries@.len(),
                i <= n,
                forall|j: int| 0 <= j < i ==> self.entries@[j].0 != *k,
            decreases n - i,
        {
            if self.entries[i].0.same(k) {
                return Some(i);
            }
            i = i + 1;
        }
        None
    }

    pub fn get(&self, k: &K) -> (r: Option<V>)
        requires
            self.wf(),
        ensures
            r == self@.index_opt(*k),
    {
        match self.find(k) {
            Some(i) => {
                proof {
                    lemma_value_at(self.entries@, i as int, *k);
                }
                Some(self.entries[i].1)
            },
            None => {
                proof {
                    lemma_absent(self.entries@, *k);
                }
                None
            },
        }
    }

    pub fn contains(&self, k: &K) -> (r: bool)
        requires
            self.wf(),
        ensures
            r == self@.contains_key(*k),
    {
        match self.find(k) {
            Some(i) => {
                proof {
                    lemma_value_at(self.entries@, i as int, *k);
                }
                true
            },
            None => {
                proof {
                    lemma_absent(self.entries@, *k);
                }
                false
            },
        }
    }

    pub fn set(&mut self, k: K, v: V)
        requires
            old(self).wf(),
        ensures
            final(self).wf(),
            final(self)@ == old(self)@.insert(k, v),
    {
        let ghost s0 = self.entries@;
        match self.find(&k) {
            Some(i) => {
                self.entries.set(i, (k, v));
                proof {
                    let s1 = self.entries@;
                    assert(s1 == s0.update(i as int, (k, v)));
                    assert(distinct_keys(s1)) by {
                        assert forall|a: int, b: int|
                            0 <= a < s1.len() && 0 <= b < s1.len() && a != b implies #[trigger] s1[a].0
                            != #[trigger] s1[b].0 by {
                            assert(s1[a].0 == s0[a].0);
                            assert(s1[b].0 == s0[b].0);
                        }
                    }
                    assert forall|x: K| #[trigger] seq_map(s1).contains_key(x) == seq_map(s0).insert(
                        k,
                        v,
                    ).contains_key(x) by {
                        if seq_map(s1).contains_key(x) {
                            let j = choose|j: int| #[trigger] key_at(s1, j, x);
                            assert(key_at(s1, j, x));
                            assert(s1[j].0 == s0[j].0);
                            assert(key_at(s0, j, x));
                        }
                        if seq_map(s0).contains_key(x) {
                            let j = choose|j: int| #[trigger] key_at(s0, j, x);
                            assert(key_at(s0, j, x));
                            assert(s1[j].0 == s0[j].0);
                            assert(key_at(s1, j, x));
                        }
                        if x == k {
                            assert(key_at(s1, i as int, x));
                        }
                    }
                    assert forall|x: K| #[trigger] seq_map(s1).contains_key(x) implies seq_map(s1)[x]
                        == seq_map(s0).insert(k, v)[x] by {
                        let j = choose|j: int| #[trigger] key_at(s1, j, x);
                        lemma_value_at(s1, j, x);
                        if x != k {
                            assert(key_at(s0, j, x));
                            lemma_value_at(s0, j, x);
                        }
                    }
                    assert(seq_map(s1) =~= seq_map(s0).insert(k, v));
                }
            },
            None => {
                self.entries.push((k, v));
                proof {
                    let s1 = self.entries@;
                    assert(s1 == s0.push((k, v)));
                    assert(distinct_keys(s1)) by {
                        assert forall|a: int, b: int|
                            0 <= a < s1.len() && 0 <= b < s1.len() && a != b implies #[trigger] s1[a].0
                            != #[trigger] s1[b].0 by {
                            if a < s0.len() && b < s0.len() {
                                assert(s1[a] == s0[a]);
                                assert(s1[b] == s0[b]);
                            } else if a < s0.len() {
                                assert(s1[a] == s0[a]);
                            } else {
                                assert(s1[b] == s0[b]);
                            }
                        }
                    }
                    assert forall|x: K| #[trigger] seq_map(s1).contains_key(x) == seq_map(s0).insert(
                        k,
                        v,
                    ).contains_key(x) by {
                        if seq_map(s1).contains_key(x) {
                            let j = choose|j: int| #[trigger] key_at(s1, j, x);
                            assert(key_at(s1, j, x));
                            if j < s0.len() {
                                assert(s1[j] == s0[j]);
                                assert(key_at(s0, j, x));
                                assert(seq_map(s0).contains_key(x));
                            } else {
                                assert(s1.len() == s0.len() + 1);
                                assert(j == s0.len());
                                assert(s1[j] == (k, v));
                                assert(x == k);
                            }
                        }
                        if seq_map(s0).contains_key(x) {
                            let j = choose|j: int| #[trigger] key_at(s0, j, x);
                            assert(s1[j] == s0[j]);
                            assert(key_at(s1, j, x));
                        }
                        if x == k {
                            assert(s1[s0.len() as int] == (k, v));
                            assert(key_at(s1, s0.len() as int, x));
                            assert(seq_map(s1).contains_key(x));
                            assert(seq_map(s0).insert(k, v).contains_key(x));
                        }
                        assert(seq_map(s1).contains_key(x) == seq_map(s0).insert(k, v).contains_key(x));
                    }
                    assert forall|x: K| #[trigger] seq_map(s1).contains_key(x) implies seq_map(s1)[x]
                        == seq_map(s0).insert(k, v)[x] by {
                        let j = choose|j: int| #[trigger] key_at(s1, j, x);
                        lemma_value_at(s1, j, x);
                        if x != k {
                            assert(j < s0.len());
                            assert(key_at(s0, j, x));
                            lemma_value_at(s0, j, x);
                        } else {
                            assert(key_at(s1, s0.len() as int, k));
                            lemma_value_at(s1, s0.len() as int, k);
                        }
                    }
                    assert(seq_map(s1) =~= seq_map(s0).insert(k, v));
                }
            },
        }
    }

    pub fn remove(&mut self, k: &K)
        requires
            old(self).wf(),
        ensures
            final(self).wf(),
            final(self)@ == old(self)@.remove(*k),
    {
        let ghost s0 = self.entries@;
        match self.find(k) {
            Some(i) => {
                self.entries.remove(i);
                proof {
                    let s1 = self.entries@;
                    assert(s1 == s0.remove(i as int));
                    assert forall|a: int| 0 <= a < s1.len() implies #[trigger] s1[a] == (if a < i {
                        s0[a]
                    } else {
                        s0[a + 1]
                    }) by {}
                    assert(distinct_keys(s1)) by {
                        assert forall|a: int, b: int|
                            0 <= a < s1.len() && 0 <= b < s1.len() && a != b implies #[trigger] s1[a].0
                            != #[trigger] s1[b].0 by {
                            let a0 = if a < i { a } else { a + 1 };
                            let b0 = if b < i { b } else { b + 1 };
                            assert(s1[a] == s0[a0]);
                            assert(s1[b] == s0[b0]);
                        }
                    }
                    assert forall|x: K| #[trigger] seq_map(s1).contains_key(x) == seq_map(
                        s0,
                    ).remove(*k).contains_key(x) by {
                        if exists|j: int| #[trigger] key_at(s1, j, x) {
                            let j = choose|j: int| #[trigger] key_at(s1, j, x);
                            let j0 = if j < i { j } else { j + 1 };
                            assert(s1[j] == s0[j0]);
                            assert(key_at(s0, j0, x));
                            assert(j0 != i);
                        }
                        if exists|j: int| #[trigger] key_at(s0, j, x) && x != *k {
                            let j = choose|j: int| #[trigger] key_at(s0, j, x) && x != *k;
                            assert(j != i);
                            let j1 = if j < i { j } else { j - 1 };
                            assert(s1[j1] == s0[j]);
                            assert(key_at(s1, j1, x));
                        }
                    }
                    assert forall|x: K| #[trigger] seq_map(s1).contains_key(x) implies seq_map(s1)[x]
                        == seq_map(s0).remove(*k)[x] by {
                        let j = choose|j: int| #[trigger] key_at(s1, j, x);
                        lemma_value_at(s1, j, x);
                        let j0 = if j < i { j } else { j + 1 };
                        assert(s1[j] == s0[j0]);
                        assert(key_at(s0, j0, x));
                        lemma_value_at(s0, j0, x);
                    }
                    assert(seq_map(s1) =~= seq_map(s0).remove(*k));
                }
            },
            None => {
                proof {
                    lemma_absent(s0, *k);
                    assert(seq_map(s0) =~= seq_map(s0).remove(*k));
                }
            },
        }
    }

    /// The entries, each key once.
    pub fn entries(&self) -> (r: Vec<(K, V)>)
        requires
            self.wf(),
        ensures
            distinct_keys(r@),
            seq_map(r@) == self@,
    {
        let n = self.entries.len();
        let mut r: Vec<(K, V)> = Vec::new();
        let mut i: usize = 0;
        while i < n
            invariant
                n == self.entries@.len(),
                i <= n,
                r@ == self.entries@.take(i as int),
            decreases n - i,
        {
            r.push(self.entries[i]);
            i = i + 1;
            proof {
                assert(r@ =~= self.entries@.take(i as int));
            }
        }
        proof {
            assert(r@ =~= self.entries@);
        }
        r
    }

    /// A table holding the given entries; where a key repeats, the later
    /// entry wins.
    pub fn from_entries(v: &Vec<(K, V)>) -> (t: Self)
        ensures
            t.wf(),
            t@ == entries_map(v@),
    {
        let mut t = Table::new();
        let n = v.len();
        let mut i: usize = 0;
        while i < n
            invariant
                n == v@.len(),
                i <= n,
                t.wf(),
                t@ == entries_map(v@.take(i as int)),
            decreases n - i,
        {
            let (k, x) = v[i];
            t.set(k, x);
            proof {
                assert(v@.take(i + 1).drop_last() =~= v@.take(i as int));
            }
            i = i + 1;
        }
        proof {
            assert(v@.take(n as int) =~= v@);
        }
        t
    }
}

} // verus!
