//! A finite map held as a vector of entries with unique keys, in the order
//! the keys were first inserted.
use vstd::prelude::*;

verus! {

/// Keys that can be compared in executable code.
pub trait KeyEq: Copy + Sized {
    fn key_eq(&self, other: &Self) -> (r: bool)
        ensures
            r == (*self == *other),
    ;
}

#[verifier::reject_recursive_types(K)]
pub struct VecMap<K, V> {
    entries: Vec<(K, V)>,
    contents: Ghost<Map<K, V>>,
}

impl<K, V> View for VecMap<K, V> {
    type V = Map<K, V>;

    closed spec fn view(&self) -> Map<K, V> {
        self.contents@
    }
}

impl<K: KeyEq, V> VecMap<K, V> {
    /// Keys unique, and the entries are exactly the map's contents.
    pub closed spec fn wf(&self) -> bool {
        &&& forall|i: int, j: int|
            0 <= i < j < self.entries@.len() ==> self.entries@[i].0 != self.entries@[j].0
        &&& forall|i: int|
            0 <= i < self.entries@.len() ==> #[trigger] self.contents@.contains_key(
                self.entries@[i].0,
            ) && self.contents@[self.entries@[i].0] == self.entries@[i].1
        &&& forall|k: K| #[trigger]
            self.contents@.contains_key(k) ==> exists|i: int|
                0 <= i < self.entries@.len() && self.entries@[i].0 == k
    }

    pub fn new() -> (r: Self)
        ensures
            r.wf(),
            r@ == Map::<K, V>::empty(),
    {
        VecMap { entries: Vec::new(), contents: Ghost(Map::empty()) }
    }

    pub fn len(&self) -> (r: usize)
        requires
            self.wf(),
        ensures
            r == self@.len(),
    {
        proof {
            self.lemma_len();
        }
        self.entries.len()
    }

    proof fn lemma_len(&self)
        requires
            self.wf(),
        ensures
            self@.dom().finite(),
            self@.len() == self.entries@.len(),
        decreases self.entries@.len(),
    {
        let ks = self.entries@.map_values(|e: (K, V)| e.0);
        assert(ks.no_duplicates());
        ks.unique_seq_to_set();
        assert(ks.to_set() =~= self@.dom()) by {
            assert forall|k: K| self@.dom().contains(k) implies ks.to_set().contains(k) by {
                let i = choose|i: int| 0 <= i < self.entries@.len() && self.entries@[i].0 == k;
                assert(ks[i] == k);
            }
        }
    }

    /// The position of `k` among the entries.
    fn find(&self, k: &K) -> (r: Option<usize>)
        requires
            self.wf(),
        ensures
            match r {
                Some(i) => i < self.entries@.len() && self.entries@[i as int].0 == *k,
                None => !self@.contains_key(*k),
            },
    {
        let mut i: usize = 0;
        while i < self.entries.len()
            invariant
                self.wf(),
                0 <= i <= self.entries@.len(),
                forall|j: int| 0 <= j < i ==> self.entries@[j].0 != *k,
            decreases self.entries@.len() - i,
        {
            if self.entries[i].0.key_eq(k) {
                return Some(i);
            }
            i = i + 1;
        }
        None
    }

    pub fn contains_key(&self, k: &K) -> (r: bool)
        requires
            self.wf(),
        ensures
            r == self@.contains_key(*k),
    {
        match self.find(k) {
            Some(_) => true,
            None => false,
        }
    }

    pub fn get(&self, k: &K) -> (r: Option<&V>)
        requires
            self.wf(),
        ensures
            match r {
                Some(v) => self@.contains_key(*k) && *v == self@[*k],
                None => !self@.contains_key(*k),
            },
    {
        match self.find(k) {
            Some(i) => {
                assert(self.contents@.contains_key(self.entries@[i as int].0));
                Some(&self.entries[i].1)
            },
            None => None,
        }
    }

    /// The keys, each once, in the order they were first inserted.
    pub fn keys(&self) -> (r: Vec<K>)
        requires
            self.wf(),
        ensures
            r@.no_duplicates(),
            forall|k: K| self@.contains_key(k) <==> r@.contains(k),
    {
        let mut r: Vec<K> = Vec::new();
        let mut i: usize = 0;
        while i < self.entries.len()
            invariant
                self.wf(),
                0 <= i <= self.entries@.len(),
                r@.len() == i,
                forall|j: int| 0 <= j < i ==> r@[j] == self.entries@[j].0,
            decreases self.entries@.len() - i,
        {
            r.push(self.entries[i].0);
            i = i + 1;
        }
        assert forall|k: K| self@.contains_key(k) <==> r@.contains(k) by {
            if self@.contains_key(k) {
                let j = choose|j: int| 0 <= j < self.entries@.len() && self.entries@[j].0 == k;
                assert(r@[j] == k);
            }
            if r@.contains(k) {
                let j = choose|j: int| 0 <= j < r@.len() && r@[j] == k;
                assert(self.contents@.contains_key(self.entries@[j].0));
            }
        }
        r
    }

    /// Sets `k` to `v`, replacing any earlier value of `k`.
    pub fn insert(&mut self, k: K, v: V)
        requires
            old(self).wf(),
        ensures
            final(self).wf(),
            final(self)@ == old(self)@.insert(k, v),
    {
        let ghost old_entries = self.entries@;
        let ghost mut at: int = 0;
        match self.find(&k) {
            Some(i) => {
                self.entries.set(i, (k, v));
                proof {
                    at = i as int;
                }
            },
            None => {
                proof {
                    at = self.entries@.len() as int;
                }
                self.entries.push((k, v));
                assert forall|j: int| 0 <= j < old_entries.len() implies old_entries[j].0 != k by {
                    assert(old(self).contents@.contains_key(old_entries[j].0));
                }
            },
        }
        assert(self.entries@[at].0 == k);
        self.contents = Ghost(self.contents@.insert(k, v));
        proof {
            assert forall|j: int|
                0 <= j < self.entries@.len() implies #[trigger] self.contents@.contains_key(
                self.entries@[j].0,
            ) && self.contents@[self.entries@[j].0] == self.entries@[j].1 by {
                if self.entries@[j].0 != k {
                    assert(old_entries[j] == self.entries@[j]);
                }
            }
            assert forall|kk: K| #[trigger]
                self.contents@.contains_key(kk) implies exists|i: int|
                0 <= i < self.entries@.len() && self.entries@[i].0 == kk by {
                if kk != k {
                    let i = choose|i: int| 0 <= i < old_entries.len() && old_entries[i].0 == kk;
                    assert(self.entries@[i].0 == kk);
                } else {
                    assert(self.entries@[at].0 == kk);
                }
            }
        }
    }

    /// Removes `k`, handing back its value if it was present.
    pub fn remove(&mut self, k: &K) -> (r: Option<V>)
        requires
            old(self).wf(),
        ensures
            final(self).wf(),
            final(self)@ == old(self)@.remove(*k),
            match r {
                Some(v) => old(self)@.contains_key(*k) && v == old(self)@[*k],
                None => !old(self)@.contains_key(*k),
            },
    {
        match self.find(k) {
            Some(i) => {
                let ghost old_entries = self.entries@;
                assert(self.contents@.contains_key(old_entries[i as int].0));
                let e = self.entries.remove(i);
                self.contents = Ghost(self.contents@.remove(*k));
                proof {
                    assert forall|a: int, b: int|
                        0 <= a < b < self.entries@.len() implies self.entries@[a].0
                        != self.entries@[b].0 by {
                        let oa = if a < i { a } else { a + 1 };
                        let ob = if b < i { b } else { b + 1 };
                        assert(self.entries@[a] == old_entries[oa]);
                        assert(self.entries@[b] == old_entries[ob]);
                    }
                    assert forall|j: int|
                        0 <= j < self.entries@.len() implies #[trigger] self.contents@.contains_key(
                        self.entries@[j].0,
                    ) && self.contents@[self.entries@[j].0] == self.entries@[j].1 by {
                        let oj = if j < i { j } else { j + 1 };
                        assert(self.entries@[j] == old_entries[oj]);
                        assert(old(self).contents@.contains_key(old_entries[oj].0));
                        assert(old_entries[oj].0 != *k);
                    }
                    assert forall|kk: K| #[trigger]
                        self.contents@.contains_key(kk) implies exists|a: int|
                        0 <= a < self.entries@.len() && self.entries@[a].0 == kk by {
                        let oa = choose|a: int| 0 <= a < old_entries.len() && old_entries[a].0 == kk;
                        if oa < i {
                            assert(self.entries@[oa].0 == kk);
                        } else {
                            assert(self.entries@[oa - 1].0 == kk);
                        }
                    }
                }
                Some(e.1)
            },
            None => {
                assert(self@.remove(*k) =~= self@);
                None
            },
        }
    }
}

impl<K: KeyEq, V: KeyEq> VecMap<K, V> {
    /// Drops every entry whose value equals `v`.
    pub fn remove_value(&mut self, v: &V)
        requires
            old(self).wf(),
        ensures
            final(self).wf(),
            final(self)@ == Map::new(
                |k: K| old(self)@.contains_key(k) && old(self)@[k] != *v,
                |k: K| old(self)@[k],
            ),
    {
        let mut out: VecMap<K, V> = VecMap::new();
        let mut i: usize = 0;
        while i < self.entries.len()
            invariant
                self.wf(),
                out.wf(),
                0 <= i <= self.entries@.len(),
                out@ == Map::new(
                    |k: K|
                        exists|j: int|
                            0 <= j < i && self.entries@[j].0 == k && self.entries@[j].1 != *v,
                    |k: K| self@[k],
                ),
            decreases self.entries@.len() - i,
        {
            let (k, val) = self.entries[i];
            assert(self.contents@.contains_key(self.entries@[i as int].0));
            let ghost before = out@;
            if !val.key_eq(v) {
                out.insert(k, val);
            }
            proof {
                let next = Map::new(
                    |kk: K|
                        exists|j: int|
                            0 <= j < i + 1 && self.entries@[j].0 == kk && self.entries@[j].1
                                != *v,
                    |kk: K| self@[kk],
                );
                assert forall|kk: K| #[trigger] next.contains_key(kk) == out@.contains_key(kk) by {
                    if next.contains_key(kk) && kk != k {
                        let j = choose|j: int|
                            0 <= j < i + 1 && self.entries@[j].0 == kk && self.entries@[j].1
                                != *v;
                        assert(j < i);
                    }
                    if kk == k && val == *v {
                        assert forall|j: int|
                            0 <= j < i + 1 && self.entries@[j].0 == kk implies self.entries@[j].1
                            == *v by {
                            if j != i {
                                assert(self.entries@[j].0 != self.entries@[i as int].0);
                            }
                        }
                    }
                }
                assert(out@ =~= next);
            }
            i = i + 1;
        }
        proof {
            let target = Map::new(
                |k: K| self@.contains_key(k) && self@[k] != *v,
                |k: K| self@[k],
            );
            assert forall|kk: K| #[trigger] target.contains_key(kk) == out@.contains_key(kk) by {
                if self@.contains_key(kk) {
                    let j = choose|j: int| 0 <= j < self.entries@.len() && self.entries@[j].0 == kk;
                    assert(self.contents@.contains_key(self.entries@[j].0));
                }
                if out@.contains_key(kk) {
                    let j = choose|j: int|
                        0 <= j < self.entries@.len() && self.entries@[j].0 == kk
                            && self.entries@[j].1 != *v;
                    assert(self.contents@.contains_key(self.entries@[j].0));
                }
            }
            assert(out@ =~= target);
        }
        *self = out;
    }
}

} // verus!
