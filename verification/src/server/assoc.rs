//! A map stored as a vector of key-value pairs, keyed by values whose equality is decided by a
//! comparison with a specification ([`IndexKey`]).

use vstd::prelude::*;

verus! {

/// A key of an [`AssocList`]: two keys are the same key when their views are equal.
pub trait IndexKey: View + Sized {
    /// Whether `self` and `other` are the same key.
    fn same_key(&self, other: &Self) -> (same: bool)
        ensures
            same == (self@ == other@),
    ;
}

/// A map stored as key-value pairs with pairwise different keys.
pub struct AssocList<K, V> {
    entries: Vec<(K, V)>,
}

impl<K: IndexKey, V> AssocList<K, V> {
    /// The stored pairs.
    pub closed spec fn pairs(&self) -> Seq<(K, V)> {
        self.entries@
    }

    /// The keys of the stored pairs are pairwise different.
    pub closed spec fn wf(&self) -> bool {
        forall|i: int, j: int|
            0 <= i < j < self.entries@.len() ==> self.entries@[i].0@ != self.entries@[j].0@
    }

    spec fn has(&self, k: K::V) -> bool {
        exists|i: int| 0 <= i < self.entries@.len() && self.entries@[i].0@ == k
    }

    spec fn index_of(&self, k: K::V) -> int {
        choose|i: int| 0 <= i < self.entries@.len() && self.entries@[i].0@ == k
    }

    /// The map the pairs stand for.
    pub closed spec fn map(&self) -> Map<K::V, V> {
        Map::new(|k: K::V| self.has(k), |k: K::V| self.entries@[self.index_of(k)].1)
    }

    /// Every key of the map is the key of a stored pair.
    pub proof fn lemma_key_stored(&self, k: K::V)
        requires
            self.map().contains_key(k),
        ensures
            exists|j: int| 0 <= j < self.pairs().len() && self.pairs()[j].0@ == k,
    {
        assert(self.has(k));
        let j = choose|j: int| 0 <= j < self.entries@.len() && self.entries@[j].0@ == k;
        assert(self.pairs()[j].0@ == k);
    }

    /// The stored pair at position `i` is in the map.
    pub proof fn lemma_index(&self, i: int)
        requires
            self.wf(),
            0 <= i < self.pairs().len(),
        ensures
            self.map().contains_key(self.pairs()[i].0@),
            self.map()[self.pairs()[i].0@] == self.pairs()[i].1,
    {
        let k = self.entries@[i].0@;
        assert(self.has(k));
        let j = self.index_of(k);
        assert(0 <= j < self.entries@.len() && self.entries@[j].0@ == k);
        if j < i {
        } else if j > i {
        }
    }

    /// An empty map.
    pub fn new() -> (list: Self)
        ensures
            list.wf(),
            list.map() == Map::<K::V, V>::empty(),
    {
        let list = AssocList { entries: Vec::new() };
        assert(list.map() =~= Map::<K::V, V>::empty());
        list
    }

    /// The position of the pair with key `k`, if there is one.
    pub fn find(&self, k: &K) -> (index: Option<usize>)
        requires
            self.wf(),
        ensures
            index is None <==> !self.map().contains_key(k@),
            index matches Some(i) ==> i < self.pairs().len() && self.pairs()[i as int].0@ == k@
                && self.map()[k@] == self.pairs()[i as int].1,
    {
        let mut i: usize = 0;
        while i < self.entries.len()
            invariant
                self.wf(),
                0 <= i <= self.entries@.len(),
                forall|j: int| 0 <= j < i ==> self.entries@[j].0@ != k@,
            decreases self.entries@.len() - i,
        {
            if self.entries[i].0.same_key(k) {
                proof {
                    self.lemma_index(i as int);
                }
                return Some(i);
            }
            i = i + 1;
        }
        None
    }

    /// The value stored under `k`.
    pub fn get(&self, k: &K) -> (value: Option<&V>)
        requires
            self.wf(),
        ensures
            value is None <==> !self.map().contains_key(k@),
            value matches Some(v) ==> *v == self.map()[k@],
    {
        match self.find(k) {
            Some(i) => Some(&self.entries[i].1),
            None => None,
        }
    }

    /// Stores `v` under `k`, replacing what was stored under it.
    pub fn insert(&mut self, k: K, v: V)
        requires
            old(self).wf(),
        ensures
            final(self).wf(),
            final(self).map() == old(self).map().insert(k@, v),
    {
        let ghost old_map = self.map();
        let ghost key = k@;
        match self.find(&k) {
            Some(i) => {
                let ghost before = self.entries@;
                self.entries.set(i, (k, v));
                proof {
                    assert(self.entries@ == before.update(i as int, (k, v)));
                    assert forall|a: int, b: int|
                        0 <= a < b < self.entries@.len() implies self.entries@[a].0@
                        != self.entries@[b].0@ by {
                        assert(before[a].0@ != before[b].0@);
                    }
                    assert forall|kk: K::V| #[trigger]
                        self.map().contains_key(kk) == old_map.insert(key, v).contains_key(kk) by {
                        if old_map.contains_key(kk) {
                            let j = choose|j: int| 0 <= j < before.len() && before[j].0@ == kk;
                            assert(self.entries@[j].0@ == kk);
                        }
                        if self.has(kk) {
                            let j = choose|j: int|
                                0 <= j < self.entries@.len() && self.entries@[j].0@ == kk;
                            if j != i {
                                assert(before[j].0@ == kk);
                            }
                        }
                    }
                    assert forall|kk: K::V| #[trigger]
                        self.map().contains_key(kk) implies self.map()[kk] == old_map.insert(
                        key,
                        v,
                    )[kk] by {
                        let j = choose|j: int|
                            0 <= j < self.entries@.len() && self.entries@[j].0@ == kk;
                        self.lemma_index(j);
                        if j != i {
                            assert(before[j] == self.entries@[j]);
                            assert(forall|x: int, y: int|
                                0 <= x < y < before.len() ==> before[x].0@ != before[y].0@);
                            assert(old_map.contains_key(kk));
                            let oj = choose|oj: int| 0 <= oj < before.len() && before[oj].0@ == kk;
                            assert(oj == j);
                        }
                    }
                    assert(self.map() =~= old_map.insert(key, v));
                }
            },
            None => {
                let ghost before = self.entries@;
                self.entries.push((k, v));
                proof {
                    assert forall|a: int, b: int|
                        0 <= a < b < self.entries@.len() implies self.entries@[a].0@
                        != self.entries@[b].0@ by {
                        if b == before.len() {
                            assert(before[a].0@ != key) by {
                                if before[a].0@ == key {
                                    assert(old_map.contains_key(key));
                                }
                            }
                        } else {
                            assert(before[a].0@ != before[b].0@);
                        }
                    }
                    assert forall|kk: K::V| #[trigger]
                        self.map().contains_key(kk) == old_map.insert(key, v).contains_key(kk) by {
                        if old_map.contains_key(kk) {
                            let j = choose|j: int| 0 <= j < before.len() && before[j].0@ == kk;
                            assert(self.entries@[j].0@ == kk);
                        }
                        if kk == key {
                            assert(self.entries@[before.len() as int].0@ == kk);
                        }
                        if self.has(kk) {
                            let j = choose|j: int|
                                0 <= j < self.entries@.len() && self.entries@[j].0@ == kk;
                            if j < before.len() {
                                assert(before[j].0@ == kk);
                            }
                        }
                    }
                    assert forall|kk: K::V| #[trigger]
                        self.map().contains_key(kk) implies self.map()[kk] == old_map.insert(
                        key,
                        v,
                    )[kk] by {
                        let j = choose|j: int|
                            0 <= j < self.entries@.len() && self.entries@[j].0@ == kk;
                        self.lemma_index(j);
                        if j < before.len() {
                            assert(before[j] == self.entries@[j]);
                            let oj = choose|oj: int| 0 <= oj < before.len() && before[oj].0@ == kk;
                            assert(oj == j);
                        }
                    }
                    assert(self.map() =~= old_map.insert(key, v));
                }
            },
        }
    }

    /// Replaces the value of the pair at position `i`, giving back the value it held.
    pub fn replace_value(&mut self, i: usize, v: V) -> (previous: V)
        requires
            old(self).wf(),
            i < old(self).pairs().len(),
        ensures
            final(self).wf(),
            final(self).pairs().len() == old(self).pairs().len(),
            final(self).pairs()[i as int].0 == old(self).pairs()[i as int].0,
            previous == old(self).pairs()[i as int].1,
            previous == old(self).map()[old(self).pairs()[i as int].0@],
            final(self).map() == old(self).map().insert(old(self).pairs()[i as int].0@, v),
    {
        proof {
            self.lemma_index(i as int);
        }
        let ghost old_map = self.map();
        let ghost before = self.entries@;
        let ghost key = self.entries@[i as int].0@;
        let (k, previous) = self.entries.remove(i);
        self.entries.insert(i, (k, v));
        proof {
            assert(self.entries@ =~= before.update(i as int, (before[i as int].0, v)));
            assert forall|a: int, b: int|
                0 <= a < b < self.entries@.len() implies self.entries@[a].0@
                != self.entries@[b].0@ by {
                assert(before[a].0@ != before[b].0@);
            }
            assert forall|kk: K::V| #[trigger]
                self.map().contains_key(kk) == old_map.insert(key, v).contains_key(kk) by {
                if old_map.contains_key(kk) {
                    let j = choose|j: int| 0 <= j < before.len() && before[j].0@ == kk;
                    assert(self.entries@[j].0@ == kk);
                }
                if self.has(kk) {
                    let j = choose|j: int| 0 <= j < self.entries@.len() && self.entries@[j].0@ == kk;
                    assert(before[j].0@ == kk);
                }
            }
            assert forall|kk: K::V| #[trigger]
                self.map().contains_key(kk) implies self.map()[kk] == old_map.insert(key, v)[kk] by {
                let j = choose|j: int| 0 <= j < self.entries@.len() && self.entries@[j].0@ == kk;
                self.lemma_index(j);
                if j != i {
                    assert(before[j] == self.entries@[j]);
                    let oj = choose|oj: int| 0 <= oj < before.len() && before[oj].0@ == kk;
                    assert(oj == j);
                }
            }
            assert(self.map() =~= old_map.insert(key, v));
        }
        previous
    }

    /// Removes the pair at position `i`, giving it back.
    pub fn remove_at(&mut self, i: usize) -> (pair: (K, V))
        requires
            old(self).wf(),
            i < old(self).pairs().len(),
        ensures
            final(self).wf(),
            pair == old(self).pairs()[i as int],
            final(self).pairs() == old(self).pairs().remove(i as int),
            final(self).map() == old(self).map().remove(old(self).pairs()[i as int].0@),
    {
        proof {
            self.lemma_index(i as int);
        }
        let ghost old_map = self.map();
        let ghost before = self.entries@;
        let ghost key = self.entries@[i as int].0@;
        let pair = self.entries.remove(i);
        proof {
            assert forall|a: int, b: int|
                0 <= a < b < self.entries@.len() implies self.entries@[a].0@
                != self.entries@[b].0@ by {
                if a < i && b < i {
                    assert(before[a].0@ != before[b].0@);
                } else if a < i {
                    assert(before[a].0@ != before[b + 1].0@);
                } else {
                    assert(before[a + 1].0@ != before[b + 1].0@);
                }
            }
            assert forall|kk: K::V| #[trigger]
                self.map().contains_key(kk) == old_map.remove(key).contains_key(kk) by {
                if old_map.contains_key(kk) && kk != key {
                    let j = choose|j: int| 0 <= j < before.len() && before[j].0@ == kk;
                    if j < i {
                        assert(self.entries@[j].0@ == kk);
                    } else {
                        assert(j != i);
                        assert(self.entries@[j - 1].0@ == kk);
                    }
                }
                if self.has(kk) {
                    let j = choose|j: int| 0 <= j < self.entries@.len() && self.entries@[j].0@ == kk;
                    if j < i {
                        assert(before[j].0@ == kk);
                        assert(before[i as int].0@ != before[j].0@);
                    } else {
                        assert(before[j + 1].0@ == kk);
                        assert(before[i as int].0@ != before[j + 1].0@);
                    }
                }
            }
            assert forall|kk: K::V| #[trigger]
                self.map().contains_key(kk) implies self.map()[kk] == old_map.remove(key)[kk] by {
                let j = choose|j: int| 0 <= j < self.entries@.len() && self.entries@[j].0@ == kk;
                self.lemma_index(j);
                let oj = if j < i { j } else { j + 1 };
                assert(before[oj] == self.entries@[j]);
                let ok = choose|ok: int| 0 <= ok < before.len() && before[ok].0@ == kk;
                assert(ok == oj);
            }
            assert(self.map() =~= old_map.remove(key));
        }
        pair
    }
}

impl<K: IndexKey> AssocList<K, u128> {
    /// Removes every pair whose value is `id`.
    pub fn remove_value(&mut self, id: u128)
        requires
            old(self).wf(),
        ensures
            final(self).wf(),
            final(self).map() == without_value(old(self).map(), id),
    {
        let ghost old_map = self.map();
        let mut i: usize = 0;
        while i < self.entries.len()
            invariant
                self.wf(),
                0 <= i <= self.entries@.len(),
                forall|j: int| 0 <= j < i ==> self.entries@[j].1 != id,
                forall|k: K::V| #[trigger]
                    self.map().contains_key(k) ==> old_map.contains_key(k) && self.map()[k]
                        == old_map[k],
                forall|k: K::V| #[trigger]
                    old_map.contains_key(k) && old_map[k] != id ==> self.map().contains_key(k),
            decreases self.entries@.len() - i,
        {
            if self.entries[i].1 == id {
                proof {
                    self.lemma_index(i as int);
                }
                self.remove_at(i);
            } else {
                i = i + 1;
            }
        }
        proof {
            assert forall|k: K::V| #[trigger] self.map().contains_key(k) implies self.map()[k] != id by {
                let j = choose|j: int| 0 <= j < self.entries@.len() && self.entries@[j].0@ == k;
                self.lemma_index(j);
            }
            assert(self.map() =~= without_value(old_map, id));
        }
    }
}

/// `m` without the entries whose value is `id`.
pub open spec fn without_value<KV>(m: Map<KV, u128>, id: u128) -> Map<KV, u128> {
    Map::new(|k: KV| m.contains_key(k) && m[k] != id, |k: KV| m[k])
}

/// A set of room identifiers stored as a vector without repetitions.
pub struct IdSet {
    ids: Vec<u128>,
}

impl View for IdSet {
    type V = Set<u128>;

    closed spec fn view(&self) -> Set<u128> {
        self.ids@.to_set()
    }
}

impl IdSet {
    /// The identifiers in their stored order.
    pub closed spec fn elements(&self) -> Seq<u128> {
        self.ids@
    }

    /// No identifier is stored twice.
    pub closed spec fn wf(&self) -> bool {
        self.ids@.no_duplicates()
    }

    /// The identifiers in their stored order.
    pub fn as_vec(&self) -> (ids: &Vec<u128>)
        ensures
            ids@ == self.elements(),
            self@ == ids@.to_set(),
            self.wf() ==> ids@.no_duplicates(),
    {
        &self.ids
    }

    /// An empty set.
    pub fn new() -> (set: Self)
        ensures
            set.wf(),
            set@ == Set::<u128>::empty(),
    {
        let set = IdSet { ids: Vec::new() };
        assert(set@ =~= Set::<u128>::empty());
        set
    }

    /// Whether `id` is in the set.
    pub fn contains(&self, id: u128) -> (found: bool)
        ensures
            found == self@.contains(id),
    {
        let mut i: usize = 0;
        while i < self.ids.len()
            invariant
                0 <= i <= self.ids@.len(),
                forall|j: int| 0 <= j < i ==> self.ids@[j] != id,
            decreases self.ids@.len() - i,
        {
            if self.ids[i] == id {
                assert(self.ids@.contains(id));
                return true;
            }
            i = i + 1;
        }
        false
    }

    /// Adds `id` to the set.
    pub fn insert(&mut self, id: u128)
        requires
            old(self).wf(),
        ensures
            final(self).wf(),
            final(self)@ == old(self)@.insert(id),
    {
        if !self.contains(id) {
            let ghost before = self.ids@;
            self.ids.push(id);
            proof {
                assert(self.ids@ == before.push(id));
                assert(self@ =~= before.to_set().insert(id)) by {
                    assert forall|x: u128| self@.contains(x) == before.to_set().insert(id).contains(x) by {
                        if x != id && self@.contains(x) {
                            let j = choose|j: int| 0 <= j < self.ids@.len() && self.ids@[j] == x;
                            assert(before[j] == x);
                        }
                        if before.to_set().contains(x) {
                            let j = choose|j: int| 0 <= j < before.len() && before[j] == x;
                            assert(self.ids@[j] == x);
                        }
                        if x == id {
                            assert(self.ids@[before.len() as int] == x);
                        }
                    }
                }
            }
        } else {
            assert(self@ =~= self@.insert(id));
        }
    }

    /// Removes `id` from the set.
    pub fn remove(&mut self, id: u128)
        requires
            old(self).wf(),
        ensures
            final(self).wf(),
            final(self)@ == old(self)@.remove(id),
    {
        let mut i: usize = 0;
        while i < self.ids.len()
            invariant
                self.wf(),
                self.ids@ == old(self).ids@,
                0 <= i <= self.ids@.len(),
                forall|j: int| 0 <= j < i ==> self.ids@[j] != id,
            decreases self.ids@.len() - i,
        {
            if self.ids[i] == id {
                let ghost before = self.ids@;
                self.ids.remove(i);
                proof {
                    assert(self.ids@ == before.remove(i as int));
                    assert(self@ =~= before.to_set().remove(id)) by {
                        assert forall|x: u128|
                            self@.contains(x) == before.to_set().remove(id).contains(x) by {
                            if self@.contains(x) {
                                let j = choose|j: int|
                                    0 <= j < self.ids@.len() && self.ids@[j] == x;
                                let oj = if j < i { j } else { j + 1 };
                                assert(before[oj] == x);
                                assert(oj != i);
                            }
                            if before.to_set().remove(id).contains(x) {
                                let j = choose|j: int| 0 <= j < before.len() && before[j] == x;
                                assert(j != i);
                                if j < i {
                                    assert(self.ids@[j] == x);
                                } else {
                                    assert(self.ids@[j - 1] == x);
                                }
                            }
                        }
                    }
                }
                return;
            }
            i = i + 1;
        }
        proof {
            assert(!self@.contains(id));
            assert(self@ =~= self@.remove(id));
        }
    }
}

impl IndexKey for u128 {
    fn same_key(&self, other: &Self) -> (same: bool) {
        *self == *other
    }
}

} // verus!
