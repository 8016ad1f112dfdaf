use vstd::prelude::*;

verus! {

/// A storage map keyed by text: an association list whose keys are pairwise
/// distinct, viewed as a finite map from the key's characters to the value.
#[derive(Debug)]
pub struct StorageMap<V> {
    entries: Vec<(String, V)>,
}

impl<V> View for StorageMap<V> {
    type V = Map<Seq<char>, V>;

    closed spec fn view(&self) -> Map<Seq<char>, V> {
        Map::new(
            |k: Seq<char>| exists|i: int| 0 <= i < self.entries@.len() && #[trigger] self.entries@[i].0@ == k,
            |k: Seq<char>|
                self.entries@[choose|i: int| 0 <= i < self.entries@.len() && #[trigger] self.entries@[i].0@ == k].1,
        )
    }
}

impl<V> StorageMap<V> {
    /// The keys are pairwise distinct.
    pub closed spec fn wf(&self) -> bool {
        forall|i: int, j: int|
            0 <= i < self.entries@.len() && 0 <= j < self.entries@.len() && i != j
                ==> #[trigger] self.entries@[i].0@ != #[trigger] self.entries@[j].0@
    }

    proof fn lemma_entry(&self, i: int)
        requires
            self.wf(),
            0 <= i < self.entries@.len(),
        ensures
            self@.contains_key(self.entries@[i].0@),
            self@[self.entries@[i].0@] == self.entries@[i].1,
    {
        let k = self.entries@[i].0@;
        assert(self.entries@[i].0@ == k);
        assert(self@.contains_key(k));
        let j = choose|j: int| 0 <= j < self.entries@.len() && #[trigger] self.entries@[j].0@ == k;
        assert(self.entries@[j].0@ == k);
    }

    proof fn lemma_absent(&self, k: Seq<char>)
        requires
            forall|i: int| 0 <= i < self.entries@.len() ==> #[trigger] self.entries@[i].0@ != k,
        ensures
            !self@.contains_key(k),
    {
    }

    /// The empty map.
    pub fn new() -> (r: Self)
        ensures
            r.wf(),
            r@ == Map::<Seq<char>, V>::empty(),
    {
        let r = StorageMap { entries: Vec::new() };
        assert(r@ =~= Map::<Seq<char>, V>::empty());
        r
    }

    fn find(&self, key: &String) -> (r: Option<usize>)
        requires
            self.wf(),
        ensures
            match r {
                Some(i) => i < self.entries@.len() && self.entries@[i as int].0@ == key@,
                None => forall|i: int| 0 <= i < self.entries@.len() ==> #[trigger] self.entries@[i].0@ != key@,
            },
    {
        let mut i: usize = 0;
        while i < self.entries.len()
            invariant
                i <= self.entries@.len(),
                forall|j: int| 0 <= j < i ==> #[trigger] self.entries@[j].0@ != key@,
            decreases self.entries@.len() - i,
        {
            if self.entries[i].0 == *key {
                return Some(i);
            }
            i = i + 1;
        }
        None
    }

    /// The value stored under `key`, if any.
    pub fn get(&self, key: &String) -> (r: Option<&V>)
        requires
            self.wf(),
        ensures
            r == (if self@.contains_key(key@) { Some(&self@[key@]) } else { None::<&V> }),
    {
        match self.find(key) {
            Some(i) => {
                proof {
                    self.lemma_entry(i as int);
                }
                Some(&self.entries[i].1)
            },
            None => {
                proof {
                    self.lemma_absent(key@);
                }
                None
            },
        }
    }

    /// Stores `value` under `key`, replacing what was there.
    pub fn insert(&mut self, key: String, value: V)
        requires
            old(self).wf(),
        ensures
            final(self).wf(),
            final(self)@ == old(self)@.insert(key@, value),
    {
        let k = Ghost(key@);
        match self.find(&key) {
            Some(i) => {
                self.entries.set(i, (key, value));
                proof {
                    let o = *old(self);
                    assert forall|j: int| 0 <= j < self.entries@.len() implies #[trigger] self.entries@[j].0@ == o.entries@[j].0@ by {}
                    assert forall|kk: Seq<char>| #[trigger] self@.contains_key(kk) <==> o@.insert(k@, value).contains_key(kk) by {
                        if self@.contains_key(kk) {
                            let j = choose|j: int| 0 <= j < self.entries@.len() && #[trigger] self.entries@[j].0@ == kk;
                            assert(o.entries@[j].0@ == kk);
                        }
                        if o@.contains_key(kk) {
                            let j = choose|j: int| 0 <= j < o.entries@.len() && #[trigger] o.entries@[j].0@ == kk;
                            assert(self.entries@[j].0@ == kk);
                        }
                        if kk == k@ {
                            assert(self.entries@[i as int].0@ == kk);
                        }
                    }
                    assert forall|kk: Seq<char>| #[trigger] self@.contains_key(kk) implies self@[kk] == o@.insert(k@, value)[kk] by {
                        let j = choose|j: int| 0 <= j < self.entries@.len() && #[trigger] self.entries@[j].0@ == kk;
                        self.lemma_entry(j);
                        if j != i {
                            o.lemma_entry(j);
                        }
                    }
                    assert(self@ =~= o@.insert(k@, value));
                }
            },
            None => {
                self.entries.push((key, value));
                proof {
                    let o = *old(self);
                    let n = o.entries@.len() as int;
                    assert forall|kk: Seq<char>| #[trigger] self@.contains_key(kk) <==> o@.insert(k@, value).contains_key(kk) by {
                        if self@.contains_key(kk) && kk != k@ {
                            let j = choose|j: int| 0 <= j < self.entries@.len() && #[trigger] self.entries@[j].0@ == kk;
                            assert(o.entries@[j].0@ == kk);
                        }
                        if o@.contains_key(kk) {
                            let j = choose|j: int| 0 <= j < o.entries@.len() && #[trigger] o.entries@[j].0@ == kk;
                            assert(self.entries@[j].0@ == kk);
                        }
                        if kk == k@ {
                            assert(self.entries@[n].0@ == kk);
                        }
                    }
                    assert forall|kk: Seq<char>| #[trigger] self@.contains_key(kk) implies self@[kk] == o@.insert(k@, value)[kk] by {
                        let j = choose|j: int| 0 <= j < self.entries@.len() && #[trigger] self.entries@[j].0@ == kk;
                        self.lemma_entry(j);
                        if j != n {
                            o.lemma_entry(j);
                        }
                    }
                    assert(self@ =~= o@.insert(k@, value));
                }
            },
        }
    }

    /// Removes the entry under `key`, if any.
    pub fn remove(&mut self, key: &String)
        requires
            old(self).wf(),
        ensures
            final(self).wf(),
            final(self)@ == old(self)@.remove(key@),
    {
        match self.find(key) {
            Some(i) => {
                let _ = self.entries.remove(i);
                proof {
                    let o = *old(self);
                    assert forall|j: int| 0 <= j < self.entries@.len() implies #[trigger] self.entries@[j] == o.entries@[if j < i { j } else { j + 1 }] by {}
                    assert forall|a: int, b: int|
                        0 <= a < self.entries@.len() && 0 <= b < self.entries@.len() && a != b
                        implies #[trigger] self.entries@[a].0@ != #[trigger] self.entries@[b].0@ by {
                        let a1 = if a < i { a } else { a + 1 };
                        let b1 = if b < i { b } else { b + 1 };
                        assert(self.entries@[a] == o.entries@[a1]);
                        assert(self.entries@[b] == o.entries@[b1]);
                    }
                    assert forall|kk: Seq<char>| #[trigger] self@.contains_key(kk) <==> o@.remove(key@).contains_key(kk) by {
                        if self@.contains_key(kk) {
                            let j = choose|j: int| 0 <= j < self.entries@.len() && #[trigger] self.entries@[j].0@ == kk;
                            let j1 = if j < i { j } else { j + 1 };
                            assert(self.entries@[j] == o.entries@[j1]);
                            assert(o.entries@[j1].0@ == kk);
                            assert(j1 != i);
                        }
                        if o@.contains_key(kk) && kk != key@ {
                            let j = choose|j: int| 0 <= j < o.entries@.len() && #[trigger] o.entries@[j].0@ == kk;
                            let j0 = if j < i { j } else { j - 1 };
                            assert(j != i);
                            assert(self.entries@[j0] == o.entries@[j]);
                            assert(self.entries@[j0].0@ == kk);
                        }
                    }
                    assert forall|kk: Seq<char>| #[trigger] self@.contains_key(kk) implies self@[kk] == o@.remove(key@)[kk] by {
                        let j = choose|j: int| 0 <= j < self.entries@.len() && #[trigger] self.entries@[j].0@ == kk;
                        let j1 = if j < i { j } else { j + 1 };
                        assert(self.entries@[j] == o.entries@[j1]);
                        self.lemma_entry(j);
                        o.lemma_entry(j1);
                    }
                    assert(self@ =~= o@.remove(key@));
                }
            },
            None => {
                proof {
                    old(self).lemma_absent(key@);
                    assert(self@ =~= old(self)@.remove(key@));
                }
            },
        }
    }
}

} // verus!
