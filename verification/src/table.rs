//! A table keyed by device identifier, owned by whoever routes by it.

use vstd::prelude::*;

verus! {

/// Maps device identifiers to values; each identifier occurs at most once.
pub struct IdTable<V> {
    entries: Vec<(String, V)>,
}

impl<V> IdTable<V> {
    /// No identifier is stored twice.
    pub closed spec fn wf(&self) -> bool {
        forall|i: int, j: int|
            0 <= i < j < self.entries@.len() ==> self.entries@[i].0@ != self.entries@[j].0@
    }

    spec fn has(&self, id: Seq<char>) -> bool {
        exists|i: int| 0 <= i < self.entries@.len() && #[trigger] self.entries@[i].0@ == id
    }

    spec fn slot(&self, id: Seq<char>) -> int {
        choose|i: int| 0 <= i < self.entries@.len() && #[trigger] self.entries@[i].0@ == id
    }

    /// The table as a map from identifier to value.
    pub closed spec fn view(&self) -> Map<Seq<char>, V> {
        Map::new(|id: Seq<char>| self.has(id), |id: Seq<char>| self.entries@[self.slot(id)].1)
    }

    proof fn lemma_entry(&self, i: int)
        requires
            self.wf(),
            0 <= i < self.entries@.len(),
        ensures
            self.has(self.entries@[i].0@),
            self.slot(self.entries@[i].0@) == i,
            self@.contains_key(self.entries@[i].0@),
            self@[self.entries@[i].0@] == self.entries@[i].1,
    {
        let id = self.entries@[i].0@;
        assert(self.entries@[i].0@ == id);
        let j = self.slot(id);
        assert(0 <= j < self.entries@.len() && self.entries@[j].0@ == id);
        if j < i {
            assert(self.entries@[j].0@ != self.entries@[i].0@);
        } else if i < j {
            assert(self.entries@[i].0@ != self.entries@[j].0@);
        }
    }

    proof fn lemma_absent(&self, id: Seq<char>)
        requires
            forall|i: int| 0 <= i < self.entries@.len() ==> self.entries@[i].0@ != id,
        ensures
            !self.has(id),
            !self@.contains_key(id),
    {
    }

    pub fn new() -> (table: Self)
        ensures
            table.wf(),
            table@ == Map::<Seq<char>, V>::empty(),
    {
        let table = IdTable { entries: Vec::new() };
        assert(table@ =~= Map::<Seq<char>, V>::empty());
        table
    }

    fn find(&self, id: &String) -> (found: Option<usize>)
        requires
            self.wf(),
        ensures
            match found {
                Some(i) => i < self.entries@.len() && self.entries@[i as int].0@ == id@,
                None => forall|i: int| 0 <= i < self.entries@.len() ==> self.entries@[i].0@ != id@,
            },
    {
        let mut i: usize = 0;
        while i < self.entries.len()
            invariant
                i <= self.entries@.len(),
                forall|k: int| 0 <= k < i ==> self.entries@[k].0@ != id@,
            decreases self.entries@.len() - i,
        {
            if self.entries[i].0 == *id {
                return Some(i);
            }
            i += 1;
        }
        None
    }

    pub fn contains(&self, id: &String) -> (present: bool)
        requires
            self.wf(),
        ensures
            present == self@.contains_key(id@),
    {
        match self.find(id) {
            Some(i) => {
                proof {
                    self.lemma_entry(i as int);
                }
                true
            },
            None => {
                proof {
                    self.lemma_absent(id@);
                }
                false
            },
        }
    }

    pub fn get(&self, id: &String) -> (value: Option<&V>)
        requires
            self.wf(),
        ensures
            match value {
                Some(v) => self@.contains_key(id@) && *v == self@[id@],
                None => !self@.contains_key(id@),
            },
    {
        match self.find(id) {
            Some(i) => {
                proof {
                    self.lemma_entry(i as int);
                }
                Some(&self.entries[i].1)
            },
            None => {
                proof {
                    self.lemma_absent(id@);
                }
                None
            },
        }
    }

    /// Stores `value` under `id`, handing back what was stored there before.
    pub fn insert(&mut self, id: String, value: V) -> (previous: Option<V>)
        requires
            old(self).wf(),
        ensures
            final(self).wf(),
            final(self)@ == old(self)@.insert(id@, value),
            previous == if old(self)@.contains_key(id@) {
                Some(old(self)@[id@])
            } else {
                None::<V>
            },
    {
        let ghost before = *self;
        let ghost key = id@;
        let previous = match self.find(&id) {
            Some(i) => {
                proof {
                    self.lemma_entry(i as int);
                }
                let (_, displaced) = self.entries.remove(i);
                Some(displaced)
            },
            None => {
                proof {
                    self.lemma_absent(key);
                }
                None
            },
        };
        let ghost middle = *self;
        assert(forall|i: int| 0 <= i < middle.entries@.len() ==> middle.entries@[i].0@ != key);
        self.entries.push((id, value));
        proof {
            let n = middle.entries@.len() as int;
            assert(self.entries@[n] == (id, value));
            assert(self.wf());
            self.lemma_entry(n);
            assert forall|k: Seq<char>| k != key implies (self.has(k) <==> before.has(k)) && (
            self.has(k) ==> self@[k] == before@[k]) by {
                if before.has(k) {
                    let b = before.slot(k);
                    before.lemma_entry(b);
                    let m = if previous is Some && b > before.slot(key) {
                        b - 1
                    } else {
                        b
                    };
                    assert(self.entries@[m] == before.entries@[b]);
                    self.lemma_entry(m);
                }
                if self.has(k) {
                    let m = self.slot(k);
                    self.lemma_entry(m);
                    assert(m < n);
                    let b = if previous is Some && m >= before.slot(key) {
                        m + 1
                    } else {
                        m
                    };
                    assert(before.entries@[b] == self.entries@[m]);
                    before.lemma_entry(b);
                }
            }
            assert(self@ =~= before@.insert(key, value));
        }
        previous
    }

    /// Takes `id` out of the table, handing back what was stored under it.
    pub fn remove(&mut self, id: &String) -> (removed: Option<V>)
        requires
            old(self).wf(),
        ensures
            final(self).wf(),
            final(self)@ == old(self)@.remove(id@),
            removed == if old(self)@.contains_key(id@) {
                Some(old(self)@[id@])
            } else {
                None::<V>
            },
    {
        let ghost before = *self;
        let ghost key = id@;
        match self.find(id) {
            Some(i) => {
                proof {
                    self.lemma_entry(i as int);
                }
                let (_, value) = self.entries.remove(i);
                proof {
                    assert(self.wf());
                    assert(forall|j: int|
                        0 <= j < self.entries@.len() ==> self.entries@[j].0@ != key);
                    self.lemma_absent(key);
                    assert forall|k: Seq<char>| k != key implies (self.has(k) <==> before.has(k))
                        && (self.has(k) ==> self@[k] == before@[k]) by {
                        if before.has(k) {
                            let b = before.slot(k);
                            before.lemma_entry(b);
                            let m = if b > i {
                                b - 1
                            } else {
                                b
                            };
                            assert(self.entries@[m] == before.entries@[b]);
                            self.lemma_entry(m);
                        }
                        if self.has(k) {
                            let m = self.slot(k);
                            self.lemma_entry(m);
                            let b = if m >= i {
                                m + 1
                            } else {
                                m
                            };
                            assert(before.entries@[b] == self.entries@[m]);
                            before.lemma_entry(b);
                        }
                    }
                    assert(self@ =~= before@.remove(key));
                }
                Some(value)
            },
            None => {
                proof {
                    self.lemma_absent(key);
                    assert(self@ =~= before@.remove(key));
                }
                None
            },
        }
    }

    /// The identifiers in the table, each once.
    pub fn ids(&self) -> (ids: Vec<String>)
        requires
            self.wf(),
        ensures
            forall|i: int| 0 <= i < ids@.len() ==> self@.contains_key(#[trigger] ids@[i]@),
            forall|id: Seq<char>|
                self@.contains_key(id) ==> exists|i: int|
                    0 <= i < ids@.len() && #[trigger] ids@[i]@ == id,
            forall|i: int, j: int| 0 <= i < j < ids@.len() ==> ids@[i]@ != ids@[j]@,
    {
        let mut ids: Vec<String> = Vec::new();
        let mut i: usize = 0;
        while i < self.entries.len()
            invariant
                i <= self.entries@.len(),
                ids@.len() == i,
                forall|k: int| 0 <= k < i ==> #[trigger] ids@[k]@ == self.entries@[k].0@,
            decreases self.entries@.len() - i,
        {
            ids.push(self.entries[i].0.clone());
            i += 1;
        }
        proof {
            assert forall|k: int| 0 <= k < ids@.len() implies self@.contains_key(
                #[trigger] ids@[k]@,
            ) by {
                self.lemma_entry(k);
            }
            assert forall|id: Seq<char>| self@.contains_key(id) implies exists|k: int|
                0 <= k < ids@.len() && #[trigger] ids@[k]@ == id by {
                let k = self.slot(id);
                assert(ids@[k]@ == id);
            }
        }
        ids
    }
}

} // verus!
