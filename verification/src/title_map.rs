//! A small keyed store: document titles to values, each title held once.

use vstd::prelude::*;
use vstd::string::StringExecFns;

verus! {

/// A finite map keyed by document title.  Entries stay in the order in which
/// their titles were first inserted.
pub struct TitleMap<V> {
    titles: Vec<String>,
    values: Vec<V>,
}

impl<V> TitleMap<V> {
    /// The title held at position `i`.
    pub closed spec fn title_at(&self, i: int) -> Seq<char> {
        self.titles@[i]@
    }

    /// The value held at position `i`.
    pub closed spec fn value_at(&self, i: int) -> V {
        self.values@[i]
    }

    /// The number of entries.
    pub closed spec fn count(&self) -> nat {
        self.titles@.len()
    }

    /// Every title has a value and no title is held twice.
    pub closed spec fn wf(&self) -> bool {
        &&& self.titles@.len() == self.values@.len()
        &&& forall|i: int, j: int|
            0 <= i < self.titles@.len() && 0 <= j < self.titles@.len() && i != j
                ==> self.titles@[i]@ != self.titles@[j]@
    }

    /// Whether position `i` holds `key`.
    pub open spec fn holds(&self, i: int, key: Seq<char>) -> bool {
        0 <= i < self.count() && self.title_at(i) == key
    }

    /// The map from each held title to its value.
    pub open spec fn model(&self) -> Map<Seq<char>, V> {
        Map::new(
            |k: Seq<char>| exists|i: int| self.holds(i, k),
            |k: Seq<char>| self.value_at(choose|i: int| self.holds(i, k)),
        )
    }

    /// A position that holds a title decides what the model maps it to.
    pub proof fn lemma_position(&self, i: int)
        requires
            self.wf(),
            0 <= i < self.count(),
        ensures
            self.model().contains_key(self.title_at(i)),
            self.model()[self.title_at(i)] == self.value_at(i),
    {
        let k = self.title_at(i);
        assert(self.holds(i, k));
        let j = choose|j: int| self.holds(j, k);
        assert(j == i);
    }

    /// No title is held at two positions.
    pub proof fn lemma_distinct(&self)
        requires
            self.wf(),
        ensures
            forall|i: int, j: int|
                0 <= i < j < self.count() ==> self.title_at(i) != self.title_at(j),
    {
    }

    /// Every title that the model maps is held at some position.
    pub proof fn lemma_listed(&self, key: Seq<char>)
        requires
            self.model().contains_key(key),
        ensures
            exists|i: int| self.holds(i, key),
    {
    }

    /// An empty map.
    pub fn new() -> (r: Self)
        ensures
            r.wf(),
            r.model() == Map::<Seq<char>, V>::empty(),
            r.count() == 0,
    {
        let r = TitleMap { titles: Vec::new(), values: Vec::new() };
        assert(r.model() =~= Map::<Seq<char>, V>::empty());
        r
    }

    /// The number of entries.
    pub fn len(&self) -> (n: usize)
        requires
            self.wf(),
        ensures
            n == self.count(),
    {
        self.titles.len()
    }

    /// The position that holds `key`, if one does.
    pub fn position(&self, key: &str) -> (r: Option<usize>)
        requires
            self.wf(),
        ensures
            match r {
                Some(i) => self.holds(i as int, key@),
                None => !self.model().contains_key(key@),
            },
    {
        let wanted = String::from_str(key);
        let n = self.titles.len();
        let mut i: usize = 0;
        while i < n
            invariant
                n == self.titles@.len(),
                wanted@ == key@,
                i <= n,
                forall|j: int| 0 <= j < i ==> !self.holds(j, key@),
            decreases n - i,
        {
            if self.titles[i] == wanted {
                return Some(i);
            }
            i += 1;
        }
        None
    }

    /// The title and the value at position `i`.
    pub fn entry(&self, i: usize) -> (r: (&str, &V))
        requires
            self.wf(),
            i < self.count(),
        ensures
            r.0@ == self.title_at(i as int),
            *r.1 == self.value_at(i as int),
            self.model().contains_key(r.0@),
            self.model()[r.0@] == *r.1,
    {
        proof {
            self.lemma_position(i as int);
        }
        (self.titles[i].as_str(), &self.values[i])
    }

    /// The value that `key` maps to.
    pub fn get(&self, key: &str) -> (r: Option<&V>)
        requires
            self.wf(),
        ensures
            match r {
                Some(v) => self.model().contains_key(key@) && self.model()[key@] == *v,
                None => !self.model().contains_key(key@),
            },
    {
        match self.position(key) {
            Some(i) => {
                proof {
                    self.lemma_position(i as int);
                }
                Some(&self.values[i])
            },
            None => None,
        }
    }

    /// Maps `key` to `value`, replacing what it mapped to before.
    pub fn insert(&mut self, key: String, value: V)
        requires
            old(self).wf(),
        ensures
            final(self).wf(),
            final(self).model() == old(self).model().insert(key@, value),
            final(self).count() == old(self).count() + (if old(self).model().contains_key(key@) {
                0nat
            } else {
                1nat
            }),
            forall|i: int|
                0 <= i < old(self).count() ==> final(self).title_at(i) == old(self).title_at(i),
            !old(self).model().contains_key(key@) ==> final(self).title_at(
                old(self).count() as int,
            ) == key@,
    {
        let ghost before = old(self).model();
        match self.position(key.as_str()) {
            Some(i) => {
                self.values.set(i, value);
                proof {
                    let after = self.model();
                    assert forall|k: Seq<char>| #[trigger]
                        after.dom().contains(k) implies before.insert(key@, value).dom().contains(k)
                        && after[k] == before.insert(key@, value)[k] by {
                        let j = choose|j: int| self.holds(j, k);
                        assert(old(self).holds(j, k));
                        old(self).lemma_position(j);
                        self.lemma_position(j);
                    }
                    assert forall|k: Seq<char>| #[trigger]
                        before.insert(key@, value).dom().contains(k) implies after.dom().contains(
                        k,
                    ) by {
                        if k == key@ {
                            assert(self.holds(i as int, k));
                        } else {
                            let j = choose|j: int| old(self).holds(j, k);
                            assert(self.holds(j, k));
                        }
                    }
                    assert(after =~= before.insert(key@, value));
                }
            },
            None => {
                let ghost n = self.titles@.len() as int;
                self.titles.push(key);
                self.values.push(value);
                proof {
                    let after = self.model();
                    assert forall|i: int, j: int|
                        0 <= i < self.titles@.len() && 0 <= j < self.titles@.len() && i != j
                        implies self.titles@[i]@ != self.titles@[j]@ by {
                        if i == n {
                            assert(!old(self).holds(j, key@));
                        } else if j == n {
                            assert(!old(self).holds(i, key@));
                        }
                    }
                    assert forall|k: Seq<char>| #[trigger]
                        after.dom().contains(k) implies before.insert(key@, value).dom().contains(k)
                        && after[k] == before.insert(key@, value)[k] by {
                        let j = choose|j: int| self.holds(j, k);
                        self.lemma_position(j);
                        if j < n {
                            assert(old(self).holds(j, k));
                            old(self).lemma_position(j);
                        }
                    }
                    assert forall|k: Seq<char>| #[trigger]
                        before.insert(key@, value).dom().contains(k) implies after.dom().contains(
                        k,
                    ) by {
                        if k == key@ {
                            assert(self.holds(n, k));
                        } else {
                            let j = choose|j: int| old(self).holds(j, k);
                            assert(self.holds(j, k));
                        }
                    }
                    assert(after =~= before.insert(key@, value));
                }
            },
        }
    }
}

} // verus!
