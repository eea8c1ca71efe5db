//! The reading position last seen in each document.

use vstd::prelude::*;
use vstd::string::StringExecFns;
use crate::title_map::TitleMap;

verus! {

/// The word index at which `title` resumes: the recorded one, or the first word.
pub open spec fn resume_point(history: Map<Seq<char>, usize>, title: Seq<char>) -> usize {
    if history.contains_key(title) {
        history[title]
    } else {
        0
    }
}

/// Maps a document's title to the index of the word it was left at.
pub struct HistoryStore {
    entries: TitleMap<usize>,
}

impl View for HistoryStore {
    type V = Map<Seq<char>, usize>;

    closed spec fn view(&self) -> Map<Seq<char>, usize> {
        self.entries.model()
    }
}

impl HistoryStore {
    /// The store's internal invariant.
    pub closed spec fn wf(&self) -> bool {
        self.entries.wf()
    }

    /// The number of recorded documents.
    pub closed spec fn count(&self) -> nat {
        self.entries.count()
    }

    /// The title of the `i`-th recorded document, in order of first
    /// recording.
    pub closed spec fn title_at(&self, i: int) -> Seq<char> {
        self.entries.title_at(i)
    }

    /// Every recorded title stands at some position, and once.
    pub proof fn lemma_listed(&self, title: Seq<char>)
        requires
            self.wf(),
            self@.contains_key(title),
        ensures
            exists|i: int| 0 <= i < self.count() && self.title_at(i) == title,
            forall|i: int, j: int|
                0 <= i < j < self.count() ==> self.title_at(i) != self.title_at(j),
    {
        self.entries.lemma_distinct();
        self.entries.lemma_listed(title);
        let i = choose|i: int| self.entries.holds(i, title);
        assert(0 <= i < self.count() && self.title_at(i) == title);
    }

    /// A store that knows no document.
    pub fn new() -> (r: HistoryStore)
        ensures
            r.wf(),
            r@ == Map::<Seq<char>, usize>::empty(),
            r.count() == 0,
    {
        HistoryStore { entries: TitleMap::new() }
    }

    /// The index recorded for `title`.
    pub fn get(&self, title: &str) -> (r: Option<usize>)
        requires
            self.wf(),
        ensures
            r == (if self@.contains_key(title@) {
                Some(self@[title@])
            } else {
                None
            }),
    {
        match self.entries.get(title) {
            Some(i) => Some(*i),
            None => None,
        }
    }

    /// The index at which `title` resumes.
    pub fn resume_index(&self, title: &str) -> (r: usize)
        requires
            self.wf(),
        ensures
            r == resume_point(self@, title@),
    {
        match self.get(title) {
            Some(i) => i,
            None => 0,
        }
    }

    /// Records that `title` was left at `index`.
    pub fn record(&mut self, title: &str, index: usize)
        requires
            old(self).wf(),
        ensures
            final(self).wf(),
            final(self)@ == old(self)@.insert(title@, index),
            final(self).count() == old(self).count() + (if old(self)@.contains_key(title@) {
                0nat
            } else {
                1nat
            }),
            forall|i: int|
                0 <= i < old(self).count() ==> final(self).title_at(i) == old(self).title_at(i),
            !old(self)@.contains_key(title@) ==> final(self).title_at(old(self).count() as int)
                == title@,
    {
        self.entries.insert(String::from_str(title), index);
    }

    /// How many documents are recorded.
    pub fn len(&self) -> (n: usize)
        requires
            self.wf(),
        ensures
            n == self.count(),
    {
        self.entries.len()
    }

    /// The `i`-th recorded document and its index, in order of first recording.
    pub fn entry(&self, i: usize) -> (r: (&str, usize))
        requires
            self.wf(),
            i < self.count(),
        ensures
            r.0@ == self.title_at(i as int),
            self@.contains_key(r.0@),
            self@[r.0@] == r.1,
    {
        let (title, index) = self.entries.entry(i);
        (title, *index)
    }
}

} // verus!
