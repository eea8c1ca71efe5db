//! Extracted text kept by title, so that a document is extracted once.

use vstd::prelude::*;
use vstd::string::StringExecFns;
use crate::title_map::TitleMap;

verus! {

/// What a cache holds after `text` is offered under `title`: the first text
/// stored under a title stays.
pub open spec fn stored(
    cache: Map<Seq<char>, Seq<char>>,
    title: Seq<char>,
    text: Seq<char>,
) -> Map<Seq<char>, Seq<char>> {
    if cache.contains_key(title) {
        cache
    } else {
        cache.insert(title, text)
    }
}

/// Maps a document's normalized title to the plain text extracted from it.
pub struct TextCache {
    texts: TitleMap<String>,
}

impl View for TextCache {
    type V = Map<Seq<char>, Seq<char>>;

    closed spec fn view(&self) -> Map<Seq<char>, Seq<char>> {
        Map::new(
            |k: Seq<char>| self.texts.model().contains_key(k),
            |k: Seq<char>| self.texts.model()[k]@,
        )
    }
}

impl TextCache {
    /// The cache's internal invariant.
    pub closed spec fn wf(&self) -> bool {
        self.texts.wf()
    }

    /// The number of cached documents.
    pub closed spec fn count(&self) -> nat {
        self.texts.count()
    }

    /// The `i`-th cached title, in order of caching.
    pub closed spec fn title_at(&self, i: int) -> Seq<char> {
        self.texts.title_at(i)
    }

    /// Every cached title stands at some position, and once.
    pub proof fn lemma_listed(&self, title: Seq<char>)
        requires
            self.wf(),
            self@.contains_key(title),
        ensures
            exists|i: int| 0 <= i < self.count() && self.title_at(i) == title,
            forall|i: int, j: int|
                0 <= i < j < self.count() ==> self.title_at(i) != self.title_at(j),
    {
        self.texts.lemma_distinct();
        self.texts.lemma_listed(title);
        let i = choose|i: int| self.texts.holds(i, title);
        assert(0 <= i < self.count() && self.title_at(i) == title);
    }

    /// A cache that holds nothing.
    pub fn new() -> (r: TextCache)
        ensures
            r.wf(),
            r@ == Map::<Seq<char>, Seq<char>>::empty(),
            r.count() == 0,
    {
        let r = TextCache { texts: TitleMap::new() };
        assert(r@ =~= Map::<Seq<char>, Seq<char>>::empty());
        r
    }

    /// The text cached under `title`.
    pub fn lookup(&self, title: &str) -> (r: Option<String>)
        requires
            self.wf(),
        ensures
            match r {
                Some(text) => self@.contains_key(title@) && self@[title@] == text@,
                None => !self@.contains_key(title@),
            },
    {
        match self.texts.get(title) {
            Some(text) => Some(text.clone()),
            None => None,
        }
    }

    /// Whether a text is cached under `title`.
    pub fn contains(&self, title: &str) -> (r: bool)
        requires
            self.wf(),
        ensures
            r == self@.contains_key(title@),
    {
        self.texts.position(title).is_some()
    }

    /// Caches `text` under `title` unless the title already has a text.
    pub fn store(&mut self, title: &str, text: &str)
        requires
            old(self).wf(),
        ensures
            final(self).wf(),
            final(self)@ == stored(old(self)@, title@, text@),
            final(self).count() == old(self).count() + (if old(self)@.contains_key(title@) {
                0nat
            } else {
                1nat
            }),
            forall|i: int|
                0 <= i < old(self).count() ==> final(self).title_at(i) == old(self).title_at(i),
            !old(self)@.contains_key(title@) ==> final(self).title_at(old(self).count() as int)
                == title@,
    {
        if self.texts.position(title).is_none() {
            self.texts.insert(String::from_str(title), String::from_str(text));
            assert(self@ =~= old(self)@.insert(title@, text@));
        }
    }

    /// How many documents are cached.
    pub fn len(&self) -> (n: usize)
        requires
            self.wf(),
        ensures
            n == self.count(),
    {
        self.texts.len()
    }

    /// The `i`-th cached title and its text, in order of caching.
    pub fn entry(&self, i: usize) -> (r: (&str, &str))
        requires
            self.wf(),
            i < self.count(),
        ensures
            r.0@ == self.title_at(i as int),
            self@.contains_key(r.0@),
            self@[r.0@] == r.1@,
    {
        let (title, text) = self.texts.entry(i);
        (title, text.as_str())
    }
}

} // verus!
