//! Loading a document: from the cache where it has the text, else by
//! extraction, whose result is taken into the cache.

use vstd::prelude::*;
use crate::cache::{stored, TextCache};
use vstd::utf8::{decode_utf8, valid_utf8};
use crate::extract::{
    extract, extraction, finished, outcome, ExtractedText, ExtractedTextView, Extraction,
    ExtractionError, ExtractionFailure, ExtractionView,
};
use crate::format::{extension, format_for, normalized_title, title_of, Format};
use crate::history::{resume_point, HistoryStore};

verus! {

/// Where a loaded text came from.
#[derive(Clone, Copy, Debug, PartialEq, Eq, Structural)]
pub enum Source {
    /// The cache had it; nothing was extracted.
    Cache,
    /// It was extracted from the file's bytes.
    Extractor,
}

/// A document ready to be read: its text, its title and the word to start at.
#[derive(Clone, Debug, PartialEq, Eq)]
pub struct Loaded {
    pub text: String,
    pub title: String,
    pub index: usize,
    pub source: Source,
}

/// A [`Loaded`] as plain text.
pub struct LoadedView {
    pub text: Seq<char>,
    pub title: Seq<char>,
    pub index: usize,
    pub source: Source,
}

impl View for Loaded {
    type V = LoadedView;

    open spec fn view(&self) -> LoadedView {
        LoadedView { text: self.text@, title: self.title@, index: self.index, source: self.source }
    }
}

/// What a load gave, as plain text.
pub open spec fn load_outcome(r: Result<Loaded, ExtractionError>) -> Result<
    LoadedView,
    ExtractionFailure,
> {
    match r {
        Ok(loaded) => Ok(loaded@),
        Err(e) => Err(e@),
    }
}

/// What the cache serves for the file `filename`: the text kept under the
/// file's title, to be resumed where `history` says.
pub open spec fn served(
    cache: Map<Seq<char>, Seq<char>>,
    history: Map<Seq<char>, usize>,
    filename: Seq<char>,
) -> Option<LoadedView> {
    let title = normalized_title(filename);
    if cache.contains_key(title) {
        Some(
            LoadedView {
                text: cache[title],
                title,
                index: resume_point(history, title),
                source: Source::Cache,
            },
        )
    } else {
        None
    }
}

/// What an extraction's result comes to: extracted text is cached under its
/// title and read from its first word; a failure leaves the cache as it was.
pub open spec fn taken_in(
    cache: Map<Seq<char>, Seq<char>>,
    extracted: Result<ExtractedTextView, ExtractionFailure>,
) -> (Result<LoadedView, ExtractionFailure>, Map<Seq<char>, Seq<char>>) {
    match extracted {
        Ok(t) => (
            Ok(
                LoadedView {
                    text: t.plain_text,
                    title: t.normalized_title,
                    index: 0,
                    source: Source::Extractor,
                },
            ),
            stored(cache, t.normalized_title, t.plain_text),
        ),
        Err(e) => (Err(e), cache),
    }
}

/// How far the load of a file has come: to its end, or to the point where
/// a parser has to read the bytes.
#[derive(Debug, PartialEq, Eq)]
pub enum Load {
    /// The load has ended with this result.
    Done(Result<Loaded, ExtractionError>),
    /// The bytes are HTML: they are to be rendered as text wrapped at
    /// `width` columns, the result finished with `title` and taken in.
    RenderHtml { title: String, width: usize },
    /// The bytes are a PDF document: the text of its pages is to be read,
    /// finished with `title` and taken in.
    ReadPdf { title: String },
}

/// A [`Load`] as plain text.
pub enum LoadView {
    Done(Result<LoadedView, ExtractionFailure>),
    RenderHtml { title: Seq<char>, width: usize },
    ReadPdf { title: Seq<char> },
}

impl View for Load {
    type V = LoadView;

    open spec fn view(&self) -> LoadView {
        match self {
            Load::Done(r) => LoadView::Done(load_outcome(*r)),
            Load::RenderHtml { title, width } => LoadView::RenderHtml {
                title: title@,
                width: *width,
            },
            Load::ReadPdf { title } => LoadView::ReadPdf { title: title@ },
        }
    }
}

/// How far loading the file `filename` with content `bytes` comes, and the
/// cache after it.  A cached text ends the load at once; otherwise the load
/// goes as far as the extraction does, and what that ends with is taken in.
pub open spec fn loading(
    cache: Map<Seq<char>, Seq<char>>,
    history: Map<Seq<char>, usize>,
    bytes: Seq<u8>,
    filename: Seq<char>,
) -> (LoadView, Map<Seq<char>, Seq<char>>) {
    match served(cache, history, filename) {
        Some(loaded) => (LoadView::Done(Ok(loaded)), cache),
        None => match extraction(bytes, filename) {
            ExtractionView::Done(r) => (LoadView::Done(taken_in(cache, r).0), taken_in(cache, r).1),
            ExtractionView::RenderHtml { title, width } => (
                LoadView::RenderHtml { title, width },
                cache,
            ),
            ExtractionView::ReadPdf { title } => (LoadView::ReadPdf { title }, cache),
        },
    }
}

/// What the load of a file comes to, and the cache after it, once its
/// parser, if it needs one, has given `parsed`.
pub open spec fn loaded_with(
    cache: Map<Seq<char>, Seq<char>>,
    history: Map<Seq<char>, usize>,
    bytes: Seq<u8>,
    filename: Seq<char>,
    parsed: Result<Seq<char>, Seq<char>>,
) -> (Result<LoadedView, ExtractionFailure>, Map<Seq<char>, Seq<char>>) {
    match loading(cache, history, bytes, filename) {
        (LoadView::Done(r), after) => (r, after),
        (LoadView::RenderHtml { title, width }, after) => taken_in(after, finished(title, parsed)),
        (LoadView::ReadPdf { title }, after) => taken_in(after, finished(title, parsed)),
    }
}

/// Serves the file `filename` from the cache, if the cache has its text.
pub fn serve(cache: &TextCache, filename: &str, history: &HistoryStore) -> (r: Option<Loaded>)
    requires
        cache.wf(),
        history.wf(),
    ensures
        match r {
            Some(loaded) => Some(loaded@),
            None => None,
        } == served(cache@, history@, filename@),
{
    let title = title_of(filename);
    match cache.lookup(title.as_str()) {
        Some(text) => {
            let index = history.resume_index(title.as_str());
            Some(Loaded { text, title, index, source: Source::Cache })
        },
        None => None,
    }
}

/// Takes in what an extraction gave: caches extracted text under its title
/// and hands it on to be read from its first word.
pub fn take_in(cache: &mut TextCache, extracted: Result<ExtractedText, ExtractionError>) -> (r:
    Result<Loaded, ExtractionError>)
    requires
        old(cache).wf(),
    ensures
        final(cache).wf(),
        (load_outcome(r), final(cache)@) == taken_in(old(cache)@, outcome(extracted)),
{
    match extracted {
        Ok(t) => {
            cache.store(t.normalized_title.as_str(), t.plain_text.as_str());
            Ok(
                Loaded {
                    text: t.plain_text,
                    title: t.normalized_title,
                    index: 0,
                    source: Source::Extractor,
                },
            )
        },
        Err(e) => Err(e),
    }
}

/// Loads the file `filename` with content `bytes`, as far as that needs no
/// parser.
///
/// A text cached under the file's title is served as it is, with the index
/// that `history` holds for the title, and `bytes` is not looked at.
/// Otherwise plain text is decoded, cached and read from its first word,
/// and a file of no known format is reported; neither changes the cache on
/// failure.  For HTML and PDF the result says which parser has to read the
/// bytes; what it gives goes to [`finish`](crate::extract::finish) or
/// [`finish_pages`](crate::extract::finish_pages) and then to [`take_in`].
pub fn load_or_extract(
    cache: &mut TextCache,
    bytes: &[u8],
    filename: &str,
    history: &HistoryStore,
) -> (r: Load)
    requires
        old(cache).wf(),
        history.wf(),
    ensures
        final(cache).wf(),
        (r@, final(cache)@) == loading(old(cache)@, history@, bytes@, filename@),
        served(old(cache)@, history@, filename@) is None && format_for(extension(filename@))
            == Some(Format::Text) && valid_utf8(bytes@) ==> (r@, final(cache)@) == (
            LoadView::Done(
                taken_in(
                    old(cache)@,
                    finished(normalized_title(filename@), Ok(decode_utf8(bytes@))),
                ).0,
            ),
            taken_in(
                old(cache)@,
                finished(normalized_title(filename@), Ok(decode_utf8(bytes@))),
            ).1,
        ),
{
    match serve(cache, filename, history) {
        Some(loaded) => Load::Done(Ok(loaded)),
        None => match extract(bytes, filename) {
            Extraction::Done(extracted) => Load::Done(take_in(cache, extracted)),
            Extraction::RenderHtml { title, width } => Load::RenderHtml { title, width },
            Extraction::ReadPdf { title } => Load::ReadPdf { title },
        },
    }
}

/// A document that was loaded once is served from the cache from then on:
/// a second load of the same file name ends at once, whatever the bytes, and
/// asks for no parser; it returns the text of the first load, leaves the
/// cache alone, and resumes at the index that the history then holds for
/// the title.
pub proof fn lemma_second_load_is_served(
    cache: Map<Seq<char>, Seq<char>>,
    history: Map<Seq<char>, usize>,
    later_history: Map<Seq<char>, usize>,
    bytes: Seq<u8>,
    later_bytes: Seq<u8>,
    filename: Seq<char>,
    parsed: Result<Seq<char>, Seq<char>>,
)
    requires
        loaded_with(cache, history, bytes, filename, parsed).0 is Ok,
    ensures
        ({
            let first = loaded_with(cache, history, bytes, filename, parsed);
            let second = loading(first.1, later_history, later_bytes, filename);
            &&& second.0 == LoadView::Done(
                Ok(
                    LoadedView {
                        text: first.0->Ok_0.text,
                        title: first.0->Ok_0.title,
                        index: resume_point(later_history, normalized_title(filename)),
                        source: Source::Cache,
                    },
                ),
            )
            &&& second.1 == first.1
        }),
{
}

/// A pause at word `index` is where the next load of the document resumes.
pub proof fn lemma_resumes_where_paused(
    cache: Map<Seq<char>, Seq<char>>,
    history: Map<Seq<char>, usize>,
    filename: Seq<char>,
    index: usize,
)
    requires
        cache.contains_key(normalized_title(filename)),
    ensures
        served(cache, history.insert(normalized_title(filename), index), filename)->Some_0.index
            == index,
{
}

} // verus!
