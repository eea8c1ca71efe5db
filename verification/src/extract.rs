//! Turning a file's bytes into plain text, by the format its name gives.
//!
//! Plain text is decoded here.  HTML and PDF are read by parsers that run
//! outside the library, where a parser that gives up on a document can be
//! stopped: [`extract`] says which parser a file needs, and [`finish`] and
//! [`finish_pages`] decide what the parser's result comes to.

use vstd::prelude::*;
use vstd::string::StringExecFns;
use vstd::utf8::{decode_utf8, valid_utf8};
use crate::format::{
    extension, file_extension, format_for, format_of, normalized_title, title_of, Format,
};
use crate::text::text_views;

verus! {

/// The column at which text taken from HTML is wrapped.
pub const HTML_WIDTH: usize = 80;

/// A document's text with the title it is kept under.
#[derive(Clone, Debug, PartialEq, Eq)]
pub struct ExtractedText {
    pub normalized_title: String,
    pub plain_text: String,
}

/// An [`ExtractedText`] as plain text.
pub struct ExtractedTextView {
    pub normalized_title: Seq<char>,
    pub plain_text: Seq<char>,
}

impl View for ExtractedText {
    type V = ExtractedTextView;

    open spec fn view(&self) -> ExtractedTextView {
        ExtractedTextView {
            normalized_title: self.normalized_title@,
            plain_text: self.plain_text@,
        }
    }
}

/// Why a document gave no text.
#[derive(Clone, Debug, PartialEq, Eq)]
pub enum ExtractionError {
    /// The file's extension names no format that can be read.
    UnsupportedFormat,
    /// The format's parser gave up; the string says why.
    Failed(String),
    /// The document was read and holds no text.
    EmptyDocument,
}

/// An [`ExtractionError`] as plain text.
pub enum ExtractionFailure {
    UnsupportedFormat,
    Failed(Seq<char>),
    EmptyDocument,
}

impl View for ExtractionError {
    type V = ExtractionFailure;

    open spec fn view(&self) -> ExtractionFailure {
        match self {
            ExtractionError::UnsupportedFormat => ExtractionFailure::UnsupportedFormat,
            ExtractionError::Failed(reason) => ExtractionFailure::Failed(reason@),
            ExtractionError::EmptyDocument => ExtractionFailure::EmptyDocument,
        }
    }
}

/// What an extraction gave, as plain text.
pub open spec fn outcome(r: Result<ExtractedText, ExtractionError>) -> Result<
    ExtractedTextView,
    ExtractionFailure,
> {
    match r {
        Ok(text) => Ok(text@),
        Err(e) => Err(e@),
    }
}

/// What a parser gave, as plain text: the document's text or the reason it
/// has none.
pub open spec fn decoded(r: Result<String, String>) -> Result<Seq<char>, Seq<char>> {
    match r {
        Ok(text) => Ok(text@),
        Err(reason) => Err(reason@),
    }
}

/// The text that `String::from_utf8_lossy` makes of `bytes`.
pub uninterp spec fn lossy_utf8(bytes: Seq<u8>) -> Seq<char>;

/// The pages of a document, one after the other with nothing between them.
pub open spec fn joined(pages: Seq<Seq<char>>) -> Seq<char>
    decreases pages.len(),
{
    if pages.len() == 0 {
        Seq::empty()
    } else {
        joined(pages.drop_last()) + pages.last()
    }
}

/// What a parser's pages come to: their texts joined, or the parser's reason.
pub open spec fn pages_text(pages: Result<Seq<Seq<char>>, Seq<char>>) -> Result<
    Seq<char>,
    Seq<char>,
> {
    match pages {
        Ok(p) => Ok(joined(p)),
        Err(reason) => Err(reason),
    }
}

/// What a parser's result comes to under `title`: a parser failure stays
/// one, text without a character is an empty document, any other text is
/// the document's.
pub open spec fn finished(title: Seq<char>, text: Result<Seq<char>, Seq<char>>) -> Result<
    ExtractedTextView,
    ExtractionFailure,
> {
    match text {
        Err(reason) => Err(ExtractionFailure::Failed(reason)),
        Ok(t) => if t.len() == 0 {
            Err(ExtractionFailure::EmptyDocument)
        } else {
            Ok(ExtractedTextView { normalized_title: title, plain_text: t })
        },
    }
}

/// `String::from_utf8_lossy`: the text of `bytes`, each invalid sequence
/// replaced by U+FFFD.  Valid UTF-8 comes back as the text it encodes.
#[verifier::external_body]
fn decode_lossy(bytes: &[u8]) -> (r: String)
    ensures
        r@ == lossy_utf8(bytes@),
        valid_utf8(bytes@) ==> r@ == decode_utf8(bytes@),
{
    String::from_utf8_lossy(bytes).into_owned()
}

/// Joins the pages of a document, in order and with no separator.
pub fn join_pages(pages: &Vec<String>) -> (r: String)
    ensures
        r@ == joined(text_views(pages@)),
{
    let mut out = String::new();
    let mut i: usize = 0;
    while i < pages.len()
        invariant
            i <= pages@.len(),
            out@ == joined(text_views(pages@).take(i as int)),
        decreases pages@.len() - i,
    {
        out.append(pages[i].as_str());
        i += 1;
        proof {
            let all = text_views(pages@);
            assert(all.take(i as int).drop_last() == all.take(i as int - 1));
        }
    }
    assert(text_views(pages@).take(i as int) == text_views(pages@));
    out
}

/// Decides what a parser's result comes to: a parser failure is reported
/// with its reason, an empty text as an empty document, and any other text
/// becomes the document's text under `title`.
pub fn finish(title: String, text: Result<String, String>) -> (r: Result<
    ExtractedText,
    ExtractionError,
>)
    ensures
        outcome(r) == finished(title@, decoded(text)),
{
    match text {
        Err(reason) => Err(ExtractionError::Failed(reason)),
        Ok(t) => if t.as_str().unicode_len() == 0 {
            Err(ExtractionError::EmptyDocument)
        } else {
            Ok(ExtractedText { normalized_title: title, plain_text: t })
        },
    }
}

/// Decides what the pages of a PDF document come to under `title`.
pub fn finish_pages(title: String, pages: Result<Vec<String>, String>) -> (r: Result<
    ExtractedText,
    ExtractionError,
>)
    ensures
        outcome(r) == finished(title@, pages_text(page_views(pages))),
{
    match pages {
        Ok(p) => finish(title, Ok(join_pages(&p))),
        Err(reason) => finish(title, Err(reason)),
    }
}

/// What a PDF parser gave, as plain text.
pub open spec fn page_views(pages: Result<Vec<String>, String>) -> Result<
    Seq<Seq<char>>,
    Seq<char>,
> {
    match pages {
        Ok(p) => Ok(text_views(p@)),
        Err(reason) => Err(reason@),
    }
}

/// How far the extraction of a file has come: to its end, or to the point
/// where a parser has to read the bytes.
#[derive(Debug, PartialEq, Eq)]
pub enum Extraction {
    /// The extraction has ended with this result.
    Done(Result<ExtractedText, ExtractionError>),
    /// The bytes are HTML: they are to be rendered as text wrapped at
    /// `width` columns, and the result handed to [`finish`] with `title`.
    RenderHtml { title: String, width: usize },
    /// The bytes are a PDF document: the text of its pages is to be read,
    /// in page order, and handed to [`finish_pages`] with `title`.
    ReadPdf { title: String },
}

/// An [`Extraction`] as plain text.
pub enum ExtractionView {
    Done(Result<ExtractedTextView, ExtractionFailure>),
    RenderHtml { title: Seq<char>, width: usize },
    ReadPdf { title: Seq<char> },
}

impl View for Extraction {
    type V = ExtractionView;

    open spec fn view(&self) -> ExtractionView {
        match self {
            Extraction::Done(r) => ExtractionView::Done(outcome(*r)),
            Extraction::RenderHtml { title, width } => ExtractionView::RenderHtml {
                title: title@,
                width: *width,
            },
            Extraction::ReadPdf { title } => ExtractionView::ReadPdf { title: title@ },
        }
    }
}

/// How far extracting the file `filename` with content `bytes` comes.
///
/// The name decides the format, by the exact spelling of its extension, and
/// the title.  A name that gives no format ends the extraction as
/// unsupported.  Plain text is decoded as UTF-8 and ends it at once.  HTML
/// is to be rendered at [`HTML_WIDTH`] columns and a PDF document to be
/// read page by page, each by its parser.
pub open spec fn extraction(bytes: Seq<u8>, filename: Seq<char>) -> ExtractionView {
    let title = normalized_title(filename);
    match format_for(extension(filename)) {
        None => ExtractionView::Done(Err(ExtractionFailure::UnsupportedFormat)),
        Some(Format::Text) => ExtractionView::Done(finished(title, Ok(lossy_utf8(bytes)))),
        Some(Format::Html) => ExtractionView::RenderHtml { title, width: HTML_WIDTH },
        Some(Format::Pdf) => ExtractionView::ReadPdf { title },
    }
}

/// What the extraction of a file comes to once its parser, if it needs one,
/// has given `parsed`: the text of the document, or the reason it has none.
pub open spec fn completed(step: ExtractionView, parsed: Result<Seq<char>, Seq<char>>) -> Result<
    ExtractedTextView,
    ExtractionFailure,
> {
    match step {
        ExtractionView::Done(r) => r,
        ExtractionView::RenderHtml { title, width } => finished(title, parsed),
        ExtractionView::ReadPdf { title } => finished(title, parsed),
    }
}

/// A finished extraction holds text that is not empty, under the title that
/// the file's name gives.
pub proof fn lemma_extracted_text(
    bytes: Seq<u8>,
    filename: Seq<char>,
    parsed: Result<Seq<char>, Seq<char>>,
)
    ensures
        completed(extraction(bytes, filename), parsed) matches Ok(text) ==> text.normalized_title
            == normalized_title(filename) && text.plain_text.len() > 0,
        format_for(extension(filename)) is None <==> completed(extraction(bytes, filename), parsed)
            == Err::<ExtractedTextView, ExtractionFailure>(ExtractionFailure::UnsupportedFormat),
{
}

/// Extracts the plain text of the file `filename` with content `bytes`, as
/// far as that needs no parser.
///
/// The result is what [`extraction`] gives.  Plain text that is valid UTF-8
/// comes out as the text that the bytes encode.
pub fn extract(bytes: &[u8], filename: &str) -> (r: Extraction)
    ensures
        r@ == extraction(bytes@, filename@),
        format_for(extension(filename@)) == Some(Format::Text) && valid_utf8(bytes@) ==> r@
            == ExtractionView::Done(
            finished(normalized_title(filename@), Ok(decode_utf8(bytes@))),
        ),
{
    let title = title_of(filename);
    let ext = file_extension(filename);
    match format_of(ext.as_str()) {
        None => Extraction::Done(Err(ExtractionError::UnsupportedFormat)),
        Some(Format::Text) => Extraction::Done(finish(title, Ok(decode_lossy(bytes)))),
        Some(Format::Html) => Extraction::RenderHtml { title, width: HTML_WIDTH },
        Some(Format::Pdf) => Extraction::ReadPdf { title },
    }
}

} // verus!
