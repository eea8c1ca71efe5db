use rsvp::cache::TextCache;
use rsvp::extract::{ExtractedText, ExtractionError};
use rsvp::history::HistoryStore;
use rsvp::extract::{finish, finish_pages};
use rsvp::ingest::{load_or_extract, serve, take_in, Load, Loaded, Source};

/// Loads a file to the end, handing `parsed` in where the library asks for
/// a parser.
fn load(
    cache: &mut TextCache,
    bytes: &[u8],
    filename: &str,
    history: &HistoryStore,
    parsed: Result<String, String>,
) -> Result<Loaded, ExtractionError> {
    match load_or_extract(cache, bytes, filename, history) {
        Load::Done(result) => result,
        Load::RenderHtml { title, .. } => take_in(cache, finish(title, parsed)),
        Load::ReadPdf { title } => take_in(cache, finish_pages(title, parsed.map(|t| vec![t]))),
    }
}

fn unparsed() -> Result<String, String> {
    Err("no parser was run".to_string())
}

#[test]
fn first_load_extracts_and_caches() {
    let mut cache = TextCache::new();
    let history = HistoryStore::new();
    let got = load(&mut cache, b"one two three", "story.txt", &history, unparsed()).unwrap();
    assert_eq!(
        got,
        Loaded {
            text: "one two three".to_string(),
            title: "story".to_string(),
            index: 0,
            source: Source::Extractor,
        }
    );
    assert_eq!(cache.lookup("story"), Some("one two three".to_string()));
}

#[test]
fn second_load_is_served_from_the_cache() {
    let mut cache = TextCache::new();
    let mut history = HistoryStore::new();
    let first = load(&mut cache, b"one two three", "story.txt", &history, unparsed()).unwrap();
    history.record("story", 2);
    let second = load(&mut cache, b"one two three", "story.txt", &history, unparsed()).unwrap();
    assert_eq!(second.source, Source::Cache);
    assert_eq!(second.text, first.text);
    assert_eq!(second.title, first.title);
    assert_eq!(second.index, 2);
    assert_eq!(cache.len(), 1);
}

#[test]
fn cached_title_is_served_whatever_the_bytes() {
    let mut cache = TextCache::new();
    let history = HistoryStore::new();
    cache.store("story", "the cached text");
    let got = load(&mut cache, b"%PDF-garbage", "story.pdf", &history, unparsed()).unwrap();
    assert_eq!(got.text, "the cached text");
    assert_eq!(got.source, Source::Cache);
    let got = load(&mut cache, b"x", "story.unknown", &history, unparsed()).unwrap();
    assert_eq!(got.text, "the cached text");
}

#[test]
fn extraction_ignores_the_history() {
    let mut cache = TextCache::new();
    let mut history = HistoryStore::new();
    history.record("story", 9);
    let got = load(&mut cache, b"one two", "story.txt", &history, unparsed()).unwrap();
    assert_eq!(got.index, 0);
    assert_eq!(got.source, Source::Extractor);
}

#[test]
fn failed_load_leaves_the_cache_alone() {
    let mut cache = TextCache::new();
    let history = HistoryStore::new();
    assert_eq!(
        load(&mut cache, b"text", "story.rtf", &history, unparsed()),
        Err(ExtractionError::UnsupportedFormat)
    );
    assert_eq!(
        load(&mut cache, b"", "story.txt", &history, unparsed()),
        Err(ExtractionError::EmptyDocument)
    );
    assert!(matches!(
        load(&mut cache, b"junk", "story.pdf", &history, Err("bad xref".to_string())),
        Err(ExtractionError::Failed(_))
    ));
    assert_eq!(cache.len(), 0);
}

#[test]
fn a_cached_title_asks_for_no_parser() {
    let mut cache = TextCache::new();
    let history = HistoryStore::new();
    assert_eq!(
        load_or_extract(&mut cache, b"<p>x</p>", "page.html", &history),
        Load::RenderHtml { title: "page".to_string(), width: 80 }
    );
    assert_eq!(
        load_or_extract(&mut cache, b"%PDF", "page.pdf", &history),
        Load::ReadPdf { title: "page".to_string() }
    );
    assert_eq!(cache.len(), 0);
    let first = load(&mut cache, b"<p>x</p>", "page.html", &history, Ok("x\n".to_string()));
    assert_eq!(first.unwrap().source, Source::Extractor);
    assert_eq!(
        load_or_extract(&mut cache, b"<p>other</p>", "page.html", &history),
        Load::Done(Ok(Loaded {
            text: "x\n".to_string(),
            title: "page".to_string(),
            index: 0,
            source: Source::Cache,
        }))
    );
    assert_eq!(
        load_or_extract(&mut cache, b"%PDF", "page.pdf", &history),
        Load::Done(Ok(Loaded {
            text: "x\n".to_string(),
            title: "page".to_string(),
            index: 0,
            source: Source::Cache,
        }))
    );
}

#[test]
fn a_parser_failure_is_reported_and_caches_nothing() {
    let mut cache = TextCache::new();
    let history = HistoryStore::new();
    assert_eq!(
        load(&mut cache, b"<", "page.html", &history, Err("Unknown failure".to_string())),
        Err(ExtractionError::Failed("Unknown failure".to_string()))
    );
    assert_eq!(
        load(&mut cache, b"<p></p>", "page.html", &history, Ok(String::new())),
        Err(ExtractionError::EmptyDocument)
    );
    assert_eq!(cache.len(), 0);
}

#[test]
fn serve_misses_an_unknown_title() {
    let cache = TextCache::new();
    let history = HistoryStore::new();
    assert_eq!(serve(&cache, "story.txt", &history), None);
}

#[test]
fn serve_resumes_at_the_recorded_index() {
    let mut cache = TextCache::new();
    let mut history = HistoryStore::new();
    cache.store("story", "a b c");
    history.record("story", 1);
    assert_eq!(
        serve(&cache, "story.md", &history),
        Some(Loaded {
            text: "a b c".to_string(),
            title: "story".to_string(),
            index: 1,
            source: Source::Cache,
        })
    );
}

#[test]
fn take_in_caches_what_was_extracted() {
    let mut cache = TextCache::new();
    let extracted =
        ExtractedText { normalized_title: "story".to_string(), plain_text: "a b".to_string() };
    let got = take_in(&mut cache, Ok(extracted)).unwrap();
    assert_eq!(got.index, 0);
    assert_eq!(got.source, Source::Extractor);
    assert_eq!(cache.lookup("story"), Some("a b".to_string()));
}

#[test]
fn take_in_hands_a_failure_on() {
    let mut cache = TextCache::new();
    assert_eq!(
        take_in(&mut cache, Err(ExtractionError::EmptyDocument)),
        Err(ExtractionError::EmptyDocument)
    );
    assert_eq!(cache.len(), 0);
}
