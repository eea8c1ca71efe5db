//! Word-at-a-time reading: document ingestion and the playback engine.
//!
//! A document's bytes are turned into plain text by the format that its
//! file name gives ([`extract`]), kept by title ([`cache`]) and split into
//! words ([`tokenizer`]).  The parsers of HTML and PDF run outside the
//! library, which says when one is needed and decides what its result
//! comes to.  The engine ([`engine`]) shows the words one
//! after the other, driven by a word timer and a frame clock, and records
//! where reading stopped ([`history`]).

pub mod cache;
pub mod config;
pub mod engine;
pub mod extract;
pub mod fade;
pub mod font;
pub mod format;
pub mod history;
pub mod ingest;
pub mod message;
pub mod paths;
pub mod text;
pub mod theme;
pub mod title_map;
pub mod tokenizer;

pub use crate::cache::TextCache;
pub use crate::config::Config;
pub use crate::engine::{update, DisplayColor, Playback, State};
pub use crate::extract::{
    extract, finish, finish_pages, ExtractedText, Extraction, ExtractionError,
};
pub use crate::history::HistoryStore;
pub use crate::ingest::{load_or_extract, take_in, Load, Loaded, Source};
pub use crate::message::{Action, ColorOption, FullscreenKey, Message};
pub use crate::paths::PathConfig;
pub use crate::theme::{hex_to_rgb, rgb_to_hex, ColorTheme, Rgb};
pub use crate::tokenizer::tokenize;
