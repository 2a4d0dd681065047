//! Extraction of the readable main content of a web page, with its metadata.
//!
//! A page is taken apart in a fixed order. The collector walks the untouched
//! document once and gathers meta tags, structured data, the title, the
//! favicon and the embed payload. The resolver makes one metadata record of
//! them, each field from the first source that has it. Where a site-specific
//! extractor accepts the page, its result is the content. Otherwise clutter is
//! removed from the body, what is left is standardized and its words are
//! counted; a short result is tried again without clutter removal.
//!
//! Every function states what it returns over sequences of characters, the
//! views of `str` and `String`. What the `lol_html`, `regex`, `serde_json`,
//! `html_escape` and `url` crates compute is named, not described: `markup`,
//! `pattern`, `json`, `utils` and `metadata` hold those names and the calls
//! behind them.

pub mod collector;
pub mod constants;
pub mod elements;
pub mod error;
pub mod extractor;
pub mod extractors;
pub mod html_to_text;
pub mod json;
pub mod markup;
pub mod metadata;
pub mod pattern;
pub mod rewrite;
pub mod scoring;
pub mod standardize;
pub mod text;
pub mod trek;
pub mod types;
pub mod utils;

pub use crate::collector::CollectedData;
pub use crate::trek::Trek;
pub use crate::types::{MetaTagItem, TrekOptions, TrekResponse};
