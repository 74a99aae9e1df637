//! A tokenizer for a C-like language.
//!
//! Source text goes in, an ordered sequence of classified byte spans comes
//! out. Each step looks for the earliest place at which any pattern of a
//! fixed table finds a token; ties go to the pattern that stands first in
//! the table. What lies between two tokens and matches nothing becomes one
//! span of kind `Unknown`.
//!
//! - [`kinds`]: the kinds of token, in priority order, and the error type.
//! - [`patterns`]: the regular expression of each kind.
//! - [`engine`]: what is taken on trust of the `regex` crate.
//! - [`table`]: the compiled patterns, and the next token of a text.
//! - [`matching`]: the choice among what the patterns found.
//! - [`scan`]: the loop that turns a text into spans.
//! - [`coverage`]: what holds of the spans of every text.
//! - [`prefix`]: a coarse classifier of what a text begins with.
//!
//! Two choices are worth knowing before use. A text that ends in something
//! no pattern recognises is not an error: the spans stop before that tail,
//! and the end of the last span tells how far the scan came. And a reserved
//! word is recognised only where no character of a name follows it.

pub mod coverage;
pub mod engine;
pub mod kinds;
pub mod matching;
pub mod patterns;
pub mod prefix;
pub mod scan;
pub mod table;

pub use kinds::{TokenSize, TokenizeError, Tokens, PATTERN_COUNT};
pub use scan::tokenize;
pub use table::PatternTable;
