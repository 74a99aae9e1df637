//! The pattern table: one compiled pattern for each kind but `Unknown`, in
//! priority order.
//!
//! A table is built once and is read-only afterwards, so one table can serve
//! any number of texts. Building it is the only step that can fail, and it
//! fails only when a pattern of the library is itself malformed.

use crate::engine::{capture_first_group, compile, compiles, first_group, regex_pattern};
use crate::kinds::{TokenSize, TokenizeError, Tokens, PATTERN_COUNT};
use crate::matching::{finds, lemma_selected_is_the_winner, select, selected, wins};
use crate::patterns::{pattern, pattern_text};
use regex::Regex;
use vstd::prelude::*;
use vstd::string::StringSliceAdditionalSpecFns;
use vstd::utf8::{decode_utf8, is_char_boundary};

verus! {

/// The compiled patterns, in priority order.
pub struct PatternTable {
    compiled: Vec<Regex>,
}

/// Whether every pattern of the library is a well-formed regular expression.
pub open spec fn table_compiles() -> bool {
    forall|i: int| 0 <= i < PATTERN_COUNT ==> compiles(#[trigger] pattern_text(Tokens::at(i)))
}

/// What becomes of the outcome of compiling: what was compiled is kept, and
/// the engine's error becomes `InvalidPattern`.
pub fn or_invalid_pattern<T>(compiled: Result<T, regex::Error>) -> (kept: Result<T, TokenizeError>)
    ensures
        compiled matches Ok(value) ==> kept == Ok::<T, TokenizeError>(value),
        compiled is Err ==> kept == Err::<T, TokenizeError>(TokenizeError::InvalidPattern),
{
    match compiled {
        Ok(value) => Ok(value),
        Err(_) => Err(TokenizeError::InvalidPattern),
    }
}

/// What each pattern reports on the text with the UTF-8 bytes `bytes`, in
/// priority order: the offsets of the first capture group of its leftmost
/// match.
pub open spec fn reports(bytes: Seq<u8>) -> Seq<Option<(usize, usize)>> {
    Seq::new(
        PATTERN_COUNT as nat,
        |i: int| first_group(pattern_text(Tokens::at(i)), decode_utf8(bytes)),
    )
}

/// The next token of the text with the UTF-8 bytes `bytes`, or `None` when
/// no pattern finds a token anywhere in it.
pub open spec fn next_match(bytes: Seq<u8>) -> Option<TokenSize> {
    selected(reports(bytes), bytes.len() as int)
}

/// The next token of a text is never empty, lies inside the text, and is
/// never of kind `Unknown`.
pub proof fn lemma_next_match_is_a_token(bytes: Seq<u8>)
    ensures
        next_match(bytes) matches Some(token) ==> {
            &&& token.0 < token.1 <= bytes.len()
            &&& token.2 != Tokens::Unknown
        },
{
    let found = reports(bytes);
    let len = bytes.len() as int;
    if exists|i: int| wins(found, len, i) {
        lemma_selected_is_the_winner(found, len, choose|i: int| wins(found, len, i));
    }
}

impl PatternTable {
    /// Place `i` holds the compiled form of the pattern of the kind at place
    /// `i`.
    #[verifier::type_invariant]
    spec fn well_formed(&self) -> bool {
        &&& self.compiled.len() == PATTERN_COUNT
        &&& forall|i: int|
            0 <= i < PATTERN_COUNT ==> regex_pattern(#[trigger] self.compiled[i]) == Some(
                pattern_text(Tokens::at(i)),
            )
    }

    /// Compiles every pattern, in priority order. The table is built exactly
    /// when all of them are well formed.
    pub fn new() -> (built: Result<PatternTable, TokenizeError>)
        ensures
            built is Ok <==> table_compiles(),
            built matches Err(error) ==> error == TokenizeError::InvalidPattern,
    {
        let mut compiled: Vec<Regex> = Vec::new();
        let mut i: usize = 0;
        while i < PATTERN_COUNT
            invariant
                i <= PATTERN_COUNT,
                compiled.len() == i,
                forall|j: int|
                    0 <= j < i ==> compiles(#[trigger] pattern_text(Tokens::at(j))),
                forall|j: int|
                    0 <= j < i ==> regex_pattern(#[trigger] compiled[j]) == Some(
                        pattern_text(Tokens::at(j)),
                    ),
            decreases PATTERN_COUNT - i,
        {
            let kind = Tokens::from_index(i).unwrap();
            let source = pattern(kind).unwrap();
            match or_invalid_pattern(compile(source)) {
                Ok(expression) => {
                    compiled.push(expression);
                },
                Err(error) => {
                    return Err(error);
                },
            }
            i += 1;
        }
        Ok(PatternTable { compiled })
    }

    /// Tries every pattern on `text`, each by itself, and lists what they
    /// report, in priority order. Every reported span is a range of `text`
    /// that begins and ends between characters.
    pub fn captures(&self, text: &str) -> (found: Vec<Option<(usize, usize)>>)
        ensures
            found@ == reports(text.spec_bytes()),
            forall|i: int|
                0 <= i < found.len() ==> (#[trigger] found[i] matches Some(span) ==> {
                    &&& span.0 <= span.1 <= text.spec_bytes().len()
                    &&& is_char_boundary(text.spec_bytes(), span.0 as int)
                    &&& is_char_boundary(text.spec_bytes(), span.1 as int)
                }),
    {
        proof {
            use_type_invariant(self);
            vstd::utf8::encode_utf8_decode_utf8(text@);
        }
        let mut found: Vec<Option<(usize, usize)>> = Vec::new();
        let mut i: usize = 0;
        while i < PATTERN_COUNT
            invariant
                i <= PATTERN_COUNT,
                found.len() == i,
                self.compiled.len() == PATTERN_COUNT,
                decode_utf8(text.spec_bytes()) == text@,
                forall|j: int|
                    0 <= j < PATTERN_COUNT ==> regex_pattern(#[trigger] self.compiled[j]) == Some(
                        pattern_text(Tokens::at(j)),
                    ),
                forall|j: int|
                    0 <= j < i ==> #[trigger] found[j] == first_group(
                        pattern_text(Tokens::at(j)),
                        text@,
                    ),
                forall|j: int|
                    0 <= j < i ==> (#[trigger] found[j] matches Some(span) ==> {
                        &&& span.0 <= span.1 <= text.spec_bytes().len()
                        &&& is_char_boundary(text.spec_bytes(), span.0 as int)
                        &&& is_char_boundary(text.spec_bytes(), span.1 as int)
                    }),
            decreases PATTERN_COUNT - i,
        {
            let span = capture_first_group(&self.compiled[i], text);
            found.push(span);
            i += 1;
        }
        assert(found@ =~= reports(text.spec_bytes()));
        found
    }
}

impl Tokens {
    /// The next token of `a`: where it starts and ends, in bytes from the
    /// start of `a`, and its kind. Fails with `NoMatchingToken` exactly when
    /// no pattern finds a token anywhere in `a`.
    ///
    /// A token is never empty, never of kind `Unknown`, and begins and ends
    /// between characters of `a`.
    pub fn from_str(table: &PatternTable, a: &str) -> (next: Result<TokenSize, TokenizeError>)
        ensures
            next == (match next_match(a.spec_bytes()) {
                Some(token) => Ok::<TokenSize, TokenizeError>(token),
                None => Err(TokenizeError::NoMatchingToken),
            }),
            next is Err <==> forall|i: int|
                !finds(reports(a.spec_bytes()), a.spec_bytes().len() as int, i),
            next matches Ok(token) ==> {
                &&& token.0 < token.1 <= a.spec_bytes().len()
                &&& token.2 != Tokens::Unknown
                &&& is_char_boundary(a.spec_bytes(), token.0 as int)
                &&& is_char_boundary(a.spec_bytes(), token.1 as int)
            },
    {
        let found = table.captures(a);
        let next = select(&found, a.as_bytes().len());
        proof {
            lemma_next_match_is_a_token(a.spec_bytes());
        }
        next
    }
}

} // verus!
