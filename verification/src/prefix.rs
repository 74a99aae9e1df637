//! A coarse classifier: what kind of thing a text begins with.
//!
//! It knows numbers, single characters of punctuation and two-character
//! names, and looks only at the start of the text. All its patterns are
//! searched for together; when several match, the kind that stands first in
//! the order of [`Tokens`] is the answer.

use crate::engine::{
    compile_set, matched_places, matching_places, set_compiles, set_patterns, texts_of,
};
use crate::kinds::TokenizeError;
use crate::table::or_invalid_pattern;
use regex::RegexSet;
use vstd::prelude::*;

verus! {

/// Number of kinds of the classifier. Each has a pattern.
pub const KIND_COUNT: usize = 31;

/// What a text can begin with, in priority order.
#[derive(Debug, Copy, Clone, PartialEq, Eq, Structural)]
pub enum Tokens {
    Number,
    Comma,
    Period,
    SemiColon,
    Colon,
    Question,
    Apostrophe,
    Quotation,
    Exclamation,
    VerticalBar,
    Slash,
    BackSlash,
    Tilde,
    Underscore,
    Dollar,
    Percent,
    LeftCurly,
    RightCurly,
    LeftBracket,
    RightBracket,
    LeftParen,
    RightParen,
    Ampersand,
    Caret,
    Plus,
    Minus,
    Equals,
    LeftAngle,
    RightAngle,
    Hash,
    Identifier,
}

impl Tokens {
    /// The kind at place `i` of the priority order. Past the end of the
    /// order the value is of no interest.
    pub open spec fn at(i: int) -> Tokens {
        if i == 0 {
            Tokens::Number
        } else if i == 1 {
            Tokens::Comma
        } else if i == 2 {
            Tokens::Period
        } else if i == 3 {
            Tokens::SemiColon
        } else if i == 4 {
            Tokens::Colon
        } else if i == 5 {
            Tokens::Question
        } else if i == 6 {
            Tokens::Apostrophe
        } else if i == 7 {
            Tokens::Quotation
        } else if i == 8 {
            Tokens::Exclamation
        } else if i == 9 {
            Tokens::VerticalBar
        } else if i == 10 {
            Tokens::Slash
        } else if i == 11 {
            Tokens::BackSlash
        } else if i == 12 {
            Tokens::Tilde
        } else if i == 13 {
            Tokens::Underscore
        } else if i == 14 {
            Tokens::Dollar
        } else if i == 15 {
            Tokens::Percent
        } else if i == 16 {
            Tokens::LeftCurly
        } else if i == 17 {
            Tokens::RightCurly
        } else if i == 18 {
            Tokens::LeftBracket
        } else if i == 19 {
            Tokens::RightBracket
        } else if i == 20 {
            Tokens::LeftParen
        } else if i == 21 {
            Tokens::RightParen
        } else if i == 22 {
            Tokens::Ampersand
        } else if i == 23 {
            Tokens::Caret
        } else if i == 24 {
            Tokens::Plus
        } else if i == 25 {
            Tokens::Minus
        } else if i == 26 {
            Tokens::Equals
        } else if i == 27 {
            Tokens::LeftAngle
        } else if i == 28 {
            Tokens::RightAngle
        } else if i == 29 {
            Tokens::Hash
        } else {
            Tokens::Identifier
        }
    }

    /// The place of a kind in the priority order.
    pub open spec fn position(self) -> int {
        match self {
            Tokens::Number => 0,
            Tokens::Comma => 1,
            Tokens::Period => 2,
            Tokens::SemiColon => 3,
            Tokens::Colon => 4,
            Tokens::Question => 5,
            Tokens::Apostrophe => 6,
            Tokens::Quotation => 7,
            Tokens::Exclamation => 8,
            Tokens::VerticalBar => 9,
            Tokens::Slash => 10,
            Tokens::BackSlash => 11,
            Tokens::Tilde => 12,
            Tokens::Underscore => 13,
            Tokens::Dollar => 14,
            Tokens::Percent => 15,
            Tokens::LeftCurly => 16,
            Tokens::RightCurly => 17,
            Tokens::LeftBracket => 18,
            Tokens::RightBracket => 19,
            Tokens::LeftParen => 20,
            Tokens::RightParen => 21,
            Tokens::Ampersand => 22,
            Tokens::Caret => 23,
            Tokens::Plus => 24,
            Tokens::Minus => 25,
            Tokens::Equals => 26,
            Tokens::LeftAngle => 27,
            Tokens::RightAngle => 28,
            Tokens::Hash => 29,
            Tokens::Identifier => 30,
        }
    }

    /// The kind at place `i` of the priority order, if there is one.
    pub fn from_index(i: usize) -> (kind: Option<Tokens>)
        ensures
            kind == (if i < KIND_COUNT {
                Some(Tokens::at(i as int))
            } else {
                None
            }),
    {
        if i == 0 {
            Some(Tokens::Number)
        } else if i == 1 {
            Some(Tokens::Comma)
        } else if i == 2 {
            Some(Tokens::Period)
        } else if i == 3 {
            Some(Tokens::SemiColon)
        } else if i == 4 {
            Some(Tokens::Colon)
        } else if i == 5 {
            Some(Tokens::Question)
        } else if i == 6 {
            Some(Tokens::Apostrophe)
        } else if i == 7 {
            Some(Tokens::Quotation)
        } else if i == 8 {
            Some(Tokens::Exclamation)
        } else if i == 9 {
            Some(Tokens::VerticalBar)
        } else if i == 10 {
            Some(Tokens::Slash)
        } else if i == 11 {
            Some(Tokens::BackSlash)
        } else if i == 12 {
            Some(Tokens::Tilde)
        } else if i == 13 {
            Some(Tokens::Underscore)
        } else if i == 14 {
            Some(Tokens::Dollar)
        } else if i == 15 {
            Some(Tokens::Percent)
        } else if i == 16 {
            Some(Tokens::LeftCurly)
        } else if i == 17 {
            Some(Tokens::RightCurly)
        } else if i == 18 {
            Some(Tokens::LeftBracket)
        } else if i == 19 {
            Some(Tokens::RightBracket)
        } else if i == 20 {
            Some(Tokens::LeftParen)
        } else if i == 21 {
            Some(Tokens::RightParen)
        } else if i == 22 {
            Some(Tokens::Ampersand)
        } else if i == 23 {
            Some(Tokens::Caret)
        } else if i == 24 {
            Some(Tokens::Plus)
        } else if i == 25 {
            Some(Tokens::Minus)
        } else if i == 26 {
            Some(Tokens::Equals)
        } else if i == 27 {
            Some(Tokens::LeftAngle)
        } else if i == 28 {
            Some(Tokens::RightAngle)
        } else if i == 29 {
            Some(Tokens::Hash)
        } else if i == 30 {
            Some(Tokens::Identifier)
        } else {
            None
        }
    }
}

/// The pattern of `kind`, as text. Each is tied to the start of the text.
pub open spec fn pattern_text(kind: Tokens) -> Seq<char> {
    match kind {
        Tokens::Number => "^(\\+|-)?(0\\.|[1-9][0-9]*)[0-9]*(e(\\+|-)?[0-9]+)?"@,
        Tokens::Comma => "^,"@,
        Tokens::Period => "^\\."@,
        Tokens::SemiColon => "^;"@,
        Tokens::Colon => "^:"@,
        Tokens::Question => "^\\?"@,
        Tokens::Apostrophe => "^'"@,
        Tokens::Quotation => "^\""@,
        Tokens::Exclamation => "^!"@,
        Tokens::VerticalBar => "^\\|"@,
        Tokens::Slash => "^/"@,
        Tokens::BackSlash => "^\\\\"@,
        Tokens::Tilde => "^~"@,
        Tokens::Underscore => "^_"@,
        Tokens::Dollar => "^$"@,
        Tokens::Percent => "^%"@,
        Tokens::LeftCurly => "^\\{"@,
        Tokens::RightCurly => "^}"@,
        Tokens::LeftBracket => "^\\["@,
        Tokens::RightBracket => "^]"@,
        Tokens::LeftParen => "^\\("@,
        Tokens::RightParen => "^\\)"@,
        Tokens::Ampersand => "^&"@,
        Tokens::Caret => "^\\^"@,
        Tokens::Plus => "^\\+"@,
        Tokens::Minus => "^-"@,
        Tokens::Equals => "^="@,
        Tokens::LeftAngle => "^<"@,
        Tokens::RightAngle => "^>"@,
        Tokens::Hash => "^#"@,
        Tokens::Identifier => "^[_a-zA-Z][a-zA-Z0-9_]"@,
    }
}

/// The pattern of `kind`.
pub fn pattern(kind: Tokens) -> (source: &'static str)
    ensures
        source@ == pattern_text(kind),
{
    match kind {
        Tokens::Number => "^(\\+|-)?(0\\.|[1-9][0-9]*)[0-9]*(e(\\+|-)?[0-9]+)?",
        Tokens::Comma => "^,",
        Tokens::Period => "^\\.",
        Tokens::SemiColon => "^;",
        Tokens::Colon => "^:",
        Tokens::Question => "^\\?",
        Tokens::Apostrophe => "^'",
        Tokens::Quotation => "^\"",
        Tokens::Exclamation => "^!",
        Tokens::VerticalBar => "^\\|",
        Tokens::Slash => "^/",
        Tokens::BackSlash => "^\\\\",
        Tokens::Tilde => "^~",
        Tokens::Underscore => "^_",
        Tokens::Dollar => "^$",
        Tokens::Percent => "^%",
        Tokens::LeftCurly => "^\\{",
        Tokens::RightCurly => "^}",
        Tokens::LeftBracket => "^\\[",
        Tokens::RightBracket => "^]",
        Tokens::LeftParen => "^\\(",
        Tokens::RightParen => "^\\)",
        Tokens::Ampersand => "^&",
        Tokens::Caret => "^\\^",
        Tokens::Plus => "^\\+",
        Tokens::Minus => "^-",
        Tokens::Equals => "^=",
        Tokens::LeftAngle => "^<",
        Tokens::RightAngle => "^>",
        Tokens::Hash => "^#",
        Tokens::Identifier => "^[_a-zA-Z][a-zA-Z0-9_]",
    }
}

/// The patterns of all kinds, in priority order.
pub open spec fn pattern_texts() -> Seq<Seq<char>> {
    Seq::new(KIND_COUNT as nat, |i: int| pattern_text(Tokens::at(i)))
}

/// The priority order lists every kind exactly once.
pub proof fn lemma_order_is_a_bijection(kind: Tokens, i: int)
    ensures
        0 <= kind.position() < KIND_COUNT,
        Tokens::at(kind.position()) == kind,
        0 <= i < KIND_COUNT ==> Tokens::at(i).position() == i,
{
}

/// Whether `i` is the place of a pattern and among the `matched` places.
pub open spec fn reported(matched: Seq<usize>, i: int) -> bool {
    &&& 0 <= i < KIND_COUNT
    &&& exists|k: int| 0 <= k < matched.len() && #[trigger] matched[k] == i
}

/// Whether `i` is the first place, in priority order, among the `matched`
/// ones.
pub open spec fn first_reported(matched: Seq<usize>, i: int) -> bool {
    &&& reported(matched, i)
    &&& forall|j: int| #[trigger] reported(matched, j) ==> i <= j
}

/// The kind to report when the patterns at the `matched` places match: that
/// of the first of them in priority order, or `None` when none matches.
pub open spec fn classified(matched: Seq<usize>) -> Option<Tokens> {
    if exists|i: int| first_reported(matched, i) {
        Some(Tokens::at(choose|i: int| first_reported(matched, i)))
    } else {
        None
    }
}

/// The kind chosen is that of the first place among the matched ones.
pub proof fn lemma_classified_is_the_first(matched: Seq<usize>, i: int)
    requires
        first_reported(matched, i),
    ensures
        classified(matched) == Some(Tokens::at(i)),
{
    let chosen = choose|k: int| first_reported(matched, k);
    assert(reported(matched, i));
    assert(reported(matched, chosen));
}

/// What a text with the characters `text` begins with, or `None` when no
/// pattern matches at its start.
pub open spec fn kind_of(text: Seq<char>) -> Option<Tokens> {
    classified(matched_places(pattern_texts(), text))
}

/// Choosing the kind from the places of the patterns that matched.
pub fn classify(matched: &Vec<usize>) -> (kind: Result<Tokens, TokenizeError>)
    ensures
        kind == (match classified(matched@) {
            Some(found) => Ok::<Tokens, TokenizeError>(found),
            None => Err(TokenizeError::NoMatchingToken),
        }),
        kind is Err <==> forall|i: int| !reported(matched@, i),
{
    let mut lowest: Option<usize> = None;
    let mut k: usize = 0;
    while k < matched.len()
        invariant
            k <= matched.len(),
            lowest is None ==> forall|j: int| 0 <= j < k ==> matched[j] >= KIND_COUNT,
            lowest matches Some(place) ==> {
                &&& place < KIND_COUNT
                &&& exists|j: int| 0 <= j < k && #[trigger] matched[j] == place
                &&& forall|j: int|
                    0 <= j < k && #[trigger] matched[j] < KIND_COUNT ==> place <= matched[j]
            },
        decreases matched.len() - k,
    {
        let place = matched[k];
        if place < KIND_COUNT {
            let lower = match lowest {
                Some(so_far) => place < so_far,
                None => true,
            };
            if lower {
                lowest = Some(place);
            }
        }
        k += 1;
    }
    match lowest {
        Some(place) => {
            proof {
                lemma_classified_is_the_first(matched@, place as int);
            }
            match Tokens::from_index(place) {
                Some(found) => Ok(found),
                None => Err(TokenizeError::NoMatchingToken),
            }
        },
        None => Err(TokenizeError::NoMatchingToken),
    }
}

/// The compiled patterns of the classifier.
pub struct PrefixTable {
    set: RegexSet,
}

impl PrefixTable {
    /// The set holds the patterns of the kinds, in priority order.
    #[verifier::type_invariant]
    spec fn well_formed(&self) -> bool {
        set_patterns(self.set) == Some(pattern_texts())
    }

    /// Compiles the patterns. The table is built exactly when they are all
    /// well formed.
    pub fn new() -> (built: Result<PrefixTable, TokenizeError>)
        ensures
            built is Ok <==> set_compiles(pattern_texts()),
            built matches Err(error) ==> error == TokenizeError::InvalidPattern,
    {
        let mut sources: Vec<&'static str> = Vec::new();
        let mut i: usize = 0;
        while i < KIND_COUNT
            invariant
                i <= KIND_COUNT,
                sources.len() == i,
                forall|j: int|
                    0 <= j < i ==> (#[trigger] sources[j])@ == pattern_text(Tokens::at(j)),
            decreases KIND_COUNT - i,
        {
            let kind = Tokens::from_index(i).unwrap();
            sources.push(pattern(kind));
            i += 1;
        }
        assert(texts_of(sources@) =~= pattern_texts());
        match or_invalid_pattern(compile_set(&sources)) {
            Ok(set) => Ok(PrefixTable { set }),
            Err(error) => Err(error),
        }
    }

    /// The places of the patterns that match at the start of `text`.
    pub fn matches(&self, text: &str) -> (places: Vec<usize>)
        ensures
            places@ == matched_places(pattern_texts(), text@),
            forall|i: int| 0 <= i < places.len() ==> places[i] < KIND_COUNT,
            forall|i: int, j: int| 0 <= i < j < places.len() ==> places[i] < places[j],
    {
        proof {
            use_type_invariant(self);
        }
        matching_places(&self.set, text)
    }
}

impl Tokens {
    /// What `a` begins with. Fails with `NoMatchingToken` exactly when no
    /// pattern matches at the start of `a`.
    pub fn from_str(table: &PrefixTable, a: &str) -> (kind: Result<Tokens, TokenizeError>)
        ensures
            kind == (match kind_of(a@) {
                Some(found) => Ok::<Tokens, TokenizeError>(found),
                None => Err(TokenizeError::NoMatchingToken),
            }),
            kind is Err <==> matched_places(pattern_texts(), a@).len() == 0,
    {
        let places = table.matches(a);
        let kind = classify(&places);
        proof {
            if places.len() > 0 {
                assert(reported(places@, places[0] as int));
            }
        }
        kind
    }
}

} // verus!
