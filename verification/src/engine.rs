//! The regular-expression engine behind the pattern table.
//!
//! Matching itself is done by the `regex` crate. Nothing in this file is
//! proved: each item states, in terms the rest of the library can reason
//! about, what the crate documents of one of its functions.

use regex::{Regex, RegexSet};
use vstd::prelude::*;
use vstd::string::StringSliceAdditionalSpecFns;
use vstd::utf8::is_char_boundary;

verus! {

/// `regex::Regex`: a compiled regular expression. Its inside is not visible
/// to the verifier; [`regex_pattern`] stands for the one thing the library
/// needs to know of a value.
#[verifier::external_type_specification]
#[verifier::external_body]
pub struct ExRegex(Regex);

/// `regex::RegexSet`: several compiled regular expressions that are searched
/// for together. Its inside is not visible to the verifier; [`set_patterns`]
/// stands for the one thing the library needs to know of a value.
#[verifier::external_type_specification]
#[verifier::external_body]
pub struct ExRegexSet(RegexSet);

/// `regex::Error`: why a pattern could not be compiled.
#[verifier::external_type_specification]
#[verifier::external_body]
pub struct ExRegexError(regex::Error);

/// The pattern from which `Regex::new` made a compiled expression: the
/// string that `Regex::as_str` returns for it. An expression that was made
/// in another way, with options of its own, is not described by its pattern
/// alone and has `None` here.
pub uninterp spec fn regex_pattern(re: Regex) -> Option<Seq<char>>;

/// Whether `Regex::new` accepts `pattern`. The crate compiles with fixed
/// default limits, so the answer depends on the pattern alone.
pub uninterp spec fn compiles(pattern: Seq<char>) -> bool;

/// Where the first capture group of the leftmost match of `pattern` lies in
/// `text`, as byte offsets; `None` when the pattern matches nowhere in `text`
/// or the group took no part in the match. This is what `Regex::captures`
/// followed by `Captures::get(1)` reports.
pub uninterp spec fn first_group(pattern: Seq<char>, text: Seq<char>) -> Option<(usize, usize)>;

/// The patterns from which `RegexSet::new` made a set, in the order in which
/// they were given: the strings that `RegexSet::patterns` returns for it. A
/// set that was made in another way, with options of its own, has `None`
/// here.
pub uninterp spec fn set_patterns(set: RegexSet) -> Option<Seq<Seq<char>>>;

/// Whether `RegexSet::new` accepts `patterns`. The crate compiles with fixed
/// default limits, so the answer depends on the patterns alone.
pub uninterp spec fn set_compiles(patterns: Seq<Seq<char>>) -> bool;

/// The places, among `patterns`, of those that match somewhere in `text`, in
/// the order in which `SetMatches::iter` yields them after
/// `RegexSet::matches`.
pub uninterp spec fn matched_places(patterns: Seq<Seq<char>>, text: Seq<char>) -> Seq<usize>;

/// The texts of a list of patterns.
pub open spec fn texts_of(patterns: Seq<&'static str>) -> Seq<Seq<char>> {
    patterns.map_values(|pattern: &'static str| pattern@)
}

/// `Regex::new`. The call succeeds exactly on the patterns that compile, and
/// the expression it returns remembers the pattern it was given.
#[verifier::external_body]
pub(crate) fn compile(pattern: &str) -> (compiled: Result<Regex, regex::Error>)
    ensures
        compiled is Ok <==> compiles(pattern@),
        compiled matches Ok(re) ==> regex_pattern(re) == Some(pattern@),
{
    Regex::new(pattern)
}

/// `Regex::captures`, then `Captures::get(1)`, then `Match::start` and
/// `Match::end`. For an expression that `Regex::new` made, what is found
/// depends on the pattern and the text alone. The crate documents that the
/// offsets of a match are byte offsets into the searched text, that the
/// start is not after the end, and that both fall on boundaries between
/// characters, so that the text can be sliced at them.
#[verifier::external_body]
pub(crate) fn capture_first_group(re: &Regex, text: &str) -> (span: Option<(usize, usize)>)
    ensures
        regex_pattern(*re) matches Some(pattern) ==> span == first_group(pattern, text@),
        span matches Some((start, end)) ==> {
            &&& start <= end <= text.spec_bytes().len()
            &&& is_char_boundary(text.spec_bytes(), start as int)
            &&& is_char_boundary(text.spec_bytes(), end as int)
        },
{
    match re.captures(text) {
        Some(groups) => match groups.get(1) {
            Some(found) => Some((found.start(), found.end())),
            None => None,
        },
        None => None,
    }
}

/// `RegexSet::new`. The call succeeds exactly on the lists of patterns that
/// compile, and the set it returns remembers the patterns in their order.
#[verifier::external_body]
pub(crate) fn compile_set(patterns: &Vec<&'static str>) -> (compiled: Result<
    RegexSet,
    regex::Error,
>)
    ensures
        compiled is Ok <==> set_compiles(texts_of(patterns@)),
        compiled matches Ok(set) ==> set_patterns(set) == Some(texts_of(patterns@)),
{
    RegexSet::new(patterns)
}

/// `RegexSet::matches`, then `SetMatches::iter`, collected. For a set that
/// `RegexSet::new` made, what is yielded depends on the patterns and the
/// text alone. The crate documents that the places yielded are those of the
/// patterns that match, counted in the order in which the patterns were
/// given to the set, and that they come in ascending order.
#[verifier::external_body]
pub(crate) fn matching_places(set: &RegexSet, text: &str) -> (places: Vec<usize>)
    ensures
        set_patterns(*set) matches Some(patterns) ==> {
            &&& places@ == matched_places(patterns, text@)
            &&& forall|i: int| 0 <= i < places.len() ==> places[i] < patterns.len()
        },
        forall|i: int, j: int| 0 <= i < j < places.len() ==> places[i] < places[j],
{
    set.matches(text).iter().collect()
}

} // verus!
