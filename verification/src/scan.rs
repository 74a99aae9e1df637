//! The scan loop: from a text to its spans.
//!
//! The loop asks for the next token of what is left of the text. Whatever
//! lies before that token becomes one span of kind `Unknown`, however long
//! it is; then comes the token; then the loop goes on behind it. When no
//! pattern finds a token in what is left, the loop stops, and what is left
//! gets no span: callers that need to know compare the end of the last span
//! with the length of the text.
//!
//! Spans are `(start, end, kind)` with byte offsets into the whole text.

use crate::kinds::{TokenSize, Tokens};
use crate::table::{lemma_next_match_is_a_token, next_match, PatternTable};
use vstd::prelude::*;
use vstd::string::StringSliceAdditionalSpecFns;
use vstd::utf8::{is_char_boundary, valid_utf8};

verus! {

/// A span with its offsets as mathematical integers.
pub open spec fn span_view(span: (usize, usize, Tokens)) -> (int, int, Tokens) {
    (span.0 as int, span.1 as int, span.2)
}

/// A sequence of spans with their offsets as mathematical integers.
pub open spec fn spans_view(spans: Seq<(usize, usize, Tokens)>) -> Seq<(int, int, Tokens)> {
    spans.map_values(|span: (usize, usize, Tokens)| span_view(span))
}

/// The spans of one step that found `token` in the text that begins at
/// `offset`: the gap before the token, if there is one, and the token.
pub open spec fn step_spans(offset: int, token: TokenSize) -> Seq<(int, int, Tokens)> {
    if token.0 != 0 {
        seq![
            (offset, offset + token.0, Tokens::Unknown),
            (offset + token.0, offset + token.1, token.2),
        ]
    } else {
        seq![(offset + token.0, offset + token.1, token.2)]
    }
}

/// The spans of the text with the UTF-8 bytes `bytes`, when that text begins
/// at `offset` of the whole.
pub open spec fn spans_from(bytes: Seq<u8>, offset: int) -> Seq<(int, int, Tokens)>
    decreases bytes.len(),
{
    match next_match(bytes) {
        Some(token) => {
            proof {
                lemma_next_match_is_a_token(bytes);
            }
            step_spans(offset, token) + spans_from(
                bytes.subrange(token.1 as int, bytes.len() as int),
                offset + token.1,
            )
        },
        None => Seq::empty(),
    }
}

/// The spans of a whole text.
pub open spec fn spans_of(bytes: Seq<u8>) -> Seq<(int, int, Tokens)> {
    spans_from(bytes, 0)
}

/// Appends the spans of one step to `tokens`: the step found `token` in the
/// text that begins at `offset`.
pub fn push_step(tokens: &mut Vec<(usize, usize, Tokens)>, offset: usize, token: TokenSize)
    requires
        offset + token.0 <= usize::MAX,
        offset + token.1 <= usize::MAX,
    ensures
        spans_view(final(tokens)@) == spans_view(old(tokens)@) + step_spans(offset as int, token),
{
    let TokenSize(start, end, kind) = token;
    if start != 0 {
        tokens.push((offset, offset + start, Tokens::Unknown));
    }
    tokens.push((offset + start, offset + end, kind));
    assert(spans_view(tokens@) =~= spans_view(old(tokens)@) + step_spans(offset as int, token));
}

/// A boundary between characters of the rest of a text is one of the whole
/// text, when the rest begins at such a boundary.
proof fn lemma_boundary_of_rest(bytes: Seq<u8>, offset: int, at: int)
    requires
        valid_utf8(bytes),
        0 <= offset <= bytes.len(),
        is_char_boundary(bytes, offset),
        0 <= at <= bytes.len() - offset,
        is_char_boundary(bytes.subrange(offset, bytes.len() as int), at),
    ensures
        is_char_boundary(bytes, offset + at),
{
    let rest = bytes.subrange(offset, bytes.len() as int);
    vstd::utf8::valid_utf8_split(bytes, offset);
    if at == 0 {
    } else if at == rest.len() {
        vstd::utf8::is_char_boundary_start_end_of_seq(bytes);
    } else {
        vstd::utf8::is_char_boundary_iff_not_is_continuation_byte(rest, at);
        assert(rest[at] == bytes[offset + at]);
        vstd::utf8::is_char_boundary_iff_not_is_continuation_byte(bytes, offset + at);
    }
}

/// The spans of `text`, in order: for each token that the scan finds, the
/// gap before it, if there is one, and the token itself. A tail in which no
/// pattern finds a token gets no span.
///
/// Every span begins and ends between characters of `text`, so `text` can be
/// sliced at its offsets.
pub fn tokenize(table: &PatternTable, text: &str) -> (tokens: Vec<(usize, usize, Tokens)>)
    ensures
        spans_view(tokens@) == spans_of(text.spec_bytes()),
        forall|i: int|
            0 <= i < tokens.len() ==> {
                &&& is_char_boundary(text.spec_bytes(), (#[trigger] tokens[i]).0 as int)
                &&& is_char_boundary(text.spec_bytes(), tokens[i].1 as int)
            },
{
    let total = text.as_bytes().len();
    let ghost whole = text.spec_bytes();
    let mut tokens: Vec<(usize, usize, Tokens)> = Vec::new();
    let mut offset: usize = 0;
    let mut rest: &str = text;
    proof {
        vstd::utf8::encode_utf8_valid_utf8(text@);
        vstd::utf8::is_char_boundary_start_end_of_seq(whole);
        assert(whole.subrange(0, total as int) =~= whole);
        assert(spans_view(tokens@) =~= Seq::empty());
    }
    loop
        invariant
            whole == text.spec_bytes(),
            valid_utf8(whole),
            total == whole.len(),
            offset <= total,
            is_char_boundary(whole, offset as int),
            rest.spec_bytes() == whole.subrange(offset as int, total as int),
            spans_view(tokens@) + spans_from(rest.spec_bytes(), offset as int) == spans_of(whole),
            forall|i: int|
                0 <= i < tokens.len() ==> {
                    &&& is_char_boundary(whole, (#[trigger] tokens[i]).0 as int)
                    &&& is_char_boundary(whole, tokens[i].1 as int)
                },
        decreases total - offset,
    {
        let ghost left = rest.spec_bytes();
        let ghost before = tokens@;
        match Tokens::from_str(table, rest) {
            Ok(token) => {
                push_step(&mut tokens, offset, token);
                proof {
                    lemma_boundary_of_rest(whole, offset as int, token.0 as int);
                    lemma_boundary_of_rest(whole, offset as int, token.1 as int);
                    let step = step_spans(offset as int, token);
                    let after = spans_from(
                        left.subrange(token.1 as int, left.len() as int),
                        offset + token.1,
                    );
                    assert(spans_view(tokens@) + after =~= spans_view(before) + (step + after));
                    assert(left.subrange(token.1 as int, left.len() as int) =~= whole.subrange(
                        offset + token.1,
                        total as int,
                    ));
                    assert forall|i: int| 0 <= i < tokens.len() implies {
                        &&& is_char_boundary(whole, (#[trigger] tokens[i]).0 as int)
                        &&& is_char_boundary(whole, tokens[i].1 as int)
                    } by {
                        if i < before.len() {
                            assert(spans_view(tokens@)[i] == spans_view(before)[i]);
                            assert(tokens[i] == before[i]);
                        } else {
                            assert(spans_view(tokens@)[i] == step[i - before.len()]);
                        }
                    }
                }
                rest = rest.split_at(token.1).1;
                offset += token.1;
            },
            Err(_) => {
                assert(spans_view(tokens@) + Seq::empty() =~= spans_view(tokens@));
                return tokens;
            },
        }
    }
}

} // verus!
