//! What holds of the spans of every text.
//!
//! The spans of a text lie end to end from the start of the text up to the
//! place where the scan stopped. None is empty, none overlaps another, and a
//! stretch that no pattern recognises is one span, not many. When the scan
//! reached the end of the text, the spans cut the text into pieces that, put
//! together again in order, are the text.

use crate::kinds::Tokens;
use crate::scan::{spans_from, spans_of, spans_view, step_spans};
use crate::table::{lemma_next_match_is_a_token, next_match};
use vstd::prelude::*;
use vstd::string::StringSliceAdditionalSpecFns;

verus! {

/// Whether `spans` lie end to end from `from` to `to`, none of them empty.
pub open spec fn tiles(spans: Seq<(int, int, Tokens)>, from: int, to: int) -> bool {
    &&& forall|i: int| 0 <= i < spans.len() ==> (#[trigger] spans[i]).0 < spans[i].1
    &&& forall|i: int, j: int|
        0 <= i && j == i + 1 && j < spans.len() ==> (#[trigger] spans[i]).1 == (
        #[trigger] spans[j]).0
    &&& if spans.len() == 0 {
        from == to
    } else {
        spans[0].0 == from && spans.last().1 == to
    }
}

/// Where `spans` end: the end of the last one, or `from` when there is none.
pub open spec fn end_of(spans: Seq<(int, int, Tokens)>, from: int) -> int {
    if spans.len() == 0 {
        from
    } else {
        spans.last().1
    }
}

/// How many bytes of the text the scan consumed before it stopped.
pub open spec fn consumed(bytes: Seq<u8>) -> int {
    end_of(spans_of(bytes), 0)
}

/// Whether every span of kind `Unknown` is followed by a span of another
/// kind: two gaps never stand side by side, and no gap comes last.
pub open spec fn gaps_are_single(spans: Seq<(int, int, Tokens)>) -> bool {
    &&& forall|i: int|
        0 <= i < spans.len() && (#[trigger] spans[i]).2 == Tokens::Unknown ==> i + 1 < spans.len()
    &&& forall|i: int, j: int|
        0 <= i && j == i + 1 && j < spans.len() && (#[trigger] spans[i]).2 == Tokens::Unknown ==> (
        #[trigger] spans[j]).2 != Tokens::Unknown
}

/// The pieces of `bytes` that `spans` name, put together in order.
pub open spec fn resliced(bytes: Seq<u8>, spans: Seq<(int, int, Tokens)>) -> Seq<u8>
    decreases spans.len(),
{
    if spans.len() == 0 {
        Seq::empty()
    } else {
        resliced(bytes, spans.drop_last()) + bytes.subrange(spans.last().0, spans.last().1)
    }
}

/// Spans that lie end to end, followed by spans that lie end to end from
/// where the first ones stop, lie end to end.
proof fn lemma_tiles_join(
    front: Seq<(int, int, Tokens)>,
    back: Seq<(int, int, Tokens)>,
    from: int,
    mid: int,
    to: int,
)
    requires
        tiles(front, from, mid),
        tiles(back, mid, to),
    ensures
        tiles(front + back, from, to),
{
    let all = front + back;
    assert forall|i: int, j: int| 0 <= i && j == i + 1 && j < all.len() implies (
    #[trigger] all[i]).1 == (#[trigger] all[j]).0 by {
        if j < front.len() {
            assert(all[i] == front[i] && all[j] == front[j]);
        } else if j == front.len() {
            assert(all[j] == back[0]);
            assert(all[i] == front.last());
        } else {
            assert(all[j] == back[j - front.len()]);
            assert(all[i] == back[i - front.len()]);
        }
    }
    assert forall|i: int| 0 <= i < all.len() implies (#[trigger] all[i]).0 < all[i].1 by {
        if i < front.len() {
            assert(all[i] == front[i]);
        } else {
            assert(all[i] == back[i - front.len()]);
        }
    }
    if all.len() > 0 {
        if front.len() > 0 {
            assert(all[0] == front[0]);
        } else {
            assert(all[0] == back[0]);
        }
        if back.len() > 0 {
            assert(all.last() == back.last());
        } else {
            assert(all.last() == front.last());
        }
    }
}

/// The spans of a text lie end to end from its start, inside the text, and
/// every gap among them is a single span.
pub proof fn lemma_spans_from_tile(bytes: Seq<u8>, offset: int)
    ensures
        tiles(spans_from(bytes, offset), offset, end_of(spans_from(bytes, offset), offset)),
        offset <= end_of(spans_from(bytes, offset), offset) <= offset + bytes.len(),
        gaps_are_single(spans_from(bytes, offset)),
    decreases bytes.len(),
{
    lemma_next_match_is_a_token(bytes);
    if let Some(token) = next_match(bytes) {
        let rest = bytes.subrange(token.1 as int, bytes.len() as int);
        let step = step_spans(offset, token);
        let after = spans_from(rest, offset + token.1);
        let all = spans_from(bytes, offset);
        lemma_spans_from_tile(rest, offset + token.1);
        assert(tiles(step, offset, offset + token.1));
        lemma_tiles_join(step, after, offset, offset + token.1, end_of(after, offset + token.1));
        assert(all == step + after);
        assert(end_of(all, offset) == end_of(after, offset + token.1)) by {
            if after.len() > 0 {
                assert(all.last() == after.last());
            } else {
                assert(all.last() == step.last());
            }
        }
        assert forall|i: int|
            0 <= i < all.len() && (#[trigger] all[i]).2 == Tokens::Unknown implies i + 1
            < all.len() by {
            if i < step.len() {
                assert(all[i] == step[i]);
            } else {
                assert(all[i] == after[i - step.len()]);
            }
        }
        assert forall|i: int, j: int|
            0 <= i && j == i + 1 && j < all.len() && (#[trigger] all[i]).2
                == Tokens::Unknown implies (#[trigger] all[j]).2 != Tokens::Unknown by {
            if i < step.len() {
                assert(all[i] == step[i]);
                assert(all[j] == step[j]);
            } else {
                assert(all[i] == after[i - step.len()]);
                assert(all[j] == after[j - step.len()]);
            }
        }
    }
}

/// The scan stops only where no pattern finds a token in what is left.
pub proof fn lemma_rest_is_unrecognised(bytes: Seq<u8>, offset: int)
    ensures
        next_match(
            bytes.subrange(
                end_of(spans_from(bytes, offset), offset) - offset,
                bytes.len() as int,
            ),
        ) is None,
    decreases bytes.len(),
{
    lemma_next_match_is_a_token(bytes);
    if let Some(token) = next_match(bytes) {
        let rest = bytes.subrange(token.1 as int, bytes.len() as int);
        let step = step_spans(offset, token);
        let after = spans_from(rest, offset + token.1);
        let all = spans_from(bytes, offset);
        lemma_rest_is_unrecognised(rest, offset + token.1);
        lemma_spans_from_tile(rest, offset + token.1);
        assert(all == step + after);
        let stop = end_of(after, offset + token.1);
        assert(end_of(all, offset) == stop) by {
            if after.len() > 0 {
                assert(all.last() == after.last());
            } else {
                assert(all.last() == step.last());
            }
        }
        assert(rest.subrange(stop - (offset + token.1), rest.len() as int) =~= bytes.subrange(
            stop - offset,
            bytes.len() as int,
        ));
    } else {
        assert(bytes.subrange(0, bytes.len() as int) =~= bytes);
    }
}

/// Spans that lie end to end are in ascending order and do not overlap.
pub proof fn lemma_tiles_are_ordered(
    spans: Seq<(int, int, Tokens)>,
    from: int,
    to: int,
    i: int,
    j: int,
)
    requires
        tiles(spans, from, to),
        0 <= i < j < spans.len(),
    ensures
        spans[i].1 <= spans[j].0,
    decreases j - i,
{
    let next = i + 1;
    assert(spans[i].1 == spans[next].0);
    if next < j {
        lemma_tiles_are_ordered(spans, from, to, next, j);
    }
}

/// Without their last span, spans that lie end to end still do, up to the
/// start of that span.
proof fn lemma_front_tiles(spans: Seq<(int, int, Tokens)>, from: int, to: int)
    requires
        tiles(spans, from, to),
        spans.len() > 0,
    ensures
        tiles(spans.drop_last(), from, spans.last().0),
{
    let front = spans.drop_last();
    let last = spans.len() - 1;
    assert forall|i: int| 0 <= i < front.len() implies (#[trigger] front[i]).0 < front[i].1 by {
        assert(front[i] == spans[i]);
    }
    assert forall|i: int, j: int| 0 <= i && j == i + 1 && j < front.len() implies (
    #[trigger] front[i]).1 == (#[trigger] front[j]).0 by {
        assert(front[i] == spans[i] && front[j] == spans[j]);
    }
    if front.len() > 0 {
        let before = last - 1;
        assert(spans[before].1 == spans[last].0);
        assert(front[0] == spans[0]);
        assert(front.last() == spans[before]);
    }
}

/// Every offset between the two ends of spans that lie end to end is inside
/// one of them.
pub proof fn lemma_tiles_cover(spans: Seq<(int, int, Tokens)>, from: int, to: int, at: int) -> (i:
    int)
    requires
        tiles(spans, from, to),
        from <= at < to,
    ensures
        0 <= i < spans.len(),
        spans[i].0 <= at < spans[i].1,
    decreases spans.len(),
{
    let last = spans.len() - 1;
    if spans[last].0 <= at {
        last
    } else {
        let front = spans.drop_last();
        lemma_front_tiles(spans, from, to);
        lemma_tiles_cover(front, from, spans[last].0, at)
    }
}

/// The pieces named by spans that lie end to end inside `bytes`, put
/// together in order, are the stretch of `bytes` between their two ends.
pub proof fn lemma_resliced_tiles(bytes: Seq<u8>, spans: Seq<(int, int, Tokens)>, from: int, to: int)
    requires
        tiles(spans, from, to),
        0 <= from,
        to <= bytes.len(),
    ensures
        from <= to,
        resliced(bytes, spans) == bytes.subrange(from, to),
    decreases spans.len(),
{
    if spans.len() == 0 {
        assert(bytes.subrange(from, to) =~= Seq::<u8>::empty());
    } else {
        let last = spans.len() - 1;
        let front = spans.drop_last();
        lemma_front_tiles(spans, from, to);
        lemma_resliced_tiles(bytes, front, from, spans[last].0);
        assert(bytes.subrange(from, spans[last].0) + bytes.subrange(spans[last].0, to)
            =~= bytes.subrange(from, to));
    }
}

/// The spans of a text are contiguous: the first starts at offset 0, each
/// starts where the one before it ends, none is empty, and the last ends
/// where the scan stopped, which is inside the text.
pub proof fn lemma_spans_are_contiguous(bytes: Seq<u8>)
    ensures
        tiles(spans_of(bytes), 0, consumed(bytes)),
        0 <= consumed(bytes) <= bytes.len(),
{
    lemma_spans_from_tile(bytes, 0);
}

/// When the scan reaches the end of the text, the spans cover the text
/// exactly: every byte of it lies in one span and in no other.
pub proof fn lemma_full_coverage(bytes: Seq<u8>, at: int) -> (i: int)
    requires
        consumed(bytes) == bytes.len(),
        0 <= at < bytes.len(),
    ensures
        0 <= i < spans_of(bytes).len(),
        spans_of(bytes)[i].0 <= at < spans_of(bytes)[i].1,
        forall|j: int|
            0 <= j < spans_of(bytes).len() && j != i ==> !((#[trigger] spans_of(bytes)[j]).0 <= at
                < spans_of(bytes)[j].1),
{
    let spans = spans_of(bytes);
    lemma_spans_are_contiguous(bytes);
    let i = lemma_tiles_cover(spans, 0, bytes.len() as int, at);
    assert forall|j: int| 0 <= j < spans.len() && j != i implies !((#[trigger] spans[j]).0 <= at
        < spans[j].1) by {
        if j < i {
            lemma_tiles_are_ordered(spans, 0, bytes.len() as int, j, i);
        } else {
            lemma_tiles_are_ordered(spans, 0, bytes.len() as int, i, j);
        }
    }
    i
}

/// A stretch that no pattern recognises, between two tokens or before the
/// first, is one span of kind `Unknown`: such a span is always followed by a
/// token, never by another gap, and it reaches from the end of the span
/// before it to the start of the token behind it.
pub proof fn lemma_gaps_collapse(bytes: Seq<u8>, i: int)
    requires
        0 <= i < spans_of(bytes).len(),
        spans_of(bytes)[i].2 == Tokens::Unknown,
    ensures
        i + 1 < spans_of(bytes).len(),
        spans_of(bytes)[i + 1].2 != Tokens::Unknown,
        spans_of(bytes)[i].1 == spans_of(bytes)[i + 1].0,
        i > 0 ==> spans_of(bytes)[i - 1].2 != Tokens::Unknown && spans_of(bytes)[i - 1].1
            == spans_of(bytes)[i].0,
        i == 0 ==> spans_of(bytes)[i].0 == 0,
{
    lemma_spans_from_tile(bytes, 0);
    let spans = spans_of(bytes);
    let next = i + 1;
    assert(spans[i].1 == spans[next].0);
    assert(spans[next].2 != Tokens::Unknown);
    if i > 0 {
        let before = i - 1;
        assert(spans[before].1 == spans[i].0);
    }
}

/// Slicing a text at each of its spans and putting the slices together in
/// order gives back what the scan consumed; when the scan reached the end
/// of the text, that is the whole text.
pub proof fn lemma_reslicing_restores(bytes: Seq<u8>)
    ensures
        resliced(bytes, spans_of(bytes)) == bytes.subrange(0, consumed(bytes)),
        consumed(bytes) == bytes.len() ==> resliced(bytes, spans_of(bytes)) == bytes,
{
    lemma_spans_are_contiguous(bytes);
    lemma_resliced_tiles(bytes, spans_of(bytes), 0, consumed(bytes));
    assert(bytes.subrange(0, bytes.len() as int) =~= bytes);
}

/// The empty text has no spans.
pub proof fn lemma_empty_text_has_no_spans()
    ensures
        spans_of(Seq::<u8>::empty()) == Seq::<(int, int, Tokens)>::empty(),
{
    lemma_next_match_is_a_token(Seq::<u8>::empty());
}

/// Sequences of spans with the same offsets and kinds are the same.
pub proof fn lemma_spans_view_is_injective(
    a: Seq<(usize, usize, Tokens)>,
    b: Seq<(usize, usize, Tokens)>,
)
    requires
        spans_view(a) == spans_view(b),
    ensures
        a == b,
{
    assert(a.len() == spans_view(a).len());
    assert(b.len() == spans_view(b).len());
    assert forall|i: int| 0 <= i < a.len() implies a[i] == b[i] by {
        assert(spans_view(a)[i] == spans_view(b)[i]);
    }
    assert(a =~= b);
}

/// The spans depend on the text alone: whatever two runs of the tokenizer
/// return for texts with the same characters is the same.
pub proof fn lemma_tokenize_is_deterministic(
    first_text: &str,
    second_text: &str,
    first: Seq<(usize, usize, Tokens)>,
    second: Seq<(usize, usize, Tokens)>,
)
    requires
        first_text@ == second_text@,
        spans_view(first) == spans_of(first_text.spec_bytes()),
        spans_view(second) == spans_of(second_text.spec_bytes()),
    ensures
        first == second,
{
    lemma_spans_view_is_injective(first, second);
}

} // verus!
