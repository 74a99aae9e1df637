//! One step of the tokenizer: which token comes next in a text.
//!
//! Every pattern of the table is tried on the text by itself, anywhere in it.
//! Of the patterns that find a token, the one whose token starts earliest
//! wins; among patterns whose tokens start at the same offset, the one that
//! stands first in the priority order wins, whatever the lengths.
//!
//! The choice is made on plain values: a sequence that holds, for each place
//! of the priority order, the byte offsets that the pattern there reported,
//! if it reported any.

use crate::kinds::{TokenSize, TokenizeError, Tokens, PATTERN_COUNT};
use vstd::prelude::*;

verus! {

/// Whether the pattern at place `i` reported a token of a text of `len`
/// bytes. A report that is empty or reaches past the end of the text is no
/// token, and neither is a report at a place that has no pattern.
pub open spec fn finds(found: Seq<Option<(usize, usize)>>, len: int, i: int) -> bool {
    &&& 0 <= i < found.len()
    &&& i < PATTERN_COUNT
    &&& found[i] matches Some(span)
    &&& span.0 < span.1 <= len
}

/// Whether the token of pattern `i` is to be preferred to that of pattern
/// `j`, or is the same: it starts earlier, or at the same offset with `i` not
/// after `j` in the priority order.
pub open spec fn precedes(found: Seq<Option<(usize, usize)>>, i: int, j: int) -> bool {
    let mine = found[i].unwrap().0;
    let other = found[j].unwrap().0;
    mine < other || (mine == other && i <= j)
}

/// Whether pattern `i` gives the next token.
pub open spec fn wins(found: Seq<Option<(usize, usize)>>, len: int, i: int) -> bool {
    &&& finds(found, len, i)
    &&& forall|j: int| #[trigger] finds(found, len, j) ==> precedes(found, i, j)
}

/// The token of pattern `i`, with the kind of that pattern.
pub open spec fn token_of(found: Seq<Option<(usize, usize)>>, i: int) -> TokenSize {
    let span = found[i].unwrap();
    TokenSize(span.0, span.1, Tokens::at(i))
}

/// The next token, given what each pattern reported: the token of the winning
/// pattern, or `None` when no pattern found one.
pub open spec fn selected(found: Seq<Option<(usize, usize)>>, len: int) -> Option<TokenSize> {
    if exists|i: int| wins(found, len, i) {
        Some(token_of(found, choose|i: int| wins(found, len, i)))
    } else {
        None
    }
}

/// At most one pattern wins.
pub proof fn lemma_winner_is_unique(found: Seq<Option<(usize, usize)>>, len: int, i: int, j: int)
    requires
        wins(found, len, i),
        wins(found, len, j),
    ensures
        i == j,
{
    assert(precedes(found, i, j));
    assert(precedes(found, j, i));
}

/// The token of a winning pattern is the selected one. It is never empty,
/// lies inside the text, and its kind is never `Unknown`.
pub proof fn lemma_selected_is_the_winner(found: Seq<Option<(usize, usize)>>, len: int, i: int)
    requires
        wins(found, len, i),
    ensures
        selected(found, len) == Some(token_of(found, i)),
        token_of(found, i).0 < token_of(found, i).1 <= len,
        token_of(found, i).2 != Tokens::Unknown,
{
    lemma_winner_is_unique(found, len, i, choose|k: int| wins(found, len, k));
}

/// Among the first `n` places, if a pattern finds a token, then one of them
/// is preferred to all the others among them.
proof fn lemma_best_among(found: Seq<Option<(usize, usize)>>, len: int, n: int) -> (best: int)
    requires
        exists|i: int| 0 <= i < n && finds(found, len, i),
    ensures
        0 <= best < n,
        finds(found, len, best),
        forall|j: int| 0 <= j < n && #[trigger] finds(found, len, j) ==> precedes(found, best, j),
    decreases n,
{
    let last = n - 1;
    if exists|i: int| 0 <= i < last && finds(found, len, i) {
        let before = lemma_best_among(found, len, last);
        if finds(found, len, last) && !precedes(found, before, last) {
            last
        } else {
            before
        }
    } else {
        last
    }
}

/// A step fails only when no pattern finds a token: as soon as one does,
/// some pattern wins.
pub proof fn lemma_some_pattern_wins(found: Seq<Option<(usize, usize)>>, len: int) -> (i: int)
    requires
        exists|j: int| finds(found, len, j),
    ensures
        wins(found, len, i),
        selected(found, len) == Some(token_of(found, i)),
{
    let some = choose|j: int| finds(found, len, j);
    assert(0 <= some < found.len() && finds(found, len, some));
    let best = lemma_best_among(found, len, found.len() as int);
    lemma_selected_is_the_winner(found, len, best);
    best
}

/// The rule of selection: the selected token starts no later than the token
/// of any pattern, and where the two start together its kind is not after
/// that pattern in the priority order, whatever the lengths of the two.
pub proof fn lemma_selection_rule(found: Seq<Option<(usize, usize)>>, len: int, j: int)
    requires
        finds(found, len, j),
    ensures
        selected(found, len) matches Some(token) && (token.0 < found[j].unwrap().0 || (token.0
            == found[j].unwrap().0 && token.2.position() <= j)),
{
    let best = lemma_some_pattern_wins(found, len);
    assert(precedes(found, best, j));
}

/// Choosing the next token from what the patterns reported on a text of
/// `len` bytes. The result is the selected token; there is none exactly when
/// no pattern found a token.
pub fn select(found: &Vec<Option<(usize, usize)>>, len: usize) -> (next: Result<
    TokenSize,
    TokenizeError,
>)
    ensures
        next == (match selected(found@, len as int) {
            Some(token) => Ok::<TokenSize, TokenizeError>(token),
            None => Err(TokenizeError::NoMatchingToken),
        }),
        next is Err <==> forall|i: int| !finds(found@, len as int, i),
{
    let mut best: Option<TokenSize> = None;
    let ghost mut best_at: int = 0;
    let mut i: usize = 0;
    while i < found.len() && i < PATTERN_COUNT
        invariant
            i <= found.len(),
            i <= PATTERN_COUNT,
            best is None ==> forall|j: int| 0 <= j < i ==> !finds(found@, len as int, j),
            best is Some ==> {
                &&& 0 <= best_at < i
                &&& finds(found@, len as int, best_at)
                &&& best == Some(token_of(found@, best_at))
                &&& forall|j: int|
                    0 <= j < i && #[trigger] finds(found@, len as int, j) ==> precedes(
                        found@,
                        best_at,
                        j,
                    )
            },
        decreases found.len() - i,
    {
        if let Some((start, end)) = found[i] {
            if start < end && end <= len {
                let better = match best {
                    Some(TokenSize(earliest, _, _)) => start < earliest,
                    None => true,
                };
                if better {
                    if let Some(kind) = Tokens::from_index(i) {
                        best = Some(TokenSize(start, end, kind));
                        proof {
                            best_at = i as int;
                        }
                    }
                }
            }
        }
        i += 1;
    }
    match best {
        Some(token) => {
            proof {
                lemma_selected_is_the_winner(found@, len as int, best_at);
            }
            Ok(token)
        },
        None => Err(TokenizeError::NoMatchingToken),
    }
}

} // verus!
