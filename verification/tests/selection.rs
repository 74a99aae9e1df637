use clexer::matching::select;
use clexer::scan::push_step;
use clexer::table::or_invalid_pattern;
use clexer::{TokenSize, TokenizeError, Tokens, PATTERN_COUNT};

fn nothing_found() -> Vec<Option<(usize, usize)>> {
    vec![None; PATTERN_COUNT]
}

fn with(entries: &[(Tokens, (usize, usize))]) -> Vec<Option<(usize, usize)>> {
    let mut found = nothing_found();
    for (kind, span) in entries {
        found[kind.index()] = Some(*span);
    }
    found
}

#[test]
fn select_fails_when_nothing_was_found() {
    assert_eq!(
        select(&nothing_found(), 10),
        Err(TokenizeError::NoMatchingToken)
    );
    assert_eq!(select(&vec![], 10), Err(TokenizeError::NoMatchingToken));
}

#[test]
fn select_takes_the_only_token() {
    let found = with(&[(Tokens::Comma, (4, 5))]);
    assert_eq!(select(&found, 10), Ok(TokenSize(4, 5, Tokens::Comma)));
}

#[test]
fn select_prefers_the_earliest_start() {
    let found = with(&[(Tokens::Number, (3, 9)), (Tokens::Whitespace, (2, 3))]);
    assert_eq!(select(&found, 10), Ok(TokenSize(2, 3, Tokens::Whitespace)));
}

#[test]
fn select_breaks_ties_by_priority_not_by_length() {
    let found = with(&[(Tokens::Plus, (0, 1)), (Tokens::Increment, (0, 2))]);
    assert_eq!(select(&found, 10), Ok(TokenSize(0, 2, Tokens::Increment)));

    let found = with(&[(Tokens::Identifier, (0, 7)), (Tokens::For, (0, 3))]);
    assert_eq!(select(&found, 10), Ok(TokenSize(0, 3, Tokens::For)));
}

#[test]
fn select_ignores_empty_reports() {
    let found = with(&[(Tokens::Number, (0, 0)), (Tokens::Identifier, (1, 2))]);
    assert_eq!(select(&found, 10), Ok(TokenSize(1, 2, Tokens::Identifier)));

    let found = with(&[(Tokens::Number, (0, 0))]);
    assert_eq!(select(&found, 10), Err(TokenizeError::NoMatchingToken));
}

#[test]
fn select_ignores_reports_past_the_end_of_the_text() {
    let found = with(&[(Tokens::Number, (0, 11)), (Tokens::Identifier, (5, 10))]);
    assert_eq!(select(&found, 10), Ok(TokenSize(5, 10, Tokens::Identifier)));
}

#[test]
fn select_ignores_places_without_a_pattern() {
    let mut found = nothing_found();
    found.push(Some((0, 1)));
    found.push(Some((0, 2)));
    assert_eq!(select(&found, 10), Err(TokenizeError::NoMatchingToken));
}

#[test]
fn select_never_reports_unknown() {
    let mut found = vec![Some((0, 1)); PATTERN_COUNT + 1];
    found[0] = None;
    assert_eq!(select(&found, 10), Ok(TokenSize(0, 1, Tokens::String)));
}

#[test]
fn push_step_emits_the_gap_and_the_token() {
    let mut tokens = vec![(0, 4, Tokens::Identifier)];
    push_step(&mut tokens, 4, TokenSize(3, 5, Tokens::Increment));
    assert_eq!(
        tokens,
        vec![
            (0, 4, Tokens::Identifier),
            (4, 7, Tokens::Unknown),
            (7, 9, Tokens::Increment)
        ]
    );
}

#[test]
fn push_step_emits_no_gap_before_an_adjacent_token() {
    let mut tokens = Vec::new();
    push_step(&mut tokens, 12, TokenSize(0, 1, Tokens::Comma));
    assert_eq!(tokens, vec![(12, 13, Tokens::Comma)]);
}

#[test]
fn a_malformed_pattern_is_an_invalid_pattern() {
    let compiled = or_invalid_pattern(regex::Regex::new("(unclosed"));
    assert_eq!(compiled.err(), Some(TokenizeError::InvalidPattern));
}

#[test]
fn a_well_formed_pattern_is_kept() {
    let compiled = or_invalid_pattern(regex::Regex::new("(a+)"));
    assert_eq!(compiled.unwrap().as_str(), "(a+)");
}

#[test]
fn error_messages() {
    assert_eq!(
        TokenizeError::NoMatchingToken.message(),
        "No matching token found"
    );
    assert_eq!(
        TokenizeError::InvalidPattern.message(),
        "Invalid token pattern"
    );
}
