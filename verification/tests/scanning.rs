use clexer::{tokenize, PatternTable, TokenSize, TokenizeError, Tokens, PATTERN_COUNT};

fn table() -> PatternTable {
    PatternTable::new().unwrap()
}

fn resliced(text: &str, spans: &[(usize, usize, Tokens)]) -> String {
    let mut joined = String::new();
    for (start, end, _) in spans {
        joined.push_str(&text[*start..*end]);
    }
    joined
}

fn lie_end_to_end(spans: &[(usize, usize, Tokens)]) -> bool {
    let mut at = 0;
    for (start, end, _) in spans {
        if *start != at || start >= end {
            return false;
        }
        at = *end;
    }
    true
}

#[test]
fn the_table_compiles() {
    assert!(PatternTable::new().is_ok());
}

#[test]
fn keyword_precedence() {
    assert_eq!(
        tokenize(&table(), "return 0;"),
        vec![
            (0, 6, Tokens::Return),
            (6, 7, Tokens::Whitespace),
            (7, 8, Tokens::Number),
            (8, 9, Tokens::SemiColon)
        ]
    );
}

#[test]
fn compound_operator_tie_break() {
    assert_eq!(
        tokenize(&table(), ">>!=2"),
        vec![
            (0, 2, Tokens::BinaryShiftRight),
            (2, 4, Tokens::Unequals),
            (4, 5, Tokens::Number)
        ]
    );
}

#[test]
fn numeric_boundary_rule() {
    assert_eq!(
        tokenize(&table(), "0x1245AFG"),
        vec![(0, 8, Tokens::Number), (8, 9, Tokens::Identifier)]
    );
}

#[test]
fn number_forms() {
    let table = table();
    assert_eq!(tokenize(&table, "0"), vec![(0, 1, Tokens::Number)]);
    assert_eq!(tokenize(&table, "0X1f"), vec![(0, 4, Tokens::Number)]);
    assert_eq!(tokenize(&table, "0b101"), vec![(0, 5, Tokens::Number)]);
    assert_eq!(tokenize(&table, "0B11"), vec![(0, 4, Tokens::Number)]);
    assert_eq!(tokenize(&table, "12E-3"), vec![(0, 5, Tokens::Number)]);
    assert_eq!(tokenize(&table, "7e+2"), vec![(0, 4, Tokens::Number)]);
}

#[test]
fn a_fraction_is_a_number_a_period_and_a_number() {
    assert_eq!(
        tokenize(&table(), "0.25"),
        vec![
            (0, 1, Tokens::Number),
            (1, 2, Tokens::Period),
            (2, 4, Tokens::Number)
        ]
    );
}

#[test]
fn a_leading_zero_is_not_part_of_the_number() {
    let table = table();
    assert_eq!(
        Tokens::from_str(&table, "023405"),
        Ok(TokenSize(1, 6, Tokens::Number))
    );
    assert_eq!(
        tokenize(&table, "023405"),
        vec![(0, 1, Tokens::Unknown), (1, 6, Tokens::Number)]
    );
}

#[test]
fn a_gap_is_one_unknown_span() {
    let table = table();
    assert_eq!(
        tokenize(&table, "a```b"),
        vec![
            (0, 1, Tokens::Identifier),
            (1, 4, Tokens::Unknown),
            (4, 5, Tokens::Identifier)
        ]
    );
    assert_eq!(
        tokenize(&table, "```b"),
        vec![(0, 3, Tokens::Unknown), (3, 4, Tokens::Identifier)]
    );
}

#[test]
fn a_gap_of_wide_characters_is_measured_in_bytes() {
    assert_eq!(
        tokenize(&table(), "x\u{2192}\u{2192}y"),
        vec![
            (0, 1, Tokens::Identifier),
            (1, 7, Tokens::Unknown),
            (7, 8, Tokens::Identifier)
        ]
    );
}

#[test]
fn escaped_string_is_one_span() {
    assert_eq!(
        tokenize(&table(), "\"a\\\"b\""),
        vec![(0, 6, Tokens::String)]
    );
}

#[test]
fn the_character_before_a_string_is_not_part_of_it() {
    let table = table();
    assert_eq!(
        Tokens::from_str(&table, "`\"s\""),
        Ok(TokenSize(1, 4, Tokens::String))
    );
    assert_eq!(
        tokenize(&table, "`\"s\""),
        vec![(0, 1, Tokens::Unknown), (1, 4, Tokens::String)]
    );
}

#[test]
fn empty_input_has_no_spans() {
    assert_eq!(tokenize(&table(), ""), vec![]);
}

#[test]
fn an_unrecognised_tail_gets_no_span() {
    let table = table();
    assert_eq!(
        tokenize(&table, "a ``"),
        vec![(0, 1, Tokens::Identifier), (1, 2, Tokens::Whitespace)]
    );
    assert_eq!(tokenize(&table, "``"), vec![]);
}

#[test]
fn a_reserved_word_is_not_found_at_the_start_of_a_name() {
    let table = table();
    assert_eq!(tokenize(&table, "forever"), vec![(0, 7, Tokens::Identifier)]);
    assert_eq!(tokenize(&table, "int3"), vec![(0, 4, Tokens::Identifier)]);
    assert_eq!(tokenize(&table, "if_"), vec![(0, 3, Tokens::Identifier)]);
    assert_eq!(
        tokenize(&table, "double x"),
        vec![
            (0, 6, Tokens::Double),
            (6, 7, Tokens::Whitespace),
            (7, 8, Tokens::Identifier)
        ]
    );
}

#[test]
fn a_reserved_word_ends_where_no_name_goes_on() {
    let table = table();
    assert_eq!(tokenize(&table, "for"), vec![(0, 3, Tokens::For)]);
    assert_eq!(
        tokenize(&table, "do{"),
        vec![(0, 2, Tokens::Do), (2, 3, Tokens::LeftCurly)]
    );
    assert_eq!(
        tokenize(&table, "sizeof(int)"),
        vec![
            (0, 6, Tokens::SizeOf),
            (6, 7, Tokens::LeftParen),
            (7, 10, Tokens::Int),
            (10, 11, Tokens::RightParen)
        ]
    );
}

#[test]
fn from_str_finds_the_token_behind_a_gap() {
    let table = table();
    assert_eq!(
        Tokens::from_str(&table, "``+"),
        Ok(TokenSize(2, 3, Tokens::Plus))
    );
    assert_eq!(
        Tokens::from_str(&table, "`` ++"),
        Ok(TokenSize(2, 3, Tokens::Whitespace))
    );
}

#[test]
fn from_str_fails_when_nothing_matches() {
    let table = table();
    assert_eq!(
        Tokens::from_str(&table, "``"),
        Err(TokenizeError::NoMatchingToken)
    );
    assert_eq!(
        Tokens::from_str(&table, ""),
        Err(TokenizeError::NoMatchingToken)
    );
}

#[test]
fn captures_lists_one_report_for_each_pattern() {
    let table = table();
    let found = table.captures("a=5");
    assert_eq!(found.len(), PATTERN_COUNT);
    assert_eq!(found[Tokens::Identifier.index()], Some((0, 1)));
    assert_eq!(found[Tokens::Assign.index()], Some((1, 2)));
    assert_eq!(found[Tokens::Number.index()], Some((2, 3)));
    assert_eq!(found[Tokens::Equals.index()], None);
    assert_eq!(found.iter().filter(|report| report.is_some()).count(), 3);
}

#[test]
fn spans_cover_a_fully_recognised_text() {
    let table = table();
    let text = "int main(int argc, const char **argv) {\n\tprintf(\"Hello, world!\");\n\treturn 0;\n}\n";
    let spans = tokenize(&table, text);
    assert!(lie_end_to_end(&spans));
    assert_eq!(spans.last().unwrap().1, text.len());
    assert!(spans.iter().all(|span| span.2 != Tokens::Unknown));
}

#[test]
fn spans_lie_end_to_end_up_to_where_the_scan_stopped() {
    let table = table();
    let text = "x = `y` + \u{00e9}t\u{00e9}; ``";
    let spans = tokenize(&table, text);
    assert!(lie_end_to_end(&spans));
    assert_eq!(spans.last().unwrap().1, text.len() - 2);
    assert_eq!(resliced(text, &spans), &text[..text.len() - 2]);
}

#[test]
fn no_two_gaps_stand_side_by_side() {
    let table = table();
    let spans = tokenize(&table, "``a`` `\u{2192}`b ```` c");
    assert!(lie_end_to_end(&spans));
    assert!(spans.first().unwrap().2 == Tokens::Unknown);
    for pair in spans.windows(2) {
        assert!(pair[0].2 != Tokens::Unknown || pair[1].2 != Tokens::Unknown);
    }
    assert!(spans.last().unwrap().2 != Tokens::Unknown);
}

#[test]
fn reslicing_restores_the_text() {
    let table = table();
    let text = "for (c = 'A'; c <= 'Z'; ++c) printf(\"%c \", c);";
    let spans = tokenize(&table, text);
    assert_eq!(spans.last().unwrap().1, text.len());
    assert_eq!(resliced(text, &spans), text);

    let text = "a \u{00b5} b";
    let spans = tokenize(&table, text);
    assert_eq!(resliced(text, &spans), text);
}

#[test]
fn tokenize_is_deterministic() {
    let first = table();
    let second = table();
    let text = String::from("x->y >>= 0b11; /* `` */");
    let copy = text.clone();
    assert_eq!(tokenize(&first, &text), tokenize(&first, &text));
    assert_eq!(tokenize(&first, &text), tokenize(&second, &copy));
}

#[test]
fn comment_delimiters_are_tokens_and_bodies_are_not_special() {
    assert_eq!(
        tokenize(&table(), "/*a*/ //"),
        vec![
            (0, 2, Tokens::BlockCommentLeft),
            (2, 3, Tokens::Identifier),
            (3, 5, Tokens::BlockCommentRight),
            (5, 6, Tokens::Whitespace),
            (6, 8, Tokens::SingleComment)
        ]
    );
}
