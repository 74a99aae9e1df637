use clexer::prefix::{classify, PrefixTable, Tokens, KIND_COUNT};
use clexer::TokenizeError;

fn table() -> PrefixTable {
    PrefixTable::new().unwrap()
}

#[test]
fn test_tokenizer() {
    let table = table();
    assert_eq!(
        Tokens::from_str(&table, "alphaBeta_theta").ok(),
        Some(Tokens::Identifier)
    );
    assert_eq!(Tokens::from_str(&table, "1e+9").ok(), Some(Tokens::Number));
    assert_eq!(Tokens::from_str(&table, "1e-9").ok(), Some(Tokens::Number));
    assert_eq!(Tokens::from_str(&table, "1e9").ok(), Some(Tokens::Number));
    assert_eq!(Tokens::from_str(&table, "0.1e+9").ok(), Some(Tokens::Number));
    assert_eq!(Tokens::from_str(&table, "-1.035").ok(), Some(Tokens::Number));
    assert_eq!(Tokens::from_str(&table, "1.0045").ok(), Some(Tokens::Number));
    assert_eq!(Tokens::from_str(&table, "-0.1024").ok(), Some(Tokens::Number));
    assert_eq!(Tokens::from_str(&table, "102355").ok(), Some(Tokens::Number));
    assert_eq!(Tokens::from_str(&table, "<13566").ok(), Some(Tokens::LeftAngle));

    assert!(Tokens::from_str(&table, "023405").is_err());
    assert!(Tokens::from_str(&table, " ").is_err());
}

#[test]
fn prefix_failure_is_no_matching_token() {
    let table = table();
    assert_eq!(
        Tokens::from_str(&table, " x"),
        Err(TokenizeError::NoMatchingToken)
    );
}

#[test]
fn prefix_looks_only_at_the_start() {
    let table = table();
    assert_eq!(Tokens::from_str(&table, "+a"), Ok(Tokens::Plus));
    assert!(Tokens::from_str(&table, " +a").is_err());
}

#[test]
fn prefix_sign_belongs_to_the_number() {
    let table = table();
    assert_eq!(Tokens::from_str(&table, "-1"), Ok(Tokens::Number));
    assert_eq!(Tokens::from_str(&table, "-x"), Ok(Tokens::Minus));
    assert_eq!(Tokens::from_str(&table, "+7"), Ok(Tokens::Number));
}

#[test]
fn prefix_names_need_two_characters() {
    let table = table();
    assert_eq!(Tokens::from_str(&table, "ab"), Ok(Tokens::Identifier));
    assert!(Tokens::from_str(&table, "a").is_err());
    assert_eq!(Tokens::from_str(&table, "_x"), Ok(Tokens::Underscore));
}

#[test]
fn prefix_dollar_pattern_means_end_of_text() {
    let table = table();
    assert_eq!(Tokens::from_str(&table, ""), Ok(Tokens::Dollar));
    assert!(Tokens::from_str(&table, "$").is_err());
}

#[test]
fn prefix_matches_lists_places_in_ascending_order() {
    let table = table();
    assert_eq!(table.matches("-1"), vec![0, 25]);
    assert_eq!(table.matches("_x"), vec![13, 30]);
    assert_eq!(table.matches(" "), Vec::<usize>::new());
}

#[test]
fn classify_takes_the_lowest_place() {
    assert_eq!(classify(&vec![7, 3, 12]), Ok(Tokens::SemiColon));
    assert_eq!(classify(&vec![30]), Ok(Tokens::Identifier));
    assert_eq!(classify(&vec![0, 25]), Ok(Tokens::Number));
}

#[test]
fn classify_ignores_places_without_a_pattern() {
    assert_eq!(classify(&vec![KIND_COUNT, 29]), Ok(Tokens::Hash));
    assert_eq!(
        classify(&vec![KIND_COUNT, 400]),
        Err(TokenizeError::NoMatchingToken)
    );
}

#[test]
fn classify_of_nothing_fails() {
    assert_eq!(classify(&vec![]), Err(TokenizeError::NoMatchingToken));
}

#[test]
fn prefix_order_lists_every_kind_once() {
    let mut seen = Vec::new();
    for i in 0..KIND_COUNT {
        let kind = Tokens::from_index(i).unwrap();
        assert!(!seen.contains(&kind));
        seen.push(kind);
    }
    assert_eq!(seen.len(), 31);
    assert_eq!(Tokens::from_index(0), Some(Tokens::Number));
    assert_eq!(Tokens::from_index(30), Some(Tokens::Identifier));
    assert_eq!(Tokens::from_index(KIND_COUNT), None);
}

#[test]
fn prefix_patterns_are_tied_to_the_start() {
    for i in 0..KIND_COUNT {
        let kind = Tokens::from_index(i).unwrap();
        assert!(clexer::prefix::pattern(kind).starts_with('^'));
    }
    assert_eq!(clexer::prefix::pattern(Tokens::Plus), "^\\+");
}
