use clexer::{tokenize, PatternTable, TokenSize, Tokens};

fn table() -> PatternTable {
    PatternTable::new().unwrap()
}

fn starts_with(table: &PatternTable, text: &str, kind: Tokens) -> bool {
    match Tokens::from_str(table, text).ok() {
        Some(TokenSize(0, _, found)) => found == kind,
        _ => false,
    }
}

fn starts_with_any(table: &PatternTable, text: &str) -> bool {
    matches!(Tokens::from_str(table, text).ok(), Some(TokenSize(0, _, _)))
}

#[test]
fn test_token_detection() {
    let table = table();
    assert!(starts_with(&table, "alphaBeta_theta", Tokens::Identifier));
    assert!(starts_with(&table, "1e+9", Tokens::Number));
    assert!(starts_with(&table, "1e-9", Tokens::Number));
    assert!(starts_with(&table, "1e9", Tokens::Number));
    assert!(starts_with(&table, "0.1e+9", Tokens::Number));
    assert!(starts_with(&table, "1.0045", Tokens::Number));
    assert!(starts_with(&table, "0.0045", Tokens::Number));
    assert!(starts_with(&table, "102355", Tokens::Number));
    assert!(starts_with(&table, "<13566", Tokens::Less));
    assert!(starts_with(&table, "/*", Tokens::BlockCommentLeft));
    assert!(starts_with(&table, "*/", Tokens::BlockCommentRight));
    assert!(starts_with(&table, "//", Tokens::SingleComment));
    assert!(starts_with(&table, " ", Tokens::Whitespace));
    assert!(starts_with(
        &table,
        "\"T'was upon this cursed day that on which he proclaimed, \\\"Such protest shall prove futile!\\\", as armies lay slain\"",
        Tokens::String
    ));

    assert!(!starts_with_any(&table, "023405"));
    assert!(!starts_with_any(&table, ""));
}

#[test]
fn test_tokenizer_on_str() {
    let table = table();
    assert_eq!(tokenize(&table, "a"), vec![(0, 1, Tokens::Identifier)]);
    assert_eq!(
        tokenize(&table, "a=5"),
        vec![
            (0, 1, Tokens::Identifier),
            (1, 2, Tokens::Assign),
            (2, 3, Tokens::Number)
        ]
    );
    assert_eq!(
        tokenize(&table, "Here are some words;"),
        vec![
            (0, 4, Tokens::Identifier),
            (4, 5, Tokens::Whitespace),
            (5, 8, Tokens::Identifier),
            (8, 9, Tokens::Whitespace),
            (9, 13, Tokens::Identifier),
            (13, 14, Tokens::Whitespace),
            (14, 19, Tokens::Identifier),
            (19, 20, Tokens::SemiColon),
        ]
    );
    assert_eq!(
        tokenize(&table, "1e+5-1+5*0x1245AFG"),
        vec![
            (0, 4, Tokens::Number),
            (4, 5, Tokens::Minus),
            (5, 6, Tokens::Number),
            (6, 7, Tokens::Plus),
            (7, 8, Tokens::Number),
            (8, 9, Tokens::Asterisk),
            (9, 17, Tokens::Number),
            (17, 18, Tokens::Identifier),
        ]
    );
    assert_eq!(
        tokenize(&table, ">>!=2"),
        vec![
            (0, 2, Tokens::BinaryShiftRight),
            (2, 4, Tokens::Unequals),
            (4, 5, Tokens::Number)
        ]
    );
    assert_eq!(
        tokenize(&table, "2^(2++)"),
        vec![
            (0, 1, Tokens::Number),
            (1, 2, Tokens::BinaryXor),
            (2, 3, Tokens::LeftParen),
            (3, 4, Tokens::Number),
            (4, 6, Tokens::Increment),
            (6, 7, Tokens::RightParen)
        ]
    );
    assert_eq!(
        tokenize(&table, "avada.kedavra_imperio^crucio"),
        vec![
            (0, 5, Tokens::Identifier),
            (5, 6, Tokens::Period),
            (6, 21, Tokens::Identifier),
            (21, 22, Tokens::BinaryXor),
            (22, 28, Tokens::Identifier)
        ]
    );

    assert_eq!(
        tokenize(&table, "const int *(void (*vtable)[])[]"),
        vec![
            (0, 5, Tokens::Const),
            (5, 6, Tokens::Whitespace),
            (6, 9, Tokens::Int),
            (9, 10, Tokens::Whitespace),
            (10, 11, Tokens::Asterisk),
            (11, 12, Tokens::LeftParen),
            (12, 16, Tokens::Void),
            (16, 17, Tokens::Whitespace),
            (17, 18, Tokens::LeftParen),
            (18, 19, Tokens::Asterisk),
            (19, 25, Tokens::Identifier),
            (25, 26, Tokens::RightParen),
            (26, 27, Tokens::LeftBracket),
            (27, 28, Tokens::RightBracket),
            (28, 29, Tokens::RightParen),
            (29, 30, Tokens::LeftBracket),
            (30, 31, Tokens::RightBracket)
        ]
    );

    assert_eq!(
        tokenize(&table, "return 0;"),
        vec![
            (0, 6, Tokens::Return),
            (6, 7, Tokens::Whitespace),
            (7, 8, Tokens::Number),
            (8, 9, Tokens::SemiColon),
        ]
    );

    assert_eq!(
        tokenize(
            &table,
            "\"Here are multiple strings\" \"And one with quite \\\"extravagant\\\" usage of escapes \\r\\nand a newline!\" \"Amongst other things...\""
        ),
        vec![
            (0, 27, Tokens::String),
            (27, 28, Tokens::Whitespace),
            (28, 100, Tokens::String),
            (100, 101, Tokens::Whitespace),
            (101, 126, Tokens::String),
        ]
    );
}

#[test]
fn test_tokenizer_on_code() {
    let table = table();
    let code_snippets = [
        r#"
                #include <stdio.h>
                int main(int argc, const char **argv) {
                    printf("Hello, world!");
                    return 0;
                }
            "#,
        r#"
                #include <stdio.h>
                // Here's a comment!
                /*
                 * And another one!
                 */
                int main() {
                    char c;
                    for (c = 'A'; c <= 'Z'; ++c)
                        printf("%c ", c);
                    return 0;
                }
            "#,
    ];

    code_snippets
        .iter()
        .for_each(|snippet| assert!(!tokenize(&table, snippet).is_empty()));
}
