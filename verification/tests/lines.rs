use nipl::repl::{is_terminator, tokens};
use nipl::token::TokenType;

#[test]
fn a_lone_newline_ends_the_session() {
    assert!(is_terminator("\n"));
}

#[test]
fn any_other_line_goes_on() {
    for line in ["", " ", " \n", "\n\n", "\r\n", "\n ", "quit\n", "let x = 1;\n", "\0"] {
        assert!(!is_terminator(line));
    }
}

#[test]
fn tokens_of_a_line_come_in_order_without_the_end() {
    let toks = tokens(String::from("let five = 5;\n"));
    let kinds: Vec<TokenType> = toks.iter().map(|t| t.kind.clone()).collect();
    assert_eq!(
        kinds,
        vec![
            TokenType::Let,
            TokenType::Ident(String::from("five")),
            TokenType::Assign,
            TokenType::Int(String::from("5")),
            TokenType::Semicolon,
        ]
    );
    let literals: Vec<&str> = toks.iter().map(|t| t.literal.as_str()).collect();
    assert_eq!(literals, vec!["let", "five", "=", "5", ";"]);
}

#[test]
fn a_line_of_whitespace_has_no_tokens() {
    assert!(tokens(String::new()).is_empty());
    assert!(tokens(String::from("\n")).is_empty());
    assert!(tokens(String::from(" \t \r\n")).is_empty());
}

#[test]
fn a_line_of_unknown_characters_comes_to_an_end() {
    let toks = tokens(String::from("@#$ ~\n"));
    assert_eq!(toks.len(), 4);
    for (tok, literal) in toks.iter().zip(["@", "#", "$", "~"]) {
        assert_eq!(tok.kind, TokenType::Illegal);
        assert_eq!(tok.literal, literal);
    }
}

#[test]
fn a_line_has_no_more_tokens_than_characters() {
    for line in ["", "a", "ab", "a b", "+-*/", "==", "= =", "1a2b", "@@@", "let x = 10 >= 9;"] {
        let toks = tokens(String::from(line));
        assert!(toks.len() <= line.chars().count());
        assert!(toks.iter().all(|t| t.kind != TokenType::EOF));
    }
    assert_eq!(tokens(String::from("+-*/")).len(), 4);
    assert_eq!(tokens(String::from("1a2b")).len(), 4);
}
