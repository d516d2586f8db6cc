use nipl::lexer::Lexer;
use nipl::token::{Token, TokenType};

fn kinds(input: &str) -> Vec<TokenType> {
    let mut lexer = Lexer::new(String::from(input));
    let mut out = Vec::new();
    loop {
        let tok = lexer.next_token();
        let done = tok.kind == TokenType::EOF;
        out.push(tok.kind);
        if done {
            return out;
        }
    }
}

fn tokens(input: &str) -> Vec<Token> {
    let mut lexer = Lexer::new(String::from(input));
    let mut out = Vec::new();
    loop {
        let tok = lexer.next_token();
        let done = tok.kind == TokenType::EOF;
        out.push(tok);
        if done {
            return out;
        }
    }
}

fn ident_kind(text: &str) -> TokenType {
    TokenType::Ident(String::from(text))
}

fn int_kind(text: &str) -> TokenType {
    TokenType::Int(String::from(text))
}

#[test]
fn test_next_token() {
    let input = String::from(
        r#"let _five = 5;
        let ten = 10;

        let add = fn(x, y) {
            x + y;
        };

        let result = add(five, ten);
        !-/*5;
        5 < 10 > 5;

        if (5 < 10) {
            return true;
        } else {
            return false;
        }

        10 == 10;
        10 != 9;
        10 <= 11;
        10 >= 9;
        "#,
    );

    let test_cases = vec![
        TokenType::Let,
        TokenType::Ident(String::from("_five")),
        TokenType::Assign,
        TokenType::Int(String::from("5")),
        TokenType::Semicolon,
        TokenType::Let,
        TokenType::Ident(String::from("ten")),
        TokenType::Assign,
        TokenType::Int(String::from("10")),
        TokenType::Semicolon,
        TokenType::Let,
        TokenType::Ident(String::from("add")),
        TokenType::Assign,
        TokenType::Function,
        TokenType::LParen,
        TokenType::Ident(String::from("x")),
        TokenType::Comma,
        TokenType::Ident(String::from("y")),
        TokenType::RParen,
        TokenType::LBrace,
        TokenType::Ident(String::from("x")),
        TokenType::Plus,
        TokenType::Ident(String::from("y")),
        TokenType::Semicolon,
        TokenType::RBrace,
        TokenType::Semicolon,
        TokenType::Let,
        TokenType::Ident(String::from("result")),
        TokenType::Assign,
        TokenType::Ident(String::from("add")),
        TokenType::LParen,
        TokenType::Ident(String::from("five")),
        TokenType::Comma,
        TokenType::Ident(String::from("ten")),
        TokenType::RParen,
        TokenType::Semicolon,
        TokenType::Bang,
        TokenType::Minus,
        TokenType::Slash,
        TokenType::Asterisk,
        TokenType::Int(String::from("5")),
        TokenType::Semicolon,
        TokenType::Int(String::from("5")),
        TokenType::LT,
        TokenType::Int(String::from("10")),
        TokenType::GT,
        TokenType::Int(String::from("5")),
        TokenType::Semicolon,
        TokenType::If,
        TokenType::LParen,
        TokenType::Int(String::from("5")),
        TokenType::LT,
        TokenType::Int(String::from("10")),
        TokenType::RParen,
        TokenType::LBrace,
        TokenType::Return,
        TokenType::True,
        TokenType::Semicolon,
        TokenType::RBrace,
        TokenType::Else,
        TokenType::LBrace,
        TokenType::Return,
        TokenType::False,
        TokenType::Semicolon,
        TokenType::RBrace,
        TokenType::Int(String::from("10")),
        TokenType::Eq,
        TokenType::Int(String::from("10")),
        TokenType::Semicolon,
        TokenType::Int(String::from("10")),
        TokenType::NotEq,
        TokenType::Int(String::from("9")),
        TokenType::Semicolon,
        TokenType::Int(String::from("10")),
        TokenType::LTE,
        TokenType::Int(String::from("11")),
        TokenType::Semicolon,
        TokenType::Int(String::from("10")),
        TokenType::GTE,
        TokenType::Int(String::from("9")),
        TokenType::Semicolon,
        TokenType::EOF,
    ];

    let mut l = Lexer::new(input);

    for test_case in test_cases {
        let tok = l.next_token();
        assert_eq!(tok.kind, test_case);
    }
}

#[test]
fn whitespace_only_input_gives_eof_first() {
    for input in ["", " ", "\t", "\n", "\r", "  \t\r\n \n\t  "] {
        let mut lexer = Lexer::new(String::from(input));
        let tok = lexer.next_token();
        assert_eq!(tok.kind, TokenType::EOF);
        assert_eq!(tok.literal, "\0");
        assert_eq!(lexer.position, input.len());
    }
}

#[test]
fn eof_is_returned_again_and_again() {
    let mut lexer = Lexer::new(String::from("x "));
    assert_eq!(lexer.next_token().kind, ident_kind("x"));
    for _ in 0..5 {
        let tok = lexer.next_token();
        assert_eq!(tok.kind, TokenType::EOF);
        assert_eq!(tok.literal, "\0");
        assert_eq!(lexer.position, 2);
        assert_eq!(lexer.read_position, 3);
        assert_eq!(lexer.current_char, None);
    }
}

#[test]
fn punctuation_marks_are_single_tokens() {
    let cases = [
        ('+', TokenType::Plus),
        ('-', TokenType::Minus),
        ('/', TokenType::Slash),
        ('*', TokenType::Asterisk),
        (';', TokenType::Semicolon),
        ('(', TokenType::LParen),
        (')', TokenType::RParen),
        ('{', TokenType::LBrace),
        ('}', TokenType::RBrace),
        (',', TokenType::Comma),
    ];
    for (ch, kind) in cases {
        let mut lexer = Lexer::new(ch.to_string());
        let tok = lexer.next_token();
        assert_eq!(tok.kind, kind);
        assert_eq!(tok.literal, ch.to_string());
        assert_eq!(lexer.position, 1);
        assert_eq!(lexer.next_token().kind, TokenType::EOF);
    }
}

#[test]
fn punctuation_followed_by_equals_stays_single() {
    let toks = tokens("+=");
    assert_eq!(toks.len(), 3);
    assert_eq!(toks[0].kind, TokenType::Plus);
    assert_eq!(toks[0].literal, "+");
    assert_eq!(toks[1].kind, TokenType::Assign);
    assert_eq!(toks[1].literal, "=");
    assert_eq!(toks[2].kind, TokenType::EOF);
}

#[test]
fn operators_followed_by_equals_are_doubled() {
    let cases = [
        ("==", TokenType::Eq),
        ("!=", TokenType::NotEq),
        ("<=", TokenType::LTE),
        (">=", TokenType::GTE),
    ];
    for (text, kind) in cases {
        let mut lexer = Lexer::new(String::from(text));
        let tok = lexer.next_token();
        assert_eq!(tok.kind, kind);
        assert_eq!(tok.literal, text);
        assert_eq!(lexer.position, 2);
        assert_eq!(lexer.next_token().kind, TokenType::EOF);
    }
}

#[test]
fn operators_followed_by_anything_else_are_single() {
    let cases = [
        ('=', TokenType::Assign),
        ('!', TokenType::Bang),
        ('<', TokenType::LT),
        ('>', TokenType::GT),
    ];
    for (ch, kind) in cases {
        for rest in ["", " =", "x", "1", "<", "!", ">", "+"] {
            let mut lexer = Lexer::new(format!("{}{}", ch, rest));
            let tok = lexer.next_token();
            assert_eq!(tok.kind, kind);
            assert_eq!(tok.literal, ch.to_string());
            assert_eq!(lexer.position, 1);
        }
    }
}

#[test]
fn three_equals_are_a_double_and_a_single() {
    let toks = tokens("===");
    assert_eq!(toks.len(), 3);
    assert_eq!(toks[0].kind, TokenType::Eq);
    assert_eq!(toks[0].literal, "==");
    assert_eq!(toks[1].kind, TokenType::Assign);
    assert_eq!(toks[1].literal, "=");
    assert_eq!(toks[2].kind, TokenType::EOF);
}

#[test]
fn keywords_have_their_own_kinds() {
    let cases = [
        ("let", TokenType::Let),
        ("fn", TokenType::Function),
        ("if", TokenType::If),
        ("else", TokenType::Else),
        ("return", TokenType::Return),
        ("true", TokenType::True),
        ("false", TokenType::False),
    ];
    for (word, kind) in cases {
        for input in [format!("{}", word), format!("  {} ", word), format!("{}(", word)] {
            let mut lexer = Lexer::new(input);
            let tok = lexer.next_token();
            assert_eq!(tok.kind, kind);
            assert_eq!(tok.literal, word);
        }
    }
}

#[test]
fn other_words_are_identifiers() {
    for word in ["x", "_", "__", "foo_bar", "Let", "LET", "lets", "le", "iff", "fnn", "returns", "_if", "True", "falsey", "elsee"] {
        let mut lexer = Lexer::new(format!("{} ", word));
        let tok = lexer.next_token();
        assert_eq!(tok.kind, ident_kind(word));
        assert_eq!(tok.literal, word);
        assert_eq!(lexer.position, word.len());
    }
}

#[test]
fn a_word_may_end_the_input() {
    let toks = tokens("abc");
    assert_eq!(toks.len(), 2);
    assert_eq!(toks[0].kind, ident_kind("abc"));
    assert_eq!(toks[0].literal, "abc");
    assert_eq!(toks[1].kind, TokenType::EOF);

    assert_eq!(kinds("return"), vec![TokenType::Return, TokenType::EOF]);
}

#[test]
fn a_digit_ends_an_identifier() {
    let toks = tokens("abc123 x1y");
    assert_eq!(toks.len(), 6);
    assert_eq!(toks[0].kind, ident_kind("abc"));
    assert_eq!(toks[0].literal, "abc");
    assert_eq!(toks[1].kind, int_kind("123"));
    assert_eq!(toks[1].literal, "123");
    assert_eq!(toks[2].kind, ident_kind("x"));
    assert_eq!(toks[3].kind, int_kind("1"));
    assert_eq!(toks[4].kind, ident_kind("y"));
    assert_eq!(toks[5].kind, TokenType::EOF);
}

#[test]
fn a_keyword_before_a_digit_is_still_a_keyword() {
    assert_eq!(kinds("let1"), vec![TokenType::Let, int_kind("1"), TokenType::EOF]);
}

#[test]
fn digit_runs_are_integer_literals() {
    for number in ["0", "5", "10", "007", "0000", "18446744073709551616999"] {
        for input in [format!("{}", number), format!(" {};", number), format!("{}x", number)] {
            let mut lexer = Lexer::new(input);
            let tok = lexer.next_token();
            assert_eq!(tok.kind, int_kind(number));
            assert_eq!(tok.literal, number);
        }
    }
}

#[test]
fn a_number_may_end_the_input() {
    let toks = tokens("42");
    assert_eq!(toks.len(), 2);
    assert_eq!(toks[0].kind, int_kind("42"));
    assert_eq!(toks[0].literal, "42");
    assert_eq!(toks[1].kind, TokenType::EOF);
}

#[test]
fn scenario_let_five() {
    assert_eq!(
        kinds("let five = 5;"),
        vec![
            TokenType::Let,
            ident_kind("five"),
            TokenType::Assign,
            int_kind("5"),
            TokenType::Semicolon,
            TokenType::EOF,
        ]
    );
}

#[test]
fn scenario_not_equal() {
    assert_eq!(
        kinds("10 != 9;"),
        vec![int_kind("10"), TokenType::NotEq, int_kind("9"), TokenType::Semicolon, TokenType::EOF]
    );
}

#[test]
fn scenario_operator_run() {
    assert_eq!(
        kinds("!-/*5;"),
        vec![
            TokenType::Bang,
            TokenType::Minus,
            TokenType::Slash,
            TokenType::Asterisk,
            int_kind("5"),
            TokenType::Semicolon,
            TokenType::EOF,
        ]
    );
}

#[test]
fn literals_are_the_text_that_was_read() {
    let toks = tokens("let x1 = fn(a, b) { a <= b != true; };");
    let literals: Vec<&str> = toks.iter().map(|t| t.literal.as_str()).collect();
    assert_eq!(
        literals,
        vec![
            "let", "x", "1", "=", "fn", "(", "a", ",", "b", ")", "{", "a", "<=", "b", "!=",
            "true", ";", "}", ";", "\0",
        ]
    );
}

#[test]
fn an_unknown_character_is_illegal_and_is_passed() {
    let toks = tokens("@");
    assert_eq!(toks.len(), 2);
    assert_eq!(toks[0].kind, TokenType::Illegal);
    assert_eq!(toks[0].literal, "@");
    assert_eq!(toks[1].kind, TokenType::EOF);

    let toks = tokens("a @ b#");
    assert_eq!(toks.len(), 5);
    assert_eq!(toks[0].kind, ident_kind("a"));
    assert_eq!(toks[1].kind, TokenType::Illegal);
    assert_eq!(toks[1].literal, "@");
    assert_eq!(toks[2].kind, ident_kind("b"));
    assert_eq!(toks[3].kind, TokenType::Illegal);
    assert_eq!(toks[3].literal, "#");
    assert_eq!(toks[4].kind, TokenType::EOF);
}

#[test]
fn characters_outside_ascii_are_illegal() {
    let toks = tokens("é1");
    assert_eq!(toks.len(), 3);
    assert_eq!(toks[0].kind, TokenType::Illegal);
    assert_eq!(toks[0].literal, "é");
    assert_eq!(toks[1].kind, int_kind("1"));
    assert_eq!(toks[2].kind, TokenType::EOF);
}

#[test]
fn other_whitespace_characters_are_illegal() {
    let toks = tokens("\u{b}\u{c}");
    assert_eq!(toks.len(), 3);
    assert_eq!(toks[0].kind, TokenType::Illegal);
    assert_eq!(toks[0].literal, "\u{b}");
    assert_eq!(toks[1].kind, TokenType::Illegal);
    assert_eq!(toks[1].literal, "\u{c}");
}

#[test]
fn a_nul_in_the_input_is_illegal_and_not_the_end() {
    let toks = tokens("\0x");
    assert_eq!(toks.len(), 3);
    assert_eq!(toks[0].kind, TokenType::Illegal);
    assert_eq!(toks[0].literal, "\0");
    assert_eq!(toks[1].kind, ident_kind("x"));
    assert_eq!(toks[2].kind, TokenType::EOF);
}

#[test]
fn the_cursor_ends_right_behind_each_token() {
    let mut lexer = Lexer::new(String::from("  let  x ==10 "));
    let mut ends = Vec::new();
    loop {
        let before = lexer.position;
        let tok = lexer.next_token();
        assert!(before <= lexer.position);
        assert_eq!(lexer.read_position, lexer.position + 1);
        ends.push(lexer.position);
        if tok.kind == TokenType::EOF {
            break;
        }
    }
    assert_eq!(ends, vec![5, 8, 11, 13, 14]);
}
