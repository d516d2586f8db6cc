//! Laws of the grammar: what holds of the tokens of every input.
//!
//! Each law is stated over [`scan`], of which the lexer's `next_token` is
//! proved to return the token and to reach the end position. In all of them
//! `pos` is the position of the cursor before the token is read, and the
//! token starts at the first position from there on that holds no whitespace.

use crate::grammar::{
    char_at, end_literal, keyword, lemma_run_end_bounds, lemma_run_end_is_maximal,
    lemma_run_end_unique, operator, operator_with_eq, punctuation, run_end, scan, whitespace,
    word_category, CharClass,
};
use crate::token::{Category, TokenView};
use crate::utils::{digit, letter_or_underscore};
use vstd::prelude::*;

verus! {

/// Where the token that is read from `pos` starts.
pub open spec fn token_start(input: Seq<char>, pos: int) -> int {
    run_end(input, pos, CharClass::Whitespace)
}

/// Input that holds nothing but whitespace yields the end-of-input token as
/// its first token, and the cursor has then passed all of it.
pub proof fn lemma_whitespace_only_yields_end(input: Seq<char>)
    requires
        forall|i: int| 0 <= i < input.len() ==> whitespace(#[trigger] input[i]),
    ensures
        scan(input, 0).token == (TokenView { kind: Category::EOF, literal: end_literal() }),
        scan(input, 0).end == input.len(),
{
    lemma_run_end_unique(input, 0, input.len() as int, CharClass::Whitespace);
}

/// The end-of-input token is read where only whitespace is left, and nowhere
/// else. Its literal is a single NUL.
pub proof fn lemma_end_only_at_end(input: Seq<char>, pos: int)
    ensures
        scan(input, pos).token.kind == Category::EOF <==> char_at(input, token_start(input, pos))
            is None,
        scan(input, pos).token.kind == Category::EOF ==> scan(input, pos).token.literal
            == end_literal(),
{
    let start = token_start(input, pos);
    if let Some(ch) = char_at(input, start) {
        if operator(ch) is None && punctuation(ch) is None && letter_or_underscore(ch) {
            lemma_keywords();
        }
    }
}

/// Once the end-of-input token has been read, reading again yields it again
/// and leaves the cursor where it is, however often this is done.
pub proof fn lemma_end_is_stable(input: Seq<char>, pos: int)
    requires
        scan(input, pos).token.kind == Category::EOF,
    ensures
        scan(input, scan(input, pos).end) == scan(input, pos),
{
    lemma_end_only_at_end(input, pos);
}

/// A punctuation mark (`+ - / * ; ( ) , { }`) is a token by itself: the
/// token has the mark's category and the mark as its literal, and the cursor
/// ends right behind it.
pub proof fn lemma_punctuation_token(input: Seq<char>, pos: int, ch: char)
    requires
        char_at(input, token_start(input, pos)) == Some(ch),
        punctuation(ch) is Some,
    ensures
        scan(input, pos).token == (TokenView { kind: punctuation(ch)->0, literal: seq![ch] }),
        scan(input, pos).end == token_start(input, pos) + 1,
{
}

/// Each punctuation mark has a category of its own.
pub proof fn lemma_punctuation_is_one_to_one(a: char, b: char)
    requires
        punctuation(a) is Some,
        punctuation(a) == punctuation(b),
    ensures
        a == b,
{
}

/// One of `=`, `!`, `<`, `>` with `=` right behind it is read as the
/// two-character operator (`==`, `!=`, `<=`, `>=`), with both characters as
/// the literal. With anything else behind it, or at the end of the input, it
/// is read as the one-character operator, with that character as the
/// literal. The cursor ends right behind the literal.
pub proof fn lemma_operator_token(input: Seq<char>, pos: int, ch: char)
    requires
        char_at(input, token_start(input, pos)) == Some(ch),
        operator(ch) is Some,
    ensures
        char_at(input, token_start(input, pos) + 1) == Some('=') ==> {
            &&& scan(input, pos).token == (TokenView {
                kind: operator_with_eq(ch).unwrap(),
                literal: seq![ch, '='],
            })
            &&& scan(input, pos).end == token_start(input, pos) + 2
        },
        char_at(input, token_start(input, pos) + 1) != Some('=') ==> {
            &&& scan(input, pos).token == (TokenView {
                kind: operator(ch).unwrap(),
                literal: seq![ch],
            })
            &&& scan(input, pos).end == token_start(input, pos) + 1
        },
{
}

/// The categories of the one- and two-character operators.
pub proof fn lemma_operator_categories()
    ensures
        operator('=') == Some(Category::Assign) && operator_with_eq('=') == Some(Category::Eq),
        operator('!') == Some(Category::Bang) && operator_with_eq('!') == Some(Category::NotEq),
        operator('<') == Some(Category::LT) && operator_with_eq('<') == Some(Category::LTE),
        operator('>') == Some(Category::GT) && operator_with_eq('>') == Some(Category::GTE),
        forall|ch: char|
            #![trigger operator(ch)]
            operator(ch) is Some <==> operator_with_eq(ch) is Some,
{
}

/// Each reserved word has its own category, and only the reserved words have
/// one.
pub proof fn lemma_keywords()
    ensures
        keyword("let"@) == Some(Category::Let),
        keyword("fn"@) == Some(Category::Function),
        keyword("if"@) == Some(Category::If),
        keyword("else"@) == Some(Category::Else),
        keyword("return"@) == Some(Category::Return),
        keyword("true"@) == Some(Category::True),
        keyword("false"@) == Some(Category::False),
        forall|word: Seq<char>|
            #![trigger keyword(word)]
            keyword(word) is Some ==> {
                ||| word == "let"@
                ||| word == "fn"@
                ||| word == "if"@
                ||| word == "else"@
                ||| word == "return"@
                ||| word == "true"@
                ||| word == "false"@
            },
        forall|word: Seq<char>|
            #![trigger keyword(word)]
            keyword(word) is Some ==> {
                &&& keyword(word)->0 != Category::EOF
                &&& keyword(word)->0 != Category::Illegal
            },
{
    reveal_strlit("let");
    reveal_strlit("fn");
    reveal_strlit("if");
    reveal_strlit("else");
    reveal_strlit("return");
    reveal_strlit("true");
    reveal_strlit("false");
    assert("fn"@[0] != "if"@[0]);
    assert("else"@[0] != "true"@[0]);
    assert("let"@.len() == 3 && "else"@.len() == 4 && "false"@.len() == 5 && "return"@.len() == 6);
}

/// A run of letters and underscores that cannot be made longer is read
/// whole: the token's literal is the run, its category is that of the keyword
/// the run spells or, where it spells none, an identifier that carries the
/// run. The cursor ends right behind the run.
pub proof fn lemma_word_token(input: Seq<char>, pos: int, end: int)
    requires
        0 <= token_start(input, pos) < end <= input.len(),
        forall|i: int|
            token_start(input, pos) <= i < end ==> letter_or_underscore(#[trigger] input[i]),
        char_at(input, end) matches Some(ch) ==> !letter_or_underscore(ch),
    ensures
        scan(input, pos).token.literal == input.subrange(token_start(input, pos), end),
        scan(input, pos).token.kind == word_category(scan(input, pos).token.literal),
        keyword(scan(input, pos).token.literal) matches Some(category) ==> scan(
            input,
            pos,
        ).token.kind == category,
        keyword(scan(input, pos).token.literal) is None ==> scan(input, pos).token.kind
            == Category::Ident(scan(input, pos).token.literal),
        scan(input, pos).end == end,
{
    let start = token_start(input, pos);
    lemma_run_end_unique(input, start, end, CharClass::Letter);
}

/// A run of decimal digits that cannot be made longer is read whole, leading
/// zeros included: the token is an integer literal that carries the run, and
/// the run is its literal. The cursor ends right behind the run.
pub proof fn lemma_number_token(input: Seq<char>, pos: int, end: int)
    requires
        0 <= token_start(input, pos) < end <= input.len(),
        forall|i: int| token_start(input, pos) <= i < end ==> digit(#[trigger] input[i]),
        char_at(input, end) matches Some(ch) ==> !digit(ch),
    ensures
        scan(input, pos).token.literal == input.subrange(token_start(input, pos), end),
        scan(input, pos).token.kind == Category::Int(scan(input, pos).token.literal),
        scan(input, pos).end == end,
{
    let start = token_start(input, pos);
    lemma_run_end_unique(input, start, end, CharClass::Digit);
}

/// A token is `Illegal` where its first character is no operator, no
/// punctuation mark, no letter or underscore and no digit, and nowhere else.
/// That one character is its literal, and the cursor ends right behind it.
pub proof fn lemma_illegal_token(input: Seq<char>, pos: int)
    ensures
        scan(input, pos).token.kind == Category::Illegal <==> (char_at(
            input,
            token_start(input, pos),
        ) matches Some(ch) && operator(ch) is None && punctuation(ch) is None
            && !letter_or_underscore(ch) && !digit(ch)),
        scan(input, pos).token.kind == Category::Illegal ==> {
            &&& scan(input, pos).token.literal == seq![input[token_start(input, pos)]]
            &&& scan(input, pos).end == token_start(input, pos) + 1
        },
{
    lemma_keywords();
}

/// The cursor never moves backward and never leaves the input: a token
/// starts at or after the cursor, its text lies inside the input, and every
/// token but the end-of-input token moves the cursor on.
pub proof fn lemma_cursor_moves_forward(input: Seq<char>, pos: int)
    requires
        0 <= pos,
    ensures
        pos <= token_start(input, pos) <= scan(input, pos).end,
        pos <= input.len() ==> scan(input, pos).end <= input.len(),
        scan(input, pos).token.kind != Category::EOF ==> token_start(input, pos) < scan(
            input,
            pos,
        ).end <= input.len(),
        scan(input, pos).token.kind == Category::EOF ==> token_start(input, pos) == scan(
            input,
            pos,
        ).end,
{
    let start = token_start(input, pos);
    lemma_run_end_bounds(input, pos, CharClass::Whitespace);
    lemma_run_end_bounds(input, start + 1, CharClass::Letter);
    lemma_run_end_bounds(input, start + 1, CharClass::Digit);
    lemma_end_only_at_end(input, pos);
}

/// The literal of every token but the end-of-input token is the text that
/// the cursor passed while reading it, from the token's start. An identifier
/// and an integer literal carry that same text, and it is not empty.
pub proof fn lemma_literal_is_lexeme(input: Seq<char>, pos: int)
    requires
        0 <= pos,
    ensures
        scan(input, pos).token.kind != Category::EOF ==> scan(input, pos).token.literal
            == input.subrange(token_start(input, pos), scan(input, pos).end),
        scan(input, pos).token.kind != Category::EOF ==> scan(input, pos).token.literal.len() > 0,
        scan(input, pos).token.kind matches Category::Ident(text) ==> text == scan(
            input,
            pos,
        ).token.literal,
        scan(input, pos).token.kind matches Category::Int(text) ==> text == scan(
            input,
            pos,
        ).token.literal,
{
    lemma_cursor_moves_forward(input, pos);
    lemma_keywords();
}

/// Whitespace is never part of a token: no literal holds any.
pub proof fn lemma_literal_has_no_whitespace(input: Seq<char>, pos: int)
    requires
        0 <= pos,
    ensures
        forall|i: int|
            0 <= i < scan(input, pos).token.literal.len() ==> !whitespace(
                #[trigger] scan(input, pos).token.literal[i],
            ),
{
    let start = token_start(input, pos);
    lemma_run_end_bounds(input, pos, CharClass::Whitespace);
    lemma_run_end_is_maximal(input, pos, CharClass::Whitespace);
    lemma_run_end_bounds(input, start, CharClass::Letter);
    lemma_run_end_is_maximal(input, start, CharClass::Letter);
    lemma_run_end_bounds(input, start, CharClass::Digit);
    lemma_run_end_is_maximal(input, start, CharClass::Digit);
}

} // verus!
