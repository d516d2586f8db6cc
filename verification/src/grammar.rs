//! The lexical grammar, as functions on sequences of characters.
//!
//! [`scan`] says which token starts at a position of the input and where the
//! cursor stands once the token has been read. The lexer is proved to compute
//! exactly that.

use crate::token::{Category, TokenView};
use crate::utils::{digit, letter_or_underscore};
use vstd::prelude::*;

verus! {

/// The characters that separate tokens: space, tab, newline, carriage return.
pub open spec fn whitespace(ch: char) -> bool {
    ch == ' ' || ch == '\t' || ch == '\n' || ch == '\r'
}

/// The classes of characters that the lexer reads in runs.
#[derive(Clone, Copy)]
pub enum CharClass {
    Whitespace,
    Letter,
    Digit,
}

impl CharClass {
    /// Whether `ch` belongs to the class.
    pub open spec fn has(self, ch: char) -> bool {
        match self {
            CharClass::Whitespace => whitespace(ch),
            CharClass::Letter => letter_or_underscore(ch),
            CharClass::Digit => digit(ch),
        }
    }
}

/// The character at `pos`, if `pos` lies inside the input.
pub open spec fn char_at(input: Seq<char>, pos: int) -> Option<char> {
    if 0 <= pos < input.len() {
        Some(input[pos])
    } else {
        None
    }
}

/// Where the longest run of characters of `class` that starts at `from` ends:
/// the first position at or after `from` that holds no character of the
/// class. It is `from` itself where `from` lies outside the input.
pub open spec fn run_end(input: Seq<char>, from: int, class: CharClass) -> int
    decreases input.len() - from,
{
    if 0 <= from < input.len() && class.has(input[from]) {
        run_end(input, from + 1, class)
    } else {
        from
    }
}

/// The characters from `from` up to `to`, or nothing where these do not
/// bound a part of the input.
pub open spec fn span(input: Seq<char>, from: int, to: int) -> Seq<char> {
    if 0 <= from <= to <= input.len() {
        input.subrange(from, to)
    } else {
        Seq::empty()
    }
}

/// The category of a character that is an operator alone and another one
/// with `=` right behind it: the category it has alone.
pub open spec fn operator(ch: char) -> Option<Category> {
    if ch == '=' {
        Some(Category::Assign)
    } else if ch == '!' {
        Some(Category::Bang)
    } else if ch == '<' {
        Some(Category::LT)
    } else if ch == '>' {
        Some(Category::GT)
    } else {
        None
    }
}

/// The category of the two-character operator made of `ch` and `=`.
pub open spec fn operator_with_eq(ch: char) -> Option<Category> {
    if ch == '=' {
        Some(Category::Eq)
    } else if ch == '!' {
        Some(Category::NotEq)
    } else if ch == '<' {
        Some(Category::LTE)
    } else if ch == '>' {
        Some(Category::GTE)
    } else {
        None
    }
}

/// The category of a character that is a token by itself whatever follows.
pub open spec fn punctuation(ch: char) -> Option<Category> {
    if ch == '+' {
        Some(Category::Plus)
    } else if ch == '-' {
        Some(Category::Minus)
    } else if ch == '/' {
        Some(Category::Slash)
    } else if ch == '*' {
        Some(Category::Asterisk)
    } else if ch == ';' {
        Some(Category::Semicolon)
    } else if ch == '(' {
        Some(Category::LParen)
    } else if ch == ')' {
        Some(Category::RParen)
    } else if ch == ',' {
        Some(Category::Comma)
    } else if ch == '{' {
        Some(Category::LBrace)
    } else if ch == '}' {
        Some(Category::RBrace)
    } else {
        None
    }
}

/// The category of a reserved word, and `None` for any other text.
pub open spec fn keyword(word: Seq<char>) -> Option<Category> {
    if word == "let"@ {
        Some(Category::Let)
    } else if word == "fn"@ {
        Some(Category::Function)
    } else if word == "if"@ {
        Some(Category::If)
    } else if word == "else"@ {
        Some(Category::Else)
    } else if word == "return"@ {
        Some(Category::Return)
    } else if word == "true"@ {
        Some(Category::True)
    } else if word == "false"@ {
        Some(Category::False)
    } else {
        None
    }
}

/// The category of a run of letters: that of the keyword it spells, else an
/// identifier with the run as its text.
pub open spec fn word_category(word: Seq<char>) -> Category {
    match keyword(word) {
        Some(category) => category,
        None => Category::Ident(word),
    }
}

/// The literal of the token that marks the end of the input: one NUL.
pub open spec fn end_literal() -> Seq<char> {
    seq!['\0']
}

/// What reading one token yields.
pub struct Scan {
    /// The token.
    pub token: TokenView,
    /// The position of the cursor after the token.
    pub end: int,
}

/// The token read by a cursor that stands at `pos`.
///
/// Whitespace before the token is passed over. At the end of the input the
/// token is `EOF` and the cursor stays. Otherwise the first character
/// decides: an operator takes a following `=` with it, punctuation stands
/// alone, a letter or a digit takes the whole run of its class, and any other
/// character is `Illegal`. The cursor ends right behind the token's text.
pub open spec fn scan(input: Seq<char>, pos: int) -> Scan {
    let start = run_end(input, pos, CharClass::Whitespace);
    match char_at(input, start) {
        None => Scan {
            token: TokenView { kind: Category::EOF, literal: end_literal() },
            end: start,
        },
        Some(ch) => {
            if let Some(single) = operator(ch) {
                if char_at(input, start + 1) == Some('=') {
                    Scan {
                        token: TokenView {
                            kind: operator_with_eq(ch).unwrap(),
                            literal: seq![ch, '='],
                        },
                        end: start + 2,
                    }
                } else {
                    Scan { token: TokenView { kind: single, literal: seq![ch] }, end: start + 1 }
                }
            } else if let Some(category) = punctuation(ch) {
                Scan { token: TokenView { kind: category, literal: seq![ch] }, end: start + 1 }
            } else if letter_or_underscore(ch) {
                let end = run_end(input, start, CharClass::Letter);
                let word = input.subrange(start, end);
                Scan { token: TokenView { kind: word_category(word), literal: word }, end }
            } else if digit(ch) {
                let end = run_end(input, start, CharClass::Digit);
                let number = input.subrange(start, end);
                Scan { token: TokenView { kind: Category::Int(number), literal: number }, end }
            } else {
                Scan {
                    token: TokenView { kind: Category::Illegal, literal: seq![ch] },
                    end: start + 1,
                }
            }
        },
    }
}

/// A run ends at or after its start, and inside the input where it starts
/// inside.
pub proof fn lemma_run_end_bounds(input: Seq<char>, from: int, class: CharClass)
    ensures
        from <= run_end(input, from, class),
        from <= input.len() ==> run_end(input, from, class) <= input.len(),
    decreases input.len() - from,
{
    if 0 <= from < input.len() && class.has(input[from]) {
        lemma_run_end_bounds(input, from + 1, class);
    }
}

/// Every character of a run belongs to the class, and the character right
/// behind the run, if there is one, does not.
pub proof fn lemma_run_end_is_maximal(input: Seq<char>, from: int, class: CharClass)
    requires
        0 <= from,
    ensures
        forall|i: int| from <= i < run_end(input, from, class) ==> class.has(#[trigger] input[i]),
        char_at(input, run_end(input, from, class)) matches Some(ch) ==> !class.has(ch),
    decreases input.len() - from,
{
    if 0 <= from < input.len() && class.has(input[from]) {
        lemma_run_end_is_maximal(input, from + 1, class);
    }
}

/// A stretch of the input whose characters all belong to the class, and
/// which the input's end or a character outside the class follows, is the
/// run that starts where the stretch starts.
pub proof fn lemma_run_end_unique(input: Seq<char>, from: int, to: int, class: CharClass)
    requires
        0 <= from <= to <= input.len(),
        forall|i: int| from <= i < to ==> class.has(#[trigger] input[i]),
        char_at(input, to) matches Some(ch) ==> !class.has(ch),
    ensures
        run_end(input, from, class) == to,
    decreases to - from,
{
    if from < to {
        lemma_run_end_unique(input, from + 1, to, class);
    }
}

} // verus!
