//! The lexer: a cursor over the input that hands out one token per call.

use crate::grammar::{char_at, run_end, scan, span, word_category, CharClass};
use crate::laws::lemma_cursor_moves_forward;
use crate::text::{char_to_string, same_text};
use crate::token::{Token, TokenType};
use crate::utils::{is_digit, is_letter_or_underscore};
use vstd::prelude::*;
use vstd::std_specs::iter::IteratorSpec;

verus! {

/// The position behind `position`. The largest `usize` has none behind it and
/// stands for itself; no input is long enough for a cursor on one of its
/// characters to get there.
pub open spec fn one_past(position: usize) -> usize {
    if position < usize::MAX {
        (position + 1) as usize
    } else {
        usize::MAX
    }
}

/// A cursor over the characters of one chunk of input.
pub struct Lexer {
    /// The input, character by character.
    pub input: Vec<char>,
    /// The position of the current character.
    pub position: usize,
    /// The position of the character that is read next.
    pub read_position: usize,
    /// The character at `position`, and `None` once the input is used up.
    pub current_char: Option<char>,
}

impl Lexer {
    /// The state of a lexer between two calls: the reading position is one
    /// past the current position, and the current character is the one the
    /// input holds at the current position, none where that lies behind the
    /// end.
    pub open spec fn wf(&self) -> bool {
        &&& self.read_position == one_past(self.position)
        &&& self.current_char == char_at(self.input@, self.position as int)
    }

    /// A lexer over `input`, with the cursor on its first character.
    pub fn new(input: String) -> (lexer: Lexer)
        ensures
            lexer.wf(),
            lexer.input@ == input@,
            lexer.position == 0,
    {
        broadcast use vstd::string::group_string_axioms;

        let mut chars: Vec<char> = Vec::new();
        let mut rest = input.as_str().chars();
        loop
            invariant
                chars@.len() <= input@.len(),
                rest.remaining() == input@.skip(chars@.len() as int),
                chars@ == input@.take(chars@.len() as int),
            ensures
                chars@ == input@,
            decreases input@.len() - chars@.len(),
        {
            match rest.next() {
                Some(ch) => {
                    chars.push(ch);
                },
                None => {
                    break;
                },
            }
        }
        let mut lexer = Lexer { input: chars, position: 0, read_position: 0, current_char: None };
        lexer.read_char();
        lexer
    }

    /// Moves the cursor past the whitespace it stands on, to the first
    /// character that is none or to the end of the input.
    pub fn eat_whitespace(&mut self)
        requires
            old(self).wf(),
        ensures
            final(self).wf(),
            final(self).input == old(self).input,
            final(self).position == run_end(
                old(self).input@,
                old(self).position as int,
                CharClass::Whitespace,
            ),
            old(self).position <= final(self).position,
    {
        self.skip_run(CharClass::Whitespace);
    }

    /// The character behind the current one, if the input holds one there.
    /// The cursor stays.
    pub fn peek_char(&self) -> (next: Option<char>)
        ensures
            next == char_at(self.input@, self.read_position as int),
    {
        if self.read_position < self.input.len() {
            Some(self.input[self.read_position])
        } else {
            None
        }
    }

    /// Moves the cursor on by one character: the character at the reading
    /// position becomes the current one, and both positions go up by one.
    /// Behind the end of the input there is no current character, however
    /// often this is called: the reading position stops at the largest
    /// `usize`, where no input has a character.
    pub fn read_char(&mut self)
        ensures
            final(self).input == old(self).input,
            final(self).position == old(self).read_position,
            final(self).read_position == one_past(old(self).read_position),
            final(self).current_char == char_at(old(self).input@, old(self).read_position as int),
            old(self).wf() ==> final(self).wf() && old(self).position <= final(self).position,
    {
        self.current_char = self.peek_char();
        self.position = self.read_position;
        self.read_position = self.read_position.saturating_add(1);
    }

    /// Reads the run of letters and underscores that starts at the cursor and
    /// returns it. The cursor ends on the first character behind the run.
    /// Where the cursor stands on no letter, the run is empty and the cursor
    /// stays.
    pub fn read_identifier(&mut self) -> (word: String)
        requires
            old(self).wf(),
        ensures
            final(self).wf(),
            final(self).input == old(self).input,
            final(self).position == run_end(
                old(self).input@,
                old(self).position as int,
                CharClass::Letter,
            ),
            word@ == span(old(self).input@, old(self).position as int, final(self).position as int),
            old(self).position <= final(self).position,
    {
        let current_position = self.position;
        self.skip_run(CharClass::Letter);
        self.text_between(current_position, self.position)
    }

    /// Reads the run of digits that starts at the cursor and returns it. The
    /// cursor ends on the first character behind the run. Where the cursor
    /// stands on no digit, the run is empty and the cursor stays.
    pub fn read_digit(&mut self) -> (number: String)
        requires
            old(self).wf(),
        ensures
            final(self).wf(),
            final(self).input == old(self).input,
            final(self).position == run_end(
                old(self).input@,
                old(self).position as int,
                CharClass::Digit,
            ),
            number@ == span(
                old(self).input@,
                old(self).position as int,
                final(self).position as int,
            ),
            old(self).position <= final(self).position,
    {
        let current_position = self.position;
        self.skip_run(CharClass::Digit);
        self.text_between(current_position, self.position)
    }

    /// The category of a word: that of the keyword it spells, else an
    /// identifier that carries the word.
    pub fn lookup_identifier(&self, s: &str) -> (kind: TokenType)
        ensures
            kind@ == word_category(s@),
    {
        if same_text(s, "let") {
            TokenType::Let
        } else if same_text(s, "fn") {
            TokenType::Function
        } else if same_text(s, "if") {
            TokenType::If
        } else if same_text(s, "else") {
            TokenType::Else
        } else if same_text(s, "return") {
            TokenType::Return
        } else if same_text(s, "true") {
            TokenType::True
        } else if same_text(s, "false") {
            TokenType::False
        } else {
            TokenType::Ident(s.to_owned())
        }
    }

    /// Reads an operator that `=` may follow. With `=` right behind the
    /// current character the token is of `double_kind`, holds both characters,
    /// and the cursor moves onto the `=`. Otherwise the token is of
    /// `single_kind`, holds the current character, and the cursor stays.
    fn check_two_char_token_eq(
        &mut self,
        single_kind: TokenType,
        double_kind: TokenType,
    ) -> (tok: Token)
        requires
            old(self).wf(),
            old(self).current_char is Some,
        ensures
            final(self).wf(),
            final(self).input == old(self).input,
            char_at(old(self).input@, old(self).position + 1) == Some('=') ==> {
                &&& tok.kind == double_kind
                &&& tok.literal@ == seq![old(self).current_char->0, '=']
                &&& final(self).position == old(self).position + 1
            },
            char_at(old(self).input@, old(self).position + 1) != Some('=') ==> {
                &&& tok.kind == single_kind
                &&& tok.literal@ == seq![old(self).current_char->0]
                &&& final(self).position == old(self).position
            },
    {
        // a cursor on a character has the position behind it in reach
        assert(self.position < self.input.len());
        let curr_char = self.current_char.unwrap();
        match self.peek_char() {
            Some('=') => {
                self.read_char();
                let mut literal = char_to_string(curr_char);
                literal.push('=');
                Token::new(double_kind, literal)
            },
            _ => Token::new(single_kind, curr_char),
        }
    }

    /// Reads the next token.
    ///
    /// Whitespace before it is passed over. At the end of the input the token
    /// is `EOF`, with one NUL as its literal, and the cursor stays where it
    /// is, so every later call gives `EOF` again. Otherwise the token is the
    /// one that [`scan`] finds at the cursor, and the cursor ends on the first
    /// character behind it. A character that begins no token is handed out as
    /// an `Illegal` token and passed like any other.
    pub fn next_token(&mut self) -> (tok: Token)
        requires
            old(self).wf(),
        ensures
            final(self).wf(),
            final(self).input == old(self).input,
            tok@ == scan(old(self).input@, old(self).position as int).token,
            final(self).position == scan(old(self).input@, old(self).position as int).end,
            old(self).position <= final(self).position,
    {
        proof {
            lemma_cursor_moves_forward(self.input@, self.position as int);
        }
        self.eat_whitespace();

        let ch = match self.current_char {
            Some(ch) => ch,
            None => {
                return Token::new(TokenType::EOF, '\0');
            },
        };

        let tok = match ch {
            '=' => self.check_two_char_token_eq(TokenType::Assign, TokenType::Eq),
            '!' => self.check_two_char_token_eq(TokenType::Bang, TokenType::NotEq),
            '<' => self.check_two_char_token_eq(TokenType::LT, TokenType::LTE),
            '>' => self.check_two_char_token_eq(TokenType::GT, TokenType::GTE),
            '+' => Token::new(TokenType::Plus, ch),
            '-' => Token::new(TokenType::Minus, ch),
            '/' => Token::new(TokenType::Slash, ch),
            '*' => Token::new(TokenType::Asterisk, ch),
            ';' => Token::new(TokenType::Semicolon, ch),
            '(' => Token::new(TokenType::LParen, ch),
            ')' => Token::new(TokenType::RParen, ch),
            ',' => Token::new(TokenType::Comma, ch),
            '{' => Token::new(TokenType::LBrace, ch),
            '}' => Token::new(TokenType::RBrace, ch),
            _ => {
                let mut tok = Token::new(TokenType::Illegal, ch);
                if is_letter_or_underscore(ch) {
                    // the run is read to its end: the cursor is behind the token
                    tok.set_literal_str(self.read_identifier());
                    tok.set_kind(self.lookup_identifier(tok.literal.as_str()));
                    return tok;
                } else if is_digit(ch) {
                    tok.set_literal_str(self.read_digit());
                    tok.set_kind(TokenType::Int(tok.literal.clone()));
                    return tok;
                }
                tok
            },
        };

        // the cursor still stands on the token's last character
        assert(self.position < self.input.len());
        self.read_char();

        tok
    }

    /// Whether the cursor stands on a character of `class`.
    fn at(&self, class: CharClass) -> (b: bool)
        ensures
            b == (self.current_char matches Some(ch) && class.has(ch)),
    {
        match self.current_char {
            Some(ch) => match class {
                CharClass::Whitespace => ch == ' ' || ch == '\t' || ch == '\n' || ch == '\r',
                CharClass::Letter => is_letter_or_underscore(ch),
                CharClass::Digit => is_digit(ch),
            },
            None => false,
        }
    }

    /// Moves the cursor to the end of the run of `class` that it stands on.
    fn skip_run(&mut self, class: CharClass)
        requires
            old(self).wf(),
        ensures
            final(self).wf(),
            final(self).input == old(self).input,
            final(self).position == run_end(old(self).input@, old(self).position as int, class),
            old(self).position <= final(self).position,
    {
        while self.at(class)
            invariant
                self.wf(),
                self.input == old(self).input,
                old(self).position <= self.position,
                run_end(self.input@, self.position as int, class) == run_end(
                    old(self).input@,
                    old(self).position as int,
                    class,
                ),
            decreases self.input@.len() - self.position,
        {
            assert(self.position < self.input.len());
            self.read_char();
        }
    }

    /// The characters of the input from `from` up to `to`, as a string; the
    /// empty string where these do not bound a part of the input.
    fn text_between(&self, from: usize, to: usize) -> (text: String)
        ensures
            text@ == span(self.input@, from as int, to as int),
    {
        let mut text = String::new();
        if from <= to && to <= self.input.len() {
            let mut i: usize = from;
            while i < to
                invariant
                    from <= i <= to <= self.input@.len(),
                    text@ == self.input@.subrange(from as int, i as int),
                decreases to - i,
            {
                text.push(self.input[i]);
                i += 1;
            }
        }
        text
    }
}

} // verus!
