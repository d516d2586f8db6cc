//! Tokens: the category of a lexeme together with its text.

use crate::text::char_to_string;
use vstd::prelude::*;

verus! {

/// The categories a token can have.
#[derive(Debug, PartialEq, Clone)]
pub enum TokenType {
    Illegal,
    EOF,
    // Identifiers + literals
    Ident(String),
    Int(String),
    // Operators
    Assign,
    Plus,
    Bang,
    Minus,
    Slash,
    Asterisk,
    LT,
    GT,
    Eq,
    NotEq,
    LTE,
    GTE,
    // Delimiters
    Comma,
    Semicolon,
    LParen,
    RParen,
    LBrace,
    RBrace,
    // Keywords
    Let,
    Function,
    If,
    Else,
    Return,
    True,
    False,
}

/// A token category as a mathematical value: the same variants as
/// [`TokenType`], an identifier or integer carrying its text as a sequence.
pub enum Category {
    Illegal,
    EOF,
    Ident(Seq<char>),
    Int(Seq<char>),
    Assign,
    Plus,
    Bang,
    Minus,
    Slash,
    Asterisk,
    LT,
    GT,
    Eq,
    NotEq,
    LTE,
    GTE,
    Comma,
    Semicolon,
    LParen,
    RParen,
    LBrace,
    RBrace,
    Let,
    Function,
    If,
    Else,
    Return,
    True,
    False,
}

impl View for TokenType {
    type V = Category;

    open spec fn view(&self) -> Category {
        match self {
            TokenType::Illegal => Category::Illegal,
            TokenType::EOF => Category::EOF,
            TokenType::Ident(text) => Category::Ident(text@),
            TokenType::Int(text) => Category::Int(text@),
            TokenType::Assign => Category::Assign,
            TokenType::Plus => Category::Plus,
            TokenType::Bang => Category::Bang,
            TokenType::Minus => Category::Minus,
            TokenType::Slash => Category::Slash,
            TokenType::Asterisk => Category::Asterisk,
            TokenType::LT => Category::LT,
            TokenType::GT => Category::GT,
            TokenType::Eq => Category::Eq,
            TokenType::NotEq => Category::NotEq,
            TokenType::LTE => Category::LTE,
            TokenType::GTE => Category::GTE,
            TokenType::Comma => Category::Comma,
            TokenType::Semicolon => Category::Semicolon,
            TokenType::LParen => Category::LParen,
            TokenType::RParen => Category::RParen,
            TokenType::LBrace => Category::LBrace,
            TokenType::RBrace => Category::RBrace,
            TokenType::Let => Category::Let,
            TokenType::Function => Category::Function,
            TokenType::If => Category::If,
            TokenType::Else => Category::Else,
            TokenType::Return => Category::Return,
            TokenType::True => Category::True,
            TokenType::False => Category::False,
        }
    }
}

/// A token: its category and the text it was read from.
#[derive(Debug)]
pub struct Token {
    pub kind: TokenType,
    pub literal: String,
}

/// A token as a mathematical value.
pub struct TokenView {
    pub kind: Category,
    pub literal: Seq<char>,
}

impl View for Token {
    type V = TokenView;

    open spec fn view(&self) -> TokenView {
        TokenView { kind: self.kind@, literal: self.literal@ }
    }
}

/// What a token's literal can be made from: a single character or a string.
pub trait Literal: Sized {
    /// The characters of the literal.
    spec fn text(&self) -> Seq<char>;

    /// The literal as an owned string.
    fn into_text(self) -> (s: String)
        ensures
            s@ == self.text(),
    ;
}

impl Literal for char {
    open spec fn text(&self) -> Seq<char> {
        seq![*self]
    }

    fn into_text(self) -> (s: String) {
        char_to_string(self)
    }
}

impl Literal for String {
    open spec fn text(&self) -> Seq<char> {
        self@
    }

    fn into_text(self) -> (s: String) {
        self
    }
}

impl<'a> Literal for &'a str {
    open spec fn text(&self) -> Seq<char> {
        self@
    }

    fn into_text(self) -> (s: String) {
        self.to_owned()
    }
}

impl Token {
    /// A token of category `kind` whose literal is the text of `stringer`.
    /// Nothing is asked of how the two fit together.
    pub fn new<T: Literal>(kind: TokenType, stringer: T) -> (tok: Token)
        ensures
            tok.kind == kind,
            tok.literal@ == stringer.text(),
    {
        Token { kind, literal: stringer.into_text() }
    }

    /// Replaces the literal by `s` and leaves the category as it is.
    pub fn set_literal_str(&mut self, s: String)
        ensures
            final(self).literal == s,
            final(self).kind == old(self).kind,
    {
        self.literal = s;
    }

    /// Replaces the category by `t` and leaves the literal as it is.
    pub fn set_kind(&mut self, t: TokenType)
        ensures
            final(self).kind == t,
            final(self).literal == old(self).literal,
    {
        self.kind = t;
    }
}

} // verus!
