//! A lexical analyzer for a small C-like scripting language.
//!
//! A [`lexer::Lexer`] is a cursor over one chunk of source text. Each call of
//! `next_token` hands out the next [`token::Token`], and `EOF` once the text
//! is used up. Characters that begin no token come out as `Illegal` tokens;
//! nothing fails.
//!
//! What the lexer produces is fixed by the grammar in [`grammar`], a function
//! on sequences of characters, and every executable function is proved
//! against it. [`laws`] holds what follows for the tokens of every input.

pub mod grammar;
pub mod laws;
pub mod lexer;
pub mod repl;
pub mod text;
pub mod token;
pub mod utils;
