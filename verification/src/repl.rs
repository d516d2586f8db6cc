//! What a read loop needs of a line of input: whether the line ends the
//! session, and the tokens to show for it.

use crate::grammar::scan;
use crate::laws::lemma_cursor_moves_forward;
use crate::lexer::Lexer;
use crate::text::same_text;
use crate::token::{Category, Token, TokenType, TokenView};
use vstd::prelude::*;

verus! {

/// The tokens that are read one after the other by a cursor that starts at
/// `pos`, up to the end-of-input token, which is left out.
pub open spec fn tokens_from(input: Seq<char>, pos: int) -> Seq<TokenView>
    decreases input.len() - pos,
    via tokens_from_decreases
{
    let next = scan(input, pos);
    if next.token.kind == Category::EOF {
        Seq::empty()
    } else {
        seq![next.token] + tokens_from(input, next.end)
    }
}

#[via_fn]
proof fn tokens_from_decreases(input: Seq<char>, pos: int) {
    if 0 <= pos {
        lemma_cursor_moves_forward(input, pos);
    }
}

/// Reading a line comes to an end: from a position inside the input there
/// are at most as many tokens as characters are left, and none of them is the
/// end-of-input token.
pub proof fn lemma_tokens_are_bounded(input: Seq<char>, pos: int)
    requires
        0 <= pos <= input.len(),
    ensures
        tokens_from(input, pos).len() <= input.len() - pos,
        forall|i: int|
            0 <= i < tokens_from(input, pos).len() ==> (#[trigger] tokens_from(input, pos)[i]).kind
                != Category::EOF,
    decreases input.len() - pos,
{
    let next = scan(input, pos);
    if next.token.kind != Category::EOF {
        lemma_cursor_moves_forward(input, pos);
        lemma_tokens_are_bounded(input, next.end);
    }
}

/// The tokens as mathematical values, in the same order.
pub open spec fn views(tokens: Seq<Token>) -> Seq<TokenView> {
    tokens.map_values(|tok: Token| tok@)
}

/// Whether `line` is the line that ends the session: a newline and nothing
/// else.
pub fn is_terminator(line: &str) -> (b: bool)
    ensures
        b == (line@ == seq!['\n']),
{
    proof {
        reveal_strlit("\n");
        assert("\n"@ =~= seq!['\n']);
    }
    same_text(line, "\n")
}

/// The tokens of `line`, in order, without the end-of-input token that
/// follows the last of them.
pub fn tokens(line: String) -> (toks: Vec<Token>)
    ensures
        views(toks@) == tokens_from(line@, 0),
{
    let mut lexer = Lexer::new(line);
    let mut toks: Vec<Token> = Vec::new();
    loop
        invariant
            lexer.wf(),
            lexer.input@ == line@,
            lexer.position <= line@.len(),
            views(toks@) + tokens_from(line@, lexer.position as int) == tokens_from(line@, 0),
        ensures
            views(toks@) == tokens_from(line@, 0),
        decreases line@.len() - lexer.position,
    {
        proof {
            lemma_cursor_moves_forward(lexer.input@, lexer.position as int);
        }
        let tok = lexer.next_token();
        match tok.kind {
            TokenType::EOF => {
                break;
            },
            _ => {},
        }
        toks.push(tok);
    }
    toks
}

} // verus!
