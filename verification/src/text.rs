//! What the lexer needs of std's strings beyond what vstd specifies.

use vstd::prelude::*;
use vstd::std_specs::iter::IteratorSpec;

verus! {

/// `String::push` of std appends the one character `ch` to the end of the
/// string and leaves what was there as it was.
pub assume_specification[ String::push ](s: &mut String, ch: char)
    ensures
        final(s)@ == old(s)@.push(ch),
;

/// The string made of the single character `ch`.
pub fn char_to_string(ch: char) -> (s: String)
    ensures
        s@ == seq![ch],
{
    let mut s = String::new();
    s.push(ch);
    s
}

/// Says whether two string slices hold the same characters.
pub fn same_text(a: &str, b: &str) -> (r: bool)
    ensures
        r == (a@ == b@),
{
    broadcast use vstd::string::group_string_axioms;
    let mut xs = a.chars();
    let mut ys = b.chars();
    let ghost mut i: int = 0;
    loop
        invariant
            0 <= i <= a@.len(),
            i <= b@.len(),
            xs.remaining() == a@.skip(i),
            ys.remaining() == b@.skip(i),
            a@.take(i) == b@.take(i),
        decreases a@.len() - i,
    {
        let x = xs.next();
        let y = ys.next();
        match (x, y) {
            (Some(c), Some(d)) => {
                if c != d {
                    return false;
                }
                proof {
                    i = i + 1;
                }
            },
            (None, None) => {
                assert(a@.take(i) == a@ && b@.take(i) == b@);
                return true;
            },
            _ => {
                return false;
            },
        }
    }
}

} // verus!
