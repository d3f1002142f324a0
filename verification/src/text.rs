//! Character-level helpers for `str` and `String`.

use vstd::prelude::*;
use vstd::std_specs::iter::IteratorSpec;

verus! {

/// `String::push` appends one character to the end of the string.
pub assume_specification[ String::push ](s: &mut String, c: char)
    ensures
        final(s)@ == old(s)@.push(c),
;

/// Whether two strings hold the same characters.
pub fn same_text(a: &str, b: &str) -> (same: bool)
    ensures
        same == (a@ == b@),
{
    broadcast use vstd::string::group_string_axioms;

    let mut left = a.chars();
    let mut right = b.chars();
    let ghost mut seen: Seq<char> = Seq::empty();
    loop
        invariant
            a@ == seen + left.remaining(),
            b@ == seen + right.remaining(),
        decreases a@.len() - seen.len(),
    {
        let x = left.next();
        let y = right.next();
        match (x, y) {
            (None, None) => {
                return true;
            },
            (Some(p), Some(q)) => {
                if p != q {
                    proof {
                        assert(a@[seen.len() as int] == p);
                        assert(b@[seen.len() as int] == q);
                    }
                    return false;
                }
                proof {
                    seen = seen.push(p);
                }
            },
            _ => {
                proof {
                    assert(a@.len() != b@.len());
                }
                return false;
            },
        }
    }
}

/// The characters of `s`, in order.
pub fn chars_of(s: &str) -> (out: Vec<char>)
    ensures
        out@ == s@,
{
    broadcast use vstd::string::group_string_axioms;

    let mut out: Vec<char> = Vec::new();
    let chars = s.chars();
    assert(chars.remaining() == s@);
    for c in it: chars
        invariant
            it.seq() == s@,
            out@ == it.seq().take(it.index()),
    {
        out.push(c);
    }
    out
}

} // verus!
