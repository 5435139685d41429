//! Character-level helpers on strings.

use vstd::prelude::*;
use vstd::std_specs::iter::IteratorSpec;

verus! {

/// `std::string::String::push`, of which the standard library says that it
/// appends the given character to the end of the string: the text after the
/// call is the text before it with `ch` behind it.
pub assume_specification[ String::push ](s: &mut String, ch: char)
    ensures
        final(s)@ == old(s)@.push(ch),
;

/// The text `s` with `to` in every place where `from` stands.
pub open spec fn replaced(s: Seq<char>, from: char, to: char) -> Seq<char> {
    Seq::new(s.len(), |i: int| if s[i] == from { to } else { s[i] })
}

/// Copies `s`, writing `to` wherever `from` stands.
pub fn replace_char(s: &str, from: char, to: char) -> (out: String)
    ensures
        out@ == replaced(s@, from, to),
{
    broadcast use vstd::string::axiom_spec_iter;

    let mut out = String::new();
    for c in it: s.chars()
        invariant
            it.seq() == s@,
            out@ == replaced(s@.take(it.index()), from, to),
    {
        proof {
            assert(s@.take(it.index() + 1) == s@.take(it.index()).push(c));
        }
        if c == from {
            out.push(to);
        } else {
            out.push(c);
        }
    }
    proof {
        assert(s@.take(s@.len() as int) == s@);
    }
    out
}

/// Whether two texts hold the same characters in the same order.
pub fn same_text(a: &str, b: &str) -> (same: bool)
    ensures
        same == (a@ == b@),
{
    broadcast use vstd::string::group_string_axioms;

    let mut left = a.chars();
    let mut right = b.chars();
    let ghost mut done: int = 0;
    loop
        invariant
            0 <= done <= a@.len(),
            done <= b@.len(),
            left.remaining() == a@.skip(done),
            right.remaining() == b@.skip(done),
            a@.take(done) == b@.take(done),
        decreases a@.len() - done,
    {
        let x = left.next();
        let y = right.next();
        match (x, y) {
            (None, None) => {
                proof {
                    assert(a@.take(done) == a@);
                    assert(b@.take(done) == b@);
                }
                return true;
            },
            (Some(p), Some(q)) => {
                if p != q {
                    proof {
                        assert(a@[done] != b@[done]);
                    }
                    return false;
                }
                proof {
                    assert(a@.take(done + 1) == a@.take(done).push(p));
                    assert(b@.take(done + 1) == b@.take(done).push(q));
                    assert(a@.skip(done).drop_first() == a@.skip(done + 1));
                    assert(b@.skip(done).drop_first() == b@.skip(done + 1));
                    done = done + 1;
                }
            },
            _ => {
                proof {
                    assert(a@.len() != b@.len());
                }
                return false;
            },
        }
    }
}

} // verus!
