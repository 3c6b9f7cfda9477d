//! Small helpers on strings.

use vstd::prelude::*;
use vstd::std_specs::iter::IteratorSpec;

verus! {

/// Whether two strings hold the same characters.
pub fn same_text(a: &str, b: &str) -> (same: bool)
    ensures
        same == (a@ == b@),
{
    broadcast use vstd::string::group_string_axioms;

    let mut rest = b.chars();
    for c in it: a.chars()
        invariant
            it.seq() == a@,
            rest.remaining() == b@.skip(it.index() as int),
            it.index() <= b@.len(),
            a@.take(it.index() as int) == b@.take(it.index() as int),
    {
        match rest.next() {
            Some(d) => {
                if c != d {
                    return false;
                }
            },
            None => {
                return false;
            },
        }
    }
    let ghost n = a@.len() as int;
    assert(a@.take(n) =~= a@);
    match rest.next() {
        Some(_) => false,
        None => {
            assert(b@.take(n) =~= b@);
            true
        },
    }
}

} // verus!
