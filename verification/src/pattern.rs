//! Finding a pattern's captures in a text.

use regex::Regex;
use vstd::prelude::*;

verus! {

/// `regex::Regex`, a compiled pattern. The verifier sees nothing inside it.
#[verifier::external_type_specification]
#[verifier::external_body]
pub struct ExRegex(Regex);

/// For each non-overlapping match of `pattern` in `text`, from left to right,
/// the text that capture group number `group` matched, or `None` where the
/// pattern has no such group or the group took no part in the match.
pub uninterp spec fn group_texts(pattern: Regex, text: Seq<char>, group: nat) -> Seq<
    Option<Seq<char>>,
>;

/// Runs `Regex::captures_iter` over `text` and takes from each match, with
/// `Captures::get` and `Match::as_str`, the text of capture group `group`.
/// Nothing is proved of the search itself: the contract only gives the
/// result its name.
#[verifier::external_body]
fn capture_groups(pattern: &Regex, text: &str, group: usize) -> (found: Vec<Option<String>>)
    ensures
        found.deep_view() == group_texts(*pattern, text@, group as nat),
{
    pattern.captures_iter(text).map(|c| c.get(group).map(|m| m.as_str().to_owned())).collect()
}

/// The entries of `found` that hold a text, in order.
pub open spec fn present(found: Seq<Option<Seq<char>>>) -> Seq<Seq<char>>
    decreases found.len(),
{
    if found.len() == 0 {
        Seq::<Seq<char>>::empty()
    } else {
        match found.last() {
            Some(text) => present(found.drop_last()).push(text),
            None => present(found.drop_last()),
        }
    }
}

/// What `pattern` captures in `text`: the text of the first capture group of
/// every match in which that group took part.
pub open spec fn captures_of(pattern: Regex, text: Seq<char>) -> Seq<Seq<char>> {
    present(group_texts(pattern, text, 1))
}

/// Keeps the captures that are there and drops the gaps.
pub fn present_texts(found: Vec<Option<String>>) -> (texts: Vec<String>)
    ensures
        texts.deep_view() == present(found.deep_view()),
{
    let ghost all = found.deep_view();
    let mut texts: Vec<String> = Vec::new();
    for entry in it: found.into_iter()
        invariant
            it.seq() == found@,
            all == found.deep_view(),
            texts.deep_view() == present(all.take(it.index() as int)),
    {
        proof {
            let n = it.index() as int;
            assert(all.take(n + 1).drop_last() =~= all.take(n));
        }
        if let Some(text) = entry {
            texts.push(text);
        }
    }
    proof {
        assert(all.take(found@.len() as int) =~= all);
    }
    texts
}

/// Finds every capture of `pattern` in `text`, from left to right.
pub fn captured_texts(pattern: &Regex, text: &str) -> (texts: Vec<String>)
    ensures
        texts.deep_view() == captures_of(*pattern, text@),
{
    present_texts(capture_groups(pattern, text, 1))
}

} // verus!
