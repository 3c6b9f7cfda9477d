//! Merging handler outcomes into one reply text or one diagnostic.
//!
//! Every handler invocation ends in a success text or a failure message. A
//! dispatch merges all of them, left to right, into a single outcome: the
//! non-empty successes joined by `"; "`, unless anything failed, in which case
//! only the failure messages are kept, again joined by `"; "`.

use vstd::prelude::*;

verus! {

/// The outcome of a handler, or of a merge of outcomes, as contracts see it.
pub type Outcome = Result<Seq<char>, Seq<char>>;

/// The text put between two merged parts: a semicolon and a space.
pub open spec fn separator() -> Seq<char> {
    seq![';', ' ']
}

/// The contract-level value of an executable outcome.
pub open spec fn outcome_view(r: Result<String, String>) -> Outcome {
    match r {
        Ok(text) => Ok(text@),
        Err(message) => Err(message@),
    }
}

/// The contract-level value of a vector of executable outcomes.
pub open spec fn outcomes_view(items: Seq<Result<String, String>>) -> Seq<Outcome> {
    items.map_values(|r: Result<String, String>| outcome_view(r))
}

/// The neutral outcome every merge starts from: success with no text.
pub open spec fn nothing() -> Outcome {
    Ok(Seq::<char>::empty())
}

/// One merge step: the state `st` so far, then the next outcome `s`.
pub open spec fn collated(st: Outcome, s: Outcome) -> Outcome {
    match st {
        Ok(acc) => match s {
            Ok(text) => if text.len() == 0 {
                Ok(acc)
            } else if acc.len() == 0 {
                Ok(text)
            } else {
                Ok(acc + separator() + text)
            },
            Err(message) => Err(message),
        },
        Err(acc) => match s {
            Ok(_) => Err(acc),
            Err(message) => Err(acc + separator() + message),
        },
    }
}

/// The merge of a whole sequence, left to right, starting from `nothing()`.
pub open spec fn collated_seq(items: Seq<Outcome>) -> Outcome
    decreases items.len(),
{
    if items.len() == 0 {
        nothing()
    } else {
        collated(collated_seq(items.drop_last()), items.last())
    }
}

/// The parts in order with a separator between each two neighbours.
pub open spec fn joined(parts: Seq<Seq<char>>) -> Seq<char>
    decreases parts.len(),
{
    if parts.len() == 0 {
        Seq::<char>::empty()
    } else if parts.len() == 1 {
        parts[0]
    } else {
        joined(parts.drop_last()) + separator() + parts.last()
    }
}

/// The messages of the failures among `items`, in the order in which they stand.
pub open spec fn failures(items: Seq<Outcome>) -> Seq<Seq<char>>
    decreases items.len(),
{
    if items.len() == 0 {
        Seq::<Seq<char>>::empty()
    } else {
        match items.last() {
            Ok(_) => failures(items.drop_last()),
            Err(message) => failures(items.drop_last()).push(message),
        }
    }
}

/// The non-empty success texts among `items`, in the order in which they stand.
pub open spec fn successes(items: Seq<Outcome>) -> Seq<Seq<char>>
    decreases items.len(),
{
    if items.len() == 0 {
        Seq::<Seq<char>>::empty()
    } else {
        match items.last() {
            Ok(text) => if text.len() == 0 {
                successes(items.drop_last())
            } else {
                successes(items.drop_last()).push(text)
            },
            Err(_) => successes(items.drop_last()),
        }
    }
}

/// Whether any of `items` is a failure.
pub open spec fn any_failed(items: Seq<Outcome>) -> bool {
    exists|i: int| 0 <= i < items.len() && (#[trigger] items[i]) is Err
}

/// Merges the next outcome `s` into the state `st`.
///
/// While nothing has failed, a non-empty success is appended to the text so
/// far. The first failure replaces everything gathered before it; from then
/// on further failures are appended and successes are dropped.
pub fn collate_results(st: Result<String, String>, s: Result<String, String>) -> (merged: Result<
    String,
    String,
>)
    ensures
        outcome_view(merged) == collated(outcome_view(st), outcome_view(s)),
{
    proof {
        reveal_strlit("; ");
        assert("; "@ =~= separator());
    }
    match st {
        Ok(mut acc) => match s {
            Ok(text) => {
                if !text.as_str().is_empty() {
                    if !acc.as_str().is_empty() {
                        acc.append("; ");
                    }
                    acc.append(text.as_str());
                }
                Ok(acc)
            },
            Err(message) => Err(message),
        },
        Err(mut acc) => {
            if let Err(message) = s {
                acc.append("; ");
                acc.append(message.as_str());
            }
            Err(acc)
        },
    }
}

/// Merges a whole run of outcomes, in order, starting from an empty success.
pub fn collate_all(items: Vec<Result<String, String>>) -> (merged: Result<String, String>)
    ensures
        outcome_view(merged) == collated_seq(outcomes_view(items@)),
{
    let ghost all = outcomes_view(items@);
    let mut state: Result<String, String> = Ok(String::new());
    for item in it: items.into_iter()
        invariant
            it.seq() == items@,
            all == outcomes_view(items@),
            outcome_view(state) == collated_seq(all.take(it.index() as int)),
    {
        proof {
            let n = it.index() as int;
            assert(all.take(n + 1).drop_last() =~= all.take(n));
        }
        state = collate_results(state, item);
    }
    proof {
        assert(all.take(items@.len() as int) =~= all);
    }
    state
}

/// An empty success is neutral on both sides of a merge step.
pub proof fn merge_with_nothing(x: Outcome)
    ensures
        collated(nothing(), x) == x,
        collated(x, nothing()) == x,
{
    match x {
        Ok(text) => {
            if text.len() == 0 {
                assert(text =~= Seq::<char>::empty());
            }
        },
        Err(_) => {},
    }
}

/// A merge step is associative: merging `c` into the merge of `a` and `b`
/// gives what merging the merge of `b` and `c` into `a` gives.
pub proof fn merge_is_associative(a: Outcome, b: Outcome, c: Outcome)
    ensures
        collated(collated(a, b), c) == collated(a, collated(b, c)),
{
    let sep = separator();
    match (a, b, c) {
        (Ok(x), Ok(y), Ok(z)) => {
            if x.len() > 0 && y.len() > 0 && z.len() > 0 {
                assert((x + sep + y) + sep + z =~= x + sep + (y + sep + z));
            }
        },
        (Err(x), Err(y), Err(z)) => {
            assert((x + sep + y) + sep + z =~= x + sep + (y + sep + z));
        },
        _ => {},
    }
}

/// Merging a concatenation is merging the merges of its two halves.
pub proof fn merge_of_concatenation(a: Seq<Outcome>, b: Seq<Outcome>)
    ensures
        collated_seq(a + b) == collated(collated_seq(a), collated_seq(b)),
    decreases b.len(),
{
    if b.len() == 0 {
        assert(a + b =~= a);
        merge_with_nothing(collated_seq(a));
    } else {
        assert((a + b).drop_last() =~= a + b.drop_last());
        assert((a + b).last() == b.last());
        merge_of_concatenation(a, b.drop_last());
        merge_is_associative(collated_seq(a), collated_seq(b.drop_last()), b.last());
    }
}

/// Cutting a sequence of outcomes into chunks, merging each chunk, and then
/// merging the chunks' results gives the same as merging the whole sequence
/// at once.
pub proof fn chunked_merge_is_flat_merge(chunks: Seq<Seq<Outcome>>)
    ensures
        collated_seq(chunks.map_values(|chunk: Seq<Outcome>| collated_seq(chunk))) == collated_seq(
            chunks.flatten(),
        ),
    decreases chunks.len(),
{
    let merged = chunks.map_values(|chunk: Seq<Outcome>| collated_seq(chunk));
    chunks.lemma_flatten_and_flatten_alt_are_equivalent();
    if chunks.len() > 0 {
        let init = chunks.drop_last();
        init.lemma_flatten_and_flatten_alt_are_equivalent();
        assert(merged.drop_last() =~= init.map_values(|chunk: Seq<Outcome>| collated_seq(chunk)));
        chunked_merge_is_flat_merge(init);
        merge_of_concatenation(init.flatten(), chunks.last());
    }
}

/// A sequence has a failure exactly when its list of failure messages is not
/// empty, and every text in its list of successes is non-empty.
pub proof fn parts_of_outcomes(items: Seq<Outcome>)
    ensures
        any_failed(items) <==> failures(items).len() > 0,
        forall|i: int| 0 <= i < successes(items).len() ==> (#[trigger] successes(items)[i]).len() > 0,
    decreases items.len(),
{
    if items.len() > 0 {
        let init = items.drop_last();
        parts_of_outcomes(init);
        if any_failed(items) && items.last() is Ok {
            let i = choose|i: int| 0 <= i < items.len() && (#[trigger] items[i]) is Err;
            assert(init[i] is Err);
        }
        if any_failed(init) {
            let i = choose|i: int| 0 <= i < init.len() && (#[trigger] init[i]) is Err;
            assert(items[i] is Err);
        }
        if items.last() is Err {
            assert(items[items.len() - 1] is Err);
        }
        assert forall|i: int| 0 <= i < successes(items).len() implies (#[trigger] successes(
            items,
        )[i]).len() > 0 by {
            if i < successes(init).len() {
                assert(successes(items)[i] == successes(init)[i]);
            }
        }
    }
}

/// What a merge amounts to, with or without failures among the outcomes.
proof fn merge_meaning(items: Seq<Outcome>)
    ensures
        any_failed(items) ==> collated_seq(items) == Err::<Seq<char>, Seq<char>>(
            joined(failures(items)),
        ),
        !any_failed(items) ==> collated_seq(items) == Ok::<Seq<char>, Seq<char>>(
            joined(successes(items)),
        ),
    decreases items.len(),
{
    if items.len() > 0 {
        let init = items.drop_last();
        merge_meaning(init);
        parts_of_outcomes(init);
        parts_of_outcomes(items);
        match items.last() {
            Ok(text) => {
                if !any_failed(init) && text.len() > 0 {
                    let before = successes(init);
                    assert(before.push(text).drop_last() =~= before);
                    if before.len() > 0 {
                        // every part is non-empty, so what is joined so far is too
                        assert(before.last().len() > 0);
                        assert(joined(before).len() > 0);
                    }
                }
            },
            Err(message) => {
                let before = failures(init);
                assert(before.push(message).drop_last() =~= before);
            },
        }
    }
}

/// Once any outcome is a failure, the merge is a failure, and its message is
/// every failure's message in the order in which they came, joined by the
/// separator. No success text is part of it.
pub proof fn failures_take_over(items: Seq<Outcome>)
    requires
        any_failed(items),
    ensures
        collated_seq(items) == Err::<Seq<char>, Seq<char>>(joined(failures(items))),
{
    merge_meaning(items);
}

/// Where no outcome is a failure, the merge is a success made of the
/// non-empty texts in the order in which they came, joined by the separator.
pub proof fn successes_are_joined(items: Seq<Outcome>)
    requires
        !any_failed(items),
    ensures
        collated_seq(items) == Ok::<Seq<char>, Seq<char>>(joined(successes(items))),
{
    merge_meaning(items);
}

/// Merging no outcomes at all gives a success with empty text.
pub proof fn merge_of_nothing()
    ensures
        collated_seq(Seq::<Outcome>::empty()) == Ok::<Seq<char>, Seq<char>>(Seq::<char>::empty()),
{
}

/// Once a merge is in the failed state it stays there, whatever comes next.
pub proof fn failure_is_absorbing(st: Outcome, s: Outcome)
    ensures
        st is Err ==> collated(st, s) is Err,
        s is Err ==> collated(st, s) is Err,
{
}

} // verus!
