//! A subscriber that answers messages whose text matches registered patterns.

use crate::bot::{response_view, ResponseView, Subscriber};
use crate::collate::{
    chunked_merge_is_flat_merge, collate_all, collate_results, collated_seq, merge_with_nothing,
    nothing, outcome_view, outcomes_view, Outcome,
};
use crate::error::{
    handled_view, DispatchError, DispatchErrorView, FailureReason, Handled,
};
use crate::message::{get_reply_target, reply_target, CommandView, InboundMessage, MessageView, OutboundCommand};
use crate::pattern::{captured_texts, captures_of};
use crate::text::same_text;
use regex::Regex;
use vstd::prelude::*;

verus! {

/// One call of a handler: the capture it was asked about and what it
/// returned.
pub type Asked = (Seq<char>, Handled);

/// Turns one captured text into a text to show, or says why it cannot.
pub trait Handler {
    /// Whether the handler, as it stands, may return `answer` for `capture`
    /// once it has been through the calls of `earlier`, in that order. A
    /// handler that says nothing of itself may return anything.
    open spec fn answers(&self, earlier: Seq<Asked>, capture: Seq<char>, answer: Handled) -> bool {
        true
    }

    /// Looks into one capture. What comes back is an answer that the handler
    /// may give as it stood; and whatever the handler may give from now on,
    /// it might have given, as it stood, after this call.
    fn handle(&mut self, capture: &str) -> (r: Result<String, FailureReason>)
        ensures
            old(self).answers(Seq::<Asked>::empty(), capture@, handled_view(r)),
            forall|later: Seq<Asked>, c: Seq<char>, a: Handled| #[trigger]
                final(self).answers(later, c, a) ==> old(self).answers(
                    seq![(capture@, handled_view(r))] + later,
                    c,
                    a,
                ),
    ;
}

/// A pattern with the handler for what it captures.
pub type RegexMatcher = (Regex, Box<dyn Handler>);

/// The matchers of a bot, in the order in which they were registered.
pub struct RegexMatch {
    matchers: Vec<RegexMatcher>,
}

/// Whether a message is ordinary text addressed to a channel or a user.
pub open spec fn is_text_message(msg: MessageView) -> bool {
    msg.command == "PRIVMSG"@
}

/// What a merged outcome becomes: a reply to `target`, or a failure that
/// carries the merged diagnostics.
pub open spec fn concluded(target: Seq<char>, aggregate: Outcome) -> ResponseView {
    match aggregate {
        Ok(text) => Ok(Some(CommandView::Reply { target, text })),
        Err(diagnostics) => Err(DispatchErrorView::HandlerFailure(diagnostics)),
    }
}

/// The patterns of a list of matchers, in order.
pub open spec fn patterns_of(matchers: Seq<RegexMatcher>) -> Seq<Regex> {
    matchers.map_values(|m: RegexMatcher| m.0)
}

/// The outcome to merge for what a handler returned: a failure is replaced
/// by its diagnostic.
pub open spec fn outcome_for(answer: Handled) -> Outcome {
    match answer {
        Ok(text) => Ok(text),
        Err(reason) => Err(reason.diagnostic()),
    }
}

/// The outcomes to merge for a run of answers.
pub open spec fn outcomes_for(answers: Seq<Handled>) -> Seq<Outcome> {
    answers.map_values(|answer: Handled| outcome_for(answer))
}

/// The calls that asking about `captures` in order makes, with `answers` for
/// what came back.
pub open spec fn asked(captures: Seq<Seq<char>>, answers: Seq<Handled>) -> Seq<Asked> {
    Seq::new(answers.len(), |k: int| (captures[k], answers[k]))
}

/// Whether `answers` holds, for each matcher in order, what its handler
/// returned for the captures of its pattern in `text`, asked one after the
/// other from left to right: each answer is one that the handler, as the
/// matcher holds it, may give after the calls before it.
pub open spec fn matchers_ran(
    matchers: Seq<RegexMatcher>,
    text: Seq<char>,
    answers: Seq<Seq<Handled>>,
) -> bool {
    &&& answers.len() == matchers.len()
    &&& forall|i: int|
        0 <= i < matchers.len() ==> {
            let captures = captures_of(matchers[i].0, text);
            &&& (#[trigger] answers[i]).len() == captures.len()
            &&& forall|j: int|
                0 <= j < captures.len() ==> matchers[i].1.answers(
                    asked(captures, answers[i]).take(j),
                    captures[j],
                    #[trigger] answers[i][j],
                )
        }
}

/// Whether none of the patterns captures anything in `text`.
pub open spec fn nothing_captured(patterns: Seq<Regex>, text: Seq<char>) -> bool {
    forall|i: int| 0 <= i < patterns.len() ==> captures_of(#[trigger] patterns[i], text).len() == 0
}

/// Whether every matcher whose pattern captures nothing in `text` is in
/// `after` as it was in `before`.
pub open spec fn idle_untouched(
    before: Seq<RegexMatcher>,
    after: Seq<RegexMatcher>,
    text: Seq<char>,
) -> bool {
    &&& after.len() == before.len()
    &&& forall|i: int|
        0 <= i < before.len() && captures_of(before[i].0, text).len() == 0 ==> #[trigger] after[i]
            == before[i]
}

/// The outcomes of each matcher merged, and those merges merged again.
pub open spec fn merged_twice(outcomes: Seq<Seq<Outcome>>) -> Outcome {
    collated_seq(outcomes.map_values(|per_matcher: Seq<Outcome>| collated_seq(per_matcher)))
}

/// The answers of each matcher's handler, merged per matcher and then across
/// matchers.
pub open spec fn merged_answers(answers: Seq<Seq<Handled>>) -> Outcome {
    merged_twice(answers.map_values(|per_matcher: Seq<Handled>| outcomes_for(per_matcher)))
}

/// Whether `response` is an answer of `matchers` to `msg`.
///
/// A message that is not ordinary text is passed over. A text message needs
/// somewhere to reply to and a text. Then the response is concluded from the
/// merged answers that the handlers gave for the captures of their patterns.
pub open spec fn answered(
    matchers: Seq<RegexMatcher>,
    msg: MessageView,
    response: ResponseView,
) -> bool {
    if !is_text_message(msg) {
        response == Ok::<Option<CommandView>, DispatchErrorView>(None)
    } else if reply_target(msg) is None {
        response == Err::<Option<CommandView>, DispatchErrorView>(DispatchErrorView::NoReplyTarget)
    } else if msg.suffix is None {
        response == Err::<Option<CommandView>, DispatchErrorView>(DispatchErrorView::NoMessageText)
    } else {
        exists|answers: Seq<Seq<Handled>>|
            #[trigger] matchers_ran(matchers, msg.suffix->0, answers) && response == concluded(
                reply_target(msg)->0,
                merged_answers(answers),
            )
    }
}

/// Merging per matcher and then across matchers gives what merging all the
/// outcomes in one go gives: a failure of any handler makes the whole
/// dispatch fail, and every text stays in the order in which it came.
pub proof fn merged_twice_is_flat(outcomes: Seq<Seq<Outcome>>)
    ensures
        merged_twice(outcomes) == collated_seq(outcomes.flatten()),
{
    chunked_merge_is_flat_merge(outcomes);
}

/// Turns a merged outcome into what the subscriber returns.
pub fn conclude(target: &str, aggregate: Result<String, String>) -> (r: Result<
    Option<OutboundCommand>,
    DispatchError,
>)
    ensures
        response_view(r) == concluded(target@, outcome_view(aggregate)),
{
    match aggregate {
        Ok(text) => Ok(Some(OutboundCommand::Reply { target: target.to_owned(), text })),
        Err(diagnostics) => Err(DispatchError::HandlerFailure(diagnostics)),
    }
}

/// Turns what a handler returned into an outcome to merge: a failure is
/// replaced by its diagnostic.
pub fn outcome_of(handled: Result<String, FailureReason>) -> (outcome: Result<String, String>)
    ensures
        outcome_view(outcome) == outcome_for(handled_view(handled)),
{
    match handled {
        Ok(text) => Ok(text),
        Err(reason) => Err(reason.diagnostic()),
    }
}

/// Hands every capture to the handler, in order, and gathers what comes back.
/// Without captures the handler is left alone.
fn run_handler(handler: &mut Box<dyn Handler>, captures: &Vec<String>) -> (ran: (
    Vec<Result<String, String>>,
    Ghost<Seq<Handled>>,
))
    ensures
        ran.1@.len() == captures.len(),
        forall|j: int|
            0 <= j < captures.len() ==> old(handler).answers(
                asked(captures.deep_view(), ran.1@).take(j),
                captures.deep_view()[j],
                #[trigger] ran.1@[j],
            ),
        outcomes_view(ran.0@) == outcomes_for(ran.1@),
        captures.len() == 0 ==> *final(handler) == *old(handler),
{
    let mut outcomes: Vec<Result<String, String>> = Vec::new();
    let ghost texts = captures.deep_view();
    let ghost answers: Seq<Handled> = Seq::empty();
    let mut j: usize = 0;
    proof {
        assert forall|later: Seq<Asked>, c: Seq<char>, a: Handled| #[trigger]
            handler.answers(later, c, a) implies old(handler).answers(
            asked(texts, answers) + later,
            c,
            a,
        ) by {
            assert(asked(texts, answers) + later =~= later);
        }
    }
    while j < captures.len()
        invariant
            j <= captures.len(),
            texts == captures.deep_view(),
            answers.len() == j,
            j == 0 ==> *handler == *old(handler),
            forall|k: int|
                0 <= k < j ==> old(handler).answers(
                    asked(texts, answers).take(k),
                    texts[k],
                    #[trigger] answers[k],
                ),
            forall|later: Seq<Asked>, c: Seq<char>, a: Handled| #[trigger]
                handler.answers(later, c, a) ==> old(handler).answers(
                    asked(texts, answers) + later,
                    c,
                    a,
                ),
            outcomes_view(outcomes@) == outcomes_for(answers),
        decreases captures.len() - j,
    {
        let ghost told = answers;
        let ghost held = *handler;
        let handled = handler.handle(captures[j].as_str());
        proof {
            let answer = handled_view(handled);
            let call = (texts[j as int], answer);
            let done = asked(texts, told);
            assert(texts[j as int] == captures[j as int]@);
            answers = told.push(answer);
            assert(asked(texts, answers) =~= done.push(call));
            // the answer is one that the handler may give after the calls so far
            assert(held.answers(Seq::<Asked>::empty(), texts[j as int], answer));
            assert(done + Seq::<Asked>::empty() =~= done);
            assert(asked(texts, answers).take(j as int) =~= done);
            assert forall|k: int| 0 <= k < j + 1 implies old(handler).answers(
                asked(texts, answers).take(k),
                texts[k],
                #[trigger] answers[k],
            ) by {
                if k < j {
                    assert(asked(texts, answers).take(k) =~= done.take(k));
                    assert(answers[k] == told[k]);
                }
            }
            // and what it may give from now on, it might have given after this call
            assert forall|later: Seq<Asked>, c: Seq<char>, a: Handled| #[trigger]
                handler.answers(later, c, a) implies old(handler).answers(
                asked(texts, answers) + later,
                c,
                a,
            ) by {
                assert(held.answers(seq![call] + later, c, a));
                assert(done + (seq![call] + later) =~= asked(texts, answers) + later);
            }
            assert(outcomes_for(answers) =~= outcomes_for(told).push(outcome_for(answer)));
        }
        outcomes.push(outcome_of(handled));
        j = j + 1;
    }
    (outcomes, Ghost(answers))
}

impl RegexMatch {
    /// The registered matchers, in registration order.
    pub closed spec fn matchers(&self) -> Seq<RegexMatcher> {
        self.matchers@
    }

    /// The registered patterns, in registration order.
    pub open spec fn patterns(&self) -> Seq<Regex> {
        patterns_of(self.matchers())
    }

    /// A registry without matchers.
    pub fn new() -> (registry: RegexMatch)
        ensures
            registry.matchers() == Seq::<RegexMatcher>::empty(),
    {
        RegexMatch { matchers: Vec::new() }
    }

    /// Registers a matcher behind those that are there already.
    pub fn add(&mut self, matcher: RegexMatcher)
        ensures
            final(self).matchers() == old(self).matchers().push(matcher),
    {
        self.matchers.push(matcher);
    }
}

impl Subscriber for RegexMatch {
    open spec fn responds(&self, msg: MessageView, response: ResponseView) -> bool {
        answered(self.matchers(), msg, response)
    }

    /// Runs every matcher on the text of a message and merges what the
    /// handlers return.
    ///
    /// A message that is not ordinary text is passed over. A text message
    /// needs somewhere to reply to and a text. Then each pattern is searched
    /// for in the text, each capture goes to the pattern's handler, the
    /// outcomes of each matcher are merged, and those merges are merged
    /// again: a success becomes a reply to the target, a failure an error
    /// with the merged diagnostics. No handler is called in the first three
    /// cases, and none whose pattern captured nothing.
    fn on_message(&mut self, msg: &InboundMessage) -> (r: Result<
        Option<OutboundCommand>,
        DispatchError,
    >)
        ensures
            answered(old(self).matchers(), msg@, response_view(r)),
            final(self).patterns() == old(self).patterns(),
            !is_text_message(msg@) || reply_target(msg@) is None || msg@.suffix is None
                ==> final(self).matchers() == old(self).matchers(),
            is_text_message(msg@) && reply_target(msg@) is Some && msg@.suffix is Some
                && nothing_captured(old(self).patterns(), msg@.suffix->0) ==> response_view(r)
                == concluded(reply_target(msg@)->0, nothing()),
            msg@.suffix is Some ==> idle_untouched(
                old(self).matchers(),
                final(self).matchers(),
                msg@.suffix->0,
            ),
    {
        if !same_text(msg.command.as_str(), "PRIVMSG") {
            return Ok(None);
        }
        let target = match get_reply_target(msg) {
            Some(target) => target,
            None => {
                return Err(DispatchError::NoReplyTarget);
            },
        };
        let text = match &msg.suffix {
            Some(text) => text.as_str(),
            None => {
                return Err(DispatchError::NoMessageText);
            },
        };
        let ghost before = self.matchers();
        let ghost answers: Seq<Seq<Handled>> = Seq::empty();
        let mut total: Result<String, String> = Ok(String::new());
        let mut i: usize = 0;
        while i < self.matchers.len()
            invariant
                i <= self.matchers.len(),
                before == old(self).matchers(),
                self.matchers().len() == before.len(),
                self.patterns() == patterns_of(before),
                answers.len() == i,
                forall|k: int|
                    0 <= k < i ==> {
                        let found = captures_of(before[k].0, text@);
                        &&& (#[trigger] answers[k]).len() == found.len()
                        &&& forall|j: int|
                            0 <= j < found.len() ==> before[k].1.answers(
                                asked(found, answers[k]).take(j),
                                found[j],
                                #[trigger] answers[k][j],
                            )
                    },
                forall|k: int|
                    0 <= k < i && captures_of(before[k].0, text@).len() == 0
                        ==> #[trigger] self.matchers()[k] == before[k],
                forall|k: int| i <= k < before.len() ==> #[trigger] self.matchers()[k] == before[k],
                outcome_view(total) == merged_answers(answers),
                (forall|k: int|
                    0 <= k < i ==> captures_of(#[trigger] patterns_of(before)[k], text@).len() == 0)
                    ==> outcome_view(total) == nothing(),
            decreases self.matchers.len() - i,
        {
            let captures = captured_texts(&self.matchers[i].0, text);
            let (results, Ghost(given)) = run_handler(&mut self.matchers[i].1, &captures);
            proof {
                let merges = answers.map_values(|per: Seq<Handled>| outcomes_for(per)).map_values(
                    |per: Seq<Outcome>| collated_seq(per),
                );
                let next = answers.push(given);
                assert(next.map_values(|per: Seq<Handled>| outcomes_for(per)).map_values(
                    |per: Seq<Outcome>| collated_seq(per),
                ) =~= merges.push(collated_seq(outcomes_for(given))));
                assert(merges.push(collated_seq(outcomes_for(given))).drop_last() =~= merges);
                answers = next;
            }
            let ghost merged_before = outcome_view(total);
            let merged = collate_all(results);
            total = collate_results(total, merged);
            proof {
                assert(patterns_of(before)[i as int] == before[i as int].0);
                if captures_of(before[i as int].0, text@).len() == 0 {
                    merge_with_nothing(merged_before);
                }
            }
            i = i + 1;
        }
        proof {
            assert(matchers_ran(before, msg@.suffix->0, answers));
        }
        conclude(target, total)
    }
}

} // verus!
