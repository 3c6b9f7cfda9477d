//! The dispatcher: it hands every inbound message to every subscriber and
//! says what the transport has to do next.
//!
//! The dispatcher never touches the transport itself. Whoever owns the
//! connection receives and sends, and tells the dispatcher what happened;
//! the dispatcher answers with the next thing to do. A `Bot` is waiting for
//! the next message; a `Dispatch` is waiting to hear whether a reply went out.

use crate::error::{DispatchError, DispatchErrorView, TransportError};
use crate::message::{
    get_reply_target, reply_target, CommandView, InboundMessage, MessageView, OutboundCommand,
};
use vstd::prelude::*;

verus! {

/// What a subscriber returns, as contracts see it.
pub type ResponseView = Result<Option<CommandView>, DispatchErrorView>;

/// The contract-level value of what a subscriber returned.
pub open spec fn response_view(r: Result<Option<OutboundCommand>, DispatchError>) -> ResponseView {
    match r {
        Ok(Some(command)) => Ok(Some(command@)),
        Ok(None) => Ok(None),
        Err(e) => Err(e@),
    }
}

/// Something that wants to see every inbound message and may answer it.
pub trait Subscriber {
    /// Whether the subscriber, as it stands, may answer `msg` with
    /// `response`. A subscriber that says nothing of itself may answer
    /// anything.
    open spec fn responds(&self, msg: MessageView, response: ResponseView) -> bool {
        true
    }

    /// Looks at one message. `Ok(None)` means there is nothing to say.
    fn on_message(&mut self, msg: &InboundMessage) -> (r: Result<
        Option<OutboundCommand>,
        DispatchError,
    >)
        ensures
            old(self).responds(msg@, response_view(r)),
    ;
}

/// What the transport came back with when asked for the next message.
#[derive(Debug, Clone, PartialEq, Eq)]
pub enum Incoming {
    /// A message arrived.
    Message(InboundMessage),
    /// The transport failed.
    Failed(TransportError),
    /// The stream of messages has ended.
    Closed,
}

/// What the dispatcher does about one subscriber's answer.
#[derive(Debug, Clone, PartialEq, Eq)]
pub enum Verdict {
    /// Send this command before anything else happens.
    Send(OutboundCommand),
    /// Report this error and go on.
    Report(DispatchError),
    /// Go on.
    Nothing,
}

/// A verdict as contracts see it.
pub enum VerdictView {
    Send(CommandView),
    Report(DispatchErrorView),
    Nothing,
}

impl View for Verdict {
    type V = VerdictView;

    open spec fn view(&self) -> VerdictView {
        match *self {
            Verdict::Send(command) => VerdictView::Send(command@),
            Verdict::Report(error) => VerdictView::Report(error@),
            Verdict::Nothing => VerdictView::Nothing,
        }
    }
}

/// What follows from a subscriber's answer to `msg`. A reply with text is
/// sent. The merged diagnostics of failed handlers are sent too, as one reply
/// to where replies to `msg` go, if they have a text and there is such a
/// place. Every other error is reported. Silence and a reply without text are
/// passed over.
pub open spec fn verdict_on(msg: MessageView, answer: ResponseView) -> VerdictView {
    match answer {
        Ok(Some(CommandView::Reply { target, text })) => if text.len() == 0 {
            VerdictView::Nothing
        } else {
            VerdictView::Send(CommandView::Reply { target, text })
        },
        Ok(None) => VerdictView::Nothing,
        Err(DispatchErrorView::HandlerFailure(text)) => if text.len() > 0 && reply_target(msg)
            is Some {
            VerdictView::Send(CommandView::Reply { target: reply_target(msg)->0, text })
        } else {
            VerdictView::Report(DispatchErrorView::HandlerFailure(text))
        },
        Err(error) => VerdictView::Report(error),
    }
}

/// The errors that the answers to `msg` leave to report, in order.
pub open spec fn reported(msg: MessageView, answers: Seq<ResponseView>) -> Seq<DispatchErrorView>
    decreases answers.len(),
{
    if answers.len() == 0 {
        Seq::<DispatchErrorView>::empty()
    } else {
        match verdict_on(msg, answers.last()) {
            VerdictView::Report(error) => reported(msg, answers.drop_last()).push(error),
            _ => reported(msg, answers.drop_last()),
        }
    }
}

/// The contract-level value of a list of errors.
pub open spec fn errors_view(errors: Seq<DispatchError>) -> Seq<DispatchErrorView> {
    errors.map_values(|e: DispatchError| e@)
}

/// Decides what to do about one subscriber's answer to `msg`.
pub fn verdict_of(msg: &InboundMessage, answer: Result<Option<OutboundCommand>, DispatchError>) -> (verdict:
    Verdict)
    ensures
        verdict@ == verdict_on(msg@, response_view(answer)),
{
    match answer {
        Ok(Some(OutboundCommand::Reply { target, text })) => {
            if text.as_str().is_empty() {
                Verdict::Nothing
            } else {
                Verdict::Send(OutboundCommand::Reply { target, text })
            }
        },
        Ok(None) => Verdict::Nothing,
        Err(DispatchError::HandlerFailure(text)) => {
            if text.as_str().is_empty() {
                Verdict::Report(DispatchError::HandlerFailure(text))
            } else {
                match get_reply_target(msg) {
                    Some(target) => Verdict::Send(
                        OutboundCommand::Reply { target: target.to_owned(), text },
                    ),
                    None => Verdict::Report(DispatchError::HandlerFailure(text)),
                }
            }
        },
        Err(error) => Verdict::Report(error),
    }
}

/// A dispatcher that is waiting for the next inbound message.
pub struct Bot {
    subscribers: Vec<Box<dyn Subscriber>>,
}

/// A dispatcher in the middle of a message: a reply is on its way out, and
/// the subscribers from `next` on have not seen the message yet.
pub struct Dispatch {
    bot: Bot,
    message: InboundMessage,
    next: usize,
}

impl Dispatch {
    #[verifier::type_invariant]
    spec fn within_subscribers(self) -> bool {
        self.next <= self.bot.subscribers@.len()
    }
}

/// What the owner of the transport has to do next.
pub enum Step {
    /// Receive the next message and hand it to `Bot::loop_once`.
    Receive(Bot),
    /// Send the command and hand the outcome to `Dispatch::sent`.
    Send(OutboundCommand, Dispatch),
    /// Stop. The reason is the transport's error, or nothing where the
    /// stream ended.
    Stop(Bot, Option<TransportError>),
}

/// One answer of the dispatcher: what to do next, and the errors that the
/// subscribers reported on the way, in the order in which they came.
pub struct Turn {
    pub step: Step,
    pub diagnostics: Vec<DispatchError>,
}

impl Step {
    /// The subscribers as they are after the step.
    pub open spec fn subscribers(self) -> Seq<Box<dyn Subscriber>> {
        match self {
            Step::Receive(bot) => bot.subscribers(),
            Step::Send(_, dispatch) => dispatch.subscribers(),
            Step::Stop(bot, _) => bot.subscribers(),
        }
    }
}

/// Whether `turn` is what becomes of the subscribers `before` when those from
/// `from` on are shown `message`, one after the other: it goes on until one
/// answer is to be sent, which is done at once, or until all have seen the
/// message. `answers` is what the subscribers that were asked returned, each
/// an answer that the subscriber, as it stood before, may give.
pub open spec fn dispatched(
    before: Seq<Box<dyn Subscriber>>,
    message: InboundMessage,
    from: int,
    answers: Seq<ResponseView>,
    turn: Turn,
) -> bool {
    let after = turn.step.subscribers();
    let asked = answers.len() as int;
    &&& after.len() == before.len()
    &&& 0 <= from <= from + asked <= before.len()
    &&& forall|k: int| 0 <= k < from ==> #[trigger] after[k] == before[k]
    &&& forall|k: int| from + asked <= k < before.len() ==> #[trigger] after[k] == before[k]
    &&& forall|k: int|
        0 <= k < asked ==> before[from + k].responds(message@, #[trigger] answers[k])
    &&& errors_view(turn.diagnostics@) == reported(message@, answers)
    &&& forall|k: int|
        0 <= k < asked - 1 ==> !(verdict_on(message@, #[trigger] answers[k]) is Send)
    &&& match turn.step {
        Step::Receive(_) => {
            &&& from + asked == before.len()
            &&& asked > 0 ==> !(verdict_on(message@, answers.last()) is Send)
        },
        Step::Send(command, dispatch) => {
            &&& asked > 0
            &&& verdict_on(message@, answers.last()) == VerdictView::Send(command@)
            &&& dispatch.seen() == message
            &&& dispatch.resumes_at() == from + asked
        },
        Step::Stop(_, _) => false,
    }
}

impl Bot {
    /// The subscribers, in registration order.
    pub closed spec fn subscribers(&self) -> Seq<Box<dyn Subscriber>> {
        self.subscribers@
    }

    /// A dispatcher without subscribers.
    pub fn new() -> (bot: Bot)
        ensures
            bot.subscribers() == Seq::<Box<dyn Subscriber>>::empty(),
    {
        Bot { subscribers: Vec::new() }
    }

    /// Registers a subscriber behind those that are there already.
    pub fn add_subscriber(&mut self, sub: Box<dyn Subscriber>)
        ensures
            final(self).subscribers() == old(self).subscribers().push(sub),
    {
        self.subscribers.push(sub);
    }

    /// Takes what the transport came back with and says what to do next.
    ///
    /// A message is shown to the subscribers in registration order. The end
    /// of the stream stops the loop without an error, a failure of the
    /// transport stops it with that error; neither touches a subscriber.
    pub fn loop_once(self, incoming: Incoming) -> (turn: Turn)
        ensures
            incoming matches Incoming::Closed ==> {
                &&& turn.step matches Step::Stop(bot, reason)
                &&& bot.subscribers() == self.subscribers()
                &&& reason is None
                &&& turn.diagnostics@.len() == 0
            },
            incoming matches Incoming::Failed(error) ==> {
                &&& turn.step matches Step::Stop(bot, reason)
                &&& bot.subscribers() == self.subscribers()
                &&& reason == Some(error)
                &&& turn.diagnostics@.len() == 0
            },
            incoming matches Incoming::Message(message) ==> exists|answers: Seq<ResponseView>| #[trigger]
                dispatched(self.subscribers(), message, 0, answers, turn),
    {
        match incoming {
            Incoming::Message(message) => self.resume(message, 0),
            Incoming::Failed(error) => Turn {
                step: Step::Stop(self, Some(error)),
                diagnostics: Vec::new(),
            },
            Incoming::Closed => Turn { step: Step::Stop(self, None), diagnostics: Vec::new() },
        }
    }

    /// Shows `message` to the subscribers from `from` on.
    fn resume(self, message: InboundMessage, from: usize) -> (turn: Turn)
        requires
            from <= self.subscribers().len(),
        ensures
            exists|answers: Seq<ResponseView>| #[trigger]
                dispatched(self.subscribers(), message, from as int, answers, turn),
    {
        let ghost before = self.subscribers();
        let ghost answers: Seq<ResponseView> = Seq::empty();
        let mut bot = self;
        let mut diagnostics: Vec<DispatchError> = Vec::new();
        let mut i: usize = from;
        while i < bot.subscribers.len()
            invariant
                before == self.subscribers(),
                bot.subscribers().len() == before.len(),
                from + answers.len() == i,
                i <= before.len(),
                forall|k: int| 0 <= k < from ==> #[trigger] bot.subscribers()[k] == before[k],
                forall|k: int| i <= k < before.len() ==> #[trigger] bot.subscribers()[k] == before[k],
                errors_view(diagnostics@) == reported(message@, answers),
                forall|k: int|
                    0 <= k < answers.len() ==> before[from + k].responds(
                        message@,
                        #[trigger] answers[k],
                    ),
                forall|k: int|
                    0 <= k < answers.len() ==> !(verdict_on(message@, #[trigger] answers[k])
                        is Send),
            decreases bot.subscribers.len() - i,
        {
            let answer = bot.subscribers[i].on_message(&message);
            let ghost seen = response_view(answer);
            let ghost earlier = answers;
            proof {
                answers = answers.push(seen);
                assert(answers.drop_last() =~= earlier);
            }
            i = i + 1;
            match verdict_of(&message, answer) {
                Verdict::Send(command) => {
                    let turn = Turn {
                        step: Step::Send(command, Dispatch { bot, message, next: i }),
                        diagnostics,
                    };
                    assert(dispatched(before, message, from as int, answers, turn));
                    return turn;
                },
                Verdict::Report(error) => {
                    diagnostics.push(error);
                },
                Verdict::Nothing => {},
            }
        }
        let turn = Turn { step: Step::Receive(bot), diagnostics };
        assert(dispatched(before, message, from as int, answers, turn));
        turn
    }
}

impl Dispatch {
    /// The subscribers, in registration order.
    pub closed spec fn subscribers(&self) -> Seq<Box<dyn Subscriber>> {
        self.bot.subscribers()
    }

    /// The message that is being dispatched.
    pub closed spec fn seen(&self) -> InboundMessage {
        self.message
    }

    /// The index of the first subscriber that has not seen the message yet.
    pub closed spec fn resumes_at(&self) -> int {
        self.next as int
    }

    /// Takes the outcome of sending a reply and says what to do next.
    ///
    /// After a reply that went out, the subscribers that have not seen the
    /// message yet are shown it. A reply that could not be sent stops the
    /// loop with the transport's error, and no further subscriber is asked.
    pub fn sent(self, outcome: Result<(), TransportError>) -> (turn: Turn)
        ensures
            outcome matches Err(error) ==> {
                &&& turn.step matches Step::Stop(bot, reason)
                &&& bot.subscribers() == self.subscribers()
                &&& reason == Some(error)
                &&& turn.diagnostics@.len() == 0
            },
            outcome is Ok ==> exists|answers: Seq<ResponseView>| #[trigger]
                dispatched(self.subscribers(), self.seen(), self.resumes_at(), answers, turn),
    {
        proof {
            use_type_invariant(&self);
            assert(self.subscribers() == self.bot.subscribers());
            assert(self.resumes_at() == self.next as int);
        }
        match outcome {
            Ok(()) => self.bot.resume(self.message, self.next),
            Err(error) => Turn { step: Step::Stop(self.bot, Some(error)), diagnostics: Vec::new() },
        }
    }
}

} // verus!
