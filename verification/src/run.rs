//! The decisions of the agent's main loop: whether it can start, and what it answers.
use vstd::prelude::*;
use crate::config::{AppConfig, ModelConfig};
use crate::message::{string_or, view_or, IncomingMessage};
use crate::text::concat_str;

verus! {

/// Why the agent cannot start without a WeChat login.
pub const NO_WECHAT_TOKEN: &'static str = "wechat_token not configured, run `mnemo setup` first";

/// Why the agent cannot start without a model.
pub const NO_MODEL: &'static str = "model not configured, run `mnemo setup` first";

/// What the agent answers when the model failed, before the reason.
pub const FAILURE_PREFIX: &'static str = "抱歉，处理出错了: ";

/// The model to run with, or why the agent cannot start: it needs a WeChat login and a model.
pub fn check_run_config(config: &AppConfig) -> (r: Result<&ModelConfig, String>)
    ensures
        config.wechat_token is None ==> (r matches Err(e) && e@ == NO_WECHAT_TOKEN@),
        config.wechat_token is Some && config.model is None ==> (r matches Err(e) && e@ == NO_MODEL@),
        config.wechat_token is Some && config.model is Some ==> (r matches Ok(m) && *m == config.model->0),
{
    if config.wechat_token.is_none() {
        return Err(NO_WECHAT_TOKEN.to_string());
    }
    match &config.model {
        Some(m) => Ok(m),
        None => Err(NO_MODEL.to_string()),
    }
}

/// A reply to send: to whom, what, and in which thread.
#[derive(Debug, Clone, PartialEq, Eq)]
pub struct ReplyPlan {
    pub to: String,
    pub text: String,
    pub context_token: String,
}

/// The reply to `msg`, given what the model made of it: its answer, or the reason it failed.
pub fn plan_reply(msg: &IncomingMessage, answer: Result<String, String>) -> (r: ReplyPlan)
    ensures
        r.to == msg.sender_id,
        r.context_token@ == view_or(msg.context.context_token, ""@),
        match answer {
            Ok(text) => r.text == text,
            Err(e) => r.text@ == FAILURE_PREFIX@ + e@,
        },
{
    let text = match answer {
        Ok(t) => t,
        Err(e) => concat_str(FAILURE_PREFIX, e.as_str()),
    };
    ReplyPlan {
        to: msg.sender_id.clone(),
        text,
        context_token: string_or(&msg.context.context_token, ""),
    }
}

/// What the main loop does: ask the model about a text, or send a reply (to, text, thread).
pub enum RunAction {
    Ask(Seq<char>),
    Send(Seq<char>, Seq<char>, Seq<char>),
}

/// The view of what the model made of a message: its answer, or the reason it failed.
pub open spec fn answer_view(a: Result<String, String>) -> Result<Seq<char>, Seq<char>> {
    match a {
        Ok(t) => Ok(t@),
        Err(e) => Err(e@),
    }
}

/// The reply to `m`, given the view of what the model made of it.
pub open spec fn reply_action(m: IncomingMessage, a: Result<Seq<char>, Seq<char>>) -> RunAction {
    RunAction::Send(
        m.sender_id@,
        match a {
            Ok(t) => t,
            Err(e) => FAILURE_PREFIX@ + e,
        },
        view_or(m.context.context_token, ""@),
    )
}

/// What the main loop has done after receiving `msgs` and learning `answers` for them, one by
/// one: for each message in order, it asked the model about the message's text, then, once the
/// answer came, sent exactly one reply to it.
pub open spec fn run_log(msgs: Seq<IncomingMessage>, answers: Seq<Result<Seq<char>, Seq<char>>>) -> Seq<
    RunAction,
>
    decreases msgs.len(),
{
    if msgs.len() == 0 {
        Seq::empty()
    } else if answers.len() == msgs.len() {
        run_log(msgs.drop_last(), answers.drop_last()).push(
            RunAction::Ask(msgs.last().content@),
        ).push(reply_action(msgs.last(), answers.last()))
    } else {
        run_log(msgs.drop_last(), answers).push(RunAction::Ask(msgs.last().content@))
    }
}

/// The main loop waiting for a message: every message received so far was answered.
pub struct RunLoop {
    msgs: Ghost<Seq<IncomingMessage>>,
    answers: Ghost<Seq<Result<Seq<char>, Seq<char>>>>,
    log: Ghost<Seq<RunAction>>,
}

/// The main loop waiting for the model's answer to the last message received.
pub struct AwaitingAnswer {
    pending: IncomingMessage,
    msgs: Ghost<Seq<IncomingMessage>>,
    answers: Ghost<Seq<Result<Seq<char>, Seq<char>>>>,
    log: Ghost<Seq<RunAction>>,
}

impl RunLoop {
    #[verifier::type_invariant]
    spec fn all_answered(self) -> bool {
        &&& self.msgs@.len() == self.answers@.len()
        &&& self.log@ == run_log(self.msgs@, self.answers@)
    }

    /// The messages received so far, in order.
    pub closed spec fn received(self) -> Seq<IncomingMessage> {
        self.msgs@
    }

    /// What the model made of each of them.
    pub closed spec fn answered(self) -> Seq<Result<Seq<char>, Seq<char>>> {
        self.answers@
    }

    /// What the loop has done so far.
    pub closed spec fn log(self) -> Seq<RunAction> {
        self.log@
    }

    /// The loop before any message: it has done nothing.
    pub fn new() -> (r: Self)
        ensures
            r.received() == Seq::<IncomingMessage>::empty(),
            r.answered() == Seq::<Result<Seq<char>, Seq<char>>>::empty(),
            r.log() == Seq::<RunAction>::empty(),
            r.log() == run_log(r.received(), r.answered()),
    {
        RunLoop { msgs: Ghost(Seq::empty()), answers: Ghost(Seq::empty()), log: Ghost(Seq::empty()) }
    }

    /// Receives `msg`: the loop asks the model about its text, and waits for the answer.
    pub fn receive(self, msg: IncomingMessage) -> (r: (AwaitingAnswer, String))
        ensures
            r.1@ == msg.content@,
            r.0.pending() == msg,
            r.0.received() == self.received().push(msg),
            r.0.answered() == self.answered(),
            r.0.log() == self.log().push(RunAction::Ask(msg.content@)),
            r.0.received().len() == r.0.answered().len() + 1,
            r.0.log() == run_log(r.0.received(), r.0.answered()),
    {
        proof {
            use_type_invariant(&self);
        }
        let ghost msgs = self.msgs@.push(msg);
        let ghost log = self.log@.push(RunAction::Ask(msg.content@));
        proof {
            assert(msgs.drop_last() =~= self.msgs@);
            assert(log == run_log(msgs, self.answers@));
        }
        let question = msg.content.clone();
        (
            AwaitingAnswer {
                pending: msg,
                msgs: Ghost(msgs),
                answers: Ghost(self.answers@),
                log: Ghost(log),
            },
            question,
        )
    }
}

impl AwaitingAnswer {
    #[verifier::type_invariant]
    spec fn one_pending(self) -> bool {
        &&& self.msgs@.len() == self.answers@.len() + 1
        &&& self.msgs@.last() == self.pending
        &&& self.log@ == run_log(self.msgs@, self.answers@)
    }

    /// The message whose answer the loop waits for.
    pub closed spec fn pending(self) -> IncomingMessage {
        self.pending
    }

    /// The messages received so far, in order.
    pub closed spec fn received(self) -> Seq<IncomingMessage> {
        self.msgs@
    }

    /// What the model made of each of them but the last.
    pub closed spec fn answered(self) -> Seq<Result<Seq<char>, Seq<char>>> {
        self.answers@
    }

    /// What the loop has done so far.
    pub closed spec fn log(self) -> Seq<RunAction> {
        self.log@
    }

    /// Takes in what the model made of the pending message: the loop sends exactly one reply to
    /// it, and waits for the next message.
    pub fn answer(self, answer: Result<String, String>) -> (r: (RunLoop, ReplyPlan))
        ensures
            r.1.to == self.pending().sender_id,
            r.1.context_token@ == view_or(self.pending().context.context_token, ""@),
            match answer {
                Ok(text) => r.1.text == text,
                Err(e) => r.1.text@ == FAILURE_PREFIX@ + e@,
            },
            r.0.received() == self.received(),
            r.0.answered() == self.answered().push(answer_view(answer)),
            r.0.log() == self.log().push(reply_action(self.pending(), answer_view(answer))),
            r.0.received().len() == r.0.answered().len(),
            r.0.log() == run_log(r.0.received(), r.0.answered()),
    {
        proof {
            use_type_invariant(&self);
        }
        let ghost a = answer_view(answer);
        let ghost answers = self.answers@.push(a);
        let ghost log = self.log@.push(reply_action(self.pending, a));
        proof {
            assert(answers.drop_last() =~= self.answers@);
            let prev = self.msgs@.drop_last();
            assert(run_log(self.msgs@, self.answers@) == run_log(prev, self.answers@).push(
                RunAction::Ask(self.pending.content@),
            ));
            assert(log == run_log(self.msgs@, answers));
        }
        let plan = plan_reply(&self.pending, answer);
        (RunLoop { msgs: Ghost(self.msgs@), answers: Ghost(answers), log: Ghost(log) }, plan)
    }
}

/// Main loop law: after receiving messages one by one and taking in the model's answer to each,
/// the loop has, for each message in order, asked the model about its text and then sent exactly
/// one reply, to its sender, with the answer or the reason of the failure, in its thread.
pub proof fn lemma_run_log_per_message(
    msgs: Seq<IncomingMessage>,
    answers: Seq<Result<Seq<char>, Seq<char>>>,
)
    requires
        msgs.len() == answers.len(),
    ensures
        run_log(msgs, answers).len() == 2 * msgs.len(),
        forall|i: int|
            0 <= i < msgs.len() ==> run_log(msgs, answers)[2 * i] == RunAction::Ask(
                (#[trigger] msgs[i]).content@,
            ) && run_log(msgs, answers)[2 * i + 1] == reply_action(msgs[i], answers[i]),
    decreases msgs.len(),
{
    if msgs.len() > 0 {
        let pm = msgs.drop_last();
        let pa = answers.drop_last();
        lemma_run_log_per_message(pm, pa);
        let n = msgs.len() - 1;
        assert forall|i: int| 0 <= i < msgs.len() implies run_log(msgs, answers)[2 * i]
            == RunAction::Ask((#[trigger] msgs[i]).content@) && run_log(msgs, answers)[2 * i + 1]
            == reply_action(msgs[i], answers[i]) by {
            if i < n {
                assert(msgs[i] == pm[i]);
                assert(answers[i] == pa[i]);
            }
        }
    }
}

} // verus!
