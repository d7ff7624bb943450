//! Pushing a message until the bus takes it, with exponential backoff.
//!
//! The caller puts the message and sleeps; this module says after each
//! attempt whether the push is done, is to be tried again after a delay, or
//! has failed. How long to wait and when to give up is the exponential
//! backoff policy of the `backoff` crate with its default settings: a first
//! delay of about 500 ms, growing by half each time up to a cap, within a
//! budget of 15 minutes in all.
use crate::endpoints::Put;
use crate::error::FabricError;
use backoff::backoff::Backoff;
use backoff::exponential::ExponentialBackoff;
use backoff::SystemClock;
use std::time::Duration;
use vstd::prelude::*;
use vstd::string::*;

verus! {

/// The exponential backoff policy of the `backoff` crate.
#[verifier::external_type_specification]
#[verifier::external_body]
#[verifier::reject_recursive_types(C)]
pub struct ExExponentialBackoff<C>(ExponentialBackoff<C>);

/// The clock that the backoff policy reads.
#[verifier::external_type_specification]
#[verifier::external_body]
pub struct ExSystemClock(SystemClock);

/// `<backoff::ExponentialBackoff as Default>::default`: a policy with the
/// default settings, whose budget starts to run now.
#[verifier::external_body]
pub(crate) fn default_backoff() -> ExponentialBackoff<SystemClock> {
    ExponentialBackoff::default()
}

/// `backoff::backoff::Backoff::next_backoff` on the exponential policy: how
/// long to wait before the next attempt, or `None` where the budget is spent.
/// The answer depends on the clock and on chance.
#[verifier::external_body]
pub(crate) fn next_backoff(policy: &mut ExponentialBackoff<SystemClock>) -> Option<Duration> {
    policy.next_backoff()
}

/// What a push is for, which decides the error it ends in when it gives up.
#[derive(Debug, Clone, Copy, PartialEq, Eq)]
pub enum PushKind {
    /// A node configuration for `node/<id>/config`.
    NodeConfig,
    /// A bare configuration value for `fabric/<id>/config`.
    ConfigValue,
}

/// How an attempt to put the message went.
pub enum PushEvent {
    /// The bus took the message.
    Sent,
    /// The bus refused the message, for the reason given.
    SendFailed(String),
    /// The cancellation signal fired.
    Cancelled,
}

/// What to do after an attempt.
pub enum PushStep {
    /// The message is through: report success.
    Done,
    /// Wait this long, then put the message again.
    RetryAfter(Duration),
    /// Give up and report this error.
    Failed(FabricError),
}

/// A push in progress: the message, and the backoff policy that paces it.
pub struct ConfigPush {
    kind: PushKind,
    message: Put,
    policy: ExponentialBackoff<SystemClock>,
}

/// The words that open the error of a configuration value that could not be
/// pushed.
pub open spec fn update_failure_prefix() -> Seq<char> {
    "Failed to update node config: "@
}

/// Whether `step` is what follows `event`, when the backoff policy would
/// answer `next` to a failure: success ends the push, cancellation fails it
/// with `Cancelled`, and a failure is retried after the delay the policy
/// gives or, where it gives none, fails the push with the reason.
pub open spec fn follows(
    kind: PushKind,
    event: PushEvent,
    next: Option<Duration>,
    step: PushStep,
) -> bool {
    match event {
        PushEvent::Sent => step is Done,
        PushEvent::Cancelled => step matches PushStep::Failed(e) && e is Cancelled,
        PushEvent::SendFailed(reason) => match next {
            Some(delay) => step == PushStep::RetryAfter(delay),
            None => match kind {
                PushKind::NodeConfig => {
                    &&& step matches PushStep::Failed(e)
                    &&& e matches FabricError::PublishError(text)
                    &&& text@ == reason@
                },
                PushKind::ConfigValue => {
                    &&& step matches PushStep::Failed(e)
                    &&& e matches FabricError::Other(text)
                    &&& text@ == update_failure_prefix() + reason@
                },
            },
        },
    }
}

/// The three things that can follow an attempt.
pub enum Verdict {
    /// The push is over and has succeeded.
    Done,
    /// The push goes on with another attempt.
    Retry,
    /// The push is over and has failed.
    GiveUp,
}

/// What follows `event`, when the backoff policy would answer `next` to a
/// failure.
pub open spec fn verdict(event: PushEvent, next: Option<Duration>) -> Verdict {
    match event {
        PushEvent::Sent => Verdict::Done,
        PushEvent::Cancelled => Verdict::GiveUp,
        PushEvent::SendFailed(_) => if next is Some {
            Verdict::Retry
        } else {
            Verdict::GiveUp
        },
    }
}

/// Which of the three a step is.
pub open spec fn verdict_of(step: PushStep) -> Verdict {
    match step {
        PushStep::Done => Verdict::Done,
        PushStep::RetryAfter(_) => Verdict::Retry,
        PushStep::Failed(_) => Verdict::GiveUp,
    }
}

/// How a push has gone so far.
pub enum PushOutcome {
    /// The bus took the message.
    Succeeded,
    /// The push gave up before the bus took the message.
    Failed,
    /// Neither yet.
    Pending,
}

/// How a push goes whose attempts meet `events`, one after the other, while
/// the backoff policy would answer `answers` to them: the push ends at the
/// first attempt that is not followed by a retry.
pub open spec fn push_outcome(events: Seq<PushEvent>, answers: Seq<Option<Duration>>) -> PushOutcome
    decreases events.len(),
{
    if events.len() == 0 || answers.len() == 0 {
        PushOutcome::Pending
    } else {
        match verdict(events[0], answers[0]) {
            Verdict::Done => PushOutcome::Succeeded,
            Verdict::GiveUp => PushOutcome::Failed,
            Verdict::Retry => push_outcome(events.drop_first(), answers.drop_first()),
        }
    }
}

/// Decides what follows an attempt, given what the backoff policy would
/// answer to a failure.
pub fn decide(kind: PushKind, event: PushEvent, next: Option<Duration>) -> (step: PushStep)
    ensures
        follows(kind, event, next, step),
        verdict_of(step) == verdict(event, next),
{
    match event {
        PushEvent::Sent => PushStep::Done,
        PushEvent::Cancelled => PushStep::Failed(FabricError::Cancelled),
        PushEvent::SendFailed(reason) => match next {
            Some(delay) => PushStep::RetryAfter(delay),
            None => match kind {
                PushKind::NodeConfig => PushStep::Failed(FabricError::PublishError(reason)),
                PushKind::ConfigValue => PushStep::Failed(
                    FabricError::Other(
                        String::from_str("Failed to update node config: ").concat(reason.as_str()),
                    ),
                ),
            },
        },
    }
}

impl ConfigPush {
    /// What the push is for.
    pub closed spec fn kind(&self) -> PushKind {
        self.kind
    }

    /// The message to put, the same at every attempt.
    pub closed spec fn message(&self) -> Put {
        self.message
    }

    /// A push of `message` whose budget starts to run now.
    pub fn new(kind: PushKind, message: Put) -> (push: Self)
        ensures
            push.kind() == kind,
            push.message() == message,
    {
        ConfigPush { kind, message, policy: default_backoff() }
    }

    /// The message to put.
    pub fn get_message(&self) -> (message: &Put)
        ensures
            *message == self.message(),
    {
        &self.message
    }

    /// Takes the result of an attempt and says what to do next. The backoff
    /// policy is asked only after a failure; whatever it answers, the step
    /// follows from it as `follows` says.
    pub fn step(&mut self, event: PushEvent) -> (step: PushStep)
        ensures
            final(self).kind() == old(self).kind(),
            final(self).message() == old(self).message(),
            exists|next: Option<Duration>|
                follows(old(self).kind(), event, next, step) && verdict_of(step) == verdict(
                    event,
                    next,
                ),
            event is Sent ==> step is Done,
            event is Cancelled ==> (step matches PushStep::Failed(e) && e is Cancelled),
            event is SendFailed ==> step is RetryAfter || step is Failed,
    {
        let next = match &event {
            PushEvent::SendFailed(_) => next_backoff(&mut self.policy),
            _ => None,
        };
        let step = decide(self.kind, event, next);
        assert(follows(old(self).kind(), event, next, step) && verdict_of(step) == verdict(
            event,
            next,
        ));
        step
    }
}

/// A push whose first `failures` attempts fail and whose next attempt gets
/// through ends in success, whenever the backoff policy grants a delay after
/// each of those failures.
pub proof fn lemma_retry_then_succeed(
    events: Seq<PushEvent>,
    answers: Seq<Option<Duration>>,
    failures: nat,
)
    requires
        events.len() > failures,
        answers.len() > failures,
        forall|i: int| 0 <= i < failures ==> events[i] is SendFailed,
        forall|i: int| 0 <= i < failures ==> answers[i] is Some,
        events[failures as int] is Sent,
    ensures
        push_outcome(events, answers) is Succeeded,
    decreases failures,
{
    if failures > 0 {
        let rest_events = events.drop_first();
        let rest_answers = answers.drop_first();
        assert forall|i: int| 0 <= i < failures - 1 implies rest_events[i] is SendFailed by {
            assert(rest_events[i] == events[i + 1]);
        }
        assert forall|i: int| 0 <= i < failures - 1 implies rest_answers[i] is Some by {
            assert(rest_answers[i] == answers[i + 1]);
        }
        assert(rest_events[failures - 1] == events[failures as int]);
        lemma_retry_then_succeed(rest_events, rest_answers, (failures - 1) as nat);
    }
}

/// A push whose every attempt fails ends in failure at the first attempt
/// after which the backoff policy grants no delay: it never outlasts the
/// policy's budget.
pub proof fn lemma_always_failing_gives_up(
    events: Seq<PushEvent>,
    answers: Seq<Option<Duration>>,
    spent: nat,
)
    requires
        events.len() > spent,
        answers.len() > spent,
        forall|i: int| 0 <= i <= spent ==> events[i] is SendFailed,
        forall|i: int| 0 <= i < spent ==> answers[i] is Some,
        answers[spent as int] is None,
    ensures
        push_outcome(events, answers) is Failed,
    decreases spent,
{
    if spent > 0 {
        let rest_events = events.drop_first();
        let rest_answers = answers.drop_first();
        assert forall|i: int| 0 <= i <= spent - 1 implies rest_events[i] is SendFailed by {
            assert(rest_events[i] == events[i + 1]);
        }
        assert forall|i: int| 0 <= i < spent - 1 implies rest_answers[i] is Some by {
            assert(rest_answers[i] == answers[i + 1]);
        }
        assert(rest_answers[spent - 1] == answers[spent as int]);
        lemma_always_failing_gives_up(rest_events, rest_answers, (spent - 1) as nat);
    }
}

} // verus!
