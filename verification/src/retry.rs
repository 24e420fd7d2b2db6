//! Bounded-attempt, fixed-delay retry policy and the schedule that applies it
//! to the successive outcomes of one invocation's attempts.

use vstd::prelude::*;

use crate::states::{clone_opt_string, EventModel, OpState, OperationResult, ResultModel};

verus! {

/// Immutable retry policy: up to `retries` re-attempts after a failed
/// attempt, each preceded by a fixed wait of `delay_ms` milliseconds.
#[derive(Clone, Copy, PartialEq, Eq, Structural)]
pub struct Retry {
    pub retries: u8,
    pub delay_ms: u32,
}

impl Retry {
    pub fn new(retries: u8, delay_ms: u32) -> (r: Self)
        ensures
            r == (Retry { retries, delay_ms }),
    {
        Retry { retries, delay_ms }
    }
}

/// What one attempt of an operation's work came to: a completed attempt with
/// its result, or an abrupt termination caught at the isolation boundary.
pub enum AttemptOutcome {
    Completed(OperationResult),
    Panicked(String),
}

/// Spec model of an `AttemptOutcome`.
pub enum OutcomeModel {
    Completed(ResultModel),
    Panicked(Seq<char>),
}

impl View for AttemptOutcome {
    type V = OutcomeModel;

    open spec fn view(&self) -> OutcomeModel {
        match self {
            AttemptOutcome::Completed(r) => OutcomeModel::Completed(r@),
            AttemptOutcome::Panicked(m) => OutcomeModel::Panicked(m@),
        }
    }
}

impl DeepView for AttemptOutcome {
    type V = OutcomeModel;

    open spec fn deep_view(&self) -> OutcomeModel {
        self.view()
    }
}

impl Clone for AttemptOutcome {
    fn clone(&self) -> (r: Self)
        ensures
            r@ == self@,
    {
        match self {
            AttemptOutcome::Completed(res) => AttemptOutcome::Completed(res.clone()),
            AttemptOutcome::Panicked(m) => AttemptOutcome::Panicked(m.clone()),
        }
    }
}

impl OutcomeModel {
    /// Only an expected failure of a completed attempt may be retried; an
    /// abrupt termination or a success never is.
    pub open spec fn is_retryable(self) -> bool {
        match self {
            OutcomeModel::Completed(r) => !r.is_ok(),
            OutcomeModel::Panicked(_) => false,
        }
    }

    /// The terminal event that reports this outcome to the caller.
    pub open spec fn terminal_event(self) -> EventModel {
        match self {
            OutcomeModel::Completed(ResultModel::Success(m)) => EventModel::Succeeded(m),
            OutcomeModel::Completed(ResultModel::Error(m)) => EventModel::Failed(m),
            OutcomeModel::Panicked(m) => EventModel::Panicked(m),
        }
    }
}

impl AttemptOutcome {
    /// True when this outcome may be followed by a re-attempt.
    pub fn is_retryable(&self) -> (b: bool)
        ensures
            b == self@.is_retryable(),
    {
        match self {
            AttemptOutcome::Completed(r) => r.is_err(),
            AttemptOutcome::Panicked(_) => false,
        }
    }

    /// The terminal event that reports this outcome.
    pub fn to_terminal_event(&self) -> (e: OpState)
        ensures
            e@ == self@.terminal_event(),
    {
        match self {
            AttemptOutcome::Completed(OperationResult::Success(m)) => {
                OpState::Succeeded(clone_opt_string(m))
            },
            AttemptOutcome::Completed(OperationResult::Error(m)) => {
                OpState::Failed(clone_opt_string(m))
            },
            AttemptOutcome::Panicked(m) => OpState::Panicked(m.clone()),
        }
    }
}

/// How many attempts a policy allows in all: one first attempt, plus the
/// policy's re-attempts when one is attached. An absent policy, or one with
/// zero retries, means exactly one attempt.
pub open spec fn attempt_budget(retry: Option<Retry>) -> int {
    match retry {
        Some(r) => 1 + r.retries as int,
        None => 1,
    }
}

/// How many attempts are made when the successive attempts come to
/// `outcomes`, under a budget of `budget` attempts in all: attempts stop at
/// the first outcome that is not a retryable failure, and in any case when
/// the budget is spent.
pub open spec fn attempts_used(outcomes: Seq<OutcomeModel>, budget: int) -> int
    decreases budget,
{
    if budget <= 1 || !outcomes[0].is_retryable() {
        1
    } else {
        1 + attempts_used(outcomes.drop_first(), budget - 1)
    }
}

/// The outcome of the last attempt made: the one the invocation settles on
/// and reports.
pub open spec fn settled_outcome(outcomes: Seq<OutcomeModel>, budget: int) -> OutcomeModel {
    outcomes[attempts_used(outcomes, budget) - 1]
}

/// At least one attempt is made, and never more than the budget allows.
pub proof fn lemma_attempts_used_bounds(outcomes: Seq<OutcomeModel>, budget: int)
    requires
        budget >= 1,
    ensures
        1 <= attempts_used(outcomes, budget) <= budget,
    decreases budget,
{
    if budget > 1 && outcomes[0].is_retryable() {
        lemma_attempts_used_bounds(outcomes.drop_first(), budget - 1);
    }
}

/// Every attempt before the settled one was a retryable failure, and the
/// settled outcome is retryable only when the budget is spent on it.
pub proof fn lemma_attempts_used_shape(outcomes: Seq<OutcomeModel>, budget: int)
    requires
        budget >= 1,
        outcomes.len() >= budget,
    ensures
        forall|j: int|
            0 <= j < attempts_used(outcomes, budget) - 1 ==> (#[trigger] outcomes[j]).is_retryable(),
        settled_outcome(outcomes, budget).is_retryable() ==> attempts_used(outcomes, budget) == budget,
    decreases budget,
{
    lemma_attempts_used_bounds(outcomes, budget);
    if budget > 1 && outcomes[0].is_retryable() {
        lemma_attempts_used_shape(outcomes.drop_first(), budget - 1);
        lemma_attempts_used_bounds(outcomes.drop_first(), budget - 1);
        assert forall|j: int|
            0 <= j < attempts_used(outcomes, budget) - 1 implies (#[trigger] outcomes[j]).is_retryable() by {
            if j > 0 {
                assert(outcomes.drop_first()[j - 1] == outcomes[j]);
            }
        }
        assert(settled_outcome(outcomes, budget) == settled_outcome(
            outcomes.drop_first(),
            budget - 1,
        ));
    }
}

/// Work that fails retryably on the first `n` attempts and then does not —
/// it succeeds, or terminates abruptly — settles on that `n + 1`-th outcome,
/// whatever budget remains beyond it. In particular, under a budget of
/// `n + 1`, work that fails the first `n` times and then succeeds settles on
/// that success.
pub proof fn lemma_settles_on_first_break(outcomes: Seq<OutcomeModel>, budget: int, n: int)
    requires
        0 <= n < outcomes.len(),
        n < budget,
        forall|j: int| 0 <= j < n ==> (#[trigger] outcomes[j]).is_retryable(),
        !outcomes[n].is_retryable(),
    ensures
        attempts_used(outcomes, budget) == n + 1,
        settled_outcome(outcomes, budget) == outcomes[n],
    decreases n,
{
    if n > 0 {
        assert forall|j: int| 0 <= j < n - 1 implies (#[trigger] outcomes.drop_first()[j]).is_retryable() by {
            assert(outcomes.drop_first()[j] == outcomes[j + 1]);
        }
        assert(outcomes.drop_first()[n - 1] == outcomes[n]);
        lemma_settles_on_first_break(outcomes.drop_first(), budget - 1, n - 1);
    }
}

/// Given a budget of `n + 1` attempts and work that fails retryably every
/// time, the budget is spent: exactly `n + 1` attempts are made and the
/// invocation settles on the failure of the last one.
pub proof fn lemma_retry_exhausts_budget(outcomes: Seq<OutcomeModel>, n: int)
    requires
        0 <= n < outcomes.len(),
        forall|j: int| 0 <= j <= n ==> (#[trigger] outcomes[j]).is_retryable(),
    ensures
        attempts_used(outcomes, n + 1) == n + 1,
        settled_outcome(outcomes, n + 1) == outcomes[n],
    decreases n,
{
    if n > 0 {
        assert forall|j: int| 0 <= j <= n - 1 implies (#[trigger] outcomes.drop_first()[j]).is_retryable() by {
            assert(outcomes.drop_first()[j] == outcomes[j + 1]);
        }
        lemma_retry_exhausts_budget(outcomes.drop_first(), n - 1);
        assert(outcomes.drop_first()[n - 1] == outcomes[n]);
    }
}

/// Retry with `retries = n` against work that fails retryably on the first
/// `n` attempts and succeeds on the last allowed one: every allowed attempt
/// is made — exactly `n + 1` — and the invocation settles on that success,
/// reported as `Succeeded`.
pub proof fn lemma_retry_eventual_success(outcomes: Seq<OutcomeModel>, n: int)
    requires
        0 <= n < outcomes.len(),
        forall|j: int| 0 <= j < n ==> (#[trigger] outcomes[j]).is_retryable(),
        outcomes[n] matches OutcomeModel::Completed(r) && r.is_ok(),
    ensures
        attempts_used(outcomes, n + 1) == n + 1,
        settled_outcome(outcomes, n + 1) == outcomes[n],
        settled_outcome(outcomes, n + 1).terminal_event() matches EventModel::Succeeded(_),
{
    lemma_settles_on_first_break(outcomes, n + 1, n);
}

/// Retry with `retries = n` against work that fails every attempt: the
/// budget is spent — exactly `n + 1` attempts — and the invocation settles
/// on the last failure, reported as `Failed`.
pub proof fn lemma_retry_eventual_failure(outcomes: Seq<OutcomeModel>, n: int)
    requires
        0 <= n < outcomes.len(),
        forall|j: int|
            0 <= j <= n ==> ((#[trigger] outcomes[j]) matches OutcomeModel::Completed(r)
                && !r.is_ok()),
    ensures
        attempts_used(outcomes, n + 1) == n + 1,
        settled_outcome(outcomes, n + 1) == outcomes[n],
        settled_outcome(outcomes, n + 1).terminal_event() matches EventModel::Failed(_),
{
    assert forall|j: int| 0 <= j <= n implies (#[trigger] outcomes[j]).is_retryable() by {
        assert((outcomes[j] matches OutcomeModel::Completed(r) && !r.is_ok()));
    }
    lemma_retry_exhausts_budget(outcomes, n);
}

/// An abrupt termination is never retried: the invocation settles on the
/// first attempt that terminates abruptly, whatever budget remains.
pub proof fn lemma_panic_never_retried(outcomes: Seq<OutcomeModel>, budget: int, n: int)
    requires
        0 <= n < outcomes.len(),
        n < budget,
        forall|j: int| 0 <= j < n ==> (#[trigger] outcomes[j]).is_retryable(),
        outcomes[n] matches OutcomeModel::Panicked(_),
    ensures
        attempts_used(outcomes, budget) == n + 1,
        settled_outcome(outcomes, budget) == outcomes[n],
{
    lemma_settles_on_first_break(outcomes, budget, n);
}

/// What the schedule asks the driver to do after an attempt: report the
/// outcome, or wait the policy's delay and attempt again.
#[derive(Clone, Copy, PartialEq, Eq, Structural)]
pub enum RetryStep {
    Finish,
    RetryAfterMs(u32),
}

/// Mutable schedule that applies a `Retry` policy across the attempts of one
/// invocation. The driver performs one attempt, records its outcome here,
/// and obeys the returned step.
pub struct RetrySchedule {
    pub policy: Option<Retry>,
    pub attempts_made: usize,
}

impl RetrySchedule {
    /// The attempts allowed in all by the policy this schedule was made with.
    pub open spec fn budget(self) -> int {
        attempt_budget(self.policy)
    }

    /// How many attempts have been recorded so far.
    pub open spec fn attempts_made(self) -> int {
        self.attempts_made as int
    }

    /// The policy this schedule applies.
    pub open spec fn policy(self) -> Option<Retry> {
        self.policy
    }

    /// A fresh schedule for one invocation under `policy`.
    pub fn new(policy: Option<Retry>) -> (s: Self)
        ensures
            s.policy() == policy,
            s.attempts_made() == 0,
    {
        RetrySchedule { policy, attempts_made: 0 }
    }

    /// Records the outcome of one attempt and decides what follows: another
    /// attempt after the policy's delay, only when the outcome is a retryable
    /// failure and the budget is not spent; otherwise the invocation settles.
    pub fn record(&mut self, outcome: &AttemptOutcome) -> (step: RetryStep)
        requires
            old(self).attempts_made() < old(self).budget(),
        ensures
            final(self).policy() == old(self).policy(),
            final(self).attempts_made() == old(self).attempts_made() + 1,
            step == (if outcome@.is_retryable() && old(self).attempts_made() + 1
                < old(self).budget() {
                RetryStep::RetryAfterMs(old(self).policy().unwrap().delay_ms)
            } else {
                RetryStep::Finish
            }),
    {
        self.attempts_made = self.attempts_made + 1;
        match self.policy {
            Some(p) => {
                if outcome.is_retryable() && self.attempts_made < 1 + p.retries as usize {
                    RetryStep::RetryAfterMs(p.delay_ms)
                } else {
                    RetryStep::Finish
                }
            },
            None => RetryStep::Finish,
        }
    }
}

} // verus!
