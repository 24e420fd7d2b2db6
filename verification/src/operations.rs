//! The playground operation: a named unit of work that performs exactly as
//! its parameters say, used to exercise every path of the engine — success,
//! expected failure, retry, and abrupt termination.

use vstd::prelude::*;

use crate::retry::{attempt_budget, AttemptOutcome, OutcomeModel, Retry};
use crate::states::{OperationResult, ResultModel};

verus! {

/// What a playground invocation is asked to come to: a normal result, or an
/// abrupt termination at the isolation boundary.
pub enum Play {
    NormalResult(OperationResult),
    Panic,
}

/// Spec model of a `Play`.
pub enum PlayModel {
    NormalResult(ResultModel),
    Panic,
}

impl View for Play {
    type V = PlayModel;

    open spec fn view(&self) -> PlayModel {
        match self {
            Play::NormalResult(r) => PlayModel::NormalResult(r@),
            Play::Panic => PlayModel::Panic,
        }
    }
}

impl DeepView for Play {
    type V = PlayModel;

    open spec fn deep_view(&self) -> PlayModel {
        self.view()
    }
}

impl Clone for Play {
    fn clone(&self) -> (r: Self)
        ensures
            r@ == self@,
    {
        match self {
            Play::NormalResult(res) => Play::NormalResult(res.clone()),
            Play::Panic => Play::Panic,
        }
    }
}

/// Parameters of one playground invocation: the play to act out, the seconds
/// the work pretends to take, and an optional retry policy applied to
/// expected failures only.
pub struct PlayParameters {
    result: Play,
    sleep_sec: u8,
    retry: Option<Retry>,
}

/// Spec model of `PlayParameters`.
pub struct PlayParametersModel {
    pub result: PlayModel,
    pub sleep_sec: u8,
    pub retry: Option<Retry>,
}

impl View for PlayParameters {
    type V = PlayParametersModel;

    closed spec fn view(&self) -> PlayParametersModel {
        PlayParametersModel { result: self.result@, sleep_sec: self.sleep_sec, retry: self.retry }
    }
}

impl DeepView for PlayParameters {
    type V = PlayParametersModel;

    open spec fn deep_view(&self) -> PlayParametersModel {
        self.view()
    }
}

impl Clone for PlayParameters {
    fn clone(&self) -> (r: Self)
        ensures
            r@ == self@,
    {
        PlayParameters {
            result: self.result.clone(),
            sleep_sec: self.sleep_sec,
            retry: self.retry,
        }
    }
}

impl PlayParameters {
    pub fn new(result: Play, retry: Option<Retry>, sleep_sec: u8) -> (r: Self)
        ensures
            r@ == (PlayParametersModel { result: result@, sleep_sec, retry }),
    {
        PlayParameters { result, sleep_sec, retry }
    }

    /// The seconds the work pretends to take before coming to its outcome.
    pub fn sleep_sec(&self) -> (s: u8)
        ensures
            s == self@.sleep_sec,
    {
        self.sleep_sec
    }

    /// The retry policy attached to these parameters, if any.
    pub fn retry(&self) -> (r: Option<Retry>)
        ensures
            r == self@.retry,
    {
        self.retry
    }
}

/// The payloads an operation of this crate can be handed: a tagged union in
/// place of a downcast, so that an operation can test for the concrete type
/// it expects and fail with a typed error otherwise.
pub enum OperationParameters {
    Play(PlayParameters),
    RetrySettings(Retry),
}

/// Spec model of `OperationParameters`.
pub enum ParametersModel {
    Play(PlayParametersModel),
    RetrySettings(Retry),
}

impl View for OperationParameters {
    type V = ParametersModel;

    open spec fn view(&self) -> ParametersModel {
        match self {
            OperationParameters::Play(p) => ParametersModel::Play(p@),
            OperationParameters::RetrySettings(r) => ParametersModel::RetrySettings(*r),
        }
    }
}

impl DeepView for OperationParameters {
    type V = ParametersModel;

    open spec fn deep_view(&self) -> ParametersModel {
        self.view()
    }
}

impl Clone for OperationParameters {
    fn clone(&self) -> (r: Self)
        ensures
            r@ == self@,
    {
        match self {
            OperationParameters::Play(p) => OperationParameters::Play(p.clone()),
            OperationParameters::RetrySettings(r) => OperationParameters::RetrySettings(*r),
        }
    }
}

/// The outcome one attempt of the playground work comes to: the play's normal
/// result, or an abrupt termination with this fixed message.
pub open spec fn play_outcome_model(p: PlayModel) -> OutcomeModel {
    match p {
        PlayModel::NormalResult(r) => OutcomeModel::Completed(r),
        PlayModel::Panic => OutcomeModel::Panicked("Unexpected Error in Playground Operation"@),
    }
}

/// How many attempts a playground invocation makes: the full budget when the
/// play is a retryable failure, one otherwise.
pub open spec fn play_attempts(p: PlayParametersModel) -> int {
    if play_outcome_model(p.result).is_retryable() {
        attempt_budget(p.retry)
    } else {
        1
    }
}

/// The outcome the operation's entry point settles on for a payload: absent
/// or unexpected parameters are an expected failure, playground parameters
/// act out their play.
pub open spec fn perform_outcome(p: Option<ParametersModel>) -> OutcomeModel {
    match p {
        Some(ParametersModel::Play(pp)) => play_outcome_model(pp.result),
        Some(ParametersModel::RetrySettings(_)) => OutcomeModel::Completed(
            ResultModel::Error(Some("Unexpected parameters"@)),
        ),
        None => OutcomeModel::Completed(ResultModel::Error(Some("Parameters required"@))),
    }
}

/// How many attempts the entry point makes for a payload.
pub open spec fn perform_attempts(p: Option<ParametersModel>) -> int {
    match p {
        Some(ParametersModel::Play(pp)) => play_attempts(pp),
        Some(ParametersModel::RetrySettings(_)) => 1,
        None => 1,
    }
}

/// Named, invokable unit of playground work.
pub struct PlaygroundOperation {
    id: &'static str,
    description: &'static str,
}

/// Spec model of a `PlaygroundOperation`.
pub struct PlaygroundOperationModel {
    pub id: Seq<char>,
    pub description: Seq<char>,
}

impl View for PlaygroundOperation {
    type V = PlaygroundOperationModel;

    closed spec fn view(&self) -> PlaygroundOperationModel {
        PlaygroundOperationModel { id: self.id@, description: self.description@ }
    }
}

impl PlaygroundOperation {
    pub fn new(id: &'static str, description: &'static str) -> (r: Self)
        ensures
            r@ == (PlaygroundOperationModel { id: id@, description: description@ }),
    {
        PlaygroundOperation { id, description }
    }

    pub fn id(&self) -> (r: &'static str)
        ensures
            r@ == self@.id,
    {
        self.id
    }

    pub fn describe(&self) -> (r: &'static str)
        ensures
            r@ == self@.description,
    {
        self.description
    }

    /// One attempt of the work: acts out the play and reports its outcome.
    /// An abrupt termination is reported as an outcome, never thrown — the
    /// isolation boundary of the engine is explicit here.
    pub fn run(play: &Play) -> (o: AttemptOutcome)
        ensures
            o@ == play_outcome_model(play@),
    {
        match play {
            Play::NormalResult(r) => AttemptOutcome::Completed(r.clone()),
            Play::Panic => {
                AttemptOutcome::Panicked("Unexpected Error in Playground Operation".to_owned())
            },
        }
    }

    /// The work with its retry policy applied: re-attempts an expected
    /// failure up to the policy's budget, stopping early on the first
    /// success, and reports the settled outcome and the attempts made. The
    /// play is fixed, so a failing play fails every attempt.
    pub fn retry_run(&self, play: &PlayParameters) -> (r: (AttemptOutcome, usize))
        ensures
            r.0@ == play_outcome_model(play@.result),
            r.1 == play_attempts(play@),
    {
        let mut outcome = Self::run(&play.result);
        if outcome.is_retryable() {
            match play.retry {
                Some(policy) => {
                    let mut attempt: usize = 1;
                    while attempt < 1 + policy.retries as usize
                        invariant
                            1 <= attempt <= 1 + policy.retries as usize,
                            outcome@ == play_outcome_model(play@.result),
                            outcome@.is_retryable(),
                        decreases 1 + policy.retries as usize - attempt,
                    {
                        outcome = Self::run(&play.result);
                        attempt = attempt + 1;
                    }
                    (outcome, attempt)
                },
                None => (outcome, 1),
            }
        } else {
            (outcome, 1)
        }
    }

    /// The operation's single entry point: dispatches on the payload as the
    /// engine hands it over. Absent or unexpected parameters are rejected
    /// with an expected failure; playground parameters are acted out under
    /// their retry policy.
    pub fn perform(&self, parameters: Option<&OperationParameters>) -> (r: (
        AttemptOutcome,
        usize,
    ))
        ensures
            r.0@ == perform_outcome(parameters.deep_view()),
            r.1 == perform_attempts(parameters.deep_view()),
    {
        match parameters {
            Some(OperationParameters::Play(play)) => self.retry_run(play),
            Some(OperationParameters::RetrySettings(_)) => {
                (
                    AttemptOutcome::Completed(OperationResult::err_str("Unexpected parameters")),
                    1,
                )
            },
            None => {
                (AttemptOutcome::Completed(OperationResult::err_str("Parameters required")), 1)
            },
        }
    }

    /// One whole activation of this operation against its registry entry, as
    /// a trigger reaching the engine would run it: admission, the work with
    /// its internal retries — silent on the stream — and the settlement. The
    /// complete event stream and the attempts made.
    pub fn activate(
        &self,
        entry: &mut crate::entry::OperationEntry,
        parameters: Option<&OperationParameters>,
    ) -> (r: (Vec<crate::states::OpState>, usize))
        ensures
            old(entry)@.admits_activation() ==> r.0.deep_view() == seq![
                crate::states::EventModel::Started,
                perform_outcome(parameters.deep_view()).terminal_event(),
            ] && final(entry)@ == old(entry)@.after_outcome(
                perform_outcome(parameters.deep_view()),
            ) && r.1 == perform_attempts(parameters.deep_view()),
            !old(entry)@.admits_activation() ==> r.0.deep_view() == seq![
                old(entry)@.begin_event(),
            ] && final(entry)@ == old(entry)@ && r.1 == 0,
    {
        let mut events: Vec<crate::states::OpState> = Vec::new();
        let (started, first) = entry.try_begin();
        events.push(first);
        if !started {
            proof {
                assert(events.deep_view() =~= seq![old(entry)@.begin_event()]);
            }
            return (events, 0);
        }
        let (outcome, attempts) = self.perform(parameters);
        let terminal = entry.finish(&outcome);
        events.push(terminal);
        proof {
            assert(events.deep_view() =~= seq![
                crate::states::EventModel::Started,
                perform_outcome(parameters.deep_view()).terminal_event(),
            ]);
        }
        (events, attempts)
    }
}

} // verus!
