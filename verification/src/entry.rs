//! The control state of one registered operation and the lifecycle of one of
//! its invocations: rejection while locked or busy, the fault-isolation
//! boundary, retry of expected failures, and the event stream that reports it
//! all to the caller.

use vstd::prelude::*;

use crate::retry::{
    attempt_budget, attempts_used, settled_outcome, AttemptOutcome, OutcomeModel, Retry,
    RetrySchedule, RetryStep,
};
use crate::sensor::{Sensor, SensorModel};
use crate::states::{wf_stream, EventModel, OpState};

verus! {

/// Message of the rejection event for an activation of a locked operation.
pub open spec fn locked_message() -> Seq<char> {
    "operation is locked"@
}

/// Message of the rejection event for an activation of an operation whose
/// previous invocation is still in flight.
pub open spec fn busy_message() -> Seq<char> {
    "operation is already performing"@
}

/// One registered operation as the registry holds it: its identity, the
/// control flags the engine mutates, the optional bound sensor, and the
/// optional retry policy.
pub struct OperationEntry {
    pub id: String,
    pub description: String,
    pub locked: bool,
    pub in_flight: bool,
    pub sensor: Option<Sensor>,
    pub retry: Option<Retry>,
}

/// Spec model of an `OperationEntry`.
pub struct EntryModel {
    pub id: Seq<char>,
    pub description: Seq<char>,
    pub locked: bool,
    pub in_flight: bool,
    pub sensor: Option<SensorModel>,
    pub retry: Option<Retry>,
}

impl View for OperationEntry {
    type V = EntryModel;

    open spec fn view(&self) -> EntryModel {
        EntryModel {
            id: self.id@,
            description: self.description@,
            locked: self.locked,
            in_flight: self.in_flight,
            sensor: match self.sensor {
                Some(s) => Some(s@),
                None => None,
            },
            retry: self.retry,
        }
    }
}

impl DeepView for OperationEntry {
    type V = EntryModel;

    open spec fn deep_view(&self) -> EntryModel {
        self.view()
    }
}

impl EntryModel {
    /// Whether a sensor is bound and armed.
    pub open spec fn sensing(self) -> bool {
        match self.sensor {
            Some(s) => s.running,
            None => false,
        }
    }

    /// The same entry with its bound sensor, if any, disarmed.
    pub open spec fn with_sensor_stopped(self) -> EntryModel {
        EntryModel {
            sensor: match self.sensor {
                Some(s) => Some(SensorModel { running: false, ..s }),
                None => None,
            },
            ..self
        }
    }

    /// The control state after an invocation settles on `outcome`: the
    /// in-flight marker is released; an abrupt termination additionally locks
    /// the operation and disarms its sensor, in the same step.
    pub open spec fn after_outcome(self, outcome: OutcomeModel) -> EntryModel {
        match outcome {
            OutcomeModel::Panicked(_) => EntryModel {
                locked: true,
                in_flight: false,
                ..self.with_sensor_stopped()
            },
            OutcomeModel::Completed(_) => EntryModel { in_flight: false, ..self },
        }
    }

    /// The first event an activation attempt reports: a rejection while the
    /// operation is locked or busy, `Started` otherwise.
    pub open spec fn begin_event(self) -> EventModel {
        if self.locked {
            EventModel::Locked(Some(locked_message()))
        } else if self.in_flight {
            EventModel::Locked(Some(busy_message()))
        } else {
            EventModel::Started
        }
    }

    /// Whether an activation attempt is admitted to execution.
    pub open spec fn admits_activation(self) -> bool {
        !self.locked && !self.in_flight
    }
}

/// The full event stream one activation attempt yields, when the successive
/// attempts of the work would come to `outcomes`: a single rejection event
/// while the entry is locked or busy; otherwise `Started` followed by the
/// terminal event of the outcome the retry policy settles on. Re-attempts are
/// silent: only the settled outcome is reported.
pub open spec fn activation_events(e: EntryModel, outcomes: Seq<OutcomeModel>) -> Seq<EventModel> {
    if !e.admits_activation() {
        seq![e.begin_event()]
    } else {
        seq![
            EventModel::Started,
            settled_outcome(outcomes, attempt_budget(e.retry)).terminal_event(),
        ]
    }
}

/// The control state after one activation attempt: unchanged by a rejection,
/// and otherwise as `after_outcome` has it for the settled outcome.
pub open spec fn entry_after_activation(e: EntryModel, outcomes: Seq<OutcomeModel>) -> EntryModel {
    if !e.admits_activation() {
        e
    } else {
        e.after_outcome(settled_outcome(outcomes, attempt_budget(e.retry)))
    }
}

/// How many attempts of the work one activation attempt makes: none when
/// rejected, and otherwise as many as the retry policy spends on `outcomes`.
pub open spec fn activation_attempts(e: EntryModel, outcomes: Seq<OutcomeModel>) -> int {
    if !e.admits_activation() {
        0
    } else {
        attempts_used(outcomes, attempt_budget(e.retry))
    }
}

impl OperationEntry {
    /// A fresh entry: unlocked, idle, with its optional sensor and policy.
    pub fn new(
        id: String,
        description: String,
        sensor: Option<Sensor>,
        retry: Option<Retry>,
    ) -> (r: Self)
        ensures
            r@ == (EntryModel {
                id: id@,
                description: description@,
                locked: false,
                in_flight: false,
                sensor: match sensor {
                    Some(s) => Some(s@),
                    None => None,
                },
                retry,
            }),
    {
        OperationEntry { id, description, locked: false, in_flight: false, sensor, retry }
    }

    /// Admission check of one activation attempt, and the first event it
    /// reports. Only when the entry is neither locked nor busy is the
    /// in-flight marker taken and `Started` reported; a rejected attempt
    /// leaves the entry untouched.
    pub fn try_begin(&mut self) -> (r: (bool, OpState))
        ensures
            r.0 == old(self)@.admits_activation(),
            r.1@ == old(self)@.begin_event(),
            final(self)@ == if old(self)@.admits_activation() {
                EntryModel { in_flight: true, ..old(self)@ }
            } else {
                old(self)@
            },
    {
        if self.locked {
            (false, OpState::Locked(Some("operation is locked".to_owned())))
        } else if self.in_flight {
            (false, OpState::Locked(Some("operation is already performing".to_owned())))
        } else {
            self.in_flight = true;
            (true, OpState::Started)
        }
    }

    /// Settles an in-flight invocation on `outcome` and reports its terminal
    /// event. The in-flight marker is released; an abrupt termination locks
    /// the operation and disarms its bound sensor within this one call, so no
    /// caller observes the lock without the sensor already stopped.
    pub fn finish(&mut self, outcome: &AttemptOutcome) -> (e: OpState)
        requires
            old(self)@.in_flight,
        ensures
            e@ == outcome@.terminal_event(),
            final(self)@ == old(self)@.after_outcome(outcome@),
    {
        match outcome {
            AttemptOutcome::Panicked(_) => {
                self.locked = true;
                match &mut self.sensor {
                    Some(s) => s.stop(),
                    None => {},
                }
            },
            AttemptOutcome::Completed(_) => {},
        }
        self.in_flight = false;
        outcome.to_terminal_event()
    }

    /// Ends an invocation on an external abort: the in-flight marker is
    /// released so a later activation can proceed, the lock state is not
    /// touched, and the stream ends with `Aborted`.
    pub fn abort(&mut self) -> (e: OpState)
        ensures
            e@ == EventModel::Aborted,
            final(self)@ == (EntryModel { in_flight: false, ..old(self)@ }),
    {
        self.in_flight = false;
        OpState::Aborted
    }

    /// Locks the operation: every later activation is rejected until an
    /// explicit unlock. Idempotent; an invocation already in flight is not
    /// cancelled.
    pub fn lock(&mut self)
        ensures
            final(self)@ == (EntryModel { locked: true, ..old(self)@ }),
    {
        self.locked = true;
    }

    /// Unlocks the operation, so a later activation is admitted again.
    /// Idempotent.
    pub fn unlock(&mut self)
        ensures
            final(self)@ == (EntryModel { locked: false, ..old(self)@ }),
    {
        self.locked = false;
    }

    /// Whether a sensor firing may submit an invocation now: a locked
    /// operation makes the sensor loop skip the firing.
    pub fn sensor_fire_allowed(&self) -> (b: bool)
        ensures
            b == !self@.locked,
    {
        !self.locked
    }

    /// Arms the bound sensor. Reports whether one is bound.
    pub fn start_sensor(&mut self) -> (ok: bool)
        ensures
            ok == (old(self)@.sensor matches Some(_)),
            final(self)@ == (match old(self)@.sensor {
                Some(s) => EntryModel {
                    sensor: Some(SensorModel { running: true, ..s }),
                    ..old(self)@
                },
                None => old(self)@,
            }),
    {
        match &mut self.sensor {
            Some(s) => {
                s.start();
                true
            },
            None => false,
        }
    }

    /// Disarms the bound sensor. Reports whether one is bound.
    pub fn stop_sensor(&mut self) -> (ok: bool)
        ensures
            ok == (old(self)@.sensor matches Some(_)),
            final(self)@ == (match old(self)@.sensor {
                Some(s) => EntryModel {
                    sensor: Some(SensorModel { running: false, ..s }),
                    ..old(self)@
                },
                None => old(self)@,
            }),
    {
        match &mut self.sensor {
            Some(s) => {
                s.stop();
                true
            },
            None => false,
        }
    }

    /// One whole activation attempt, when the successive attempts of the work
    /// would come to `outcomes`: admission, the retry loop over the attempts,
    /// and the settlement, reported as the complete event stream plus how
    /// many attempts were made. Between re-attempts a driving task waits the
    /// policy's delay; the wait does not change the entry's state.
    pub fn run_invocation(&mut self, outcomes: &Vec<AttemptOutcome>) -> (r: (Vec<OpState>, usize))
        requires
            old(self)@.admits_activation() ==> outcomes.deep_view().len() >= attempt_budget(
                old(self)@.retry,
            ),
        ensures
            r.0.deep_view() == activation_events(old(self)@, outcomes.deep_view()),
            final(self)@ == entry_after_activation(old(self)@, outcomes.deep_view()),
            r.1 == activation_attempts(old(self)@, outcomes.deep_view()),
    {
        let ghost e0 = self@;
        let ghost outs = outcomes.deep_view();
        let ghost budget = attempt_budget(e0.retry);
        let mut events: Vec<OpState> = Vec::new();
        let (started, first) = self.try_begin();
        events.push(first);
        if !started {
            assert(events.deep_view() =~= activation_events(e0, outs));
            return (events, 0);
        }
        let ghost e1 = self@;
        let mut sched = RetrySchedule::new(self.retry);
        let mut idx: usize = 0;
        loop
            invariant
                e0 == old(self)@,
                self@ == e1,
                e1 == (EntryModel { in_flight: true, ..e0 }),
                e0.admits_activation(),
                sched.policy() == e0.retry,
                budget == attempt_budget(e0.retry),
                sched.attempts_made() == idx,
                0 <= idx < budget,
                outs == outcomes.deep_view(),
                outs.len() >= budget,
                forall|j: int| 0 <= j < idx ==> (#[trigger] outs[j]).is_retryable(),
                events@.len() == 1,
                events@[0]@ == EventModel::Started,
            decreases budget - idx,
        {
            let outcome = &outcomes[idx];
            let step = sched.record(outcome);
            idx = idx + 1;
            match step {
                RetryStep::Finish => {
                    let terminal = self.finish(outcome);
                    events.push(terminal);
                    proof {
                        if !outs[idx - 1].is_retryable() {
                            crate::retry::lemma_settles_on_first_break(outs, budget, idx - 1);
                        } else {
                            crate::retry::lemma_retry_exhausts_budget(outs, idx - 1);
                        }
                        assert(events.deep_view() =~= activation_events(e0, outs));
                    }
                    return (events, idx);
                },
                RetryStep::RetryAfterMs(_) => {},
            }
        }
    }
}

/// Activation of a locked operation yields exactly one event, the `Locked`
/// rejection — no `Started` — and changes nothing.
pub proof fn lemma_locked_activation_rejected(e: EntryModel, outcomes: Seq<OutcomeModel>)
    requires
        e.locked,
    ensures
        activation_events(e, outcomes).len() == 1,
        activation_events(e, outcomes)[0] == EventModel::Locked(Some(locked_message())),
        forall|i: int|
            0 <= i < activation_events(e, outcomes).len() ==> #[trigger] activation_events(
                e,
                outcomes,
            )[i] != EventModel::Started,
        entry_after_activation(e, outcomes) == e,
        activation_attempts(e, outcomes) == 0,
{
}

/// Activation of an operation whose invocation is still in flight is rejected
/// at once: one rejection event, no `Started`, no second execution — the
/// entry is unchanged and no attempt of the work is made.
pub proof fn lemma_busy_activation_rejected(e: EntryModel, outcomes: Seq<OutcomeModel>)
    requires
        !e.locked,
        e.in_flight,
    ensures
        activation_events(e, outcomes).len() == 1,
        activation_events(e, outcomes)[0] == EventModel::Locked(Some(busy_message())),
        forall|i: int|
            0 <= i < activation_events(e, outcomes).len() ==> #[trigger] activation_events(
                e,
                outcomes,
            )[i] != EventModel::Started,
        entry_after_activation(e, outcomes) == e,
        activation_attempts(e, outcomes) == 0,
{
}

/// An invocation that settles on an abrupt termination leaves the operation
/// locked with its sensor disarmed. Both flips happen in the one state
/// transition of the settlement, so no observer sees the lock without the
/// sensor already stopped.
pub proof fn lemma_panic_locks_and_disarms(e: EntryModel, outcomes: Seq<OutcomeModel>)
    requires
        e.admits_activation(),
        settled_outcome(outcomes, attempt_budget(e.retry)) matches OutcomeModel::Panicked(_),
    ensures
        entry_after_activation(e, outcomes).locked,
        !entry_after_activation(e, outcomes).sensing(),
        !entry_after_activation(e, outcomes).in_flight,
{
}

/// Unlocking a locked operation admits a subsequent activation: when no
/// invocation is in flight, the next activation attempt reports `Started`
/// first.
pub proof fn lemma_unlock_enables_started(e: EntryModel, outcomes: Seq<OutcomeModel>)
    requires
        !e.in_flight,
    ensures
        (EntryModel { locked: false, ..e }).admits_activation(),
        activation_events(EntryModel { locked: false, ..e }, outcomes)[0] == EventModel::Started,
{
}

/// Every activation attempt yields a well-formed stream: at least one event,
/// exactly one terminal event standing last, and `Started` nowhere but first.
pub proof fn lemma_activation_stream_wf(e: EntryModel, outcomes: Seq<OutcomeModel>)
    ensures
        wf_stream(activation_events(e, outcomes)),
{
    let s = activation_events(e, outcomes);
    if e.admits_activation() {
        assert(s.len() == 2);
        assert(s.last() == settled_outcome(outcomes, attempt_budget(e.retry)).terminal_event());
        assert(s.last().is_terminal());
    } else {
        assert(s.len() == 1);
    }
}

} // verus!
