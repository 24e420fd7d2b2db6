//! Drift-watching controller: monitors an external store for divergence from
//! a desired state and corrects it by re-applying that state. The reads and
//! writes of the store are performed by the surrounding task; the decisions —
//! what counts as drift, what to write back, what to report — are here.

use vstd::prelude::*;

verus! {

/// What one correction step reports: success, or the message of a write or
/// access fault. A fault is returned, never thrown.
pub enum ControllerResult {
    Success,
    ErrMsg(String),
}

/// Spec model of a `ControllerResult`.
pub enum ControllerResultModel {
    Success,
    ErrMsg(Seq<char>),
}

impl View for ControllerResult {
    type V = ControllerResultModel;

    open spec fn view(&self) -> ControllerResultModel {
        match self {
            ControllerResult::Success => ControllerResultModel::Success,
            ControllerResult::ErrMsg(m) => ControllerResultModel::ErrMsg(m@),
        }
    }
}

/// A controller bound to one external store: its identity, the store's name,
/// the desired state it keeps the store at, and how often its monitor phase
/// polls. All fields are fixed at registration.
pub struct PGController {
    id: &'static str,
    description: &'static str,
    store: &'static str,
    default: String,
    poll_ms: u64,
}

/// Spec model of a `PGController`.
pub struct PGControllerModel {
    pub id: Seq<char>,
    pub description: Seq<char>,
    pub store: Seq<char>,
    pub default: Seq<char>,
    pub poll_ms: u64,
}

impl View for PGController {
    type V = PGControllerModel;

    closed spec fn view(&self) -> PGControllerModel {
        PGControllerModel {
            id: self.id@,
            description: self.description@,
            store: self.store@,
            default: self.default@,
            poll_ms: self.poll_ms,
        }
    }
}

impl PGController {
    pub fn new(
        id: &'static str,
        description: &'static str,
        store: &'static str,
        default_state: &str,
        poll_ms: u64,
    ) -> (r: Self)
        ensures
            r@ == (PGControllerModel {
                id: id@,
                description: description@,
                store: store@,
                default: default_state@,
                poll_ms,
            }),
    {
        PGController {
            id,
            description,
            store,
            default: default_state.to_owned(),
            poll_ms,
        }
    }

    pub fn id(&self) -> (r: &'static str)
        ensures
            r@ == self@.id,
    {
        self.id
    }

    pub fn description(&self) -> (r: &'static str)
        ensures
            r@ == self@.description,
    {
        self.description
    }

    /// The name of the store this controller watches.
    pub fn store(&self) -> (r: &'static str)
        ensures
            r@ == self@.store,
    {
        self.store
    }

    /// How long the monitor phase waits between polls, in milliseconds.
    pub fn poll_ms(&self) -> (r: u64)
        ensures
            r == self@.poll_ms,
    {
        self.poll_ms
    }

    /// The state the controller keeps the store at, and what a correction
    /// step writes back.
    pub fn desired_state(&self) -> (r: &String)
        ensures
            r@ == self@.default,
    {
        &self.default
    }

    /// What the store holds after registration: an existing content is kept,
    /// a missing store is filled with the desired state.
    pub fn store_init_value(&self, existing: Option<String>) -> (r: String)
        ensures
            r@ == (match existing {
                Some(c) => c@,
                None => self@.default,
            }),
    {
        match existing {
            Some(c) => c,
            None => self.default.clone(),
        }
    }

    /// One monitor poll: drift is observed exactly when the store was read
    /// and its content differs from the desired state. A failed read is no
    /// drift — the monitor phase retries itself on the next poll.
    pub fn drift_detected(&self, observed: Option<&String>) -> (b: bool)
        ensures
            b == (match observed {
                Some(c) => c@ != self@.default,
                None => false,
            }),
    {
        match observed {
            Some(c) => !(*c == self.default),
            None => false,
        }
    }

    /// What one correction step reports, given the fault message of the write
    /// that re-applied the desired state, if it faulted: success exactly when
    /// the write went through.
    pub fn correction_report(write_error: Option<String>) -> (r: ControllerResult)
        ensures
            r@ == (match write_error {
                Some(m) => ControllerResultModel::ErrMsg(m@),
                None => ControllerResultModel::Success,
            }),
    {
        match write_error {
            Some(m) => ControllerResult::ErrMsg(m),
            None => ControllerResult::Success,
        }
    }
}

} // verus!
