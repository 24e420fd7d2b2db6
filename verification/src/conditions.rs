//! Activation conditions: how a sensor decides when to fire its operation.
//! The wait itself is a suspension the surrounding task performs; the
//! condition holds the schedule and the parameters it yields when met.

use vstd::prelude::*;

use crate::operations::{OperationParameters, ParametersModel};

verus! {

/// Fixed-interval condition: met every `interval` seconds, yielding the same
/// optional parameters each time. A zero interval is coerced to one second,
/// so the wait is never a busy loop.
pub struct Interval {
    interval: u32,
    parameters: Option<OperationParameters>,
}

/// Spec model of an `Interval`.
pub struct IntervalModel {
    pub interval: u32,
    pub parameters: Option<ParametersModel>,
}

impl IntervalModel {
    /// The coercion in `Interval::new` keeps the interval positive.
    pub open spec fn wf(self) -> bool {
        self.interval >= 1
    }
}

impl View for Interval {
    type V = IntervalModel;

    closed spec fn view(&self) -> IntervalModel {
        IntervalModel { interval: self.interval, parameters: self.parameters.deep_view() }
    }
}

impl Interval {
    /// A condition met every `interval` seconds. A zero `interval` is set to
    /// one second.
    pub fn new(interval: u32, parameters: Option<OperationParameters>) -> (r: Self)
        ensures
            r@ == (IntervalModel {
                interval: if interval == 0 { 1u32 } else { interval },
                parameters: parameters.deep_view(),
            }),
            r@.wf(),
    {
        Interval { interval: if interval == 0 { 1 } else { interval }, parameters }
    }

    /// The seconds the surrounding task waits before the condition is met.
    pub fn wait_secs(&self) -> (s: u32)
        ensures
            s == self@.interval,
    {
        self.interval
    }

    /// How often the condition is met within `horizon_secs` seconds of sensor
    /// activity: once at the end of each full wait, so a 2-second interval
    /// fires twice within 5 seconds.
    pub fn firings_within(&self, horizon_secs: u64) -> (n: u64)
        requires
            self@.wf(),
        ensures
            n == horizon_secs / (self@.interval as u64),
    {
        horizon_secs / (self.interval as u64)
    }

    /// The parameters the condition yields when it is met: the same payload
    /// every firing.
    pub fn yielded_parameters(&self) -> (p: Option<OperationParameters>)
        ensures
            p.deep_view() == self@.parameters,
    {
        match &self.parameters {
            Some(params) => Some(params.clone()),
            None => None,
        }
    }
}

} // verus!
