//! Sensor: binds an activation condition to the operation it triggers and
//! carries the running flag its background loop obeys. The loop itself is a
//! task of the surrounding process; between firings it consults this state.

use vstd::prelude::*;

use crate::conditions::{Interval, IntervalModel};

verus! {

/// A sensor wired to one operation: an activation condition and whether the
/// sensor's loop is armed. Starting and stopping are idempotent; the loop
/// observes a stop at its next iteration at the latest, by testing
/// `is_running` before each firing.
pub struct Sensor {
    condition: Interval,
    running: bool,
}

/// Spec model of a `Sensor`.
pub struct SensorModel {
    pub condition: IntervalModel,
    pub running: bool,
}

impl View for Sensor {
    type V = SensorModel;

    closed spec fn view(&self) -> SensorModel {
        SensorModel { condition: self.condition@, running: self.running }
    }
}

impl Sensor {
    /// A sensor on `condition`, not yet armed.
    pub fn new(condition: Interval) -> (s: Self)
        ensures
            s@ == (SensorModel { condition: condition@, running: false }),
    {
        Sensor { condition, running: false }
    }

    /// Arms the sensor. Starting an already-running sensor is a no-op.
    pub fn start(&mut self)
        ensures
            final(self)@ == (SensorModel { running: true, ..old(self)@ }),
    {
        self.running = true;
    }

    /// Disarms the sensor. Stopping an already-stopped sensor is a no-op; an
    /// invocation the sensor has already submitted is not affected.
    pub fn stop(&mut self)
        ensures
            final(self)@ == (SensorModel { running: false, ..old(self)@ }),
    {
        self.running = false;
    }

    /// Whether the sensor's loop is armed to fire.
    pub fn is_running(&self) -> (b: bool)
        ensures
            b == self@.running,
    {
        self.running
    }

    /// The condition the sensor waits on.
    pub fn condition(&self) -> (c: &Interval)
        ensures
            c@ == self@.condition,
    {
        &self.condition
    }
}

} // verus!
