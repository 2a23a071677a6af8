//! The controller loop's decisions, as a verified state machine.
//!
//! Each loop iteration the surrounding process observes one event —
//! the termination flag set, a temperature reading, or a sensor
//! failure — and hands it to `Controller::step`, which updates the
//! "fan is energized" state and says what to do to the pin and whether
//! to keep running. The process performs the pin action, sleeps, and
//! loops; all hysteresis logic is decided (and proved) here.

use vstd::prelude::*;
use crate::config::Environment;

verus! {

/// What the loop observed this iteration.
#[derive(Clone, Copy, Debug, PartialEq, Eq, Structural)]
pub enum LoopEvent {
    /// The termination flag was seen set.
    Terminate,
    /// The temperature source produced a whole-degree reading.
    Reading(u32),
    /// The temperature source could not be opened, read or parsed.
    SensorFailed,
}

/// What the loop must do to the fan pin this iteration.
#[derive(Clone, Copy, Debug, PartialEq, Eq, Structural)]
pub enum PinAction {
    /// Drive the pin high: energize the fan. A state transition worth logging.
    SetHigh,
    /// Drive the pin low: de-energize the fan.
    SetLow,
    /// Write nothing; the pin already has the right level.
    Leave,
}

/// Whether the loop goes on after this iteration.
#[derive(Clone, Copy, Debug, PartialEq, Eq, Structural)]
pub enum LoopStatus {
    /// Sleep for the poll interval, then run the next iteration.
    KeepRunning,
    /// Graceful shutdown: stop with success.
    ExitOk,
    /// Fail-safe stop: surface a sensor read error.
    ExitSensorError,
}

/// The next "fan is energized" state under hysteresis: at or above the
/// on-threshold an idle fan turns on; at or below the off-threshold a
/// running fan turns off; otherwise the state is unchanged.
pub open spec fn next_fan_state(fan_on: bool, temp: u32, on_t: u32, off_t: u32) -> bool {
    if temp >= on_t && !fan_on {
        true
    } else if temp <= off_t && fan_on {
        false
    } else {
        fan_on
    }
}

/// The pin write a reading demands: exactly one write per state
/// transition, no write when the state is unchanged.
pub open spec fn pin_action_for(fan_on: bool, temp: u32, on_t: u32, off_t: u32) -> PinAction {
    if temp >= on_t && !fan_on {
        PinAction::SetHigh
    } else if temp <= off_t && fan_on {
        PinAction::SetLow
    } else {
        PinAction::Leave
    }
}

/// The controller's mutable state and the two thresholds it applies.
pub struct Controller {
    /// Whether the fan is currently energized (pin driven high).
    pub fan_on: bool,
    /// Temperature at or above which the fan turns on.
    pub fan_on_temp: u32,
    /// Temperature at or below which the fan turns off.
    pub fan_off_temp: u32,
}

impl Controller {
    /// Start from the pin's actual current level, so a restart adopts
    /// whatever physical state already exists instead of forcing one.
    pub fn init(env: &Environment, pin_is_high: bool) -> (c: Controller)
        ensures
            c.fan_on == pin_is_high,
            c.fan_on_temp == env.fan_on_temp,
            c.fan_off_temp == env.fan_off_temp,
    {
        Controller { fan_on: pin_is_high, fan_on_temp: env.fan_on_temp, fan_off_temp: env.fan_off_temp }
    }

    /// Decide one loop iteration. Termination and sensor failure both
    /// drive the pin low — graceful shutdown and fail-safe-off
    /// respectively — and stop the loop; a reading applies hysteresis
    /// and keeps the loop running.
    pub fn step(&mut self, event: LoopEvent) -> (r: (PinAction, LoopStatus))
        ensures
            final(self).fan_on_temp == old(self).fan_on_temp,
            final(self).fan_off_temp == old(self).fan_off_temp,
            event is Terminate ==> r == (PinAction::SetLow, LoopStatus::ExitOk)
                && !final(self).fan_on,
            event is SensorFailed ==> r == (PinAction::SetLow, LoopStatus::ExitSensorError)
                && !final(self).fan_on,
            event matches LoopEvent::Reading(t) ==> {
                &&& r.0 == pin_action_for(old(self).fan_on, t, old(self).fan_on_temp,
                    old(self).fan_off_temp)
                &&& r.1 == LoopStatus::KeepRunning
                &&& final(self).fan_on == next_fan_state(old(self).fan_on, t,
                    old(self).fan_on_temp, old(self).fan_off_temp)
            },
    {
        match event {
            LoopEvent::Terminate => {
                self.fan_on = false;
                (PinAction::SetLow, LoopStatus::ExitOk)
            },
            LoopEvent::SensorFailed => {
                self.fan_on = false;
                (PinAction::SetLow, LoopStatus::ExitSensorError)
            },
            LoopEvent::Reading(t) => {
                if t >= self.fan_on_temp && !self.fan_on {
                    self.fan_on = true;
                    (PinAction::SetHigh, LoopStatus::KeepRunning)
                } else if t <= self.fan_off_temp && self.fan_on {
                    self.fan_on = false;
                    (PinAction::SetLow, LoopStatus::KeepRunning)
                } else {
                    (PinAction::Leave, LoopStatus::KeepRunning)
                }
            },
        }
    }
}

/// A reading at or above the on-threshold energizes an idle fan, and
/// does so exactly once: any further reading still at or above the
/// on-threshold (and not also at or below the off-threshold) writes
/// nothing and leaves the fan on.
pub proof fn lemma_energize_exactly_once(t1: u32, t2: u32, on_t: u32, off_t: u32)
    requires
        t1 >= on_t,
        t2 >= on_t,
        t2 > off_t,
    ensures
        next_fan_state(false, t1, on_t, off_t) == true,
        pin_action_for(false, t1, on_t, off_t) == PinAction::SetHigh,
        next_fan_state(true, t2, on_t, off_t) == true,
        pin_action_for(true, t2, on_t, off_t) == PinAction::Leave,
{
}

/// A reading at or below the off-threshold de-energizes a running fan,
/// and does so exactly once: any further reading still at or below the
/// off-threshold (and not also at or above the on-threshold) writes
/// nothing and leaves the fan off.
pub proof fn lemma_deenergize_exactly_once(t1: u32, t2: u32, on_t: u32, off_t: u32)
    requires
        t1 <= off_t,
        t2 <= off_t,
        t2 < on_t,
    ensures
        next_fan_state(true, t1, on_t, off_t) == false,
        pin_action_for(true, t1, on_t, off_t) == PinAction::SetLow,
        next_fan_state(false, t2, on_t, off_t) == false,
        pin_action_for(false, t2, on_t, off_t) == PinAction::Leave,
{
}

/// Dead-band stability: a reading strictly between the two thresholds
/// changes nothing and writes nothing, whatever the fan state.
pub proof fn lemma_dead_band(fan_on: bool, t: u32, on_t: u32, off_t: u32)
    requires
        off_t < t,
        t < on_t,
    ensures
        next_fan_state(fan_on, t, on_t, off_t) == fan_on,
        pin_action_for(fan_on, t, on_t, off_t) == PinAction::Leave,
{
}

/// Hysteresis idempotence: at a constant temperature there is at most
/// one state transition — the state after one evaluation is a fixed
/// point, and every later evaluation at that temperature writes
/// nothing. (Requires the temperature not to sit in both ranges at
/// once, which only an inverted or degenerate threshold pair allows.)
pub proof fn lemma_constant_temp_stable(fan_on: bool, t: u32, on_t: u32, off_t: u32)
    requires
        !(on_t <= t && t <= off_t),
    ensures
        next_fan_state(next_fan_state(fan_on, t, on_t, off_t), t, on_t, off_t) == next_fan_state(
            fan_on,
            t,
            on_t,
            off_t,
        ),
        pin_action_for(next_fan_state(fan_on, t, on_t, off_t), t, on_t, off_t)
            == PinAction::Leave,
{
}

} // verus!
