//! The guard in front of the hardware: it turns a snapshot into duty cycles
//! within the timer's range, and lets no snapshot through that is older
//! than one already applied.

use crate::actuator::{ActuatorState, Field};
use vstd::prelude::*;

verus! {

/// What the peripherals are set to: two duty cycles, in timer counts, and
/// one digital output.
#[derive(Clone, Copy, Debug, PartialEq, Eq, Structural)]
pub struct Outputs {
    pub speed_duty: u16,
    pub steering_duty: u16,
    pub headlight: bool,
}

/// The duty cycle for `value` of `field`: the field's range, from its lowest
/// value to its highest, is laid over `0..=max_duty`, rounded down.
pub open spec fn duty_of(max_duty: u16, field: Field, value: int) -> int {
    max_duty * (value - field.lower()) / (field.upper() - field.lower())
}

/// The outputs that a state within bounds asks for.
pub open spec fn outputs_of(state: ActuatorState, max_duty: u16) -> Outputs {
    Outputs {
        speed_duty: duty_of(max_duty, Field::Speed, state.speed as int) as u16,
        steering_duty: duty_of(max_duty, Field::Steering, state.steering as int) as u16,
        headlight: state.headlight,
    }
}

/// A share of a duty cycle never exceeds the whole.
pub proof fn lemma_share_bounded(max_duty: int, part: int, whole: int)
    requires
        0 <= max_duty,
        0 <= part <= whole,
        0 < whole,
    ensures
        0 <= max_duty * part <= max_duty * whole,
        0 <= max_duty * part / whole <= max_duty,
{
    assert(0 <= max_duty * part <= max_duty * whole) by (nonlinear_arith)
        requires
            0 <= max_duty,
            0 <= part <= whole,
    ;
    assert(0 <= max_duty * part / whole <= max_duty) by (nonlinear_arith)
        requires
            0 <= max_duty * part <= max_duty * whole,
            0 < whole,
    ;
}

/// Computes the duty cycle for `value` of `field`.
fn duty(max_duty: u16, field: Field, value: i32) -> (r: u16)
    requires
        field.admits(value as int),
    ensures
        r == duty_of(max_duty, field, value as int),
        r <= max_duty,
{
    let part: u32 = (value - field.min()) as u32;
    let whole: u32 = (field.max() - field.min()) as u32;
    proof {
        lemma_share_bounded(max_duty as int, part as int, whole as int);
    }
    let share: u32 = (max_duty as u32) * part / whole;
    share as u16
}

/// Computes the outputs for `state`, or nothing where a field of `state`
/// is out of bounds. No duty cycle exceeds `max_duty`.
pub fn outputs_for(state: &ActuatorState, max_duty: u16) -> (r: Option<Outputs>)
    ensures
        r is Some == state.in_bounds(),
        r matches Some(o) ==> o == outputs_of(*state, max_duty) && o.speed_duty <= max_duty
            && o.steering_duty <= max_duty,
{
    if Field::Speed.contains(state.speed) && Field::Steering.contains(state.steering) {
        Some(
            Outputs {
                speed_duty: duty(max_duty, Field::Speed, state.speed),
                steering_duty: duty(max_duty, Field::Steering, state.steering),
                headlight: state.headlight,
            },
        )
    } else {
        None
    }
}

/// The guard of the hardware sink. It remembers the sequence number of the
/// snapshot that was applied last.
pub struct SinkGuard {
    max_duty: u16,
    last_applied: u64,
}

/// The guard as contracts see it.
pub struct GuardView {
    pub max_duty: u16,
    pub last_applied: u64,
}

impl View for SinkGuard {
    type V = GuardView;

    closed spec fn view(&self) -> GuardView {
        GuardView { max_duty: self.max_duty, last_applied: self.last_applied }
    }
}

/// Whether a guard that last applied `last_applied` lets `snapshot`
/// through: it is within bounds and newer than all that was applied.
pub open spec fn admitted(last_applied: u64, snapshot: ActuatorState) -> bool {
    snapshot.in_bounds() && snapshot.sequence > last_applied
}

impl SinkGuard {
    /// A guard for hardware in its boot state, whose timers count up to
    /// `max_duty`.
    pub fn new(max_duty: u16) -> (g: SinkGuard)
        ensures
            g@ == (GuardView { max_duty, last_applied: 0 }),
    {
        SinkGuard { max_duty, last_applied: 0 }
    }

    /// The sequence number of the snapshot applied last; 0 at boot.
    pub fn last_applied(&self) -> (r: u64)
        ensures
            r == self@.last_applied,
    {
        self.last_applied
    }

    /// Lets `snapshot` through and returns the outputs to set, or discards
    /// it where it is stale or out of bounds. What was let through is
    /// remembered, so that sequence numbers only ever rise.
    pub fn accept(&mut self, snapshot: &ActuatorState) -> (r: Option<Outputs>)
        ensures
            r is Some == admitted(old(self)@.last_applied, *snapshot),
            r matches Some(o) ==> o == outputs_of(*snapshot, old(self)@.max_duty) && o.speed_duty
                <= old(self)@.max_duty && o.steering_duty <= old(self)@.max_duty,
            final(self)@.max_duty == old(self)@.max_duty,
            final(self)@.last_applied == if r is Some {
                snapshot.sequence
            } else {
                old(self)@.last_applied
            },
    {
        if snapshot.sequence <= self.last_applied {
            return None;
        }
        let outputs = outputs_for(snapshot, self.max_duty);
        if outputs.is_some() {
            self.last_applied = snapshot.sequence;
        }
        outputs
    }
}

} // verus!
