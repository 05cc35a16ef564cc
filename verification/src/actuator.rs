//! The actuator model: the single authoritative state of the vehicle's
//! outputs, and the commands that change it.

use vstd::prelude::*;

verus! {

/// Lowest speed that the drive motor accepts, in percent.
pub const SPEED_MIN: i32 = 0;

/// Highest speed that the drive motor accepts, in percent.
pub const SPEED_MAX: i32 = 100;

/// Leftmost steering angle, in degrees.
pub const STEERING_MIN: i32 = -45;

/// Rightmost steering angle, in degrees.
pub const STEERING_MAX: i32 = 45;

/// A numeric output of the vehicle.
#[derive(Clone, Copy, Debug, PartialEq, Eq, Structural)]
pub enum Field {
    Speed,
    Steering,
}

impl Field {
    /// The lowest value that the field accepts.
    pub open spec fn lower(self) -> int {
        match self {
            Field::Speed => SPEED_MIN as int,
            Field::Steering => STEERING_MIN as int,
        }
    }

    /// The highest value that the field accepts.
    pub open spec fn upper(self) -> int {
        match self {
            Field::Speed => SPEED_MAX as int,
            Field::Steering => STEERING_MAX as int,
        }
    }

    /// Whether `value` lies within the bounds of the field.
    pub open spec fn admits(self, value: int) -> bool {
        self.lower() <= value <= self.upper()
    }

    /// Lowest accepted value.
    pub fn min(self) -> (r: i32)
        ensures
            r == self.lower(),
    {
        match self {
            Field::Speed => SPEED_MIN,
            Field::Steering => STEERING_MIN,
        }
    }

    /// Highest accepted value.
    pub fn max(self) -> (r: i32)
        ensures
            r == self.upper(),
    {
        match self {
            Field::Speed => SPEED_MAX,
            Field::Steering => STEERING_MAX,
        }
    }

    /// Tests whether `value` lies within the bounds of the field.
    pub fn contains(self, value: i32) -> (r: bool)
        ensures
            r == self.admits(value as int),
    {
        self.min() <= value && value <= self.max()
    }
}

/// A request to change one output.
#[derive(Clone, Copy, Debug, PartialEq, Eq, Structural)]
pub enum Command {
    SetSpeed(i32),
    SetSteering(i32),
    SetHeadlight(bool),
}

/// Why the model refused a command.
#[derive(Clone, Copy, Debug, PartialEq, Eq, Structural)]
pub enum ValidationError {
    /// `value` lies outside `min..=max`, the bounds of `field`.
    OutOfRange { field: Field, value: i32, min: i32, max: i32 },
}

/// A snapshot of every output, tagged with the number of accepted commands.
#[derive(Clone, Copy, Debug, PartialEq, Eq, Structural)]
pub struct ActuatorState {
    pub speed: i32,
    pub steering: i32,
    pub headlight: bool,
    pub sequence: u64,
}

impl ActuatorState {
    /// Every field lies within its bounds.
    pub open spec fn in_bounds(self) -> bool {
        &&& Field::Speed.admits(self.speed as int)
        &&& Field::Steering.admits(self.steering as int)
    }

    /// The state at boot: at rest, wheels straight, lights off.
    pub open spec fn initial() -> ActuatorState {
        ActuatorState { speed: 0, steering: 0, headlight: false, sequence: 0 }
    }

    /// Whether another command can still be counted.
    pub open spec fn has_room(self) -> bool {
        self.sequence < u64::MAX
    }
}

/// The error that `cmd` earns, if its value is out of bounds.
pub open spec fn rejection(cmd: Command) -> Option<ValidationError> {
    match cmd {
        Command::SetSpeed(v) => if Field::Speed.admits(v as int) {
            None
        } else {
            Some(
                ValidationError::OutOfRange {
                    field: Field::Speed,
                    value: v,
                    min: SPEED_MIN,
                    max: SPEED_MAX,
                },
            )
        },
        Command::SetSteering(v) => if Field::Steering.admits(v as int) {
            None
        } else {
            Some(
                ValidationError::OutOfRange {
                    field: Field::Steering,
                    value: v,
                    min: STEERING_MIN,
                    max: STEERING_MAX,
                },
            )
        },
        Command::SetHeadlight(_) => None,
    }
}

/// The state that follows `s` once `cmd` is accepted: the commanded field
/// holds the new value, the others are kept, the sequence number is one higher.
pub open spec fn updated(s: ActuatorState, cmd: Command) -> ActuatorState {
    let sequence = (s.sequence + 1) as u64;
    match cmd {
        Command::SetSpeed(v) => ActuatorState { speed: v, sequence, ..s },
        Command::SetSteering(v) => ActuatorState { steering: v, sequence, ..s },
        Command::SetHeadlight(on) => ActuatorState { headlight: on, sequence, ..s },
    }
}

/// What applying `cmd` to `s` returns.
pub open spec fn applied(s: ActuatorState, cmd: Command) -> Result<ActuatorState, ValidationError> {
    match rejection(cmd) {
        Some(e) => Err(e),
        None => Ok(updated(s, cmd)),
    }
}

/// The state that applying `cmd` to `s` leaves behind: the updated state
/// where the command is accepted, `s` itself where it is refused.
pub open spec fn state_after(s: ActuatorState, cmd: Command) -> ActuatorState {
    match rejection(cmd) {
        Some(_) => s,
        None => updated(s, cmd),
    }
}

/// Validates `cmd` without touching any state.
pub fn validate(cmd: Command) -> (r: Result<(), ValidationError>)
    ensures
        r == match rejection(cmd) {
            Some(e) => Err::<(), ValidationError>(e),
            None => Ok(()),
        },
{
    match cmd {
        Command::SetSpeed(v) => {
            if Field::Speed.contains(v) {
                Ok(())
            } else {
                Err(
                    ValidationError::OutOfRange {
                        field: Field::Speed,
                        value: v,
                        min: SPEED_MIN,
                        max: SPEED_MAX,
                    },
                )
            }
        },
        Command::SetSteering(v) => {
            if Field::Steering.contains(v) {
                Ok(())
            } else {
                Err(
                    ValidationError::OutOfRange {
                        field: Field::Steering,
                        value: v,
                        min: STEERING_MIN,
                        max: STEERING_MAX,
                    },
                )
            }
        },
        Command::SetHeadlight(_) => Ok(()),
    }
}

/// The owner of the authoritative actuator state.
pub struct ActuatorModel {
    state: ActuatorState,
}

impl View for ActuatorModel {
    type V = ActuatorState;

    closed spec fn view(&self) -> ActuatorState {
        self.state
    }
}

impl ActuatorModel {
    #[verifier::type_invariant]
    pub open spec fn fields_in_bounds(&self) -> bool {
        self@.in_bounds()
    }

    /// A model in the boot state.
    pub fn new() -> (m: ActuatorModel)
        ensures
            m@ == ActuatorState::initial(),
    {
        ActuatorModel {
            state: ActuatorState { speed: 0, steering: 0, headlight: false, sequence: 0 },
        }
    }

    /// A copy of the current state. It is always within bounds.
    pub fn snapshot(&self) -> (s: ActuatorState)
        ensures
            s == self@,
            s.in_bounds(),
    {
        proof {
            use_type_invariant(self);
        }
        self.state
    }

    /// Whether the sequence counter can still count one more command.
    pub fn has_room(&self) -> (r: bool)
        ensures
            r == self@.has_room(),
    {
        self.state.sequence < u64::MAX
    }

    /// Applies `cmd`. An accepted command changes its field, raises the
    /// sequence number by one and returns the new snapshot. A refused
    /// command leaves the state as it was.
    pub fn apply(&mut self, cmd: Command) -> (r: Result<ActuatorState, ValidationError>)
        requires
            old(self)@.has_room(),
        ensures
            r == applied(old(self)@, cmd),
            final(self)@ == state_after(old(self)@, cmd),
            final(self)@.in_bounds(),
    {
        proof {
            use_type_invariant(&*self);
        }
        match validate(cmd) {
            Err(e) => Err(e),
            Ok(()) => {
                let sequence: u64 = self.state.sequence + 1;
                let next = match cmd {
                    Command::SetSpeed(v) => ActuatorState { speed: v, sequence, ..self.state },
                    Command::SetSteering(v) => ActuatorState {
                        steering: v,
                        sequence,
                        ..self.state
                    },
                    Command::SetHeadlight(on) => ActuatorState {
                        headlight: on,
                        sequence,
                        ..self.state
                    },
                };
                self.state = next;
                Ok(next)
            },
        }
    }
}

} // verus!
