//! Bipolar stepper motors: the full-step cycle, single steps and rotations.
//!
//! A stepper hangs on four digital lines, A+, A-, B+ and B-. A [`Stepper`]
//! keeps the position in the cycle of four phases and answers every step
//! with the levels that the lines have to take. A [`Rotation`] is a run of
//! steps in one sense, each followed by a wait of one period.

use vstd::prelude::*;

verus! {

/// The level of a digital line.
#[derive(Clone, Copy, Debug, PartialEq, Eq, Structural)]
pub enum Level {
    Low,
    High,
}

/// The levels of the four lines of a stepper.
#[derive(Clone, Copy, Debug, PartialEq, Eq, Structural)]
pub struct Levels {
    pub a_plus: Level,
    pub a_minus: Level,
    pub b_plus: Level,
    pub b_minus: Level,
}

/// The sense of a rotation.
#[derive(Clone, Copy, Debug, PartialEq, Eq, Structural)]
pub enum Direction {
    /// Up the cycle of phases.
    Forward,
    /// Down the cycle of phases.
    Backward,
}

/// The number of microseconds in a second.
pub const MICROS_PER_SECOND: u32 = 1_000_000;

/// The levels of the lines that no step has set yet.
pub open spec fn idle() -> Levels {
    Levels { a_plus: Level::Low, a_minus: Level::Low, b_plus: Level::Low, b_minus: Level::Low }
}

/// The levels of a position in the full-step cycle: two coils are energized
/// at a time, and one of them changes its sense from a position to the next.
pub open spec fn phase(index: int) -> Levels {
    if index == 0 {
        Levels { a_plus: Level::High, a_minus: Level::Low, b_plus: Level::High, b_minus: Level::Low }
    } else if index == 1 {
        Levels { a_plus: Level::Low, a_minus: Level::High, b_plus: Level::High, b_minus: Level::Low }
    } else if index == 2 {
        Levels { a_plus: Level::Low, a_minus: Level::High, b_plus: Level::Low, b_minus: Level::High }
    } else {
        Levels { a_plus: Level::High, a_minus: Level::Low, b_plus: Level::Low, b_minus: Level::High }
    }
}

/// The wait between two steps at `frequency_hz` steps per second, in whole
/// microseconds: the fraction of a microsecond is dropped, so nothing is left
/// to wait above a million steps per second.
pub open spec fn period_micros(frequency_hz: u32) -> u32
    recommends
        frequency_hz > 0,
{
    (MICROS_PER_SECOND as int / frequency_hz as int) as u32
}

/// What contracts see of a [`Stepper`].
pub ghost struct StepperState {
    /// The rate of steps within a rotation, in steps per second.
    pub frequency_hz: u32,
    /// The number of steps that make one revolution.
    pub steps_per_rev: u32,
    /// The position in the cycle of phases.
    pub step_index: int,
    /// The levels that the lines were last told to take.
    pub levels: Levels,
}

impl StepperState {
    /// The position is one of the four of the cycle.
    pub open spec fn valid(self) -> bool {
        0 <= self.step_index < 4
    }

    /// The state after `steps` steps, forward where `steps` is positive and
    /// backward where it is negative: the position moves round the cycle and
    /// the lines carry its phase. No step leaves everything as it is.
    pub open spec fn turned(self, steps: int) -> StepperState {
        if steps == 0 {
            self
        } else {
            let step_index = (self.step_index + steps) % 4;
            StepperState { step_index, levels: phase(step_index), ..self }
        }
    }
}

/// One step of a rotation: the lines take `levels`, and the caller then
/// waits for `wait_micros` microseconds.
#[derive(Clone, Copy, Debug, PartialEq, Eq, Structural)]
pub struct Pulse {
    pub levels: Levels,
    pub wait_micros: u32,
}

/// A run of steps in one sense.
#[derive(Clone, Copy, Debug, PartialEq, Eq, Structural)]
pub struct Rotation {
    /// The sense of every step.
    pub direction: Direction,
    /// The number of steps that are still to be made.
    pub remaining: u32,
    /// The wait after every step, in microseconds.
    pub wait_micros: u32,
}

impl Rotation {
    /// What one step of the rotation adds to the position.
    pub open spec fn sense(self) -> int {
        match self.direction {
            Direction::Forward => 1,
            Direction::Backward => -1,
        }
    }

    /// The rotation once one of its steps is made.
    pub open spec fn shortened(self) -> Rotation
        recommends
            self.remaining > 0,
    {
        Rotation { remaining: (self.remaining - 1) as u32, ..self }
    }

    /// The rotation of `steps` steps with `wait_micros` after each: forward
    /// where `steps` is positive, else backward, over as many steps as
    /// `steps` is away from zero.
    pub open spec fn of(steps: int, wait_micros: u32) -> Rotation
        recommends
            -0x8000_0000 <= steps < 0x8000_0000,
    {
        Rotation {
            direction: if steps > 0 {
                Direction::Forward
            } else {
                Direction::Backward
            },
            remaining: (if steps >= 0 {
                steps
            } else {
                -steps
            }) as u32,
            wait_micros,
        }
    }

    /// The pulses that the rotation gives to a stepper in state `from`: the
    /// first one carries the phase one step away, every further one the phase
    /// one step further, and each asks for the same wait.
    pub open spec fn pulses(self, from: StepperState) -> Seq<Pulse> {
        Seq::new(
            self.remaining as nat,
            |k: int|
                Pulse {
                    levels: phase((from.step_index + self.sense() * (k + 1)) % 4),
                    wait_micros: self.wait_micros,
                },
        )
    }
}

/// The time that a run of pulses asks to wait in all, in microseconds.
pub open spec fn waited(pulses: Seq<Pulse>) -> int
    decreases pulses.len(),
{
    if pulses.len() == 0 {
        0
    } else {
        waited(pulses.drop_last()) + pulses.last().wait_micros
    }
}

/// The sequencer of a bipolar stepper in full-step drive.
pub struct Stepper {
    frequency_hz: u32,
    steps_per_rev: u32,
    step: usize,
    levels: Levels,
    sequence: [Levels; 4],
}

impl View for Stepper {
    type V = StepperState;

    closed spec fn view(&self) -> StepperState {
        StepperState {
            frequency_hz: self.frequency_hz,
            steps_per_rev: self.steps_per_rev,
            step_index: self.step as int,
            levels: self.levels,
        }
    }
}

impl Stepper {
    #[verifier::type_invariant]
    spec fn well_formed(self) -> bool {
        &&& self.step < 4
        &&& forall|index: int| 0 <= index < 4 ==> self.sequence@[index] == phase(index)
    }

    /// A stepper at the first position of the cycle, whose lines are still
    /// idle: the phase of that position is not on them, and the first step
    /// goes on from it.
    pub fn new(frequency_hz: u32, steps_per_rev: u32) -> (stepper: Stepper)
        ensures
            stepper@ == (StepperState { frequency_hz, steps_per_rev, step_index: 0, levels: idle() }),
    {
        Stepper {
            frequency_hz,
            steps_per_rev,
            step: 0,
            levels: Levels {
                a_plus: Level::Low,
                a_minus: Level::Low,
                b_plus: Level::Low,
                b_minus: Level::Low,
            },
            sequence: [
                Levels {
                    a_plus: Level::High,
                    a_minus: Level::Low,
                    b_plus: Level::High,
                    b_minus: Level::Low,
                },
                Levels {
                    a_plus: Level::Low,
                    a_minus: Level::High,
                    b_plus: Level::High,
                    b_minus: Level::Low,
                },
                Levels {
                    a_plus: Level::Low,
                    a_minus: Level::High,
                    b_plus: Level::Low,
                    b_minus: Level::High,
                },
                Levels {
                    a_plus: Level::High,
                    a_minus: Level::Low,
                    b_plus: Level::Low,
                    b_minus: Level::High,
                },
            ],
        }
    }

    /// Makes one step forward and gives the levels that the lines have to
    /// take.
    pub fn step_forward(&mut self) -> (levels: Levels)
        ensures
            final(self)@ == old(self)@.turned(1),
            final(self)@.valid(),
            levels == final(self)@.levels,
    {
        proof {
            use_type_invariant(&*self);
        }
        self.step = (self.step + 1) % 4;
        self.levels = self.sequence[self.step];
        self.levels
    }

    /// Makes one step backward and gives the levels that the lines have to
    /// take.
    pub fn step_backward(&mut self) -> (levels: Levels)
        ensures
            final(self)@ == old(self)@.turned(-1),
            final(self)@.valid(),
            levels == final(self)@.levels,
    {
        proof {
            use_type_invariant(&*self);
        }
        self.step = (self.step + 3) % 4;
        self.levels = self.sequence[self.step];
        self.levels
    }

    /// Plans the rotation by an angle that amounts to `steps` steps: the
    /// angle in degrees over 360, times the steps per revolution, cut off
    /// toward zero. A positive number turns forward, a negative one backward,
    /// and every step is followed by a wait of one period of the step rate.
    /// The stepper itself moves only as the rotation is carried out, step by
    /// step, through [`Stepper::advance`].
    pub fn angle(&self, steps: i32) -> (rotation: Rotation)
        requires
            self@.frequency_hz > 0,
        ensures
            rotation == Rotation::of(steps as int, period_micros(self@.frequency_hz)),
    {
        let wait_micros: u32 = MICROS_PER_SECOND / self.frequency_hz;
        if steps > 0 {
            Rotation { direction: Direction::Forward, remaining: steps as u32, wait_micros }
        } else if steps == i32::MIN {
            Rotation { direction: Direction::Backward, remaining: 0x8000_0000, wait_micros }
        } else {
            Rotation { direction: Direction::Backward, remaining: (-steps) as u32, wait_micros }
        }
    }

    /// Makes the next step of a rotation, if one is left, and gives the pulse
    /// that the caller has to carry out: the levels for the lines, then the
    /// wait. Once no step is left, nothing moves any more.
    ///
    /// Call after call, the pulses of the rotation come out in their order:
    /// each call gives the first of those that are left and leaves the rest.
    pub fn advance(&mut self, rotation: &mut Rotation) -> (pulse: Option<Pulse>)
        ensures
            final(self)@.valid(),
            old(rotation).remaining == 0 ==> {
                &&& pulse is None
                &&& final(self)@ == old(self)@
                &&& *final(rotation) == *old(rotation)
            },
            old(rotation).remaining > 0 ==> {
                &&& pulse == Some(
                    (Pulse {
                        levels: final(self)@.levels,
                        wait_micros: old(rotation).wait_micros,
                    }),
                )
                &&& final(self)@ == old(self)@.turned(old(rotation).sense())
                &&& *final(rotation) == old(rotation).shortened()
                &&& pulse == Some(old(rotation).pulses(old(self)@).first())
                &&& final(rotation).pulses(final(self)@) == old(rotation).pulses(
                    old(self)@,
                ).drop_first()
            },
    {
        proof {
            use_type_invariant(&*self);
        }
        if rotation.remaining == 0 {
            return None;
        }
        proof {
            law_rotation_unfolds(*rotation, self@);
            assert(rotation.shortened().pulses(self@.turned(rotation.sense()))
                =~= rotation.pulses(self@).drop_first());
        }
        rotation.remaining = rotation.remaining - 1;
        let levels = match rotation.direction {
            Direction::Forward => self.step_forward(),
            Direction::Backward => self.step_backward(),
        };
        Some(Pulse { levels, wait_micros: rotation.wait_micros })
    }

    /// The position in the cycle of phases.
    pub fn step_index(&self) -> (index: usize)
        ensures
            index == self@.step_index,
            index < 4,
    {
        proof {
            use_type_invariant(self);
        }
        self.step
    }

    /// The rate of steps within a rotation, in steps per second.
    pub fn frequency_hz(&self) -> (frequency_hz: u32)
        ensures
            frequency_hz == self@.frequency_hz,
    {
        self.frequency_hz
    }

    /// The number of steps that make one revolution.
    pub fn steps_per_rev(&self) -> (steps_per_rev: u32)
        ensures
            steps_per_rev == self@.steps_per_rev,
    {
        self.steps_per_rev
    }

    /// The levels that the lines were last told to take.
    pub fn levels(&self) -> (levels: Levels)
        ensures
            levels == self@.levels,
    {
        self.levels
    }
}

/// Steps add up: `a` steps and then `b` steps lead to the position that
/// `a + b` steps lead to, and to the same levels on the lines unless the two
/// runs undo each other.
pub proof fn law_steps_add_up(state: StepperState, a: int, b: int)
    requires
        state.valid(),
    ensures
        state.turned(a).valid(),
        state.turned(a).turned(b).step_index == state.turned(a + b).step_index,
        b == 0 || a + b != 0 ==> state.turned(a).turned(b) == state.turned(a + b),
{
}

/// A step forward and a step backward undo each other, in either order: the
/// position is the one before the two steps, and the lines carry the phase of
/// that position.
pub proof fn law_step_there_and_back(state: StepperState)
    requires
        state.valid(),
    ensures
        state.turned(1).turned(-1).step_index == state.step_index,
        state.turned(1).turned(-1).levels == phase(state.step_index),
        state.turned(-1).turned(1).step_index == state.step_index,
        state.turned(-1).turned(1).levels == phase(state.step_index),
{
}

/// Four steps in one sense close the cycle: they go through the other three
/// positions in their order and end on the one they began on. So every cycle
/// repeats the one before it: two runs of steps that differ by whole cycles
/// end in the same state.
pub proof fn law_four_steps_close_the_cycle(state: StepperState)
    requires
        state.valid(),
    ensures
        state.turned(1).levels == phase((state.step_index + 1) % 4),
        state.turned(1).turned(1).levels == phase((state.step_index + 2) % 4),
        state.turned(1).turned(1).turned(1).levels == phase((state.step_index + 3) % 4),
        state.turned(1).turned(1).turned(1).turned(1).levels == phase(state.step_index),
        state.turned(1).turned(1).turned(1).turned(1).step_index == state.step_index,
        state.turned(-1).turned(-1).turned(-1).turned(-1).levels == phase(state.step_index),
        state.turned(-1).turned(-1).turned(-1).turned(-1).step_index == state.step_index,
        forall|j: int, k: int|
            j != 0 && k != 0 && (j - k) % 4 == 0 ==> #[trigger] state.turned(j)
                == #[trigger] state.turned(k),
{
}

/// The pulses of a rotation come one step at a time: the first is the pulse
/// of one step in the sense of the rotation, and the others are the pulses of
/// the rest of the rotation from the state after that step.
pub proof fn law_rotation_unfolds(rotation: Rotation, from: StepperState)
    requires
        from.valid(),
        rotation.remaining > 0,
    ensures
        rotation.pulses(from) == seq![
            Pulse {
                levels: from.turned(rotation.sense()).levels,
                wait_micros: rotation.wait_micros,
            },
        ] + rotation.shortened().pulses(from.turned(rotation.sense())),
{
    let first = Pulse {
        levels: from.turned(rotation.sense()).levels,
        wait_micros: rotation.wait_micros,
    };
    let rest = rotation.shortened().pulses(from.turned(rotation.sense()));
    assert forall|k: int| 0 <= k < rotation.remaining implies rotation.pulses(from)[k] == (seq![
        first,
    ] + rest)[k] by {
        match rotation.direction {
            Direction::Forward => {
                assert((from.step_index + 1 * (k + 1)) % 4 == ((from.step_index + 1) % 4 + 1 * k)
                    % 4);
            },
            Direction::Backward => {
                assert((from.step_index + (-1) * (k + 1)) % 4 == ((from.step_index - 1) % 4 + (-1)
                    * k) % 4);
            },
        }
    }
    assert(rotation.pulses(from) =~= seq![first] + rest);
}

/// The rotation by an angle of `steps` steps gives as many pulses as `steps`
/// is away from zero, so none for an angle of no step. The pulse at place `k`
/// carries the levels after `k + 1` steps, forward for a positive angle and
/// backward for a negative one, and each pulse asks for the given wait.
pub proof fn law_pulses_of_an_angle(from: StepperState, steps: int, wait_micros: u32)
    requires
        from.valid(),
        -0x8000_0000 <= steps < 0x8000_0000,
    ensures
        ({
            let pulses = Rotation::of(steps, wait_micros).pulses(from);
            &&& steps >= 0 ==> pulses.len() == steps
            &&& steps < 0 ==> pulses.len() == -steps
            &&& forall|k: int|
                0 <= k < pulses.len() ==> #[trigger] pulses[k] == Pulse {
                    levels: from.turned(
                        if steps > 0 {
                            k + 1
                        } else {
                            -(k + 1)
                        },
                    ).levels,
                    wait_micros,
                }
        }),
{
}

/// A rotation asks to wait for as long as its steps are many, times the wait
/// after each.
pub proof fn law_wait_of_a_rotation(rotation: Rotation, from: StepperState)
    ensures
        waited(rotation.pulses(from)) == rotation.remaining * rotation.wait_micros,
    decreases rotation.remaining,
{
    let pulses = rotation.pulses(from);
    if rotation.remaining > 0 {
        let shorter = rotation.shortened();
        assert(pulses.drop_last() =~= shorter.pulses(from));
        law_wait_of_a_rotation(shorter, from);
        assert(pulses.last().wait_micros == rotation.wait_micros);
        assert(rotation.remaining * rotation.wait_micros == shorter.remaining
            * shorter.wait_micros + rotation.wait_micros) by (nonlinear_arith)
            requires
                shorter.remaining == rotation.remaining - 1,
                shorter.wait_micros == rotation.wait_micros,
        ;
    } else {
        assert(pulses.len() == 0);
        assert(rotation.remaining * rotation.wait_micros == 0) by (nonlinear_arith)
            requires
                rotation.remaining == 0,
        ;
    }
}

} // verus!
