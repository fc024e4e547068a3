//! Brushed DC motors: decay modes, and the transfer of a pair of duties.
//!
//! A motor hangs on two PWM lines, A and B. A decay mode turns a command into
//! the duties of both lines ([`fast_decay`], [`slow_decay`]); a [`Transfer`]
//! then names one write after the other and takes the answer of each, so that
//! line A is always written first and a failed write ends the operation.

use vstd::prelude::*;
use crate::error::{ChannelFault, Error};

verus! {

/// One of the two PWM lines of a motor.
#[derive(Clone, Copy, Debug, PartialEq, Eq, Structural)]
pub enum Line {
    A,
    B,
}

/// A duty, in percent of the PWM period, that is to be written to a line.
#[derive(Clone, Copy, Debug, PartialEq, Eq, Structural)]
pub struct DutyWrite {
    pub line: Line,
    pub duty: u8,
}

/// The duties of both lines, in percent of the PWM period.
#[derive(Clone, Copy, Debug, PartialEq, Eq, Structural)]
pub struct DutyPair {
    pub a: u8,
    pub b: u8,
}

impl DutyPair {
    /// The writes that bring the pair to the lines: line A gets its duty
    /// first, and line B gets its own only once line A has accepted.
    pub open spec fn writes(self, a_accepts: bool) -> Seq<DutyWrite> {
        if a_accepts {
            seq![
                DutyWrite { line: Line::A, duty: self.a },
                DutyWrite { line: Line::B, duty: self.b },
            ]
        } else {
            seq![DutyWrite { line: Line::A, duty: self.a }]
        }
    }
}

/// What a motor is asked to do; the speed is a duty in percent.
pub ghost enum Command {
    Forward(u8),
    Backward(u8),
    Brake,
}

/// The duties of fast decay: the driven line carries the duty and the other
/// one rests, so the current coasts to zero between pulses. A duty above 100
/// is handed on as it is; the PWM line is the one to refuse it.
pub open spec fn fast_decay(command: Command) -> DutyPair {
    match command {
        Command::Forward(duty) => DutyPair { a: duty, b: 0 },
        Command::Backward(duty) => DutyPair { a: 0, b: duty },
        Command::Brake => DutyPair { a: 0, b: 0 },
    }
}

/// The duties of slow decay: both lines are driven and the complement of the
/// duty is taken off one of them, so the current keeps flowing between
/// pulses. A duty above 100 has no complement and gets no duties.
pub open spec fn slow_decay(command: Command) -> Option<DutyPair> {
    match command {
        Command::Forward(duty) => if duty <= 100 {
            Some(DutyPair { a: 100, b: (100 - duty) as u8 })
        } else {
            None
        },
        Command::Backward(duty) => if duty <= 100 {
            Some(DutyPair { a: (100 - duty) as u8, b: 100 })
        } else {
            None
        },
        Command::Brake => Some(DutyPair { a: 100, b: 100 }),
    }
}

/// What the two lines saw of one operation, and how the operation ended.
pub ghost struct Run {
    /// The writes in the order in which they reached the lines.
    pub writes: Seq<DutyWrite>,
    /// What the operation reports to its caller.
    pub result: Result<(), Error>,
}

/// One motor operation in progress.
///
/// The caller performs the write that [`Transfer::pending`] names, hands its
/// answer to [`Transfer::advance`] and goes on with the transfer it gets
/// back, until [`Transfer::result`] holds the end of the operation.
#[derive(Clone, Copy, Debug, PartialEq, Eq)]
pub enum Transfer {
    /// Nothing is written yet; line A is next.
    WriteA(DutyPair),
    /// Line A has taken its duty; line B is next.
    WriteB(DutyPair),
    /// Nothing is left to write.
    Done(Result<(), Error>),
}

impl Transfer {
    /// The transfer that an operation starts with: line A is next where the
    /// decay mode has duties for the command; where it has none, the
    /// operation is over before any write, with the fault of an invalid duty.
    pub open spec fn begin(duties: Option<DutyPair>) -> Transfer {
        match duties {
            Some(pair) => Transfer::WriteA(pair),
            None => Transfer::Done(Err(Error::ChannelError(ChannelFault::Duty))),
        }
    }

    /// The write that is due, if any.
    pub open spec fn spec_pending(&self) -> Option<DutyWrite> {
        match *self {
            Transfer::WriteA(pair) => Some(DutyWrite { line: Line::A, duty: pair.a }),
            Transfer::WriteB(pair) => Some(DutyWrite { line: Line::B, duty: pair.b }),
            Transfer::Done(_) => None,
        }
    }

    /// The transfer after the write that was due came back with `answer`: an
    /// accepted write leads to the next line, a refused one ends the
    /// operation with the line's fault. A transfer that is over stays as it
    /// is.
    pub open spec fn spec_advance(self, answer: Result<(), ChannelFault>) -> Transfer {
        match self {
            Transfer::Done(_) => self,
            Transfer::WriteA(pair) => match answer {
                Ok(_) => Transfer::WriteB(pair),
                Err(fault) => Transfer::Done(Err(Error::ChannelError(fault))),
            },
            Transfer::WriteB(_) => match answer {
                Ok(_) => Transfer::Done(Ok(())),
                Err(fault) => Transfer::Done(Err(Error::ChannelError(fault))),
            },
        }
    }

    /// How the operation ended, once it is over.
    pub open spec fn spec_result(&self) -> Option<Result<(), Error>> {
        match *self {
            Transfer::Done(result) => Some(result),
            _ => None,
        }
    }

    /// The number of writes that are still due if every line accepts.
    pub open spec fn writes_left(self) -> nat {
        match self {
            Transfer::WriteA(_) => 2,
            Transfer::WriteB(_) => 1,
            Transfer::Done(_) => 0,
        }
    }

    /// The whole operation from this transfer on, for a caller that performs
    /// every write that is due and for lines that answer a write as `answers`
    /// says.
    pub open spec fn run(self, answers: spec_fn(Line) -> Result<(), ChannelFault>) -> Run
        decreases self.writes_left(),
    {
        match self {
            Transfer::Done(result) => Run { writes: Seq::empty(), result },
            _ => {
                let write = self.spec_pending()->Some_0;
                let rest = self.spec_advance(answers(write.line)).run(answers);
                Run { writes: seq![write] + rest.writes, result: rest.result }
            },
        }
    }

    /// The write that is due, if any.
    #[verifier::when_used_as_spec(spec_pending)]
    pub fn pending(&self) -> (write: Option<DutyWrite>)
        ensures
            write == self.spec_pending(),
    {
        match self {
            Transfer::WriteA(pair) => Some(DutyWrite { line: Line::A, duty: pair.a }),
            Transfer::WriteB(pair) => Some(DutyWrite { line: Line::B, duty: pair.b }),
            Transfer::Done(_) => None,
        }
    }

    /// Takes the answer of the write that was due and gives the transfer to
    /// go on with.
    #[verifier::when_used_as_spec(spec_advance)]
    pub fn advance(self, answer: Result<(), ChannelFault>) -> (next: Transfer)
        ensures
            next == self.spec_advance(answer),
    {
        match self {
            Transfer::Done(_) => self,
            Transfer::WriteA(pair) => match answer {
                Ok(_) => Transfer::WriteB(pair),
                Err(fault) => Transfer::Done(Err(Error::ChannelError(fault))),
            },
            Transfer::WriteB(_) => match answer {
                Ok(_) => Transfer::Done(Ok(())),
                Err(fault) => Transfer::Done(Err(Error::ChannelError(fault))),
            },
        }
    }

    /// How the operation ended, once it is over.
    #[verifier::when_used_as_spec(spec_result)]
    pub fn result(&self) -> (result: Option<Result<(), Error>>)
        ensures
            result == self.spec_result(),
    {
        match self {
            Transfer::Done(result) => Some(*result),
            _ => None,
        }
    }
}

/// A motor controller under one decay mode.
///
/// The mode is chosen with the type and stays for the life of the controller.
/// Every operation answers with the transfer that carries it out.
pub trait MotorInterface: Sized {
    /// The duties that the mode gives to a command, if it has any.
    spec fn duties(command: Command) -> Option<DutyPair>;

    /// The controller as it leaves its construction.
    spec fn fresh() -> Self;

    /// The controller of a motor under this mode.
    fn new() -> (motor: Self)
        ensures
            motor == Self::fresh(),
    ;

    /// Drives the motor forward at `duty` percent.
    fn forward(&self, duty: u8) -> (transfer: Transfer)
        ensures
            transfer == Transfer::begin(Self::duties(Command::Forward(duty))),
    ;

    /// Drives the motor backward at `duty` percent.
    fn backward(&self, duty: u8) -> (transfer: Transfer)
        ensures
            transfer == Transfer::begin(Self::duties(Command::Backward(duty))),
    ;

    /// Brakes the motor.
    fn brake(&self) -> (transfer: Transfer)
        ensures
            transfer == Transfer::begin(Self::duties(Command::Brake)),
    ;
}

/// A motor under fast decay.
#[derive(Clone, Copy, Debug, PartialEq, Eq)]
pub struct MotorFastDecay;

impl MotorInterface for MotorFastDecay {
    open spec fn duties(command: Command) -> Option<DutyPair> {
        Some(fast_decay(command))
    }

    open spec fn fresh() -> Self {
        MotorFastDecay
    }

    fn new() -> (motor: Self) {
        MotorFastDecay
    }

    fn forward(&self, duty: u8) -> (transfer: Transfer)
        ensures
            transfer == Transfer::WriteA((DutyPair { a: duty, b: 0 })),
    {
        Transfer::WriteA(DutyPair { a: duty, b: 0 })
    }

    fn backward(&self, duty: u8) -> (transfer: Transfer)
        ensures
            transfer == Transfer::WriteA((DutyPair { a: 0, b: duty })),
    {
        Transfer::WriteA(DutyPair { a: 0, b: duty })
    }

    fn brake(&self) -> (transfer: Transfer)
        ensures
            transfer == Transfer::WriteA((DutyPair { a: 0, b: 0 })),
    {
        Transfer::WriteA(DutyPair { a: 0, b: 0 })
    }
}

/// A motor under slow decay.
///
/// A duty above 100 is refused before anything is written, with the fault
/// that a PWM line has for such a duty.
#[derive(Clone, Copy, Debug, PartialEq, Eq)]
pub struct MotorSlowDecay;

impl MotorInterface for MotorSlowDecay {
    open spec fn duties(command: Command) -> Option<DutyPair> {
        slow_decay(command)
    }

    open spec fn fresh() -> Self {
        MotorSlowDecay
    }

    fn new() -> (motor: Self) {
        MotorSlowDecay
    }

    fn forward(&self, duty: u8) -> (transfer: Transfer)
        ensures
            duty <= 100 ==> transfer == Transfer::WriteA(
                (DutyPair { a: 100, b: (100 - duty) as u8 }),
            ),
            duty > 100 ==> transfer == Transfer::Done(
                Err(Error::ChannelError(ChannelFault::Duty)),
            ),
    {
        if duty <= 100 {
            Transfer::WriteA(DutyPair { a: 100, b: 100 - duty })
        } else {
            Transfer::Done(Err(Error::ChannelError(ChannelFault::Duty)))
        }
    }

    fn backward(&self, duty: u8) -> (transfer: Transfer)
        ensures
            duty <= 100 ==> transfer == Transfer::WriteA(
                (DutyPair { a: (100 - duty) as u8, b: 100 }),
            ),
            duty > 100 ==> transfer == Transfer::Done(
                Err(Error::ChannelError(ChannelFault::Duty)),
            ),
    {
        if duty <= 100 {
            Transfer::WriteA(DutyPair { a: 100 - duty, b: 100 })
        } else {
            Transfer::Done(Err(Error::ChannelError(ChannelFault::Duty)))
        }
    }

    fn brake(&self) -> (transfer: Transfer)
        ensures
            transfer == Transfer::WriteA((DutyPair { a: 100, b: 100 })),
    {
        Transfer::WriteA(DutyPair { a: 100, b: 100 })
    }
}

/// The way to a motor controller: the decay mode is picked by the type that
/// is asked for.
pub struct Motor;

impl Motor {
    /// The controller of a motor under the decay mode `M`.
    pub fn new<M: MotorInterface>() -> (motor: M)
        ensures
            motor == M::fresh(),
    {
        M::new()
    }
}

/// How an operation runs, whatever the lines answer: line A gets its duty
/// first; line B gets its duty if and only if line A accepted; and the
/// operation succeeds if and only if both accepted, else it reports the fault
/// of the line that refused.
pub proof fn law_run_of_a_pair(pair: DutyPair, answers: spec_fn(Line) -> Result<(), ChannelFault>)
    ensures
        Transfer::WriteA(pair).run(answers).writes == pair.writes(answers(Line::A) is Ok),
        Transfer::WriteA(pair).run(answers).result == match answers(Line::A) {
            Err(fault) => Err::<(), Error>(Error::ChannelError(fault)),
            Ok(_) => match answers(Line::B) {
                Err(fault) => Err(Error::ChannelError(fault)),
                Ok(_) => Ok(()),
            },
        },
{
    reveal_with_fuel(Transfer::run, 3);
    assert(Transfer::WriteA(pair).run(answers).writes =~= pair.writes(answers(Line::A) is Ok));
}

/// Under fast decay, forward puts the duty on line A and rests line B,
/// backward rests line A and puts the duty on line B, and brake rests both.
/// This holds of every duty, also of one above 100.
pub proof fn law_fast_decay_writes(duty: u8, answers: spec_fn(Line) -> Result<(), ChannelFault>)
    ensures
        Transfer::begin(MotorFastDecay::duties(Command::Forward(duty))).run(answers).writes
            == (DutyPair { a: duty, b: 0 }).writes(answers(Line::A) is Ok),
        Transfer::begin(MotorFastDecay::duties(Command::Backward(duty))).run(answers).writes
            == (DutyPair { a: 0, b: duty }).writes(answers(Line::A) is Ok),
        Transfer::begin(MotorFastDecay::duties(Command::Brake)).run(answers).writes
            == (DutyPair { a: 0, b: 0 }).writes(answers(Line::A) is Ok),
{
    law_run_of_a_pair(DutyPair { a: duty, b: 0 }, answers);
    law_run_of_a_pair(DutyPair { a: 0, b: duty }, answers);
    law_run_of_a_pair(DutyPair { a: 0, b: 0 }, answers);
}

/// Under slow decay and for a duty of at most 100, forward holds line A at
/// 100 and takes the duty off line B, backward takes the duty off line A and
/// holds line B at 100, and brake holds both at 100.
pub proof fn law_slow_decay_writes(duty: u8, answers: spec_fn(Line) -> Result<(), ChannelFault>)
    requires
        duty <= 100,
    ensures
        Transfer::begin(MotorSlowDecay::duties(Command::Forward(duty))).run(answers).writes
            == (DutyPair { a: 100, b: (100 - duty) as u8 }).writes(answers(Line::A) is Ok),
        Transfer::begin(MotorSlowDecay::duties(Command::Backward(duty))).run(answers).writes
            == (DutyPair { a: (100 - duty) as u8, b: 100 }).writes(answers(Line::A) is Ok),
        Transfer::begin(MotorSlowDecay::duties(Command::Brake)).run(answers).writes
            == (DutyPair { a: 100, b: 100 }).writes(answers(Line::A) is Ok),
{
    law_run_of_a_pair(DutyPair { a: 100, b: (100 - duty) as u8 }, answers);
    law_run_of_a_pair(DutyPair { a: (100 - duty) as u8, b: 100 }, answers);
    law_run_of_a_pair(DutyPair { a: 100, b: 100 }, answers);
}

/// Under slow decay a duty above 100 is refused at once: no line is written,
/// and the operation reports an invalid duty.
pub proof fn law_slow_decay_refuses(duty: u8, answers: spec_fn(Line) -> Result<(), ChannelFault>)
    requires
        duty > 100,
    ensures
        Transfer::begin(MotorSlowDecay::duties(Command::Forward(duty))).run(answers).writes
            == Seq::<DutyWrite>::empty(),
        Transfer::begin(MotorSlowDecay::duties(Command::Forward(duty))).run(answers).result
            == Err::<(), Error>(Error::ChannelError(ChannelFault::Duty)),
        Transfer::begin(MotorSlowDecay::duties(Command::Backward(duty))).run(answers).writes
            == Seq::<DutyWrite>::empty(),
        Transfer::begin(MotorSlowDecay::duties(Command::Backward(duty))).run(answers).result
            == Err::<(), Error>(Error::ChannelError(ChannelFault::Duty)),
{
    reveal_with_fuel(Transfer::run, 1);
}

/// In every operation of every decay mode, a write to line B comes after a
/// write to line A, and no line is written twice.
pub proof fn law_line_a_is_written_first<M: MotorInterface>(
    command: Command,
    answers: spec_fn(Line) -> Result<(), ChannelFault>,
)
    ensures
        ({
            let run = Transfer::begin(M::duties(command)).run(answers);
            &&& forall|j: int|
                0 <= j < run.writes.len() && run.writes[j].line == Line::B ==> exists|i: int|
                    0 <= i < j && run.writes[i].line == Line::A
            &&& forall|i: int, j: int|
                0 <= i < j < run.writes.len() ==> run.writes[i].line != run.writes[j].line
        }),
{
    reveal_with_fuel(Transfer::run, 1);
    match M::duties(command) {
        Some(pair) => {
            law_run_of_a_pair(pair, answers);
            let run = Transfer::begin(M::duties(command)).run(answers);
            assert forall|j: int|
                0 <= j < run.writes.len() && run.writes[j].line == Line::B implies exists|i: int|
                0 <= i < j && run.writes[i].line == Line::A by {
                assert(run.writes[0].line == Line::A);
            }
        },
        None => {},
    }
}

/// In every operation of every decay mode, a refusal of line A ends the
/// operation with the fault of line A, and line B sees no write.
pub proof fn law_refusal_on_a_spares_b<M: MotorInterface>(
    command: Command,
    answers: spec_fn(Line) -> Result<(), ChannelFault>,
)
    requires
        answers(Line::A) is Err,
    ensures
        ({
            let run = Transfer::begin(M::duties(command)).run(answers);
            &&& run.result is Err
            &&& M::duties(command) is Some ==> run.result == Err::<(), Error>(
                Error::ChannelError(answers(Line::A)->Err_0),
            )
            &&& forall|j: int| 0 <= j < run.writes.len() ==> run.writes[j].line != Line::B
        }),
{
    reveal_with_fuel(Transfer::run, 1);
    match M::duties(command) {
        Some(pair) => {
            law_run_of_a_pair(pair, answers);
        },
        None => {},
    }
}

/// An operation of any decay mode succeeds if and only if the mode has duties
/// for the command and both lines accept them; then both lines have been
/// written.
pub proof fn law_success_takes_both_lines<M: MotorInterface>(
    command: Command,
    answers: spec_fn(Line) -> Result<(), ChannelFault>,
)
    ensures
        ({
            let run = Transfer::begin(M::duties(command)).run(answers);
            &&& run.result is Ok <==> M::duties(command) is Some && answers(Line::A) is Ok
                && answers(Line::B) is Ok
            &&& run.result is Ok ==> run.writes.len() == 2
        }),
{
    reveal_with_fuel(Transfer::run, 1);
    match M::duties(command) {
        Some(pair) => {
            law_run_of_a_pair(pair, answers);
        },
        None => {},
    }
}

} // verus!
