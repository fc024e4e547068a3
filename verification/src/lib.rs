//! Control logic for the DRV8833 dual H-bridge motor driver.
//!
//! The crate decides *what* has to be written to the driver's inputs and leaves
//! the writing to its caller. A brushed motor is driven through two PWM
//! lines: a decay mode turns a command into a pair of duties, and a
//! [`Transfer`] walks the caller through the two writes, line A first. A
//! bipolar stepper is driven through four digital lines: a [`Stepper`] keeps
//! the position in the full-step cycle and names the levels of every step.
//!
//! Nothing here touches a peripheral: every function works on plain values,
//! cannot panic and is proved against its contract.
//!
//! ### Drive forward at a duty of 30 % under slow decay
//!
//! ```rust
//! use esp_drv8833::{ChannelFault, Line, Motor, MotorInterface, MotorSlowDecay};
//!
//! let motor: MotorSlowDecay = Motor::new();
//!
//! let mut transfer = motor.forward(30);
//! while let Some(write) = transfer.pending() {
//!     let answer: Result<(), ChannelFault> = match write.line {
//!         Line::A => Ok(()), // the answer of channel A to `write.duty`
//!         Line::B => Ok(()), // the answer of channel B to `write.duty`
//!     };
//!     transfer = transfer.advance(answer);
//! }
//! assert_eq!(transfer.result(), Some(Ok(())));
//! ```
//!
//! ### Turn a stepper by 16 steps
//!
//! ```rust
//! use esp_drv8833::Stepper;
//!
//! let mut stepper = Stepper::new(200, 200);
//!
//! let mut rotation = stepper.angle(16);
//! while let Some(pulse) = stepper.advance(&mut rotation) {
//!     // set the four pins to `pulse.levels`, then wait for `pulse.wait_micros`
//!     assert_eq!(pulse.wait_micros, 5000);
//! }
//! assert_eq!(stepper.step_index(), 0);
//! ```

pub mod error;
pub mod motor;
pub mod stepper;

pub use error::{ChannelFault, Error, FadeFault, TimerFault};
pub use motor::{
    DutyPair, DutyWrite, Line, Motor, MotorFastDecay, MotorInterface, MotorSlowDecay, Transfer,
};
pub use stepper::{Direction, Level, Levels, Pulse, Rotation, Stepper, MICROS_PER_SECOND};
