//! The failures that the peripheral layer reports, as plain values.

use vstd::prelude::*;
use vstd::std_specs::convert::FromSpecImpl;

verus! {

/// Why the parameters of a duty fade were refused.
#[derive(Clone, Copy, Debug, PartialEq, Eq, Structural)]
pub enum FadeFault {
    /// The start duty is above 100 %.
    StartDuty,
    /// The end duty is above 100 %.
    EndDuty,
    /// The change from start to end duty is out of range.
    DutyRange,
    /// The duration is too long for the timer's frequency and resolution.
    Duration,
}

/// A failure of a PWM channel, on a duty write or on its configuration.
#[derive(Clone, Copy, Debug, PartialEq, Eq, Structural)]
pub enum ChannelFault {
    /// The duty is above 100 %.
    Duty,
    /// The timer behind the channel is not configured.
    Timer,
    /// The channel is not configured.
    Channel,
    /// The parameters of a fade are invalid.
    Fade(FadeFault),
}

/// A failure of the PWM timer's configuration.
#[derive(Clone, Copy, Debug, PartialEq, Eq, Structural)]
pub enum TimerFault {
    /// No clock divisor gives the requested frequency at the requested
    /// resolution.
    Divisor,
}

/// What a motor operation or the construction of a motor can fail with.
#[derive(Clone, Copy, Debug, PartialEq, Eq, Structural)]
pub enum Error {
    /// A PWM channel refused a write or its configuration.
    ChannelError(ChannelFault),
    /// The PWM timer refused its configuration.
    TimerError(TimerFault),
}

impl From<ChannelFault> for Error {
    fn from(error: ChannelFault) -> (wrapped: Error)
        ensures
            wrapped == Error::ChannelError(error),
    {
        Error::ChannelError(error)
    }
}

impl FromSpecImpl<ChannelFault> for Error {
    open spec fn obeys_from_spec() -> bool {
        true
    }

    open spec fn from_spec(error: ChannelFault) -> Error {
        Error::ChannelError(error)
    }
}

impl From<TimerFault> for Error {
    fn from(error: TimerFault) -> (wrapped: Error)
        ensures
            wrapped == Error::TimerError(error),
    {
        Error::TimerError(error)
    }
}

impl FromSpecImpl<TimerFault> for Error {
    open spec fn obeys_from_spec() -> bool {
        true
    }

    open spec fn from_spec(error: TimerFault) -> Error {
        Error::TimerError(error)
    }
}

} // verus!
