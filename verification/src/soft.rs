//! A purely in-memory channel.
//!
//! `SoftPin` records the state a real pin or PWM channel would hold
//! and satisfies every capability contract, so a device built from it
//! exercises the whole accessor layer without hardware. A pin can be
//! made to fail its fallible operations on demand, which is how the
//! short-circuit behaviour of combination mutators is observed.

use vstd::prelude::*;

verus! {

use crate::channel::DigitalOutput;
use crate::channel::OutputState;
use crate::channel::PinLevel;
use crate::channel::PwmChannel;
use crate::channel::StatefulDigitalOutput;
use crate::channel::ToggleableOutput;
use crate::channel::flipped;

/// The error a failing `SoftPin` reports: the identifier of the pin
/// that failed.
#[derive(Clone, Copy, Debug, PartialEq, Eq, Structural)]
pub struct SoftError {
    pub id: u32,
}

/// An in-memory channel: a driven level, a PWM state, and a switch
/// that makes every fallible operation fail.
#[derive(Clone, Copy, Debug, PartialEq, Eq, Structural)]
pub struct SoftPin {
    pub id: u32,
    pub level: PinLevel,
    pub failing: bool,
    pub running: bool,
    pub duty_value: u32,
    pub duty_max: u32,
}

impl SoftPin {
    /// A healthy pin driving low, not running, at duty zero.
    pub fn new(id: u32, duty_max: u32) -> (r: SoftPin)
        ensures
            r == (SoftPin {
                id,
                level: PinLevel::Low,
                failing: false,
                running: false,
                duty_value: 0u32,
                duty_max,
            }),
    {
        SoftPin { id, level: PinLevel::Low, failing: false, running: false, duty_value: 0, duty_max }
    }

    /// The same pin, with every fallible operation failing from now on.
    pub fn failing(self) -> (r: SoftPin)
        ensures
            r == (SoftPin { failing: true, ..self }),
    {
        SoftPin { failing: true, ..self }
    }
}

impl OutputState for SoftPin {
    open spec fn pin_state(&self) -> PinLevel {
        self.level
    }
}

impl DigitalOutput for SoftPin {
    type Error = SoftError;

    fn set_state(&mut self, state: PinLevel) -> (r: Result<(), SoftError>)
        ensures
            r is Ok <==> !old(self).failing,
            !old(self).failing ==> *final(self) == (SoftPin { level: state, ..*old(self) }),
            old(self).failing ==> *final(self) == *old(self) && r == Err::<(), SoftError>(
                SoftError { id: old(self).id },
            ),
    {
        if self.failing {
            Err(SoftError { id: self.id })
        } else {
            self.level = state;
            Ok(())
        }
    }

    fn set_low(&mut self) -> (r: Result<(), SoftError>)
        ensures
            r is Ok <==> !old(self).failing,
            !old(self).failing ==> *final(self) == (SoftPin {
                level: PinLevel::Low,
                ..*old(self)
            }),
            old(self).failing ==> *final(self) == *old(self) && r == Err::<(), SoftError>(
                SoftError { id: old(self).id },
            ),
    {
        self.set_state(PinLevel::Low)
    }

    fn set_high(&mut self) -> (r: Result<(), SoftError>)
        ensures
            r is Ok <==> !old(self).failing,
            !old(self).failing ==> *final(self) == (SoftPin {
                level: PinLevel::High,
                ..*old(self)
            }),
            old(self).failing ==> *final(self) == *old(self) && r == Err::<(), SoftError>(
                SoftError { id: old(self).id },
            ),
    {
        self.set_state(PinLevel::High)
    }
}

impl StatefulDigitalOutput for SoftPin {
    fn is_set_low(&self) -> (r: Result<bool, SoftError>)
        ensures
            self.failing ==> r == Err::<bool, SoftError>(SoftError { id: self.id }),
            !self.failing ==> r == Ok::<bool, SoftError>(self.level == PinLevel::Low),
    {
        if self.failing {
            Err(SoftError { id: self.id })
        } else {
            Ok(self.level == PinLevel::Low)
        }
    }

    fn is_set_high(&self) -> (r: Result<bool, SoftError>)
        ensures
            self.failing ==> r == Err::<bool, SoftError>(SoftError { id: self.id }),
            !self.failing ==> r == Ok::<bool, SoftError>(self.level == PinLevel::High),
    {
        if self.failing {
            Err(SoftError { id: self.id })
        } else {
            Ok(self.level == PinLevel::High)
        }
    }
}

impl ToggleableOutput for SoftPin {
    type Error = SoftError;

    fn toggle(&mut self) -> (r: Result<(), SoftError>)
        ensures
            r is Ok <==> !old(self).failing,
            !old(self).failing ==> *final(self) == (SoftPin {
                level: flipped(old(self).level),
                ..*old(self)
            }),
            old(self).failing ==> *final(self) == *old(self) && r == Err::<(), SoftError>(
                SoftError { id: old(self).id },
            ),
    {
        if self.failing {
            Err(SoftError { id: self.id })
        } else {
            self.level = match self.level {
                PinLevel::Low => PinLevel::High,
                PinLevel::High => PinLevel::Low,
            };
            Ok(())
        }
    }
}

impl PwmChannel for SoftPin {
    type Duty = u32;

    open spec fn duty(&self) -> u32 {
        self.duty_value
    }

    open spec fn max_duty(&self) -> u32 {
        self.duty_max
    }

    open spec fn enabled(&self) -> bool {
        self.running
    }

    fn disable(&mut self)
        ensures
            *final(self) == (SoftPin { running: false, ..*old(self) }),
    {
        self.running = false;
    }

    fn enable(&mut self)
        ensures
            *final(self) == (SoftPin { running: true, ..*old(self) }),
    {
        self.running = true;
    }

    fn get_duty(&self) -> (r: u32) {
        self.duty_value
    }

    fn get_max_duty(&self) -> (r: u32) {
        self.duty_max
    }

    fn set_duty(&mut self, duty: u32)
        ensures
            *final(self) == (SoftPin { duty_value: duty, ..*old(self) }),
    {
        self.duty_value = duty;
    }
}

} // verus!
