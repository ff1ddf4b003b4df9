//! The four capability contracts a channel type may satisfy, and the
//! digital pin level they speak of.
//!
//! These contracts are the extension point for hardware backends: a
//! backend implements them for its pin and PWM-channel types, and the
//! accessor layer drives any such type through the contracts alone.

use vstd::prelude::*;

verus! {

/// The level a digital output drives.
#[derive(Clone, Copy, Debug, PartialEq, Eq, Structural)]
pub enum PinLevel {
    Low,
    High,
}

/// The opposite level.
pub open spec fn flipped(level: PinLevel) -> PinLevel {
    match level {
        PinLevel::Low => PinLevel::High,
        PinLevel::High => PinLevel::Low,
    }
}

/// A channel whose driven output level has a specification-visible value.
/// Every digital capability contract builds on it.
pub trait OutputState: Sized {
    /// The level the channel currently drives.
    spec fn pin_state(&self) -> PinLevel;
}

/// Digital-output capability: the channel can be driven low or high.
/// Each operation is fallible with a backend-specific error; on an error
/// the driven level is left unspecified.
pub trait DigitalOutput: OutputState {
    type Error;

    fn set_state(&mut self, state: PinLevel) -> (r: Result<(), Self::Error>)
        ensures
            r is Ok ==> final(self).pin_state() == state,
    ;

    fn set_low(&mut self) -> (r: Result<(), Self::Error>)
        ensures
            r is Ok ==> final(self).pin_state() == PinLevel::Low,
    ;

    fn set_high(&mut self) -> (r: Result<(), Self::Error>)
        ensures
            r is Ok ==> final(self).pin_state() == PinLevel::High,
    ;
}

/// Stateful-digital-output capability: the driven level can be read back.
pub trait StatefulDigitalOutput: DigitalOutput {
    fn is_set_low(&self) -> (r: Result<bool, Self::Error>)
        ensures
            r matches Ok(b) ==> b == (self.pin_state() == PinLevel::Low),
    ;

    fn is_set_high(&self) -> (r: Result<bool, Self::Error>)
        ensures
            r matches Ok(b) ==> b == (self.pin_state() == PinLevel::High),
    ;
}

/// Toggleable-output capability: the driven level can be inverted. Its
/// error type is constrained independently from `DigitalOutput`'s.
pub trait ToggleableOutput: OutputState {
    type Error;

    fn toggle(&mut self) -> (r: Result<(), Self::Error>)
        ensures
            r is Ok ==> final(self).pin_state() == flipped(old(self).pin_state()),
    ;
}

/// PWM capability. `Duty` is the backend's duty unit; it carries no
/// meaning here beyond "current" versus "maximum" duty. The three
/// mutators are infallible and must leave the components they do not
/// speak of unchanged.
pub trait PwmChannel: Sized {
    type Duty;

    /// The duty currently latched in the channel.
    spec fn duty(&self) -> Self::Duty;

    /// The largest duty the channel accepts.
    spec fn max_duty(&self) -> Self::Duty;

    /// Whether the channel output is running.
    spec fn enabled(&self) -> bool;

    fn disable(&mut self)
        ensures
            !final(self).enabled(),
            final(self).duty() == old(self).duty(),
            final(self).max_duty() == old(self).max_duty(),
    ;

    fn enable(&mut self)
        ensures
            final(self).enabled(),
            final(self).duty() == old(self).duty(),
            final(self).max_duty() == old(self).max_duty(),
    ;

    fn get_duty(&self) -> (r: Self::Duty)
        ensures
            r == self.duty(),
    ;

    fn get_max_duty(&self) -> (r: Self::Duty)
        ensures
            r == self.max_duty(),
    ;

    fn set_duty(&mut self, duty: Self::Duty)
        ensures
            final(self).duty() == duty,
            final(self).enabled() == old(self).enabled(),
            final(self).max_duty() == old(self).max_duty(),
    ;
}

} // verus!
