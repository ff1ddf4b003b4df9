//! Selectors and the accessor dispatch layer for single colors.
//!
//! A selector names which channel or channels an operation addresses: a
//! single color (`Red`, `Green`, `Blue`) or an ordered tuple of two or
//! three distinct colors. Each accessor trait is implemented for every
//! selector shape whose operation is defined, so the selection resolves
//! at compile time to the per-channel capability calls. The tuple
//! selector implementations live in the neighbouring modules.

use vstd::prelude::*;

verus! {

use crate::RgbLed;
use crate::channel::DigitalOutput;
use crate::channel::PinLevel;
use crate::channel::PwmChannel;
use crate::channel::StatefulDigitalOutput;
use crate::channel::ToggleableOutput;
use crate::channel::flipped;

/// Selector for the red channel alone.
pub struct Red;

/// Selector for the green channel alone.
pub struct Green;

/// Selector for the blue channel alone.
pub struct Blue;

/// Digital-output operations routed through a selector. All channels a
/// combination selector names must share one error type.
///
/// A mutator invokes the named channels in selector order and stops at
/// the first failure, so channels after the failing one keep their
/// state; the failing channel itself is left with an unspecified level.
pub trait OutputAcessor<RED, GREEN, BLUE>: Sized {
    type Error;

    /// All channels the selector names drive `level`.
    spec fn all_at(led: &RgbLed<RED, GREEN, BLUE>, level: PinLevel) -> bool;

    /// The channels the selector does not name are unchanged.
    spec fn others_eq(pre: &RgbLed<RED, GREEN, BLUE>, post: &RgbLed<RED, GREEN, BLUE>) -> bool;

    /// What a failed mutation aiming at `level` leaves behind: the named
    /// channels before the failing one drive `level`, the named channels
    /// after it are unchanged, and the failing channel itself is
    /// unspecified.
    spec fn partial_at(
        pre: &RgbLed<RED, GREEN, BLUE>,
        post: &RgbLed<RED, GREEN, BLUE>,
        level: PinLevel,
    ) -> bool;

    fn set_state(led: &mut RgbLed<RED, GREEN, BLUE>, state: PinLevel) -> (r: Result<
        (),
        Self::Error,
    >)
        ensures
            Self::others_eq(old(led), final(led)),
            r is Ok ==> Self::all_at(final(led), state),
            r is Err ==> Self::partial_at(old(led), final(led), state),
    ;

    fn set_low(led: &mut RgbLed<RED, GREEN, BLUE>) -> (r: Result<(), Self::Error>)
        ensures
            Self::others_eq(old(led), final(led)),
            r is Ok ==> Self::all_at(final(led), PinLevel::Low),
            r is Err ==> Self::partial_at(old(led), final(led), PinLevel::Low),
    ;

    fn set_high(led: &mut RgbLed<RED, GREEN, BLUE>) -> (r: Result<(), Self::Error>)
        ensures
            Self::others_eq(old(led), final(led)),
            r is Ok ==> Self::all_at(final(led), PinLevel::High),
            r is Err ==> Self::partial_at(old(led), final(led), PinLevel::High),
    ;
}

/// Stateful digital-output operations routed through a selector: the
/// driven levels can be read back. A combination query asks whether
/// *all* the named channels are at the level, never whether any is; it
/// stops at the first channel that fails to answer.
pub trait StatefulOutputAcessor<RED, GREEN, BLUE>: OutputAcessor<RED, GREEN, BLUE> {
    fn is_set_low(led: &RgbLed<RED, GREEN, BLUE>) -> (r: Result<bool, Self::Error>)
        ensures
            r matches Ok(b) ==> b == Self::all_at(led, PinLevel::Low),
    ;

    fn is_set_high(led: &RgbLed<RED, GREEN, BLUE>) -> (r: Result<bool, Self::Error>)
        ensures
            r matches Ok(b) ==> b == Self::all_at(led, PinLevel::High),
    ;
}

/// Toggle operations routed through a selector. The error type is
/// constrained independently from `OutputAcessor`'s. A combination
/// toggle stops at the first failure, like the other mutators.
pub trait ToggleableOutputAcessor<RED, GREEN, BLUE>: Sized {
    type Error;

    /// Every channel the selector names drives the opposite of the
    /// level it drove before.
    spec fn toggles(pre: &RgbLed<RED, GREEN, BLUE>, post: &RgbLed<RED, GREEN, BLUE>) -> bool;

    /// The channels the selector does not name are unchanged.
    spec fn others_eq(pre: &RgbLed<RED, GREEN, BLUE>, post: &RgbLed<RED, GREEN, BLUE>) -> bool;

    /// What a failed toggle leaves behind: the named channels before the
    /// failing one are flipped, the named channels after it are
    /// unchanged, and the failing channel itself is unspecified.
    spec fn partial_toggles(pre: &RgbLed<RED, GREEN, BLUE>, post: &RgbLed<RED, GREEN, BLUE>) -> bool;

    fn toggle(led: &mut RgbLed<RED, GREEN, BLUE>) -> (r: Result<(), Self::Error>)
        ensures
            Self::others_eq(old(led), final(led)),
            r is Ok ==> Self::toggles(old(led), final(led)),
            r is Err ==> Self::partial_toggles(old(led), final(led)),
    ;
}

/// The infallible PWM mutators routed through a selector. All channels
/// a combination selector names must share one duty type. A combination
/// mutator drives every named channel unconditionally, in selector
/// order; there is no failure signal, so no short-circuit.
pub trait PwmAccessor<RED, GREEN, BLUE>: Sized {
    type Duty;

    /// The channels the selector does not name are unchanged.
    spec fn others_eq(pre: &RgbLed<RED, GREEN, BLUE>, post: &RgbLed<RED, GREEN, BLUE>) -> bool;

    /// Every named channel is running exactly when `on`, with its duty
    /// and maximum duty kept.
    spec fn enabled_set(
        pre: &RgbLed<RED, GREEN, BLUE>,
        post: &RgbLed<RED, GREEN, BLUE>,
        on: bool,
    ) -> bool;

    /// Every named channel has duty `duty`, with its running state and
    /// maximum duty kept.
    spec fn duty_set(
        pre: &RgbLed<RED, GREEN, BLUE>,
        post: &RgbLed<RED, GREEN, BLUE>,
        duty: Self::Duty,
    ) -> bool;

    fn disable(led: &mut RgbLed<RED, GREEN, BLUE>)
        ensures
            Self::others_eq(old(led), final(led)),
            Self::enabled_set(old(led), final(led), false),
    ;

    fn enable(led: &mut RgbLed<RED, GREEN, BLUE>)
        ensures
            Self::others_eq(old(led), final(led)),
            Self::enabled_set(old(led), final(led), true),
    ;

    fn set_duty(led: &mut RgbLed<RED, GREEN, BLUE>, duty: Self::Duty)
        ensures
            Self::others_eq(old(led), final(led)),
            Self::duty_set(old(led), final(led), duty),
    ;
}

/// The PWM queries, routed through a single color only. The duty of
/// two or three channels has no single well-defined value, so no
/// combination selector implements this trait and a combination query
/// is rejected when the program is built, rather than answered with one
/// arbitrary channel's value.
pub trait PwmQueryAccessor<RED, GREEN, BLUE>: PwmAccessor<RED, GREEN, BLUE> {
    /// The duty the named channel currently latches.
    spec fn duty_of(led: &RgbLed<RED, GREEN, BLUE>) -> Self::Duty;

    /// The largest duty the named channel accepts.
    spec fn max_duty_of(led: &RgbLed<RED, GREEN, BLUE>) -> Self::Duty;

    fn get_duty(led: &RgbLed<RED, GREEN, BLUE>) -> (r: Self::Duty)
        ensures
            r == Self::duty_of(led),
    ;

    fn get_max_duty(led: &RgbLed<RED, GREEN, BLUE>) -> (r: Self::Duty)
        ensures
            r == Self::max_duty_of(led),
    ;
}

impl<RED, GREEN, BLUE> RgbLed<RED, GREEN, BLUE> {
    pub fn set_state<A>(&mut self, state: PinLevel) -> (r: Result<(), A::Error>) where
        A: OutputAcessor<RED, GREEN, BLUE>,

        ensures
            A::others_eq(old(self), final(self)),
            r is Ok ==> A::all_at(final(self), state),
            r is Err ==> A::partial_at(old(self), final(self), state),
    {
        A::set_state(self, state)
    }

    pub fn set_low<A>(&mut self) -> (r: Result<(), A::Error>) where
        A: OutputAcessor<RED, GREEN, BLUE>,

        ensures
            A::others_eq(old(self), final(self)),
            r is Ok ==> A::all_at(final(self), PinLevel::Low),
            r is Err ==> A::partial_at(old(self), final(self), PinLevel::Low),
    {
        A::set_low(self)
    }

    pub fn set_high<A>(&mut self) -> (r: Result<(), A::Error>) where
        A: OutputAcessor<RED, GREEN, BLUE>,

        ensures
            A::others_eq(old(self), final(self)),
            r is Ok ==> A::all_at(final(self), PinLevel::High),
            r is Err ==> A::partial_at(old(self), final(self), PinLevel::High),
    {
        A::set_high(self)
    }

    pub fn is_set_low<A>(&self) -> (r: Result<bool, A::Error>) where
        A: StatefulOutputAcessor<RED, GREEN, BLUE>,

        ensures
            r matches Ok(b) ==> b == A::all_at(self, PinLevel::Low),
    {
        A::is_set_low(self)
    }

    pub fn is_set_high<A>(&self) -> (r: Result<bool, A::Error>) where
        A: StatefulOutputAcessor<RED, GREEN, BLUE>,

        ensures
            r matches Ok(b) ==> b == A::all_at(self, PinLevel::High),
    {
        A::is_set_high(self)
    }

    pub fn toggle<A>(&mut self) -> (r: Result<(), A::Error>) where
        A: ToggleableOutputAcessor<RED, GREEN, BLUE>,

        ensures
            A::others_eq(old(self), final(self)),
            r is Ok ==> A::toggles(old(self), final(self)),
            r is Err ==> A::partial_toggles(old(self), final(self)),
    {
        A::toggle(self)
    }

    pub fn disable<A>(&mut self) where
        A: PwmAccessor<RED, GREEN, BLUE>,

        ensures
            A::others_eq(old(self), final(self)),
            A::enabled_set(old(self), final(self), false),
    {
        A::disable(self)
    }

    pub fn enable<A>(&mut self) where
        A: PwmAccessor<RED, GREEN, BLUE>,

        ensures
            A::others_eq(old(self), final(self)),
            A::enabled_set(old(self), final(self), true),
    {
        A::enable(self)
    }

    pub fn set_duty<A>(&mut self, duty: A::Duty) where
        A: PwmAccessor<RED, GREEN, BLUE>,

        ensures
            A::others_eq(old(self), final(self)),
            A::duty_set(old(self), final(self), duty),
    {
        A::set_duty(self, duty)
    }

    pub fn get_duty<A>(&self) -> (r: A::Duty) where
        A: PwmQueryAccessor<RED, GREEN, BLUE>,

        ensures
            r == A::duty_of(self),
    {
        A::get_duty(self)
    }

    pub fn get_max_duty<A>(&self) -> (r: A::Duty) where
        A: PwmQueryAccessor<RED, GREEN, BLUE>,

        ensures
            r == A::max_duty_of(self),
    {
        A::get_max_duty(self)
    }
}

impl<RED, GREEN, BLUE> OutputAcessor<RED, GREEN, BLUE> for Red where RED: DigitalOutput {
    type Error = <RED as DigitalOutput>::Error;

    open spec fn all_at(led: &RgbLed<RED, GREEN, BLUE>, level: PinLevel) -> bool {
        led.red.pin_state() == level
    }

    open spec fn others_eq(pre: &RgbLed<RED, GREEN, BLUE>, post: &RgbLed<RED, GREEN, BLUE>) -> bool {
        post.green == pre.green && post.blue == pre.blue
    }

    open spec fn partial_at(
        pre: &RgbLed<RED, GREEN, BLUE>,
        post: &RgbLed<RED, GREEN, BLUE>,
        level: PinLevel,
    ) -> bool {
        true
    }

    fn set_state(led: &mut RgbLed<RED, GREEN, BLUE>, state: PinLevel) -> (r: Result<
        (),
        Self::Error,
    >) {
        led.red.set_state(state)
    }

    fn set_low(led: &mut RgbLed<RED, GREEN, BLUE>) -> (r: Result<(), Self::Error>) {
        led.red.set_low()
    }

    fn set_high(led: &mut RgbLed<RED, GREEN, BLUE>) -> (r: Result<(), Self::Error>) {
        led.red.set_high()
    }
}

impl<RED, GREEN, BLUE> StatefulOutputAcessor<RED, GREEN, BLUE> for Red where RED: StatefulDigitalOutput {
    fn is_set_low(led: &RgbLed<RED, GREEN, BLUE>) -> (r: Result<bool, Self::Error>) {
        led.red.is_set_low()
    }

    fn is_set_high(led: &RgbLed<RED, GREEN, BLUE>) -> (r: Result<bool, Self::Error>) {
        led.red.is_set_high()
    }
}

impl<RED, GREEN, BLUE> ToggleableOutputAcessor<RED, GREEN, BLUE> for Red where RED: ToggleableOutput {
    type Error = <RED as ToggleableOutput>::Error;

    open spec fn toggles(pre: &RgbLed<RED, GREEN, BLUE>, post: &RgbLed<RED, GREEN, BLUE>) -> bool {
        post.red.pin_state() == flipped(pre.red.pin_state())
    }

    open spec fn others_eq(pre: &RgbLed<RED, GREEN, BLUE>, post: &RgbLed<RED, GREEN, BLUE>) -> bool {
        post.green == pre.green && post.blue == pre.blue
    }

    open spec fn partial_toggles(
        pre: &RgbLed<RED, GREEN, BLUE>,
        post: &RgbLed<RED, GREEN, BLUE>,
    ) -> bool {
        true
    }

    fn toggle(led: &mut RgbLed<RED, GREEN, BLUE>) -> (r: Result<(), Self::Error>) {
        led.red.toggle()
    }
}

impl<RED, GREEN, BLUE> PwmAccessor<RED, GREEN, BLUE> for Red where RED: PwmChannel {
    type Duty = <RED as PwmChannel>::Duty;

    open spec fn others_eq(pre: &RgbLed<RED, GREEN, BLUE>, post: &RgbLed<RED, GREEN, BLUE>) -> bool {
        post.green == pre.green && post.blue == pre.blue
    }

    open spec fn enabled_set(
        pre: &RgbLed<RED, GREEN, BLUE>,
        post: &RgbLed<RED, GREEN, BLUE>,
        on: bool,
    ) -> bool {
        post.red.enabled() == on && post.red.duty() == pre.red.duty() && post.red.max_duty()
            == pre.red.max_duty()
    }

    open spec fn duty_set(
        pre: &RgbLed<RED, GREEN, BLUE>,
        post: &RgbLed<RED, GREEN, BLUE>,
        duty: Self::Duty,
    ) -> bool {
        post.red.duty() == duty && post.red.enabled() == pre.red.enabled()
            && post.red.max_duty() == pre.red.max_duty()
    }

    fn disable(led: &mut RgbLed<RED, GREEN, BLUE>) {
        led.red.disable()
    }

    fn enable(led: &mut RgbLed<RED, GREEN, BLUE>) {
        led.red.enable()
    }

    fn set_duty(led: &mut RgbLed<RED, GREEN, BLUE>, duty: Self::Duty) {
        led.red.set_duty(duty)
    }
}

impl<RED, GREEN, BLUE> PwmQueryAccessor<RED, GREEN, BLUE> for Red where RED: PwmChannel {
    open spec fn duty_of(led: &RgbLed<RED, GREEN, BLUE>) -> Self::Duty {
        led.red.duty()
    }

    open spec fn max_duty_of(led: &RgbLed<RED, GREEN, BLUE>) -> Self::Duty {
        led.red.max_duty()
    }

    fn get_duty(led: &RgbLed<RED, GREEN, BLUE>) -> (r: Self::Duty) {
        led.red.get_duty()
    }

    fn get_max_duty(led: &RgbLed<RED, GREEN, BLUE>) -> (r: Self::Duty) {
        led.red.get_max_duty()
    }
}

impl<RED, GREEN, BLUE> OutputAcessor<RED, GREEN, BLUE> for Green where GREEN: DigitalOutput {
    type Error = <GREEN as DigitalOutput>::Error;

    open spec fn all_at(led: &RgbLed<RED, GREEN, BLUE>, level: PinLevel) -> bool {
        led.green.pin_state() == level
    }

    open spec fn others_eq(pre: &RgbLed<RED, GREEN, BLUE>, post: &RgbLed<RED, GREEN, BLUE>) -> bool {
        post.red == pre.red && post.blue == pre.blue
    }

    open spec fn partial_at(
        pre: &RgbLed<RED, GREEN, BLUE>,
        post: &RgbLed<RED, GREEN, BLUE>,
        level: PinLevel,
    ) -> bool {
        true
    }

    fn set_state(led: &mut RgbLed<RED, GREEN, BLUE>, state: PinLevel) -> (r: Result<
        (),
        Self::Error,
    >) {
        led.green.set_state(state)
    }

    fn set_low(led: &mut RgbLed<RED, GREEN, BLUE>) -> (r: Result<(), Self::Error>) {
        led.green.set_low()
    }

    fn set_high(led: &mut RgbLed<RED, GREEN, BLUE>) -> (r: Result<(), Self::Error>) {
        led.green.set_high()
    }
}

impl<RED, GREEN, BLUE> StatefulOutputAcessor<RED, GREEN, BLUE> for Green where GREEN: StatefulDigitalOutput {
    fn is_set_low(led: &RgbLed<RED, GREEN, BLUE>) -> (r: Result<bool, Self::Error>) {
        led.green.is_set_low()
    }

    fn is_set_high(led: &RgbLed<RED, GREEN, BLUE>) -> (r: Result<bool, Self::Error>) {
        led.green.is_set_high()
    }
}

impl<RED, GREEN, BLUE> ToggleableOutputAcessor<RED, GREEN, BLUE> for Green where GREEN: ToggleableOutput {
    type Error = <GREEN as ToggleableOutput>::Error;

    open spec fn toggles(pre: &RgbLed<RED, GREEN, BLUE>, post: &RgbLed<RED, GREEN, BLUE>) -> bool {
        post.green.pin_state() == flipped(pre.green.pin_state())
    }

    open spec fn others_eq(pre: &RgbLed<RED, GREEN, BLUE>, post: &RgbLed<RED, GREEN, BLUE>) -> bool {
        post.red == pre.red && post.blue == pre.blue
    }

    open spec fn partial_toggles(
        pre: &RgbLed<RED, GREEN, BLUE>,
        post: &RgbLed<RED, GREEN, BLUE>,
    ) -> bool {
        true
    }

    fn toggle(led: &mut RgbLed<RED, GREEN, BLUE>) -> (r: Result<(), Self::Error>) {
        led.green.toggle()
    }
}

impl<RED, GREEN, BLUE> PwmAccessor<RED, GREEN, BLUE> for Green where GREEN: PwmChannel {
    type Duty = <GREEN as PwmChannel>::Duty;

    open spec fn others_eq(pre: &RgbLed<RED, GREEN, BLUE>, post: &RgbLed<RED, GREEN, BLUE>) -> bool {
        post.red == pre.red && post.blue == pre.blue
    }

    open spec fn enabled_set(
        pre: &RgbLed<RED, GREEN, BLUE>,
        post: &RgbLed<RED, GREEN, BLUE>,
        on: bool,
    ) -> bool {
        post.green.enabled() == on && post.green.duty() == pre.green.duty() && post.green.max_duty()
            == pre.green.max_duty()
    }

    open spec fn duty_set(
        pre: &RgbLed<RED, GREEN, BLUE>,
        post: &RgbLed<RED, GREEN, BLUE>,
        duty: Self::Duty,
    ) -> bool {
        post.green.duty() == duty && post.green.enabled() == pre.green.enabled()
            && post.green.max_duty() == pre.green.max_duty()
    }

    fn disable(led: &mut RgbLed<RED, GREEN, BLUE>) {
        led.green.disable()
    }

    fn enable(led: &mut RgbLed<RED, GREEN, BLUE>) {
        led.green.enable()
    }

    fn set_duty(led: &mut RgbLed<RED, GREEN, BLUE>, duty: Self::Duty) {
        led.green.set_duty(duty)
    }
}

impl<RED, GREEN, BLUE> PwmQueryAccessor<RED, GREEN, BLUE> for Green where GREEN: PwmChannel {
    open spec fn duty_of(led: &RgbLed<RED, GREEN, BLUE>) -> Self::Duty {
        led.green.duty()
    }

    open spec fn max_duty_of(led: &RgbLed<RED, GREEN, BLUE>) -> Self::Duty {
        led.green.max_duty()
    }

    fn get_duty(led: &RgbLed<RED, GREEN, BLUE>) -> (r: Self::Duty) {
        led.green.get_duty()
    }

    fn get_max_duty(led: &RgbLed<RED, GREEN, BLUE>) -> (r: Self::Duty) {
        led.green.get_max_duty()
    }
}

impl<RED, GREEN, BLUE> OutputAcessor<RED, GREEN, BLUE> for Blue where BLUE: DigitalOutput {
    type Error = <BLUE as DigitalOutput>::Error;

    open spec fn all_at(led: &RgbLed<RED, GREEN, BLUE>, level: PinLevel) -> bool {
        led.blue.pin_state() == level
    }

    open spec fn others_eq(pre: &RgbLed<RED, GREEN, BLUE>, post: &RgbLed<RED, GREEN, BLUE>) -> bool {
        post.red == pre.red && post.green == pre.green
    }

    open spec fn partial_at(
        pre: &RgbLed<RED, GREEN, BLUE>,
        post: &RgbLed<RED, GREEN, BLUE>,
        level: PinLevel,
    ) -> bool {
        true
    }

    fn set_state(led: &mut RgbLed<RED, GREEN, BLUE>, state: PinLevel) -> (r: Result<
        (),
        Self::Error,
    >) {
        led.blue.set_state(state)
    }

    fn set_low(led: &mut RgbLed<RED, GREEN, BLUE>) -> (r: Result<(), Self::Error>) {
        led.blue.set_low()
    }

    fn set_high(led: &mut RgbLed<RED, GREEN, BLUE>) -> (r: Result<(), Self::Error>) {
        led.blue.set_high()
    }
}

impl<RED, GREEN, BLUE> StatefulOutputAcessor<RED, GREEN, BLUE> for Blue where BLUE: StatefulDigitalOutput {
    fn is_set_low(led: &RgbLed<RED, GREEN, BLUE>) -> (r: Result<bool, Self::Error>) {
        led.blue.is_set_low()
    }

    fn is_set_high(led: &RgbLed<RED, GREEN, BLUE>) -> (r: Result<bool, Self::Error>) {
        led.blue.is_set_high()
    }
}

impl<RED, GREEN, BLUE> ToggleableOutputAcessor<RED, GREEN, BLUE> for Blue where BLUE: ToggleableOutput {
    type Error = <BLUE as ToggleableOutput>::Error;

    open spec fn toggles(pre: &RgbLed<RED, GREEN, BLUE>, post: &RgbLed<RED, GREEN, BLUE>) -> bool {
        post.blue.pin_state() == flipped(pre.blue.pin_state())
    }

    open spec fn others_eq(pre: &RgbLed<RED, GREEN, BLUE>, post: &RgbLed<RED, GREEN, BLUE>) -> bool {
        post.red == pre.red && post.green == pre.green
    }

    open spec fn partial_toggles(
        pre: &RgbLed<RED, GREEN, BLUE>,
        post: &RgbLed<RED, GREEN, BLUE>,
    ) -> bool {
        true
    }

    fn toggle(led: &mut RgbLed<RED, GREEN, BLUE>) -> (r: Result<(), Self::Error>) {
        led.blue.toggle()
    }
}

impl<RED, GREEN, BLUE> PwmAccessor<RED, GREEN, BLUE> for Blue where BLUE: PwmChannel {
    type Duty = <BLUE as PwmChannel>::Duty;

    open spec fn others_eq(pre: &RgbLed<RED, GREEN, BLUE>, post: &RgbLed<RED, GREEN, BLUE>) -> bool {
        post.red == pre.red && post.green == pre.green
    }

    open spec fn enabled_set(
        pre: &RgbLed<RED, GREEN, BLUE>,
        post: &RgbLed<RED, GREEN, BLUE>,
        on: bool,
    ) -> bool {
        post.blue.enabled() == on && post.blue.duty() == pre.blue.duty() && post.blue.max_duty()
            == pre.blue.max_duty()
    }

    open spec fn duty_set(
        pre: &RgbLed<RED, GREEN, BLUE>,
        post: &RgbLed<RED, GREEN, BLUE>,
        duty: Self::Duty,
    ) -> bool {
        post.blue.duty() == duty && post.blue.enabled() == pre.blue.enabled()
            && post.blue.max_duty() == pre.blue.max_duty()
    }

    fn disable(led: &mut RgbLed<RED, GREEN, BLUE>) {
        led.blue.disable()
    }

    fn enable(led: &mut RgbLed<RED, GREEN, BLUE>) {
        led.blue.enable()
    }

    fn set_duty(led: &mut RgbLed<RED, GREEN, BLUE>, duty: Self::Duty) {
        led.blue.set_duty(duty)
    }
}

impl<RED, GREEN, BLUE> PwmQueryAccessor<RED, GREEN, BLUE> for Blue where BLUE: PwmChannel {
    open spec fn duty_of(led: &RgbLed<RED, GREEN, BLUE>) -> Self::Duty {
        led.blue.duty()
    }

    open spec fn max_duty_of(led: &RgbLed<RED, GREEN, BLUE>) -> Self::Duty {
        led.blue.max_duty()
    }

    fn get_duty(led: &RgbLed<RED, GREEN, BLUE>) -> (r: Self::Duty) {
        led.blue.get_duty()
    }

    fn get_max_duty(led: &RgbLed<RED, GREEN, BLUE>) -> (r: Self::Duty) {
        led.blue.get_max_duty()
    }
}

} // verus!
