//! Accessor implementations for ordered triples of the three colors.
//!
//! A triple selector drives all three channels in selector order.
//! Mutators stop at the first failure, so a failure on the first or
//! second channel leaves the later ones untouched; queries answer for
//! all three channels at once. All three channels must share one error
//! type (and one duty type for PWM operations).

use vstd::prelude::*;

verus! {

use crate::RgbLed;
use crate::accessor::Blue;
use crate::accessor::Green;
use crate::accessor::OutputAcessor;
use crate::accessor::PwmAccessor;
use crate::accessor::Red;
use crate::accessor::StatefulOutputAcessor;
use crate::accessor::ToggleableOutputAcessor;
use crate::channel::DigitalOutput;
use crate::channel::PinLevel;
use crate::channel::PwmChannel;
use crate::channel::StatefulDigitalOutput;
use crate::channel::ToggleableOutput;
use crate::channel::flipped;


impl<RED, GREEN, BLUE> OutputAcessor<RED, GREEN, BLUE> for (Red, Green, Blue) where
    RED: DigitalOutput,
    GREEN: DigitalOutput<Error = <RED as DigitalOutput>::Error>,
    BLUE: DigitalOutput<Error = <RED as DigitalOutput>::Error>,
 {
    type Error = <RED as DigitalOutput>::Error;

    open spec fn all_at(led: &RgbLed<RED, GREEN, BLUE>, level: PinLevel) -> bool {
        led.red.pin_state() == level && led.green.pin_state() == level && led.blue.pin_state()
            == level
    }

    open spec fn others_eq(pre: &RgbLed<RED, GREEN, BLUE>, post: &RgbLed<RED, GREEN, BLUE>) -> bool {
        true
    }

    open spec fn partial_at(
        pre: &RgbLed<RED, GREEN, BLUE>,
        post: &RgbLed<RED, GREEN, BLUE>,
        level: PinLevel,
    ) -> bool {
        (post.green == pre.green && post.blue == pre.blue) || (post.red.pin_state() == level && post.blue
            == pre.blue) || (post.red.pin_state() == level && post.green.pin_state() == level)
    }

    fn set_state(led: &mut RgbLed<RED, GREEN, BLUE>, state: PinLevel) -> (r: Result<
        (),
        Self::Error,
    >) {
        match led.red.set_state(state) {
            Ok(()) => match led.green.set_state(state) {
                Ok(()) => led.blue.set_state(state),
                Err(e) => Err(e),
            },
            Err(e) => Err(e),
        }
    }

    fn set_low(led: &mut RgbLed<RED, GREEN, BLUE>) -> (r: Result<(), Self::Error>) {
        match led.red.set_low() {
            Ok(()) => match led.green.set_low() {
                Ok(()) => led.blue.set_low(),
                Err(e) => Err(e),
            },
            Err(e) => Err(e),
        }
    }

    fn set_high(led: &mut RgbLed<RED, GREEN, BLUE>) -> (r: Result<(), Self::Error>) {
        match led.red.set_high() {
            Ok(()) => match led.green.set_high() {
                Ok(()) => led.blue.set_high(),
                Err(e) => Err(e),
            },
            Err(e) => Err(e),
        }
    }
}

impl<RED, GREEN, BLUE> StatefulOutputAcessor<RED, GREEN, BLUE> for (Red, Green, Blue) where
    RED: StatefulDigitalOutput,
    GREEN: StatefulDigitalOutput,
    BLUE: StatefulDigitalOutput,
    GREEN: DigitalOutput<Error = <RED as DigitalOutput>::Error>,
    BLUE: DigitalOutput<Error = <RED as DigitalOutput>::Error>,
 {
    fn is_set_low(led: &RgbLed<RED, GREEN, BLUE>) -> (r: Result<bool, Self::Error>) {
        let a = match led.red.is_set_low() {
            Ok(v) => v,
            Err(e) => return Err(e),
        };
        let b = match led.green.is_set_low() {
            Ok(v) => v,
            Err(e) => return Err(e),
        };
        let c = match led.blue.is_set_low() {
            Ok(v) => v,
            Err(e) => return Err(e),
        };
        Ok(a && b && c)
    }

    fn is_set_high(led: &RgbLed<RED, GREEN, BLUE>) -> (r: Result<bool, Self::Error>) {
        let a = match led.red.is_set_high() {
            Ok(v) => v,
            Err(e) => return Err(e),
        };
        let b = match led.green.is_set_high() {
            Ok(v) => v,
            Err(e) => return Err(e),
        };
        let c = match led.blue.is_set_high() {
            Ok(v) => v,
            Err(e) => return Err(e),
        };
        Ok(a && b && c)
    }
}

impl<RED, GREEN, BLUE> ToggleableOutputAcessor<RED, GREEN, BLUE> for (Red, Green, Blue) where
    RED: ToggleableOutput,
    GREEN: ToggleableOutput<Error = <RED as ToggleableOutput>::Error>,
    BLUE: ToggleableOutput<Error = <RED as ToggleableOutput>::Error>,
 {
    type Error = <RED as ToggleableOutput>::Error;

    open spec fn toggles(pre: &RgbLed<RED, GREEN, BLUE>, post: &RgbLed<RED, GREEN, BLUE>) -> bool {
        post.red.pin_state() == flipped(pre.red.pin_state()) && post.green.pin_state() == flipped(
            pre.green.pin_state(),
        ) && post.blue.pin_state() == flipped(pre.blue.pin_state())
    }

    open spec fn others_eq(pre: &RgbLed<RED, GREEN, BLUE>, post: &RgbLed<RED, GREEN, BLUE>) -> bool {
        true
    }

    open spec fn partial_toggles(
        pre: &RgbLed<RED, GREEN, BLUE>,
        post: &RgbLed<RED, GREEN, BLUE>,
    ) -> bool {
        (post.green == pre.green && post.blue == pre.blue) || (post.red.pin_state() == flipped(
            pre.red.pin_state(),
        ) && post.blue == pre.blue) || (post.red.pin_state() == flipped(pre.red.pin_state())
            && post.green.pin_state() == flipped(pre.green.pin_state()))
    }

    fn toggle(led: &mut RgbLed<RED, GREEN, BLUE>) -> (r: Result<(), Self::Error>) {
        match led.red.toggle() {
            Ok(()) => match led.green.toggle() {
                Ok(()) => led.blue.toggle(),
                Err(e) => Err(e),
            },
            Err(e) => Err(e),
        }
    }
}

impl<RED, GREEN, BLUE> PwmAccessor<RED, GREEN, BLUE> for (Red, Green, Blue) where
    RED: PwmChannel,
    GREEN: PwmChannel<Duty = <RED as PwmChannel>::Duty>,
    BLUE: PwmChannel<Duty = <RED as PwmChannel>::Duty>,
    <RED as PwmChannel>::Duty: Copy,
 {
    type Duty = <RED as PwmChannel>::Duty;

    open spec fn others_eq(pre: &RgbLed<RED, GREEN, BLUE>, post: &RgbLed<RED, GREEN, BLUE>) -> bool {
        true
    }

    open spec fn enabled_set(
        pre: &RgbLed<RED, GREEN, BLUE>,
        post: &RgbLed<RED, GREEN, BLUE>,
        on: bool,
    ) -> bool {
        post.red.enabled() == on && post.red.duty() == pre.red.duty() && post.red.max_duty()
            == pre.red.max_duty() && post.green.enabled() == on && post.green.duty()
            == pre.green.duty() && post.green.max_duty() == pre.green.max_duty()
            && post.blue.enabled() == on && post.blue.duty() == pre.blue.duty()
            && post.blue.max_duty() == pre.blue.max_duty()
    }

    open spec fn duty_set(
        pre: &RgbLed<RED, GREEN, BLUE>,
        post: &RgbLed<RED, GREEN, BLUE>,
        duty: Self::Duty,
    ) -> bool {
        post.red.duty() == duty && post.red.enabled() == pre.red.enabled() && post.red.max_duty()
            == pre.red.max_duty() && post.green.duty() == duty && post.green.enabled()
            == pre.green.enabled() && post.green.max_duty() == pre.green.max_duty()
            && post.blue.duty() == duty && post.blue.enabled() == pre.blue.enabled()
            && post.blue.max_duty() == pre.blue.max_duty()
    }

    fn disable(led: &mut RgbLed<RED, GREEN, BLUE>) {
        led.red.disable();
        led.green.disable();
        led.blue.disable();
    }

    fn enable(led: &mut RgbLed<RED, GREEN, BLUE>) {
        led.red.enable();
        led.green.enable();
        led.blue.enable();
    }

    fn set_duty(led: &mut RgbLed<RED, GREEN, BLUE>, duty: Self::Duty) {
        led.red.set_duty(duty);
        led.green.set_duty(duty);
        led.blue.set_duty(duty);
    }
}

impl<RED, GREEN, BLUE> OutputAcessor<RED, GREEN, BLUE> for (Red, Blue, Green) where
    RED: DigitalOutput,
    BLUE: DigitalOutput<Error = <RED as DigitalOutput>::Error>,
    GREEN: DigitalOutput<Error = <RED as DigitalOutput>::Error>,
 {
    type Error = <RED as DigitalOutput>::Error;

    open spec fn all_at(led: &RgbLed<RED, GREEN, BLUE>, level: PinLevel) -> bool {
        led.red.pin_state() == level && led.green.pin_state() == level && led.blue.pin_state()
            == level
    }

    open spec fn others_eq(pre: &RgbLed<RED, GREEN, BLUE>, post: &RgbLed<RED, GREEN, BLUE>) -> bool {
        true
    }

    open spec fn partial_at(
        pre: &RgbLed<RED, GREEN, BLUE>,
        post: &RgbLed<RED, GREEN, BLUE>,
        level: PinLevel,
    ) -> bool {
        (post.blue == pre.blue && post.green == pre.green) || (post.red.pin_state() == level && post.green
            == pre.green) || (post.red.pin_state() == level && post.blue.pin_state() == level)
    }

    fn set_state(led: &mut RgbLed<RED, GREEN, BLUE>, state: PinLevel) -> (r: Result<
        (),
        Self::Error,
    >) {
        match led.red.set_state(state) {
            Ok(()) => match led.blue.set_state(state) {
                Ok(()) => led.green.set_state(state),
                Err(e) => Err(e),
            },
            Err(e) => Err(e),
        }
    }

    fn set_low(led: &mut RgbLed<RED, GREEN, BLUE>) -> (r: Result<(), Self::Error>) {
        match led.red.set_low() {
            Ok(()) => match led.blue.set_low() {
                Ok(()) => led.green.set_low(),
                Err(e) => Err(e),
            },
            Err(e) => Err(e),
        }
    }

    fn set_high(led: &mut RgbLed<RED, GREEN, BLUE>) -> (r: Result<(), Self::Error>) {
        match led.red.set_high() {
            Ok(()) => match led.blue.set_high() {
                Ok(()) => led.green.set_high(),
                Err(e) => Err(e),
            },
            Err(e) => Err(e),
        }
    }
}

impl<RED, GREEN, BLUE> StatefulOutputAcessor<RED, GREEN, BLUE> for (Red, Blue, Green) where
    RED: StatefulDigitalOutput,
    BLUE: StatefulDigitalOutput,
    GREEN: StatefulDigitalOutput,
    BLUE: DigitalOutput<Error = <RED as DigitalOutput>::Error>,
    GREEN: DigitalOutput<Error = <RED as DigitalOutput>::Error>,
 {
    fn is_set_low(led: &RgbLed<RED, GREEN, BLUE>) -> (r: Result<bool, Self::Error>) {
        let a = match led.red.is_set_low() {
            Ok(v) => v,
            Err(e) => return Err(e),
        };
        let b = match led.blue.is_set_low() {
            Ok(v) => v,
            Err(e) => return Err(e),
        };
        let c = match led.green.is_set_low() {
            Ok(v) => v,
            Err(e) => return Err(e),
        };
        Ok(a && b && c)
    }

    fn is_set_high(led: &RgbLed<RED, GREEN, BLUE>) -> (r: Result<bool, Self::Error>) {
        let a = match led.red.is_set_high() {
            Ok(v) => v,
            Err(e) => return Err(e),
        };
        let b = match led.blue.is_set_high() {
            Ok(v) => v,
            Err(e) => return Err(e),
        };
        let c = match led.green.is_set_high() {
            Ok(v) => v,
            Err(e) => return Err(e),
        };
        Ok(a && b && c)
    }
}

impl<RED, GREEN, BLUE> ToggleableOutputAcessor<RED, GREEN, BLUE> for (Red, Blue, Green) where
    RED: ToggleableOutput,
    BLUE: ToggleableOutput<Error = <RED as ToggleableOutput>::Error>,
    GREEN: ToggleableOutput<Error = <RED as ToggleableOutput>::Error>,
 {
    type Error = <RED as ToggleableOutput>::Error;

    open spec fn toggles(pre: &RgbLed<RED, GREEN, BLUE>, post: &RgbLed<RED, GREEN, BLUE>) -> bool {
        post.red.pin_state() == flipped(pre.red.pin_state()) && post.green.pin_state() == flipped(
            pre.green.pin_state(),
        ) && post.blue.pin_state() == flipped(pre.blue.pin_state())
    }

    open spec fn others_eq(pre: &RgbLed<RED, GREEN, BLUE>, post: &RgbLed<RED, GREEN, BLUE>) -> bool {
        true
    }

    open spec fn partial_toggles(
        pre: &RgbLed<RED, GREEN, BLUE>,
        post: &RgbLed<RED, GREEN, BLUE>,
    ) -> bool {
        (post.blue == pre.blue && post.green == pre.green) || (post.red.pin_state() == flipped(
            pre.red.pin_state(),
        ) && post.green == pre.green) || (post.red.pin_state() == flipped(pre.red.pin_state())
            && post.blue.pin_state() == flipped(pre.blue.pin_state()))
    }

    fn toggle(led: &mut RgbLed<RED, GREEN, BLUE>) -> (r: Result<(), Self::Error>) {
        match led.red.toggle() {
            Ok(()) => match led.blue.toggle() {
                Ok(()) => led.green.toggle(),
                Err(e) => Err(e),
            },
            Err(e) => Err(e),
        }
    }
}

impl<RED, GREEN, BLUE> PwmAccessor<RED, GREEN, BLUE> for (Red, Blue, Green) where
    RED: PwmChannel,
    BLUE: PwmChannel<Duty = <RED as PwmChannel>::Duty>,
    GREEN: PwmChannel<Duty = <RED as PwmChannel>::Duty>,
    <RED as PwmChannel>::Duty: Copy,
 {
    type Duty = <RED as PwmChannel>::Duty;

    open spec fn others_eq(pre: &RgbLed<RED, GREEN, BLUE>, post: &RgbLed<RED, GREEN, BLUE>) -> bool {
        true
    }

    open spec fn enabled_set(
        pre: &RgbLed<RED, GREEN, BLUE>,
        post: &RgbLed<RED, GREEN, BLUE>,
        on: bool,
    ) -> bool {
        post.red.enabled() == on && post.red.duty() == pre.red.duty() && post.red.max_duty()
            == pre.red.max_duty() && post.green.enabled() == on && post.green.duty()
            == pre.green.duty() && post.green.max_duty() == pre.green.max_duty()
            && post.blue.enabled() == on && post.blue.duty() == pre.blue.duty()
            && post.blue.max_duty() == pre.blue.max_duty()
    }

    open spec fn duty_set(
        pre: &RgbLed<RED, GREEN, BLUE>,
        post: &RgbLed<RED, GREEN, BLUE>,
        duty: Self::Duty,
    ) -> bool {
        post.red.duty() == duty && post.red.enabled() == pre.red.enabled() && post.red.max_duty()
            == pre.red.max_duty() && post.green.duty() == duty && post.green.enabled()
            == pre.green.enabled() && post.green.max_duty() == pre.green.max_duty()
            && post.blue.duty() == duty && post.blue.enabled() == pre.blue.enabled()
            && post.blue.max_duty() == pre.blue.max_duty()
    }

    fn disable(led: &mut RgbLed<RED, GREEN, BLUE>) {
        led.red.disable();
        led.blue.disable();
        led.green.disable();
    }

    fn enable(led: &mut RgbLed<RED, GREEN, BLUE>) {
        led.red.enable();
        led.blue.enable();
        led.green.enable();
    }

    fn set_duty(led: &mut RgbLed<RED, GREEN, BLUE>, duty: Self::Duty) {
        led.red.set_duty(duty);
        led.blue.set_duty(duty);
        led.green.set_duty(duty);
    }
}

impl<RED, GREEN, BLUE> OutputAcessor<RED, GREEN, BLUE> for (Green, Red, Blue) where
    GREEN: DigitalOutput,
    RED: DigitalOutput<Error = <GREEN as DigitalOutput>::Error>,
    BLUE: DigitalOutput<Error = <GREEN as DigitalOutput>::Error>,
 {
    type Error = <GREEN as DigitalOutput>::Error;

    open spec fn all_at(led: &RgbLed<RED, GREEN, BLUE>, level: PinLevel) -> bool {
        led.red.pin_state() == level && led.green.pin_state() == level && led.blue.pin_state()
            == level
    }

    open spec fn others_eq(pre: &RgbLed<RED, GREEN, BLUE>, post: &RgbLed<RED, GREEN, BLUE>) -> bool {
        true
    }

    open spec fn partial_at(
        pre: &RgbLed<RED, GREEN, BLUE>,
        post: &RgbLed<RED, GREEN, BLUE>,
        level: PinLevel,
    ) -> bool {
        (post.red == pre.red && post.blue == pre.blue) || (post.green.pin_state() == level && post.blue
            == pre.blue) || (post.green.pin_state() == level && post.red.pin_state() == level)
    }

    fn set_state(led: &mut RgbLed<RED, GREEN, BLUE>, state: PinLevel) -> (r: Result<
        (),
        Self::Error,
    >) {
        match led.green.set_state(state) {
            Ok(()) => match led.red.set_state(state) {
                Ok(()) => led.blue.set_state(state),
                Err(e) => Err(e),
            },
            Err(e) => Err(e),
        }
    }

    fn set_low(led: &mut RgbLed<RED, GREEN, BLUE>) -> (r: Result<(), Self::Error>) {
        match led.green.set_low() {
            Ok(()) => match led.red.set_low() {
                Ok(()) => led.blue.set_low(),
                Err(e) => Err(e),
            },
            Err(e) => Err(e),
        }
    }

    fn set_high(led: &mut RgbLed<RED, GREEN, BLUE>) -> (r: Result<(), Self::Error>) {
        match led.green.set_high() {
            Ok(()) => match led.red.set_high() {
                Ok(()) => led.blue.set_high(),
                Err(e) => Err(e),
            },
            Err(e) => Err(e),
        }
    }
}

impl<RED, GREEN, BLUE> StatefulOutputAcessor<RED, GREEN, BLUE> for (Green, Red, Blue) where
    GREEN: StatefulDigitalOutput,
    RED: StatefulDigitalOutput,
    BLUE: StatefulDigitalOutput,
    RED: DigitalOutput<Error = <GREEN as DigitalOutput>::Error>,
    BLUE: DigitalOutput<Error = <GREEN as DigitalOutput>::Error>,
 {
    fn is_set_low(led: &RgbLed<RED, GREEN, BLUE>) -> (r: Result<bool, Self::Error>) {
        let a = match led.green.is_set_low() {
            Ok(v) => v,
            Err(e) => return Err(e),
        };
        let b = match led.red.is_set_low() {
            Ok(v) => v,
            Err(e) => return Err(e),
        };
        let c = match led.blue.is_set_low() {
            Ok(v) => v,
            Err(e) => return Err(e),
        };
        Ok(a && b && c)
    }

    fn is_set_high(led: &RgbLed<RED, GREEN, BLUE>) -> (r: Result<bool, Self::Error>) {
        let a = match led.green.is_set_high() {
            Ok(v) => v,
            Err(e) => return Err(e),
        };
        let b = match led.red.is_set_high() {
            Ok(v) => v,
            Err(e) => return Err(e),
        };
        let c = match led.blue.is_set_high() {
            Ok(v) => v,
            Err(e) => return Err(e),
        };
        Ok(a && b && c)
    }
}

impl<RED, GREEN, BLUE> ToggleableOutputAcessor<RED, GREEN, BLUE> for (Green, Red, Blue) where
    GREEN: ToggleableOutput,
    RED: ToggleableOutput<Error = <GREEN as ToggleableOutput>::Error>,
    BLUE: ToggleableOutput<Error = <GREEN as ToggleableOutput>::Error>,
 {
    type Error = <GREEN as ToggleableOutput>::Error;

    open spec fn toggles(pre: &RgbLed<RED, GREEN, BLUE>, post: &RgbLed<RED, GREEN, BLUE>) -> bool {
        post.red.pin_state() == flipped(pre.red.pin_state()) && post.green.pin_state() == flipped(
            pre.green.pin_state(),
        ) && post.blue.pin_state() == flipped(pre.blue.pin_state())
    }

    open spec fn others_eq(pre: &RgbLed<RED, GREEN, BLUE>, post: &RgbLed<RED, GREEN, BLUE>) -> bool {
        true
    }

    open spec fn partial_toggles(
        pre: &RgbLed<RED, GREEN, BLUE>,
        post: &RgbLed<RED, GREEN, BLUE>,
    ) -> bool {
        (post.red == pre.red && post.blue == pre.blue) || (post.green.pin_state() == flipped(
            pre.green.pin_state(),
        ) && post.blue == pre.blue) || (post.green.pin_state() == flipped(pre.green.pin_state())
            && post.red.pin_state() == flipped(pre.red.pin_state()))
    }

    fn toggle(led: &mut RgbLed<RED, GREEN, BLUE>) -> (r: Result<(), Self::Error>) {
        match led.green.toggle() {
            Ok(()) => match led.red.toggle() {
                Ok(()) => led.blue.toggle(),
                Err(e) => Err(e),
            },
            Err(e) => Err(e),
        }
    }
}

impl<RED, GREEN, BLUE> PwmAccessor<RED, GREEN, BLUE> for (Green, Red, Blue) where
    GREEN: PwmChannel,
    RED: PwmChannel<Duty = <GREEN as PwmChannel>::Duty>,
    BLUE: PwmChannel<Duty = <GREEN as PwmChannel>::Duty>,
    <GREEN as PwmChannel>::Duty: Copy,
 {
    type Duty = <GREEN as PwmChannel>::Duty;

    open spec fn others_eq(pre: &RgbLed<RED, GREEN, BLUE>, post: &RgbLed<RED, GREEN, BLUE>) -> bool {
        true
    }

    open spec fn enabled_set(
        pre: &RgbLed<RED, GREEN, BLUE>,
        post: &RgbLed<RED, GREEN, BLUE>,
        on: bool,
    ) -> bool {
        post.red.enabled() == on && post.red.duty() == pre.red.duty() && post.red.max_duty()
            == pre.red.max_duty() && post.green.enabled() == on && post.green.duty()
            == pre.green.duty() && post.green.max_duty() == pre.green.max_duty()
            && post.blue.enabled() == on && post.blue.duty() == pre.blue.duty()
            && post.blue.max_duty() == pre.blue.max_duty()
    }

    open spec fn duty_set(
        pre: &RgbLed<RED, GREEN, BLUE>,
        post: &RgbLed<RED, GREEN, BLUE>,
        duty: Self::Duty,
    ) -> bool {
        post.red.duty() == duty && post.red.enabled() == pre.red.enabled() && post.red.max_duty()
            == pre.red.max_duty() && post.green.duty() == duty && post.green.enabled()
            == pre.green.enabled() && post.green.max_duty() == pre.green.max_duty()
            && post.blue.duty() == duty && post.blue.enabled() == pre.blue.enabled()
            && post.blue.max_duty() == pre.blue.max_duty()
    }

    fn disable(led: &mut RgbLed<RED, GREEN, BLUE>) {
        led.green.disable();
        led.red.disable();
        led.blue.disable();
    }

    fn enable(led: &mut RgbLed<RED, GREEN, BLUE>) {
        led.green.enable();
        led.red.enable();
        led.blue.enable();
    }

    fn set_duty(led: &mut RgbLed<RED, GREEN, BLUE>, duty: Self::Duty) {
        led.green.set_duty(duty);
        led.red.set_duty(duty);
        led.blue.set_duty(duty);
    }
}

impl<RED, GREEN, BLUE> OutputAcessor<RED, GREEN, BLUE> for (Green, Blue, Red) where
    GREEN: DigitalOutput,
    BLUE: DigitalOutput<Error = <GREEN as DigitalOutput>::Error>,
    RED: DigitalOutput<Error = <GREEN as DigitalOutput>::Error>,
 {
    type Error = <GREEN as DigitalOutput>::Error;

    open spec fn all_at(led: &RgbLed<RED, GREEN, BLUE>, level: PinLevel) -> bool {
        led.red.pin_state() == level && led.green.pin_state() == level && led.blue.pin_state()
            == level
    }

    open spec fn others_eq(pre: &RgbLed<RED, GREEN, BLUE>, post: &RgbLed<RED, GREEN, BLUE>) -> bool {
        true
    }

    open spec fn partial_at(
        pre: &RgbLed<RED, GREEN, BLUE>,
        post: &RgbLed<RED, GREEN, BLUE>,
        level: PinLevel,
    ) -> bool {
        (post.blue == pre.blue && post.red == pre.red) || (post.green.pin_state() == level && post.red
            == pre.red) || (post.green.pin_state() == level && post.blue.pin_state() == level)
    }

    fn set_state(led: &mut RgbLed<RED, GREEN, BLUE>, state: PinLevel) -> (r: Result<
        (),
        Self::Error,
    >) {
        match led.green.set_state(state) {
            Ok(()) => match led.blue.set_state(state) {
                Ok(()) => led.red.set_state(state),
                Err(e) => Err(e),
            },
            Err(e) => Err(e),
        }
    }

    fn set_low(led: &mut RgbLed<RED, GREEN, BLUE>) -> (r: Result<(), Self::Error>) {
        match led.green.set_low() {
            Ok(()) => match led.blue.set_low() {
                Ok(()) => led.red.set_low(),
                Err(e) => Err(e),
            },
            Err(e) => Err(e),
        }
    }

    fn set_high(led: &mut RgbLed<RED, GREEN, BLUE>) -> (r: Result<(), Self::Error>) {
        match led.green.set_high() {
            Ok(()) => match led.blue.set_high() {
                Ok(()) => led.red.set_high(),
                Err(e) => Err(e),
            },
            Err(e) => Err(e),
        }
    }
}

impl<RED, GREEN, BLUE> StatefulOutputAcessor<RED, GREEN, BLUE> for (Green, Blue, Red) where
    GREEN: StatefulDigitalOutput,
    BLUE: StatefulDigitalOutput,
    RED: StatefulDigitalOutput,
    BLUE: DigitalOutput<Error = <GREEN as DigitalOutput>::Error>,
    RED: DigitalOutput<Error = <GREEN as DigitalOutput>::Error>,
 {
    fn is_set_low(led: &RgbLed<RED, GREEN, BLUE>) -> (r: Result<bool, Self::Error>) {
        let a = match led.green.is_set_low() {
            Ok(v) => v,
            Err(e) => return Err(e),
        };
        let b = match led.blue.is_set_low() {
            Ok(v) => v,
            Err(e) => return Err(e),
        };
        let c = match led.red.is_set_low() {
            Ok(v) => v,
            Err(e) => return Err(e),
        };
        Ok(a && b && c)
    }

    fn is_set_high(led: &RgbLed<RED, GREEN, BLUE>) -> (r: Result<bool, Self::Error>) {
        let a = match led.green.is_set_high() {
            Ok(v) => v,
            Err(e) => return Err(e),
        };
        let b = match led.blue.is_set_high() {
            Ok(v) => v,
            Err(e) => return Err(e),
        };
        let c = match led.red.is_set_high() {
            Ok(v) => v,
            Err(e) => return Err(e),
        };
        Ok(a && b && c)
    }
}

impl<RED, GREEN, BLUE> ToggleableOutputAcessor<RED, GREEN, BLUE> for (Green, Blue, Red) where
    GREEN: ToggleableOutput,
    BLUE: ToggleableOutput<Error = <GREEN as ToggleableOutput>::Error>,
    RED: ToggleableOutput<Error = <GREEN as ToggleableOutput>::Error>,
 {
    type Error = <GREEN as ToggleableOutput>::Error;

    open spec fn toggles(pre: &RgbLed<RED, GREEN, BLUE>, post: &RgbLed<RED, GREEN, BLUE>) -> bool {
        post.red.pin_state() == flipped(pre.red.pin_state()) && post.green.pin_state() == flipped(
            pre.green.pin_state(),
        ) && post.blue.pin_state() == flipped(pre.blue.pin_state())
    }

    open spec fn others_eq(pre: &RgbLed<RED, GREEN, BLUE>, post: &RgbLed<RED, GREEN, BLUE>) -> bool {
        true
    }

    open spec fn partial_toggles(
        pre: &RgbLed<RED, GREEN, BLUE>,
        post: &RgbLed<RED, GREEN, BLUE>,
    ) -> bool {
        (post.blue == pre.blue && post.red == pre.red) || (post.green.pin_state() == flipped(
            pre.green.pin_state(),
        ) && post.red == pre.red) || (post.green.pin_state() == flipped(pre.green.pin_state())
            && post.blue.pin_state() == flipped(pre.blue.pin_state()))
    }

    fn toggle(led: &mut RgbLed<RED, GREEN, BLUE>) -> (r: Result<(), Self::Error>) {
        match led.green.toggle() {
            Ok(()) => match led.blue.toggle() {
                Ok(()) => led.red.toggle(),
                Err(e) => Err(e),
            },
            Err(e) => Err(e),
        }
    }
}

impl<RED, GREEN, BLUE> PwmAccessor<RED, GREEN, BLUE> for (Green, Blue, Red) where
    GREEN: PwmChannel,
    BLUE: PwmChannel<Duty = <GREEN as PwmChannel>::Duty>,
    RED: PwmChannel<Duty = <GREEN as PwmChannel>::Duty>,
    <GREEN as PwmChannel>::Duty: Copy,
 {
    type Duty = <GREEN as PwmChannel>::Duty;

    open spec fn others_eq(pre: &RgbLed<RED, GREEN, BLUE>, post: &RgbLed<RED, GREEN, BLUE>) -> bool {
        true
    }

    open spec fn enabled_set(
        pre: &RgbLed<RED, GREEN, BLUE>,
        post: &RgbLed<RED, GREEN, BLUE>,
        on: bool,
    ) -> bool {
        post.red.enabled() == on && post.red.duty() == pre.red.duty() && post.red.max_duty()
            == pre.red.max_duty() && post.green.enabled() == on && post.green.duty()
            == pre.green.duty() && post.green.max_duty() == pre.green.max_duty()
            && post.blue.enabled() == on && post.blue.duty() == pre.blue.duty()
            && post.blue.max_duty() == pre.blue.max_duty()
    }

    open spec fn duty_set(
        pre: &RgbLed<RED, GREEN, BLUE>,
        post: &RgbLed<RED, GREEN, BLUE>,
        duty: Self::Duty,
    ) -> bool {
        post.red.duty() == duty && post.red.enabled() == pre.red.enabled() && post.red.max_duty()
            == pre.red.max_duty() && post.green.duty() == duty && post.green.enabled()
            == pre.green.enabled() && post.green.max_duty() == pre.green.max_duty()
            && post.blue.duty() == duty && post.blue.enabled() == pre.blue.enabled()
            && post.blue.max_duty() == pre.blue.max_duty()
    }

    fn disable(led: &mut RgbLed<RED, GREEN, BLUE>) {
        led.green.disable();
        led.blue.disable();
        led.red.disable();
    }

    fn enable(led: &mut RgbLed<RED, GREEN, BLUE>) {
        led.green.enable();
        led.blue.enable();
        led.red.enable();
    }

    fn set_duty(led: &mut RgbLed<RED, GREEN, BLUE>, duty: Self::Duty) {
        led.green.set_duty(duty);
        led.blue.set_duty(duty);
        led.red.set_duty(duty);
    }
}

impl<RED, GREEN, BLUE> OutputAcessor<RED, GREEN, BLUE> for (Blue, Red, Green) where
    BLUE: DigitalOutput,
    RED: DigitalOutput<Error = <BLUE as DigitalOutput>::Error>,
    GREEN: DigitalOutput<Error = <BLUE as DigitalOutput>::Error>,
 {
    type Error = <BLUE as DigitalOutput>::Error;

    open spec fn all_at(led: &RgbLed<RED, GREEN, BLUE>, level: PinLevel) -> bool {
        led.red.pin_state() == level && led.green.pin_state() == level && led.blue.pin_state()
            == level
    }

    open spec fn others_eq(pre: &RgbLed<RED, GREEN, BLUE>, post: &RgbLed<RED, GREEN, BLUE>) -> bool {
        true
    }

    open spec fn partial_at(
        pre: &RgbLed<RED, GREEN, BLUE>,
        post: &RgbLed<RED, GREEN, BLUE>,
        level: PinLevel,
    ) -> bool {
        (post.red == pre.red && post.green == pre.green) || (post.blue.pin_state() == level && post.green
            == pre.green) || (post.blue.pin_state() == level && post.red.pin_state() == level)
    }

    fn set_state(led: &mut RgbLed<RED, GREEN, BLUE>, state: PinLevel) -> (r: Result<
        (),
        Self::Error,
    >) {
        match led.blue.set_state(state) {
            Ok(()) => match led.red.set_state(state) {
                Ok(()) => led.green.set_state(state),
                Err(e) => Err(e),
            },
            Err(e) => Err(e),
        }
    }

    fn set_low(led: &mut RgbLed<RED, GREEN, BLUE>) -> (r: Result<(), Self::Error>) {
        match led.blue.set_low() {
            Ok(()) => match led.red.set_low() {
                Ok(()) => led.green.set_low(),
                Err(e) => Err(e),
            },
            Err(e) => Err(e),
        }
    }

    fn set_high(led: &mut RgbLed<RED, GREEN, BLUE>) -> (r: Result<(), Self::Error>) {
        match led.blue.set_high() {
            Ok(()) => match led.red.set_high() {
                Ok(()) => led.green.set_high(),
                Err(e) => Err(e),
            },
            Err(e) => Err(e),
        }
    }
}

impl<RED, GREEN, BLUE> StatefulOutputAcessor<RED, GREEN, BLUE> for (Blue, Red, Green) where
    BLUE: StatefulDigitalOutput,
    RED: StatefulDigitalOutput,
    GREEN: StatefulDigitalOutput,
    RED: DigitalOutput<Error = <BLUE as DigitalOutput>::Error>,
    GREEN: DigitalOutput<Error = <BLUE as DigitalOutput>::Error>,
 {
    fn is_set_low(led: &RgbLed<RED, GREEN, BLUE>) -> (r: Result<bool, Self::Error>) {
        let a = match led.blue.is_set_low() {
            Ok(v) => v,
            Err(e) => return Err(e),
        };
        let b = match led.red.is_set_low() {
            Ok(v) => v,
            Err(e) => return Err(e),
        };
        let c = match led.green.is_set_low() {
            Ok(v) => v,
            Err(e) => return Err(e),
        };
        Ok(a && b && c)
    }

    fn is_set_high(led: &RgbLed<RED, GREEN, BLUE>) -> (r: Result<bool, Self::Error>) {
        let a = match led.blue.is_set_high() {
            Ok(v) => v,
            Err(e) => return Err(e),
        };
        let b = match led.red.is_set_high() {
            Ok(v) => v,
            Err(e) => return Err(e),
        };
        let c = match led.green.is_set_high() {
            Ok(v) => v,
            Err(e) => return Err(e),
        };
        Ok(a && b && c)
    }
}

impl<RED, GREEN, BLUE> ToggleableOutputAcessor<RED, GREEN, BLUE> for (Blue, Red, Green) where
    BLUE: ToggleableOutput,
    RED: ToggleableOutput<Error = <BLUE as ToggleableOutput>::Error>,
    GREEN: ToggleableOutput<Error = <BLUE as ToggleableOutput>::Error>,
 {
    type Error = <BLUE as ToggleableOutput>::Error;

    open spec fn toggles(pre: &RgbLed<RED, GREEN, BLUE>, post: &RgbLed<RED, GREEN, BLUE>) -> bool {
        post.red.pin_state() == flipped(pre.red.pin_state()) && post.green.pin_state() == flipped(
            pre.green.pin_state(),
        ) && post.blue.pin_state() == flipped(pre.blue.pin_state())
    }

    open spec fn others_eq(pre: &RgbLed<RED, GREEN, BLUE>, post: &RgbLed<RED, GREEN, BLUE>) -> bool {
        true
    }

    open spec fn partial_toggles(
        pre: &RgbLed<RED, GREEN, BLUE>,
        post: &RgbLed<RED, GREEN, BLUE>,
    ) -> bool {
        (post.red == pre.red && post.green == pre.green) || (post.blue.pin_state() == flipped(
            pre.blue.pin_state(),
        ) && post.green == pre.green) || (post.blue.pin_state() == flipped(pre.blue.pin_state())
            && post.red.pin_state() == flipped(pre.red.pin_state()))
    }

    fn toggle(led: &mut RgbLed<RED, GREEN, BLUE>) -> (r: Result<(), Self::Error>) {
        match led.blue.toggle() {
            Ok(()) => match led.red.toggle() {
                Ok(()) => led.green.toggle(),
                Err(e) => Err(e),
            },
            Err(e) => Err(e),
        }
    }
}

impl<RED, GREEN, BLUE> PwmAccessor<RED, GREEN, BLUE> for (Blue, Red, Green) where
    BLUE: PwmChannel,
    RED: PwmChannel<Duty = <BLUE as PwmChannel>::Duty>,
    GREEN: PwmChannel<Duty = <BLUE as PwmChannel>::Duty>,
    <BLUE as PwmChannel>::Duty: Copy,
 {
    type Duty = <BLUE as PwmChannel>::Duty;

    open spec fn others_eq(pre: &RgbLed<RED, GREEN, BLUE>, post: &RgbLed<RED, GREEN, BLUE>) -> bool {
        true
    }

    open spec fn enabled_set(
        pre: &RgbLed<RED, GREEN, BLUE>,
        post: &RgbLed<RED, GREEN, BLUE>,
        on: bool,
    ) -> bool {
        post.red.enabled() == on && post.red.duty() == pre.red.duty() && post.red.max_duty()
            == pre.red.max_duty() && post.green.enabled() == on && post.green.duty()
            == pre.green.duty() && post.green.max_duty() == pre.green.max_duty()
            && post.blue.enabled() == on && post.blue.duty() == pre.blue.duty()
            && post.blue.max_duty() == pre.blue.max_duty()
    }

    open spec fn duty_set(
        pre: &RgbLed<RED, GREEN, BLUE>,
        post: &RgbLed<RED, GREEN, BLUE>,
        duty: Self::Duty,
    ) -> bool {
        post.red.duty() == duty && post.red.enabled() == pre.red.enabled() && post.red.max_duty()
            == pre.red.max_duty() && post.green.duty() == duty && post.green.enabled()
            == pre.green.enabled() && post.green.max_duty() == pre.green.max_duty()
            && post.blue.duty() == duty && post.blue.enabled() == pre.blue.enabled()
            && post.blue.max_duty() == pre.blue.max_duty()
    }

    fn disable(led: &mut RgbLed<RED, GREEN, BLUE>) {
        led.blue.disable();
        led.red.disable();
        led.green.disable();
    }

    fn enable(led: &mut RgbLed<RED, GREEN, BLUE>) {
        led.blue.enable();
        led.red.enable();
        led.green.enable();
    }

    fn set_duty(led: &mut RgbLed<RED, GREEN, BLUE>, duty: Self::Duty) {
        led.blue.set_duty(duty);
        led.red.set_duty(duty);
        led.green.set_duty(duty);
    }
}

impl<RED, GREEN, BLUE> OutputAcessor<RED, GREEN, BLUE> for (Blue, Green, Red) where
    BLUE: DigitalOutput,
    GREEN: DigitalOutput<Error = <BLUE as DigitalOutput>::Error>,
    RED: DigitalOutput<Error = <BLUE as DigitalOutput>::Error>,
 {
    type Error = <BLUE as DigitalOutput>::Error;

    open spec fn all_at(led: &RgbLed<RED, GREEN, BLUE>, level: PinLevel) -> bool {
        led.red.pin_state() == level && led.green.pin_state() == level && led.blue.pin_state()
            == level
    }

    open spec fn others_eq(pre: &RgbLed<RED, GREEN, BLUE>, post: &RgbLed<RED, GREEN, BLUE>) -> bool {
        true
    }

    open spec fn partial_at(
        pre: &RgbLed<RED, GREEN, BLUE>,
        post: &RgbLed<RED, GREEN, BLUE>,
        level: PinLevel,
    ) -> bool {
        (post.green == pre.green && post.red == pre.red) || (post.blue.pin_state() == level && post.red
            == pre.red) || (post.blue.pin_state() == level && post.green.pin_state() == level)
    }

    fn set_state(led: &mut RgbLed<RED, GREEN, BLUE>, state: PinLevel) -> (r: Result<
        (),
        Self::Error,
    >) {
        match led.blue.set_state(state) {
            Ok(()) => match led.green.set_state(state) {
                Ok(()) => led.red.set_state(state),
                Err(e) => Err(e),
            },
            Err(e) => Err(e),
        }
    }

    fn set_low(led: &mut RgbLed<RED, GREEN, BLUE>) -> (r: Result<(), Self::Error>) {
        match led.blue.set_low() {
            Ok(()) => match led.green.set_low() {
                Ok(()) => led.red.set_low(),
                Err(e) => Err(e),
            },
            Err(e) => Err(e),
        }
    }

    fn set_high(led: &mut RgbLed<RED, GREEN, BLUE>) -> (r: Result<(), Self::Error>) {
        match led.blue.set_high() {
            Ok(()) => match led.green.set_high() {
                Ok(()) => led.red.set_high(),
                Err(e) => Err(e),
            },
            Err(e) => Err(e),
        }
    }
}

impl<RED, GREEN, BLUE> StatefulOutputAcessor<RED, GREEN, BLUE> for (Blue, Green, Red) where
    BLUE: StatefulDigitalOutput,
    GREEN: StatefulDigitalOutput,
    RED: StatefulDigitalOutput,
    GREEN: DigitalOutput<Error = <BLUE as DigitalOutput>::Error>,
    RED: DigitalOutput<Error = <BLUE as DigitalOutput>::Error>,
 {
    fn is_set_low(led: &RgbLed<RED, GREEN, BLUE>) -> (r: Result<bool, Self::Error>) {
        let a = match led.blue.is_set_low() {
            Ok(v) => v,
            Err(e) => return Err(e),
        };
        let b = match led.green.is_set_low() {
            Ok(v) => v,
            Err(e) => return Err(e),
        };
        let c = match led.red.is_set_low() {
            Ok(v) => v,
            Err(e) => return Err(e),
        };
        Ok(a && b && c)
    }

    fn is_set_high(led: &RgbLed<RED, GREEN, BLUE>) -> (r: Result<bool, Self::Error>) {
        let a = match led.blue.is_set_high() {
            Ok(v) => v,
            Err(e) => return Err(e),
        };
        let b = match led.green.is_set_high() {
            Ok(v) => v,
            Err(e) => return Err(e),
        };
        let c = match led.red.is_set_high() {
            Ok(v) => v,
            Err(e) => return Err(e),
        };
        Ok(a && b && c)
    }
}

impl<RED, GREEN, BLUE> ToggleableOutputAcessor<RED, GREEN, BLUE> for (Blue, Green, Red) where
    BLUE: ToggleableOutput,
    GREEN: ToggleableOutput<Error = <BLUE as ToggleableOutput>::Error>,
    RED: ToggleableOutput<Error = <BLUE as ToggleableOutput>::Error>,
 {
    type Error = <BLUE as ToggleableOutput>::Error;

    open spec fn toggles(pre: &RgbLed<RED, GREEN, BLUE>, post: &RgbLed<RED, GREEN, BLUE>) -> bool {
        post.red.pin_state() == flipped(pre.red.pin_state()) && post.green.pin_state() == flipped(
            pre.green.pin_state(),
        ) && post.blue.pin_state() == flipped(pre.blue.pin_state())
    }

    open spec fn others_eq(pre: &RgbLed<RED, GREEN, BLUE>, post: &RgbLed<RED, GREEN, BLUE>) -> bool {
        true
    }

    open spec fn partial_toggles(
        pre: &RgbLed<RED, GREEN, BLUE>,
        post: &RgbLed<RED, GREEN, BLUE>,
    ) -> bool {
        (post.green == pre.green && post.red == pre.red) || (post.blue.pin_state() == flipped(
            pre.blue.pin_state(),
        ) && post.red == pre.red) || (post.blue.pin_state() == flipped(pre.blue.pin_state())
            && post.green.pin_state() == flipped(pre.green.pin_state()))
    }

    fn toggle(led: &mut RgbLed<RED, GREEN, BLUE>) -> (r: Result<(), Self::Error>) {
        match led.blue.toggle() {
            Ok(()) => match led.green.toggle() {
                Ok(()) => led.red.toggle(),
                Err(e) => Err(e),
            },
            Err(e) => Err(e),
        }
    }
}

impl<RED, GREEN, BLUE> PwmAccessor<RED, GREEN, BLUE> for (Blue, Green, Red) where
    BLUE: PwmChannel,
    GREEN: PwmChannel<Duty = <BLUE as PwmChannel>::Duty>,
    RED: PwmChannel<Duty = <BLUE as PwmChannel>::Duty>,
    <BLUE as PwmChannel>::Duty: Copy,
 {
    type Duty = <BLUE as PwmChannel>::Duty;

    open spec fn others_eq(pre: &RgbLed<RED, GREEN, BLUE>, post: &RgbLed<RED, GREEN, BLUE>) -> bool {
        true
    }

    open spec fn enabled_set(
        pre: &RgbLed<RED, GREEN, BLUE>,
        post: &RgbLed<RED, GREEN, BLUE>,
        on: bool,
    ) -> bool {
        post.red.enabled() == on && post.red.duty() == pre.red.duty() && post.red.max_duty()
            == pre.red.max_duty() && post.green.enabled() == on && post.green.duty()
            == pre.green.duty() && post.green.max_duty() == pre.green.max_duty()
            && post.blue.enabled() == on && post.blue.duty() == pre.blue.duty()
            && post.blue.max_duty() == pre.blue.max_duty()
    }

    open spec fn duty_set(
        pre: &RgbLed<RED, GREEN, BLUE>,
        post: &RgbLed<RED, GREEN, BLUE>,
        duty: Self::Duty,
    ) -> bool {
        post.red.duty() == duty && post.red.enabled() == pre.red.enabled() && post.red.max_duty()
            == pre.red.max_duty() && post.green.duty() == duty && post.green.enabled()
            == pre.green.enabled() && post.green.max_duty() == pre.green.max_duty()
            && post.blue.duty() == duty && post.blue.enabled() == pre.blue.enabled()
            && post.blue.max_duty() == pre.blue.max_duty()
    }

    fn disable(led: &mut RgbLed<RED, GREEN, BLUE>) {
        led.blue.disable();
        led.green.disable();
        led.red.disable();
    }

    fn enable(led: &mut RgbLed<RED, GREEN, BLUE>) {
        led.blue.enable();
        led.green.enable();
        led.red.enable();
    }

    fn set_duty(led: &mut RgbLed<RED, GREEN, BLUE>, duty: Self::Duty) {
        led.blue.set_duty(duty);
        led.green.set_duty(duty);
        led.red.set_duty(duty);
    }
}

} // verus!
