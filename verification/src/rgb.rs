//! Duty fractions and RGB composition over the PWM accessors.
//!
//! These extensions exist for devices whose PWM duty unit is `u32`.
//! `set_duty_frac` drives every channel a selector names with one
//! fraction of its own maximum duty; `set_rgb` composes three
//! fractions, one per color. Whichever of the six triple orderings is
//! used, the red channel is driven by `r`, the green channel by `g`
//! and the blue channel by `b`: the mapping follows color identity,
//! never tuple position.

use vstd::prelude::*;

verus! {

use crate::RgbLed;
use crate::accessor::Blue;
use crate::accessor::Green;
use crate::accessor::PwmAccessor;
use crate::accessor::Red;
use crate::channel::PwmChannel;
use crate::duty::DutyFrac;
use crate::duty::frac_duty;
use crate::duty::frac_to_duty;
use crate::duty::u8_frac;

/// `set_duty_frac` routed through a selector: every named channel is
/// driven with the given fraction of its own maximum duty.
pub trait PwmAccessorExt<RED, GREEN, BLUE>: PwmAccessor<RED, GREEN, BLUE, Duty = u32> {
    /// Every named channel's duty is the fraction `f` of the maximum
    /// duty it had, with its running state and maximum duty kept.
    spec fn frac_applied(
        pre: &RgbLed<RED, GREEN, BLUE>,
        post: &RgbLed<RED, GREEN, BLUE>,
        f: DutyFrac,
    ) -> bool;

    fn set_duty_frac(led: &mut RgbLed<RED, GREEN, BLUE>, fraction: DutyFrac)
        requires
            fraction.wf(),
        ensures
            Self::others_eq(old(led), final(led)),
            Self::frac_applied(old(led), final(led), fraction),
    ;
}

/// RGB composition, implemented for every ordering of the three
/// colors. The positional arguments `r`, `g`, `b` always reach the
/// red, green and blue channel respectively.
pub trait PwmAccessorRgbExt<RED, GREEN, BLUE>: PwmAccessorExt<RED, GREEN, BLUE> {
    /// Each channel's duty is its color's fraction of the maximum duty
    /// it had, with its running state and maximum duty kept.
    spec fn rgb_applied(
        pre: &RgbLed<RED, GREEN, BLUE>,
        post: &RgbLed<RED, GREEN, BLUE>,
        r: DutyFrac,
        g: DutyFrac,
        b: DutyFrac,
    ) -> bool;

    fn set_rgb(led: &mut RgbLed<RED, GREEN, BLUE>, r: DutyFrac, g: DutyFrac, b: DutyFrac)
        requires
            r.wf(),
            g.wf(),
            b.wf(),
        ensures
            Self::rgb_applied(old(led), final(led), r, g, b),
    ;

    fn set_rgb_u8(led: &mut RgbLed<RED, GREEN, BLUE>, r: u8, g: u8, b: u8)
        ensures
            Self::rgb_applied(old(led), final(led), u8_frac(r), u8_frac(g), u8_frac(b)),
    {
        let fr = DutyFrac::from_u8(r);
        let fg = DutyFrac::from_u8(g);
        let fb = DutyFrac::from_u8(b);
        Self::set_rgb(led, fr, fg, fb)
    }
}

impl<RED, GREEN, BLUE> RgbLed<RED, GREEN, BLUE> {
    pub fn set_duty_frac<A>(&mut self, fraction: DutyFrac) where
        A: PwmAccessorExt<RED, GREEN, BLUE>,

        requires
            fraction.wf(),
        ensures
            A::others_eq(old(self), final(self)),
            A::frac_applied(old(self), final(self), fraction),
    {
        A::set_duty_frac(self, fraction)
    }
}

impl<RED, GREEN, BLUE> RgbLed<RED, GREEN, BLUE> where
    RED: PwmChannel<Duty = u32>,
    GREEN: PwmChannel<Duty = u32>,
    BLUE: PwmChannel<Duty = u32>,
 {
    pub fn set_rgb(&mut self, r: DutyFrac, g: DutyFrac, b: DutyFrac)
        requires
            r.wf(),
            g.wf(),
            b.wf(),
        ensures
            final(self).red.duty() == frac_duty(old(self).red.max_duty(), r),
            final(self).green.duty() == frac_duty(old(self).green.max_duty(), g),
            final(self).blue.duty() == frac_duty(old(self).blue.max_duty(), b),
            final(self).red.max_duty() == old(self).red.max_duty(),
            final(self).green.max_duty() == old(self).green.max_duty(),
            final(self).blue.max_duty() == old(self).blue.max_duty(),
            final(self).red.enabled() == old(self).red.enabled(),
            final(self).green.enabled() == old(self).green.enabled(),
            final(self).blue.enabled() == old(self).blue.enabled(),
    {
        <(Red, Green, Blue) as PwmAccessorRgbExt<RED, GREEN, BLUE>>::set_rgb(self, r, g, b)
    }

    pub fn set_rgb_u8(&mut self, r: u8, g: u8, b: u8)
        ensures
            final(self).red.duty() == frac_duty(old(self).red.max_duty(), u8_frac(r)),
            final(self).green.duty() == frac_duty(old(self).green.max_duty(), u8_frac(g)),
            final(self).blue.duty() == frac_duty(old(self).blue.max_duty(), u8_frac(b)),
            final(self).red.max_duty() == old(self).red.max_duty(),
            final(self).green.max_duty() == old(self).green.max_duty(),
            final(self).blue.max_duty() == old(self).blue.max_duty(),
            final(self).red.enabled() == old(self).red.enabled(),
            final(self).green.enabled() == old(self).green.enabled(),
            final(self).blue.enabled() == old(self).blue.enabled(),
    {
        <(Red, Green, Blue) as PwmAccessorRgbExt<RED, GREEN, BLUE>>::set_rgb_u8(self, r, g, b)
    }
}

impl<RED, GREEN, BLUE> PwmAccessorExt<RED, GREEN, BLUE> for Red where RED: PwmChannel<Duty = u32> {
    open spec fn frac_applied(
        pre: &RgbLed<RED, GREEN, BLUE>,
        post: &RgbLed<RED, GREEN, BLUE>,
        f: DutyFrac,
    ) -> bool {
        post.red.duty() == frac_duty(pre.red.max_duty(), f) && post.red.max_duty() == pre.red.max_duty() && post.red.enabled() == pre.red.enabled()
    }

    fn set_duty_frac(led: &mut RgbLed<RED, GREEN, BLUE>, fraction: DutyFrac) {
        let max: u32 = led.red.get_max_duty();
        let duty: u32 = frac_to_duty(max, fraction);
        led.red.set_duty(duty);
        proof {
            assert(<Red as PwmAccessorExt<RED, GREEN, BLUE>>::frac_applied(old(led), led, fraction));
        }
    }
}

impl<RED, GREEN, BLUE> PwmAccessorExt<RED, GREEN, BLUE> for Green where GREEN: PwmChannel<Duty = u32> {
    open spec fn frac_applied(
        pre: &RgbLed<RED, GREEN, BLUE>,
        post: &RgbLed<RED, GREEN, BLUE>,
        f: DutyFrac,
    ) -> bool {
        post.green.duty() == frac_duty(pre.green.max_duty(), f) && post.green.max_duty() == pre.green.max_duty() && post.green.enabled() == pre.green.enabled()
    }

    fn set_duty_frac(led: &mut RgbLed<RED, GREEN, BLUE>, fraction: DutyFrac) {
        let max: u32 = led.green.get_max_duty();
        let duty: u32 = frac_to_duty(max, fraction);
        led.green.set_duty(duty);
        proof {
            assert(<Green as PwmAccessorExt<RED, GREEN, BLUE>>::frac_applied(old(led), led, fraction));
        }
    }
}

impl<RED, GREEN, BLUE> PwmAccessorExt<RED, GREEN, BLUE> for Blue where BLUE: PwmChannel<Duty = u32> {
    open spec fn frac_applied(
        pre: &RgbLed<RED, GREEN, BLUE>,
        post: &RgbLed<RED, GREEN, BLUE>,
        f: DutyFrac,
    ) -> bool {
        post.blue.duty() == frac_duty(pre.blue.max_duty(), f) && post.blue.max_duty() == pre.blue.max_duty() && post.blue.enabled() == pre.blue.enabled()
    }

    fn set_duty_frac(led: &mut RgbLed<RED, GREEN, BLUE>, fraction: DutyFrac) {
        let max: u32 = led.blue.get_max_duty();
        let duty: u32 = frac_to_duty(max, fraction);
        led.blue.set_duty(duty);
        proof {
            assert(<Blue as PwmAccessorExt<RED, GREEN, BLUE>>::frac_applied(old(led), led, fraction));
        }
    }
}

impl<RED, GREEN, BLUE> PwmAccessorExt<RED, GREEN, BLUE> for (Red, Green) where
    RED: PwmChannel<Duty = u32>,
    GREEN: PwmChannel<Duty = u32>,
 {
    open spec fn frac_applied(
        pre: &RgbLed<RED, GREEN, BLUE>,
        post: &RgbLed<RED, GREEN, BLUE>,
        f: DutyFrac,
    ) -> bool {
        post.red.duty() == frac_duty(pre.red.max_duty(), f) && post.red.max_duty() == pre.red.max_duty() && post.red.enabled() == pre.red.enabled()
            && post.green.duty() == frac_duty(pre.green.max_duty(), f) && post.green.max_duty() == pre.green.max_duty() && post.green.enabled() == pre.green.enabled()
    }

    fn set_duty_frac(led: &mut RgbLed<RED, GREEN, BLUE>, fraction: DutyFrac) {
        <Red as PwmAccessorExt<RED, GREEN, BLUE>>::set_duty_frac(led, fraction);
        <Green as PwmAccessorExt<RED, GREEN, BLUE>>::set_duty_frac(led, fraction);
    }
}

impl<RED, GREEN, BLUE> PwmAccessorExt<RED, GREEN, BLUE> for (Red, Blue) where
    RED: PwmChannel<Duty = u32>,
    BLUE: PwmChannel<Duty = u32>,
 {
    open spec fn frac_applied(
        pre: &RgbLed<RED, GREEN, BLUE>,
        post: &RgbLed<RED, GREEN, BLUE>,
        f: DutyFrac,
    ) -> bool {
        post.red.duty() == frac_duty(pre.red.max_duty(), f) && post.red.max_duty() == pre.red.max_duty() && post.red.enabled() == pre.red.enabled()
            && post.blue.duty() == frac_duty(pre.blue.max_duty(), f) && post.blue.max_duty() == pre.blue.max_duty() && post.blue.enabled() == pre.blue.enabled()
    }

    fn set_duty_frac(led: &mut RgbLed<RED, GREEN, BLUE>, fraction: DutyFrac) {
        <Red as PwmAccessorExt<RED, GREEN, BLUE>>::set_duty_frac(led, fraction);
        <Blue as PwmAccessorExt<RED, GREEN, BLUE>>::set_duty_frac(led, fraction);
    }
}

impl<RED, GREEN, BLUE> PwmAccessorExt<RED, GREEN, BLUE> for (Green, Red) where
    GREEN: PwmChannel<Duty = u32>,
    RED: PwmChannel<Duty = u32>,
 {
    open spec fn frac_applied(
        pre: &RgbLed<RED, GREEN, BLUE>,
        post: &RgbLed<RED, GREEN, BLUE>,
        f: DutyFrac,
    ) -> bool {
        post.red.duty() == frac_duty(pre.red.max_duty(), f) && post.red.max_duty() == pre.red.max_duty() && post.red.enabled() == pre.red.enabled()
            && post.green.duty() == frac_duty(pre.green.max_duty(), f) && post.green.max_duty() == pre.green.max_duty() && post.green.enabled() == pre.green.enabled()
    }

    fn set_duty_frac(led: &mut RgbLed<RED, GREEN, BLUE>, fraction: DutyFrac) {
        <Green as PwmAccessorExt<RED, GREEN, BLUE>>::set_duty_frac(led, fraction);
        <Red as PwmAccessorExt<RED, GREEN, BLUE>>::set_duty_frac(led, fraction);
    }
}

impl<RED, GREEN, BLUE> PwmAccessorExt<RED, GREEN, BLUE> for (Green, Blue) where
    GREEN: PwmChannel<Duty = u32>,
    BLUE: PwmChannel<Duty = u32>,
 {
    open spec fn frac_applied(
        pre: &RgbLed<RED, GREEN, BLUE>,
        post: &RgbLed<RED, GREEN, BLUE>,
        f: DutyFrac,
    ) -> bool {
        post.green.duty() == frac_duty(pre.green.max_duty(), f) && post.green.max_duty() == pre.green.max_duty() && post.green.enabled() == pre.green.enabled()
            && post.blue.duty() == frac_duty(pre.blue.max_duty(), f) && post.blue.max_duty() == pre.blue.max_duty() && post.blue.enabled() == pre.blue.enabled()
    }

    fn set_duty_frac(led: &mut RgbLed<RED, GREEN, BLUE>, fraction: DutyFrac) {
        <Green as PwmAccessorExt<RED, GREEN, BLUE>>::set_duty_frac(led, fraction);
        <Blue as PwmAccessorExt<RED, GREEN, BLUE>>::set_duty_frac(led, fraction);
    }
}

impl<RED, GREEN, BLUE> PwmAccessorExt<RED, GREEN, BLUE> for (Blue, Red) where
    BLUE: PwmChannel<Duty = u32>,
    RED: PwmChannel<Duty = u32>,
 {
    open spec fn frac_applied(
        pre: &RgbLed<RED, GREEN, BLUE>,
        post: &RgbLed<RED, GREEN, BLUE>,
        f: DutyFrac,
    ) -> bool {
        post.red.duty() == frac_duty(pre.red.max_duty(), f) && post.red.max_duty() == pre.red.max_duty() && post.red.enabled() == pre.red.enabled()
            && post.blue.duty() == frac_duty(pre.blue.max_duty(), f) && post.blue.max_duty() == pre.blue.max_duty() && post.blue.enabled() == pre.blue.enabled()
    }

    fn set_duty_frac(led: &mut RgbLed<RED, GREEN, BLUE>, fraction: DutyFrac) {
        <Blue as PwmAccessorExt<RED, GREEN, BLUE>>::set_duty_frac(led, fraction);
        <Red as PwmAccessorExt<RED, GREEN, BLUE>>::set_duty_frac(led, fraction);
    }
}

impl<RED, GREEN, BLUE> PwmAccessorExt<RED, GREEN, BLUE> for (Blue, Green) where
    BLUE: PwmChannel<Duty = u32>,
    GREEN: PwmChannel<Duty = u32>,
 {
    open spec fn frac_applied(
        pre: &RgbLed<RED, GREEN, BLUE>,
        post: &RgbLed<RED, GREEN, BLUE>,
        f: DutyFrac,
    ) -> bool {
        post.green.duty() == frac_duty(pre.green.max_duty(), f) && post.green.max_duty() == pre.green.max_duty() && post.green.enabled() == pre.green.enabled()
            && post.blue.duty() == frac_duty(pre.blue.max_duty(), f) && post.blue.max_duty() == pre.blue.max_duty() && post.blue.enabled() == pre.blue.enabled()
    }

    fn set_duty_frac(led: &mut RgbLed<RED, GREEN, BLUE>, fraction: DutyFrac) {
        <Blue as PwmAccessorExt<RED, GREEN, BLUE>>::set_duty_frac(led, fraction);
        <Green as PwmAccessorExt<RED, GREEN, BLUE>>::set_duty_frac(led, fraction);
    }
}

impl<RED, GREEN, BLUE> PwmAccessorExt<RED, GREEN, BLUE> for (Red, Green, Blue) where
    RED: PwmChannel<Duty = u32>,
    GREEN: PwmChannel<Duty = u32>,
    BLUE: PwmChannel<Duty = u32>,
 {
    open spec fn frac_applied(
        pre: &RgbLed<RED, GREEN, BLUE>,
        post: &RgbLed<RED, GREEN, BLUE>,
        f: DutyFrac,
    ) -> bool {
        post.red.duty() == frac_duty(pre.red.max_duty(), f) && post.red.max_duty() == pre.red.max_duty() && post.red.enabled() == pre.red.enabled()
            && post.green.duty() == frac_duty(pre.green.max_duty(), f) && post.green.max_duty() == pre.green.max_duty() && post.green.enabled() == pre.green.enabled()
            && post.blue.duty() == frac_duty(pre.blue.max_duty(), f) && post.blue.max_duty() == pre.blue.max_duty() && post.blue.enabled() == pre.blue.enabled()
    }

    fn set_duty_frac(led: &mut RgbLed<RED, GREEN, BLUE>, fraction: DutyFrac) {
        <Red as PwmAccessorExt<RED, GREEN, BLUE>>::set_duty_frac(led, fraction);
        <Green as PwmAccessorExt<RED, GREEN, BLUE>>::set_duty_frac(led, fraction);
        <Blue as PwmAccessorExt<RED, GREEN, BLUE>>::set_duty_frac(led, fraction);
    }
}

impl<RED, GREEN, BLUE> PwmAccessorExt<RED, GREEN, BLUE> for (Red, Blue, Green) where
    RED: PwmChannel<Duty = u32>,
    BLUE: PwmChannel<Duty = u32>,
    GREEN: PwmChannel<Duty = u32>,
 {
    open spec fn frac_applied(
        pre: &RgbLed<RED, GREEN, BLUE>,
        post: &RgbLed<RED, GREEN, BLUE>,
        f: DutyFrac,
    ) -> bool {
        post.red.duty() == frac_duty(pre.red.max_duty(), f) && post.red.max_duty() == pre.red.max_duty() && post.red.enabled() == pre.red.enabled()
            && post.green.duty() == frac_duty(pre.green.max_duty(), f) && post.green.max_duty() == pre.green.max_duty() && post.green.enabled() == pre.green.enabled()
            && post.blue.duty() == frac_duty(pre.blue.max_duty(), f) && post.blue.max_duty() == pre.blue.max_duty() && post.blue.enabled() == pre.blue.enabled()
    }

    fn set_duty_frac(led: &mut RgbLed<RED, GREEN, BLUE>, fraction: DutyFrac) {
        <Red as PwmAccessorExt<RED, GREEN, BLUE>>::set_duty_frac(led, fraction);
        <Blue as PwmAccessorExt<RED, GREEN, BLUE>>::set_duty_frac(led, fraction);
        <Green as PwmAccessorExt<RED, GREEN, BLUE>>::set_duty_frac(led, fraction);
    }
}

impl<RED, GREEN, BLUE> PwmAccessorExt<RED, GREEN, BLUE> for (Green, Red, Blue) where
    GREEN: PwmChannel<Duty = u32>,
    RED: PwmChannel<Duty = u32>,
    BLUE: PwmChannel<Duty = u32>,
 {
    open spec fn frac_applied(
        pre: &RgbLed<RED, GREEN, BLUE>,
        post: &RgbLed<RED, GREEN, BLUE>,
        f: DutyFrac,
    ) -> bool {
        post.red.duty() == frac_duty(pre.red.max_duty(), f) && post.red.max_duty() == pre.red.max_duty() && post.red.enabled() == pre.red.enabled()
            && post.green.duty() == frac_duty(pre.green.max_duty(), f) && post.green.max_duty() == pre.green.max_duty() && post.green.enabled() == pre.green.enabled()
            && post.blue.duty() == frac_duty(pre.blue.max_duty(), f) && post.blue.max_duty() == pre.blue.max_duty() && post.blue.enabled() == pre.blue.enabled()
    }

    fn set_duty_frac(led: &mut RgbLed<RED, GREEN, BLUE>, fraction: DutyFrac) {
        <Green as PwmAccessorExt<RED, GREEN, BLUE>>::set_duty_frac(led, fraction);
        <Red as PwmAccessorExt<RED, GREEN, BLUE>>::set_duty_frac(led, fraction);
        <Blue as PwmAccessorExt<RED, GREEN, BLUE>>::set_duty_frac(led, fraction);
    }
}

impl<RED, GREEN, BLUE> PwmAccessorExt<RED, GREEN, BLUE> for (Green, Blue, Red) where
    GREEN: PwmChannel<Duty = u32>,
    BLUE: PwmChannel<Duty = u32>,
    RED: PwmChannel<Duty = u32>,
 {
    open spec fn frac_applied(
        pre: &RgbLed<RED, GREEN, BLUE>,
        post: &RgbLed<RED, GREEN, BLUE>,
        f: DutyFrac,
    ) -> bool {
        post.red.duty() == frac_duty(pre.red.max_duty(), f) && post.red.max_duty() == pre.red.max_duty() && post.red.enabled() == pre.red.enabled()
            && post.green.duty() == frac_duty(pre.green.max_duty(), f) && post.green.max_duty() == pre.green.max_duty() && post.green.enabled() == pre.green.enabled()
            && post.blue.duty() == frac_duty(pre.blue.max_duty(), f) && post.blue.max_duty() == pre.blue.max_duty() && post.blue.enabled() == pre.blue.enabled()
    }

    fn set_duty_frac(led: &mut RgbLed<RED, GREEN, BLUE>, fraction: DutyFrac) {
        <Green as PwmAccessorExt<RED, GREEN, BLUE>>::set_duty_frac(led, fraction);
        <Blue as PwmAccessorExt<RED, GREEN, BLUE>>::set_duty_frac(led, fraction);
        <Red as PwmAccessorExt<RED, GREEN, BLUE>>::set_duty_frac(led, fraction);
    }
}

impl<RED, GREEN, BLUE> PwmAccessorExt<RED, GREEN, BLUE> for (Blue, Red, Green) where
    BLUE: PwmChannel<Duty = u32>,
    RED: PwmChannel<Duty = u32>,
    GREEN: PwmChannel<Duty = u32>,
 {
    open spec fn frac_applied(
        pre: &RgbLed<RED, GREEN, BLUE>,
        post: &RgbLed<RED, GREEN, BLUE>,
        f: DutyFrac,
    ) -> bool {
        post.red.duty() == frac_duty(pre.red.max_duty(), f) && post.red.max_duty() == pre.red.max_duty() && post.red.enabled() == pre.red.enabled()
            && post.green.duty() == frac_duty(pre.green.max_duty(), f) && post.green.max_duty() == pre.green.max_duty() && post.green.enabled() == pre.green.enabled()
            && post.blue.duty() == frac_duty(pre.blue.max_duty(), f) && post.blue.max_duty() == pre.blue.max_duty() && post.blue.enabled() == pre.blue.enabled()
    }

    fn set_duty_frac(led: &mut RgbLed<RED, GREEN, BLUE>, fraction: DutyFrac) {
        <Blue as PwmAccessorExt<RED, GREEN, BLUE>>::set_duty_frac(led, fraction);
        <Red as PwmAccessorExt<RED, GREEN, BLUE>>::set_duty_frac(led, fraction);
        <Green as PwmAccessorExt<RED, GREEN, BLUE>>::set_duty_frac(led, fraction);
    }
}

impl<RED, GREEN, BLUE> PwmAccessorExt<RED, GREEN, BLUE> for (Blue, Green, Red) where
    BLUE: PwmChannel<Duty = u32>,
    GREEN: PwmChannel<Duty = u32>,
    RED: PwmChannel<Duty = u32>,
 {
    open spec fn frac_applied(
        pre: &RgbLed<RED, GREEN, BLUE>,
        post: &RgbLed<RED, GREEN, BLUE>,
        f: DutyFrac,
    ) -> bool {
        post.red.duty() == frac_duty(pre.red.max_duty(), f) && post.red.max_duty() == pre.red.max_duty() && post.red.enabled() == pre.red.enabled()
            && post.green.duty() == frac_duty(pre.green.max_duty(), f) && post.green.max_duty() == pre.green.max_duty() && post.green.enabled() == pre.green.enabled()
            && post.blue.duty() == frac_duty(pre.blue.max_duty(), f) && post.blue.max_duty() == pre.blue.max_duty() && post.blue.enabled() == pre.blue.enabled()
    }

    fn set_duty_frac(led: &mut RgbLed<RED, GREEN, BLUE>, fraction: DutyFrac) {
        <Blue as PwmAccessorExt<RED, GREEN, BLUE>>::set_duty_frac(led, fraction);
        <Green as PwmAccessorExt<RED, GREEN, BLUE>>::set_duty_frac(led, fraction);
        <Red as PwmAccessorExt<RED, GREEN, BLUE>>::set_duty_frac(led, fraction);
    }
}

impl<RED, GREEN, BLUE> PwmAccessorRgbExt<RED, GREEN, BLUE> for (Red, Green, Blue) where
    RED: PwmChannel<Duty = u32>,
    GREEN: PwmChannel<Duty = u32>,
    BLUE: PwmChannel<Duty = u32>,
 {
    open spec fn rgb_applied(
        pre: &RgbLed<RED, GREEN, BLUE>,
        post: &RgbLed<RED, GREEN, BLUE>,
        r: DutyFrac,
        g: DutyFrac,
        b: DutyFrac,
    ) -> bool {
        post.red.duty() == frac_duty(pre.red.max_duty(), r) && post.red.max_duty() == pre.red.max_duty() && post.red.enabled() == pre.red.enabled()
            && post.green.duty() == frac_duty(pre.green.max_duty(), g) && post.green.max_duty() == pre.green.max_duty() && post.green.enabled() == pre.green.enabled()
            && post.blue.duty() == frac_duty(pre.blue.max_duty(), b) && post.blue.max_duty() == pre.blue.max_duty() && post.blue.enabled() == pre.blue.enabled()
    }

    fn set_rgb(led: &mut RgbLed<RED, GREEN, BLUE>, r: DutyFrac, g: DutyFrac, b: DutyFrac) {
        <Red as PwmAccessorExt<RED, GREEN, BLUE>>::set_duty_frac(led, r);
        <Green as PwmAccessorExt<RED, GREEN, BLUE>>::set_duty_frac(led, g);
        <Blue as PwmAccessorExt<RED, GREEN, BLUE>>::set_duty_frac(led, b);
    }
}

impl<RED, GREEN, BLUE> PwmAccessorRgbExt<RED, GREEN, BLUE> for (Red, Blue, Green) where
    RED: PwmChannel<Duty = u32>,
    BLUE: PwmChannel<Duty = u32>,
    GREEN: PwmChannel<Duty = u32>,
 {
    open spec fn rgb_applied(
        pre: &RgbLed<RED, GREEN, BLUE>,
        post: &RgbLed<RED, GREEN, BLUE>,
        r: DutyFrac,
        g: DutyFrac,
        b: DutyFrac,
    ) -> bool {
        post.red.duty() == frac_duty(pre.red.max_duty(), r) && post.red.max_duty() == pre.red.max_duty() && post.red.enabled() == pre.red.enabled()
            && post.green.duty() == frac_duty(pre.green.max_duty(), g) && post.green.max_duty() == pre.green.max_duty() && post.green.enabled() == pre.green.enabled()
            && post.blue.duty() == frac_duty(pre.blue.max_duty(), b) && post.blue.max_duty() == pre.blue.max_duty() && post.blue.enabled() == pre.blue.enabled()
    }

    fn set_rgb(led: &mut RgbLed<RED, GREEN, BLUE>, r: DutyFrac, g: DutyFrac, b: DutyFrac) {
        <Red as PwmAccessorExt<RED, GREEN, BLUE>>::set_duty_frac(led, r);
        <Green as PwmAccessorExt<RED, GREEN, BLUE>>::set_duty_frac(led, g);
        <Blue as PwmAccessorExt<RED, GREEN, BLUE>>::set_duty_frac(led, b);
    }
}

impl<RED, GREEN, BLUE> PwmAccessorRgbExt<RED, GREEN, BLUE> for (Green, Red, Blue) where
    GREEN: PwmChannel<Duty = u32>,
    RED: PwmChannel<Duty = u32>,
    BLUE: PwmChannel<Duty = u32>,
 {
    open spec fn rgb_applied(
        pre: &RgbLed<RED, GREEN, BLUE>,
        post: &RgbLed<RED, GREEN, BLUE>,
        r: DutyFrac,
        g: DutyFrac,
        b: DutyFrac,
    ) -> bool {
        post.red.duty() == frac_duty(pre.red.max_duty(), r) && post.red.max_duty() == pre.red.max_duty() && post.red.enabled() == pre.red.enabled()
            && post.green.duty() == frac_duty(pre.green.max_duty(), g) && post.green.max_duty() == pre.green.max_duty() && post.green.enabled() == pre.green.enabled()
            && post.blue.duty() == frac_duty(pre.blue.max_duty(), b) && post.blue.max_duty() == pre.blue.max_duty() && post.blue.enabled() == pre.blue.enabled()
    }

    fn set_rgb(led: &mut RgbLed<RED, GREEN, BLUE>, r: DutyFrac, g: DutyFrac, b: DutyFrac) {
        <Red as PwmAccessorExt<RED, GREEN, BLUE>>::set_duty_frac(led, r);
        <Green as PwmAccessorExt<RED, GREEN, BLUE>>::set_duty_frac(led, g);
        <Blue as PwmAccessorExt<RED, GREEN, BLUE>>::set_duty_frac(led, b);
    }
}

impl<RED, GREEN, BLUE> PwmAccessorRgbExt<RED, GREEN, BLUE> for (Green, Blue, Red) where
    GREEN: PwmChannel<Duty = u32>,
    BLUE: PwmChannel<Duty = u32>,
    RED: PwmChannel<Duty = u32>,
 {
    open spec fn rgb_applied(
        pre: &RgbLed<RED, GREEN, BLUE>,
        post: &RgbLed<RED, GREEN, BLUE>,
        r: DutyFrac,
        g: DutyFrac,
        b: DutyFrac,
    ) -> bool {
        post.red.duty() == frac_duty(pre.red.max_duty(), r) && post.red.max_duty() == pre.red.max_duty() && post.red.enabled() == pre.red.enabled()
            && post.green.duty() == frac_duty(pre.green.max_duty(), g) && post.green.max_duty() == pre.green.max_duty() && post.green.enabled() == pre.green.enabled()
            && post.blue.duty() == frac_duty(pre.blue.max_duty(), b) && post.blue.max_duty() == pre.blue.max_duty() && post.blue.enabled() == pre.blue.enabled()
    }

    fn set_rgb(led: &mut RgbLed<RED, GREEN, BLUE>, r: DutyFrac, g: DutyFrac, b: DutyFrac) {
        <Red as PwmAccessorExt<RED, GREEN, BLUE>>::set_duty_frac(led, r);
        <Green as PwmAccessorExt<RED, GREEN, BLUE>>::set_duty_frac(led, g);
        <Blue as PwmAccessorExt<RED, GREEN, BLUE>>::set_duty_frac(led, b);
    }
}

impl<RED, GREEN, BLUE> PwmAccessorRgbExt<RED, GREEN, BLUE> for (Blue, Red, Green) where
    BLUE: PwmChannel<Duty = u32>,
    RED: PwmChannel<Duty = u32>,
    GREEN: PwmChannel<Duty = u32>,
 {
    open spec fn rgb_applied(
        pre: &RgbLed<RED, GREEN, BLUE>,
        post: &RgbLed<RED, GREEN, BLUE>,
        r: DutyFrac,
        g: DutyFrac,
        b: DutyFrac,
    ) -> bool {
        post.red.duty() == frac_duty(pre.red.max_duty(), r) && post.red.max_duty() == pre.red.max_duty() && post.red.enabled() == pre.red.enabled()
            && post.green.duty() == frac_duty(pre.green.max_duty(), g) && post.green.max_duty() == pre.green.max_duty() && post.green.enabled() == pre.green.enabled()
            && post.blue.duty() == frac_duty(pre.blue.max_duty(), b) && post.blue.max_duty() == pre.blue.max_duty() && post.blue.enabled() == pre.blue.enabled()
    }

    fn set_rgb(led: &mut RgbLed<RED, GREEN, BLUE>, r: DutyFrac, g: DutyFrac, b: DutyFrac) {
        <Red as PwmAccessorExt<RED, GREEN, BLUE>>::set_duty_frac(led, r);
        <Green as PwmAccessorExt<RED, GREEN, BLUE>>::set_duty_frac(led, g);
        <Blue as PwmAccessorExt<RED, GREEN, BLUE>>::set_duty_frac(led, b);
    }
}

impl<RED, GREEN, BLUE> PwmAccessorRgbExt<RED, GREEN, BLUE> for (Blue, Green, Red) where
    BLUE: PwmChannel<Duty = u32>,
    GREEN: PwmChannel<Duty = u32>,
    RED: PwmChannel<Duty = u32>,
 {
    open spec fn rgb_applied(
        pre: &RgbLed<RED, GREEN, BLUE>,
        post: &RgbLed<RED, GREEN, BLUE>,
        r: DutyFrac,
        g: DutyFrac,
        b: DutyFrac,
    ) -> bool {
        post.red.duty() == frac_duty(pre.red.max_duty(), r) && post.red.max_duty() == pre.red.max_duty() && post.red.enabled() == pre.red.enabled()
            && post.green.duty() == frac_duty(pre.green.max_duty(), g) && post.green.max_duty() == pre.green.max_duty() && post.green.enabled() == pre.green.enabled()
            && post.blue.duty() == frac_duty(pre.blue.max_duty(), b) && post.blue.max_duty() == pre.blue.max_duty() && post.blue.enabled() == pre.blue.enabled()
    }

    fn set_rgb(led: &mut RgbLed<RED, GREEN, BLUE>, r: DutyFrac, g: DutyFrac, b: DutyFrac) {
        <Red as PwmAccessorExt<RED, GREEN, BLUE>>::set_duty_frac(led, r);
        <Green as PwmAccessorExt<RED, GREEN, BLUE>>::set_duty_frac(led, g);
        <Blue as PwmAccessorExt<RED, GREEN, BLUE>>::set_duty_frac(led, b);
    }
}

} // verus!
