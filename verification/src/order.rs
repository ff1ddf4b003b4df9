//! Order independence of the combination selectors.
//!
//! Every ordering of one color set resolves to its own implementation,
//! but all orderings agree: a query answers the same, and a mutation
//! that does not fail leaves the same per-channel state, whichever
//! ordering carried it. Selector order is observable only through
//! which channels a failed mutator has already driven. Each lemma
//! below states this for one family of operations, over the spec
//! functions that the operations' own contracts use.

use vstd::prelude::*;

verus! {

use crate::RgbLed;
use crate::accessor::Blue;
use crate::accessor::Green;
use crate::accessor::OutputAcessor;
use crate::accessor::PwmAccessor;
use crate::accessor::Red;
use crate::accessor::ToggleableOutputAcessor;
use crate::channel::DigitalOutput;
use crate::channel::PinLevel;
use crate::channel::PwmChannel;
use crate::channel::ToggleableOutput;
use crate::duty::DutyFrac;
use crate::rgb::PwmAccessorExt;
use crate::rgb::PwmAccessorRgbExt;

/// For every ordering of one color set, "all named channels drive
/// `level`" means the same thing, and so does "the channels not named
/// are unchanged": a digital mutation that does not fail, and a
/// stateful query, behave alike under every ordering.
pub proof fn lemma_set_order_independent<RED, GREEN, BLUE>(
    pre: &RgbLed<RED, GREEN, BLUE>,
    post: &RgbLed<RED, GREEN, BLUE>,
    led: &RgbLed<RED, GREEN, BLUE>,
    level: PinLevel,
) where
    RED: DigitalOutput,
    GREEN: DigitalOutput<Error = <RED as DigitalOutput>::Error>,
    BLUE: DigitalOutput<Error = <RED as DigitalOutput>::Error>,

    ensures
        <(Red, Green) as OutputAcessor<RED, GREEN, BLUE>>::all_at(led, level) == <(Green, Red) as OutputAcessor<RED, GREEN, BLUE>>::all_at(led, level),
        <(Red, Blue) as OutputAcessor<RED, GREEN, BLUE>>::all_at(led, level) == <(Blue, Red) as OutputAcessor<RED, GREEN, BLUE>>::all_at(led, level),
        <(Green, Blue) as OutputAcessor<RED, GREEN, BLUE>>::all_at(led, level) == <(Blue, Green) as OutputAcessor<RED, GREEN, BLUE>>::all_at(led, level),
        <(Red, Green, Blue) as OutputAcessor<RED, GREEN, BLUE>>::all_at(led, level) == <(Red, Blue, Green) as OutputAcessor<RED, GREEN, BLUE>>::all_at(led, level),
        <(Red, Green, Blue) as OutputAcessor<RED, GREEN, BLUE>>::all_at(led, level) == <(Green, Red, Blue) as OutputAcessor<RED, GREEN, BLUE>>::all_at(led, level),
        <(Red, Green, Blue) as OutputAcessor<RED, GREEN, BLUE>>::all_at(led, level) == <(Green, Blue, Red) as OutputAcessor<RED, GREEN, BLUE>>::all_at(led, level),
        <(Red, Green, Blue) as OutputAcessor<RED, GREEN, BLUE>>::all_at(led, level) == <(Blue, Red, Green) as OutputAcessor<RED, GREEN, BLUE>>::all_at(led, level),
        <(Red, Green, Blue) as OutputAcessor<RED, GREEN, BLUE>>::all_at(led, level) == <(Blue, Green, Red) as OutputAcessor<RED, GREEN, BLUE>>::all_at(led, level),
        <(Red, Green) as OutputAcessor<RED, GREEN, BLUE>>::others_eq(pre, post) == <(Green, Red) as OutputAcessor<RED, GREEN, BLUE>>::others_eq(pre, post),
        <(Red, Blue) as OutputAcessor<RED, GREEN, BLUE>>::others_eq(pre, post) == <(Blue, Red) as OutputAcessor<RED, GREEN, BLUE>>::others_eq(pre, post),
        <(Green, Blue) as OutputAcessor<RED, GREEN, BLUE>>::others_eq(pre, post) == <(Blue, Green) as OutputAcessor<RED, GREEN, BLUE>>::others_eq(pre, post),
        <(Red, Green, Blue) as OutputAcessor<RED, GREEN, BLUE>>::others_eq(pre, post) == <(Red, Blue, Green) as OutputAcessor<RED, GREEN, BLUE>>::others_eq(pre, post),
        <(Red, Green, Blue) as OutputAcessor<RED, GREEN, BLUE>>::others_eq(pre, post) == <(Green, Red, Blue) as OutputAcessor<RED, GREEN, BLUE>>::others_eq(pre, post),
        <(Red, Green, Blue) as OutputAcessor<RED, GREEN, BLUE>>::others_eq(pre, post) == <(Green, Blue, Red) as OutputAcessor<RED, GREEN, BLUE>>::others_eq(pre, post),
        <(Red, Green, Blue) as OutputAcessor<RED, GREEN, BLUE>>::others_eq(pre, post) == <(Blue, Red, Green) as OutputAcessor<RED, GREEN, BLUE>>::others_eq(pre, post),
        <(Red, Green, Blue) as OutputAcessor<RED, GREEN, BLUE>>::others_eq(pre, post) == <(Blue, Green, Red) as OutputAcessor<RED, GREEN, BLUE>>::others_eq(pre, post),
{
}

/// For every ordering of one color set, "all named channels are
/// flipped" and "the channels not named are unchanged" mean the same
/// thing: a toggle that does not fail behaves alike under every
/// ordering.
pub proof fn lemma_toggle_order_independent<RED, GREEN, BLUE>(
    pre: &RgbLed<RED, GREEN, BLUE>,
    post: &RgbLed<RED, GREEN, BLUE>,
) where
    RED: ToggleableOutput,
    GREEN: ToggleableOutput<Error = <RED as ToggleableOutput>::Error>,
    BLUE: ToggleableOutput<Error = <RED as ToggleableOutput>::Error>,

    ensures
        <(Red, Green) as ToggleableOutputAcessor<RED, GREEN, BLUE>>::toggles(pre, post) == <(Green, Red) as ToggleableOutputAcessor<RED, GREEN, BLUE>>::toggles(pre, post),
        <(Red, Blue) as ToggleableOutputAcessor<RED, GREEN, BLUE>>::toggles(pre, post) == <(Blue, Red) as ToggleableOutputAcessor<RED, GREEN, BLUE>>::toggles(pre, post),
        <(Green, Blue) as ToggleableOutputAcessor<RED, GREEN, BLUE>>::toggles(pre, post) == <(Blue, Green) as ToggleableOutputAcessor<RED, GREEN, BLUE>>::toggles(pre, post),
        <(Red, Green, Blue) as ToggleableOutputAcessor<RED, GREEN, BLUE>>::toggles(pre, post) == <(Red, Blue, Green) as ToggleableOutputAcessor<RED, GREEN, BLUE>>::toggles(pre, post),
        <(Red, Green, Blue) as ToggleableOutputAcessor<RED, GREEN, BLUE>>::toggles(pre, post) == <(Green, Red, Blue) as ToggleableOutputAcessor<RED, GREEN, BLUE>>::toggles(pre, post),
        <(Red, Green, Blue) as ToggleableOutputAcessor<RED, GREEN, BLUE>>::toggles(pre, post) == <(Green, Blue, Red) as ToggleableOutputAcessor<RED, GREEN, BLUE>>::toggles(pre, post),
        <(Red, Green, Blue) as ToggleableOutputAcessor<RED, GREEN, BLUE>>::toggles(pre, post) == <(Blue, Red, Green) as ToggleableOutputAcessor<RED, GREEN, BLUE>>::toggles(pre, post),
        <(Red, Green, Blue) as ToggleableOutputAcessor<RED, GREEN, BLUE>>::toggles(pre, post) == <(Blue, Green, Red) as ToggleableOutputAcessor<RED, GREEN, BLUE>>::toggles(pre, post),
        <(Red, Green) as ToggleableOutputAcessor<RED, GREEN, BLUE>>::others_eq(pre, post) == <(Green, Red) as ToggleableOutputAcessor<RED, GREEN, BLUE>>::others_eq(pre, post),
        <(Red, Blue) as ToggleableOutputAcessor<RED, GREEN, BLUE>>::others_eq(pre, post) == <(Blue, Red) as ToggleableOutputAcessor<RED, GREEN, BLUE>>::others_eq(pre, post),
        <(Green, Blue) as ToggleableOutputAcessor<RED, GREEN, BLUE>>::others_eq(pre, post) == <(Blue, Green) as ToggleableOutputAcessor<RED, GREEN, BLUE>>::others_eq(pre, post),
        <(Red, Green, Blue) as ToggleableOutputAcessor<RED, GREEN, BLUE>>::others_eq(pre, post) == <(Red, Blue, Green) as ToggleableOutputAcessor<RED, GREEN, BLUE>>::others_eq(pre, post),
        <(Red, Green, Blue) as ToggleableOutputAcessor<RED, GREEN, BLUE>>::others_eq(pre, post) == <(Green, Red, Blue) as ToggleableOutputAcessor<RED, GREEN, BLUE>>::others_eq(pre, post),
        <(Red, Green, Blue) as ToggleableOutputAcessor<RED, GREEN, BLUE>>::others_eq(pre, post) == <(Green, Blue, Red) as ToggleableOutputAcessor<RED, GREEN, BLUE>>::others_eq(pre, post),
        <(Red, Green, Blue) as ToggleableOutputAcessor<RED, GREEN, BLUE>>::others_eq(pre, post) == <(Blue, Red, Green) as ToggleableOutputAcessor<RED, GREEN, BLUE>>::others_eq(pre, post),
        <(Red, Green, Blue) as ToggleableOutputAcessor<RED, GREEN, BLUE>>::others_eq(pre, post) == <(Blue, Green, Red) as ToggleableOutputAcessor<RED, GREEN, BLUE>>::others_eq(pre, post),
{
}

/// For every ordering of one color set, the PWM mutators describe the
/// same final state: enabling, disabling or driving one duty behaves
/// alike under every ordering.
pub proof fn lemma_pwm_order_independent<RED, GREEN, BLUE>(
    pre: &RgbLed<RED, GREEN, BLUE>,
    post: &RgbLed<RED, GREEN, BLUE>,
    on: bool,
    duty: <RED as PwmChannel>::Duty,
) where
    RED: PwmChannel,
    GREEN: PwmChannel<Duty = <RED as PwmChannel>::Duty>,
    BLUE: PwmChannel<Duty = <RED as PwmChannel>::Duty>,
    <RED as PwmChannel>::Duty: Copy,

    ensures
        <(Red, Green) as PwmAccessor<RED, GREEN, BLUE>>::enabled_set(pre, post, on) == <(Green, Red) as PwmAccessor<RED, GREEN, BLUE>>::enabled_set(pre, post, on),
        <(Red, Blue) as PwmAccessor<RED, GREEN, BLUE>>::enabled_set(pre, post, on) == <(Blue, Red) as PwmAccessor<RED, GREEN, BLUE>>::enabled_set(pre, post, on),
        <(Green, Blue) as PwmAccessor<RED, GREEN, BLUE>>::enabled_set(pre, post, on) == <(Blue, Green) as PwmAccessor<RED, GREEN, BLUE>>::enabled_set(pre, post, on),
        <(Red, Green, Blue) as PwmAccessor<RED, GREEN, BLUE>>::enabled_set(pre, post, on) == <(Red, Blue, Green) as PwmAccessor<RED, GREEN, BLUE>>::enabled_set(pre, post, on),
        <(Red, Green, Blue) as PwmAccessor<RED, GREEN, BLUE>>::enabled_set(pre, post, on) == <(Green, Red, Blue) as PwmAccessor<RED, GREEN, BLUE>>::enabled_set(pre, post, on),
        <(Red, Green, Blue) as PwmAccessor<RED, GREEN, BLUE>>::enabled_set(pre, post, on) == <(Green, Blue, Red) as PwmAccessor<RED, GREEN, BLUE>>::enabled_set(pre, post, on),
        <(Red, Green, Blue) as PwmAccessor<RED, GREEN, BLUE>>::enabled_set(pre, post, on) == <(Blue, Red, Green) as PwmAccessor<RED, GREEN, BLUE>>::enabled_set(pre, post, on),
        <(Red, Green, Blue) as PwmAccessor<RED, GREEN, BLUE>>::enabled_set(pre, post, on) == <(Blue, Green, Red) as PwmAccessor<RED, GREEN, BLUE>>::enabled_set(pre, post, on),
        <(Red, Green) as PwmAccessor<RED, GREEN, BLUE>>::duty_set(pre, post, duty) == <(Green, Red) as PwmAccessor<RED, GREEN, BLUE>>::duty_set(pre, post, duty),
        <(Red, Blue) as PwmAccessor<RED, GREEN, BLUE>>::duty_set(pre, post, duty) == <(Blue, Red) as PwmAccessor<RED, GREEN, BLUE>>::duty_set(pre, post, duty),
        <(Green, Blue) as PwmAccessor<RED, GREEN, BLUE>>::duty_set(pre, post, duty) == <(Blue, Green) as PwmAccessor<RED, GREEN, BLUE>>::duty_set(pre, post, duty),
        <(Red, Green, Blue) as PwmAccessor<RED, GREEN, BLUE>>::duty_set(pre, post, duty) == <(Red, Blue, Green) as PwmAccessor<RED, GREEN, BLUE>>::duty_set(pre, post, duty),
        <(Red, Green, Blue) as PwmAccessor<RED, GREEN, BLUE>>::duty_set(pre, post, duty) == <(Green, Red, Blue) as PwmAccessor<RED, GREEN, BLUE>>::duty_set(pre, post, duty),
        <(Red, Green, Blue) as PwmAccessor<RED, GREEN, BLUE>>::duty_set(pre, post, duty) == <(Green, Blue, Red) as PwmAccessor<RED, GREEN, BLUE>>::duty_set(pre, post, duty),
        <(Red, Green, Blue) as PwmAccessor<RED, GREEN, BLUE>>::duty_set(pre, post, duty) == <(Blue, Red, Green) as PwmAccessor<RED, GREEN, BLUE>>::duty_set(pre, post, duty),
        <(Red, Green, Blue) as PwmAccessor<RED, GREEN, BLUE>>::duty_set(pre, post, duty) == <(Blue, Green, Red) as PwmAccessor<RED, GREEN, BLUE>>::duty_set(pre, post, duty),
        <(Red, Green) as PwmAccessor<RED, GREEN, BLUE>>::others_eq(pre, post) == <(Green, Red) as PwmAccessor<RED, GREEN, BLUE>>::others_eq(pre, post),
        <(Red, Blue) as PwmAccessor<RED, GREEN, BLUE>>::others_eq(pre, post) == <(Blue, Red) as PwmAccessor<RED, GREEN, BLUE>>::others_eq(pre, post),
        <(Green, Blue) as PwmAccessor<RED, GREEN, BLUE>>::others_eq(pre, post) == <(Blue, Green) as PwmAccessor<RED, GREEN, BLUE>>::others_eq(pre, post),
        <(Red, Green, Blue) as PwmAccessor<RED, GREEN, BLUE>>::others_eq(pre, post) == <(Red, Blue, Green) as PwmAccessor<RED, GREEN, BLUE>>::others_eq(pre, post),
        <(Red, Green, Blue) as PwmAccessor<RED, GREEN, BLUE>>::others_eq(pre, post) == <(Green, Red, Blue) as PwmAccessor<RED, GREEN, BLUE>>::others_eq(pre, post),
        <(Red, Green, Blue) as PwmAccessor<RED, GREEN, BLUE>>::others_eq(pre, post) == <(Green, Blue, Red) as PwmAccessor<RED, GREEN, BLUE>>::others_eq(pre, post),
        <(Red, Green, Blue) as PwmAccessor<RED, GREEN, BLUE>>::others_eq(pre, post) == <(Blue, Red, Green) as PwmAccessor<RED, GREEN, BLUE>>::others_eq(pre, post),
        <(Red, Green, Blue) as PwmAccessor<RED, GREEN, BLUE>>::others_eq(pre, post) == <(Blue, Green, Red) as PwmAccessor<RED, GREEN, BLUE>>::others_eq(pre, post),
{
}

/// For every ordering of one color set, driving a duty fraction
/// describes the same final state.
pub proof fn lemma_frac_order_independent<RED, GREEN, BLUE>(
    pre: &RgbLed<RED, GREEN, BLUE>,
    post: &RgbLed<RED, GREEN, BLUE>,
    f: DutyFrac,
) where
    RED: PwmChannel<Duty = u32>,
    GREEN: PwmChannel<Duty = u32>,
    BLUE: PwmChannel<Duty = u32>,

    ensures
        <(Red, Green) as PwmAccessorExt<RED, GREEN, BLUE>>::frac_applied(pre, post, f) == <(Green, Red) as PwmAccessorExt<RED, GREEN, BLUE>>::frac_applied(pre, post, f),
        <(Red, Blue) as PwmAccessorExt<RED, GREEN, BLUE>>::frac_applied(pre, post, f) == <(Blue, Red) as PwmAccessorExt<RED, GREEN, BLUE>>::frac_applied(pre, post, f),
        <(Green, Blue) as PwmAccessorExt<RED, GREEN, BLUE>>::frac_applied(pre, post, f) == <(Blue, Green) as PwmAccessorExt<RED, GREEN, BLUE>>::frac_applied(pre, post, f),
        <(Red, Green, Blue) as PwmAccessorExt<RED, GREEN, BLUE>>::frac_applied(pre, post, f) == <(Red, Blue, Green) as PwmAccessorExt<RED, GREEN, BLUE>>::frac_applied(pre, post, f),
        <(Red, Green, Blue) as PwmAccessorExt<RED, GREEN, BLUE>>::frac_applied(pre, post, f) == <(Green, Red, Blue) as PwmAccessorExt<RED, GREEN, BLUE>>::frac_applied(pre, post, f),
        <(Red, Green, Blue) as PwmAccessorExt<RED, GREEN, BLUE>>::frac_applied(pre, post, f) == <(Green, Blue, Red) as PwmAccessorExt<RED, GREEN, BLUE>>::frac_applied(pre, post, f),
        <(Red, Green, Blue) as PwmAccessorExt<RED, GREEN, BLUE>>::frac_applied(pre, post, f) == <(Blue, Red, Green) as PwmAccessorExt<RED, GREEN, BLUE>>::frac_applied(pre, post, f),
        <(Red, Green, Blue) as PwmAccessorExt<RED, GREEN, BLUE>>::frac_applied(pre, post, f) == <(Blue, Green, Red) as PwmAccessorExt<RED, GREEN, BLUE>>::frac_applied(pre, post, f),
{
}

/// Whichever of the six orderings carries a `set_rgb` call, the result
/// is the same: the red channel is driven by `r`, the green channel by
/// `g` and the blue channel by `b`.
pub proof fn lemma_rgb_order_independent<RED, GREEN, BLUE>(
    pre: &RgbLed<RED, GREEN, BLUE>,
    post: &RgbLed<RED, GREEN, BLUE>,
    r: DutyFrac,
    g: DutyFrac,
    b: DutyFrac,
) where
    RED: PwmChannel<Duty = u32>,
    GREEN: PwmChannel<Duty = u32>,
    BLUE: PwmChannel<Duty = u32>,

    ensures
        <(Red, Green, Blue) as PwmAccessorRgbExt<RED, GREEN, BLUE>>::rgb_applied(pre, post, r, g, b) == <(Red, Blue, Green) as PwmAccessorRgbExt<RED, GREEN, BLUE>>::rgb_applied(pre, post, r, g, b),
        <(Red, Green, Blue) as PwmAccessorRgbExt<RED, GREEN, BLUE>>::rgb_applied(pre, post, r, g, b) == <(Green, Red, Blue) as PwmAccessorRgbExt<RED, GREEN, BLUE>>::rgb_applied(pre, post, r, g, b),
        <(Red, Green, Blue) as PwmAccessorRgbExt<RED, GREEN, BLUE>>::rgb_applied(pre, post, r, g, b) == <(Green, Blue, Red) as PwmAccessorRgbExt<RED, GREEN, BLUE>>::rgb_applied(pre, post, r, g, b),
        <(Red, Green, Blue) as PwmAccessorRgbExt<RED, GREEN, BLUE>>::rgb_applied(pre, post, r, g, b) == <(Blue, Red, Green) as PwmAccessorRgbExt<RED, GREEN, BLUE>>::rgb_applied(pre, post, r, g, b),
        <(Red, Green, Blue) as PwmAccessorRgbExt<RED, GREEN, BLUE>>::rgb_applied(pre, post, r, g, b) == <(Blue, Green, Red) as PwmAccessorRgbExt<RED, GREEN, BLUE>>::rgb_applied(pre, post, r, g, b),
{
}

} // verus!
