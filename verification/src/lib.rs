//! Uniform control of a three-channel (red/green/blue) output device.
//!
//! Each channel may independently be a plain digital pin, a stateful
//! digital pin, or a PWM channel; callers pick which channel or channels
//! an operation addresses through a compile-time selector (a single
//! color, or an ordered pair or triple of distinct colors).

use vstd::prelude::*;

pub mod accessor;
pub mod channel;
pub mod duty;
pub mod order;
pub mod pairs;
pub mod rgb;
pub mod soft;
pub mod triples;

verus! {

/// An aggregate of exactly three channel slots. The channel types are
/// independent; each accessor imposes its own capability bounds on the
/// slots it addresses.
pub struct RgbLed<RED, GREEN, BLUE> {
    pub red: RED,
    pub green: GREEN,
    pub blue: BLUE,
}

impl<RED, GREEN, BLUE> RgbLed<RED, GREEN, BLUE> {
    /// Installs the three channels; they are addressed only through the
    /// device from here on.
    pub fn new(red: RED, green: GREEN, blue: BLUE) -> (led: Self)
        ensures
            led.red == red,
            led.green == green,
            led.blue == blue,
    {
        RgbLed { red, green, blue }
    }
}

} // verus!
