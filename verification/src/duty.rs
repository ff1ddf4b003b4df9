//! Normalized duty fractions and their conversion to a duty value.
//!
//! A fraction is kept exactly, as a numerator over a positive
//! denominator, and is read as `num / den` clamped to at most one.
//! The type is unsigned by construction, so there is no value below
//! zero to special-case. Converting a fraction scales a channel's
//! maximum duty and truncates, exactly as `frac_duty` states.

use vstd::prelude::*;

verus! {

/// A duty fraction `num / den`, read as clamped to at most one. The
/// denominator must be positive; `wf` states that.
#[derive(Clone, Copy, Debug, PartialEq, Eq, Structural)]
pub struct DutyFrac {
    pub num: u32,
    pub den: u32,
}

/// The duty value a fraction of `max` denotes: `max` itself for a
/// fraction of one or more, otherwise `max * num / den` truncated.
pub open spec fn frac_duty(max: u32, f: DutyFrac) -> int {
    if f.num >= f.den {
        max as int
    } else {
        (max as int * f.num as int) / (f.den as int)
    }
}

/// The fraction `v / 255`, which normalizes a byte channel value.
pub open spec fn u8_frac(v: u8) -> DutyFrac {
    DutyFrac { num: v as u32, den: 255 }
}

impl DutyFrac {
    /// The denominator is positive.
    pub open spec fn wf(&self) -> bool {
        self.den >= 1
    }

    pub fn new(num: u32, den: u32) -> (r: DutyFrac)
        requires
            den >= 1,
        ensures
            r == (DutyFrac { num, den }),
    {
        DutyFrac { num, den }
    }

    /// The fraction zero.
    pub fn zero() -> (r: DutyFrac)
        ensures
            r == (DutyFrac { num: 0u32, den: 1u32 }),
    {
        DutyFrac { num: 0, den: 1 }
    }

    /// The fraction one.
    pub fn one() -> (r: DutyFrac)
        ensures
            r == (DutyFrac { num: 1u32, den: 1u32 }),
    {
        DutyFrac { num: 1, den: 1 }
    }

    /// The fraction `v / 255`.
    pub fn from_u8(v: u8) -> (r: DutyFrac)
        ensures
            r == u8_frac(v),
    {
        DutyFrac { num: v as u32, den: 255 }
    }
}

/// Converts a fraction of `max` to a duty value: `max` scaled by the
/// clamped fraction, truncated.
pub fn frac_to_duty(max: u32, f: DutyFrac) -> (r: u32)
    requires
        f.wf(),
    ensures
        r == frac_duty(max, f),
{
    if f.num >= f.den {
        max
    } else {
        proof {
            assert(max as int * f.num as int <= 0xffff_ffff * 0xffff_ffff) by (nonlinear_arith)
                requires
                    max <= 0xffff_ffffu32,
                    f.num <= 0xffff_ffffu32,
            ;
        }
        let wide: u64 = (max as u64) * (f.num as u64);
        let scaled: u64 = wide / (f.den as u64);
        proof {
            lemma_scaled_below_max(max as int, f.num as int, f.den as int);
        }
        scaled as u32
    }
}

/// A fraction strictly below one scales `max` to no more than `max`.
proof fn lemma_scaled_below_max(max: int, num: int, den: int)
    requires
        0 <= max,
        0 <= num < den,
    ensures
        0 <= (max * num) / den <= max,
{
    assert(0 <= (max * num) / den <= max) by (nonlinear_arith)
        requires
            0 <= max,
            0 <= num < den,
    ;
}

/// A full or over-full fraction denotes the maximum duty itself; in
/// particular every fraction above one acts exactly as the fraction
/// one does.
pub proof fn lemma_frac_duty_full(max: u32, f: DutyFrac)
    requires
        f.wf(),
        f.num >= f.den,
    ensures
        frac_duty(max, f) == max,
        frac_duty(max, f) == frac_duty(max, DutyFrac { num: 1u32, den: 1u32 }),
{
}

/// The fraction zero denotes duty zero, whatever the maximum.
pub proof fn lemma_frac_duty_zero(max: u32, f: DutyFrac)
    requires
        f.wf(),
        f.num == 0,
    ensures
        frac_duty(max, f) == 0,
{
    assert(max as int * 0 == 0);
}

} // verus!
