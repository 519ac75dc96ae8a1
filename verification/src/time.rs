//! Rational-timestamp representation and rescaling between time bases.
//!
//! Every packet and frame crossing a component boundary carries its own time
//! base, so tick values from different sources may only be combined after
//! alignment into a single base. [`Time`] centralizes that rescaling;
//! [`Aligned`] is the result of aligning two times and is the only place
//! where tick arithmetic is offered.

use vstd::prelude::*;

verus! {

/// A rational time base: `num / den` seconds per tick.
#[derive(Debug, Clone, Copy, PartialEq, Eq, Structural)]
pub struct Rational {
    pub num: i32,
    pub den: i32,
}

impl Rational {
    /// A time base can be rescaled through only when both parts are positive.
    pub open spec fn is_positive(self) -> bool {
        self.num >= 1 && self.den >= 1
    }

    /// Create a time base of `num / den` seconds per tick.
    pub fn new(num: i32, den: i32) -> (r: Rational)
        ensures
            r == (Rational { num, den }),
    {
        Rational { num, den }
    }
}

/// `n / d` rounded to the nearest integer, ties away from zero; `d > 0`.
pub open spec fn round_div_nearest(n: int, d: int) -> int {
    if n >= 0 {
        (n + d / 2) / d
    } else {
        -((-n + d / 2) / d)
    }
}

/// A tick count rescaled from base `from` into base `to`: the exact rational
/// value `ticks * from.num * to.den / (from.den * to.num)` rounded to the
/// nearest integer (ties away from zero). A result outside the signed 64-bit
/// range collapses to `i64::MIN`, matching the codec engine's rescale.
pub open spec fn spec_rescale(ticks: int, from: Rational, to: Rational) -> int {
    let r = round_div_nearest(ticks * (from.num * to.den), from.den * to.num);
    if r < i64::MIN || r > i64::MAX {
        i64::MIN as int
    } else {
        r
    }
}

/// Rescale a tick count from base `from` into base `to`, rounding to nearest
/// with ties away from zero.
pub fn rescale_ticks(ticks: i64, from: Rational, to: Rational) -> (r: i64)
    requires
        from.is_positive(),
        to.is_positive(),
    ensures
        r == spec_rescale(ticks as int, from, to),
{
    proof {
        assert(1 <= (from.num as int) * (to.den as int) < 0x4000_0000_0000_0000) by (nonlinear_arith)
            requires
                1 <= from.num <= 0x7fff_ffff,
                1 <= to.den <= 0x7fff_ffff,
        ;
        assert(1 <= (from.den as int) * (to.num as int) < 0x4000_0000_0000_0000) by (nonlinear_arith)
            requires
                1 <= from.den <= 0x7fff_ffff,
                1 <= to.num <= 0x7fff_ffff,
        ;
    }
    let b: u64 = (from.num as u64) * (to.den as u64);
    let c: u64 = (from.den as u64) * (to.num as u64);
    let t: i128 = ticks as i128;
    let mag: u128 = if t >= 0 {
        t as u128
    } else {
        (-t) as u128
    };
    proof {
        assert(mag * (b as int) <= 0x8000_0000_0000_0000 * 0x4000_0000_0000_0000) by (nonlinear_arith)
            requires
                0 <= mag <= 0x8000_0000_0000_0000,
                0 <= b < 0x4000_0000_0000_0000,
        ;
    }
    let n_mag: u128 = mag * (b as u128);
    let r_mag: u128 = (n_mag + (c as u128) / 2) / (c as u128);
    if t >= 0 {
        proof {
            assert((ticks as int) * (b as int) == (mag as int) * (b as int)) by (nonlinear_arith)
                requires
                    mag == ticks as int,
            ;
            assert(r_mag == round_div_nearest((ticks as int) * (b as int), c as int));
        }
        if r_mag > (i64::MAX as u128) {
            i64::MIN
        } else {
            r_mag as i64
        }
    } else {
        proof {
            assert((ticks as int) * (b as int) == -((mag as int) * (b as int))
                && (mag as int) * (b as int) >= 1) by (nonlinear_arith)
                requires
                    ticks < 0,
                    mag == -(ticks as int),
                    mag >= 1,
                    b >= 1,
            ;
            assert(-(r_mag as int) == round_div_nearest((ticks as int) * (b as int), c as int));
        }
        if r_mag > (i64::MAX as u128) + 1 {
            i64::MIN
        } else {
            (-(r_mag as i128)) as i64
        }
    }
}

/// A timestamp or duration: an optional signed tick count together with the
/// rational time base its ticks are expressed in.
///
/// An absent tick count represents "no timestamp": a packet whose
/// presentation time was never set. Arithmetic on absent values yields an
/// absent result rather than an error.
#[derive(Debug, Clone, PartialEq, Eq)]
pub struct Time {
    pub ticks: Option<i64>,
    pub time_base: Rational,
}

impl Time {
    /// The same instant expressed in `time_base`: each present tick count is
    /// rescaled, an absent one stays absent.
    pub open spec fn spec_with_time_base(self, time_base: Rational) -> Time {
        Time {
            ticks: match self.ticks {
                Option::None => Option::None,
                Option::Some(t) => Option::Some(spec_rescale(t as int, self.time_base, time_base) as i64),
            },
            time_base,
        }
    }

    /// What aligning `self` with `rhs` produces: `rhs` is rescaled into
    /// `self`'s time base, `self`'s ticks are kept verbatim.
    pub open spec fn spec_aligned_with(self, rhs: Time) -> Aligned {
        Aligned {
            lhs: self.ticks,
            rhs: match rhs.ticks {
                Option::None => Option::None,
                Option::Some(t) => Option::Some(spec_rescale(t as int, rhs.time_base, self.time_base) as i64),
            },
            time_base: self.time_base,
        }
    }

    /// Create a time from its tick count and the time base the ticks are
    /// expressed in.
    pub fn new(time: Option<i64>, time_base: Rational) -> (r: Time)
        ensures
            r == (Time { ticks: time, time_base }),
    {
        Time { ticks: time, time_base }
    }

    /// The same instant expressed in a different time base.
    pub fn with_time_base(&self, time_base: Rational) -> (r: Time)
        requires
            self.ticks is Some ==> self.time_base.is_positive() && time_base.is_positive(),
        ensures
            r == self.spec_with_time_base(time_base),
    {
        let ticks = match self.ticks {
            Option::None => Option::None,
            Option::Some(t) => Option::Some(rescale_ticks(t, self.time_base, time_base)),
        };
        Time { ticks, time_base }
    }

    /// One `nth` of a second: a single tick in the base `1 / nth`.
    pub fn from_nth_of_a_second(nth: usize) -> (r: Time)
        requires
            1 <= nth <= i32::MAX,
        ensures
            r.ticks == Option::Some(1i64),
            r.time_base == (Rational { num: 1, den: nth as i32 }),
    {
        Time { ticks: Option::Some(1), time_base: Rational { num: 1, den: nth as i32 } }
    }

    /// `time` ticks of `1 / base_den` seconds each.
    pub fn from_units(time: usize, base_den: usize) -> (r: Time)
        requires
            1 <= base_den <= i32::MAX,
            time <= i64::MAX,
        ensures
            r.ticks == Option::Some(time as i64),
            r.time_base == (Rational { num: 1, den: base_den as i32 }),
    {
        Time { ticks: Option::Some(time as i64), time_base: Rational { num: 1, den: base_den as i32 } }
    }

    /// The zero timestamp, in the conventional 1/90000 base.
    pub fn zero() -> (r: Time)
        ensures
            r.ticks == Option::Some(0i64),
            r.time_base == (Rational { num: 1, den: 90000 }),
    {
        Time { ticks: Option::Some(0), time_base: Rational { num: 1, den: 90000 } }
    }

    /// Whether this time carries a tick count at all.
    pub fn has_value(&self) -> (r: bool)
        ensures
            r == (self.ticks is Some),
    {
        self.ticks.is_some()
    }

    /// Align `rhs` with `self`: rescale `rhs` into `self`'s time base so that
    /// arithmetic can be performed on the pair.
    pub fn aligned_with(&self, rhs: &Time) -> (r: Aligned)
        requires
            rhs.ticks is Some ==> self.time_base.is_positive() && rhs.time_base.is_positive(),
        ensures
            r == self.spec_aligned_with(*rhs),
    {
        let rhs_ticks = match rhs.ticks {
            Option::None => Option::None,
            Option::Some(t) => Option::Some(rescale_ticks(t, rhs.time_base, self.time_base)),
        };
        Aligned { lhs: self.ticks, rhs: rhs_ticks, time_base: self.time_base }
    }

    /// The underlying parts: the tick count and the time base.
    pub fn into_parts(self) -> (r: (Option<i64>, Rational))
        ensures
            r.0 == self.ticks,
            r.1 == self.time_base,
    {
        (self.ticks, self.time_base)
    }

    /// The bare tick count. The caller must know the time base to interpret
    /// it.
    pub fn into_value(self) -> (r: Option<i64>)
        ensures
            r == self.ticks,
    {
        self.ticks
    }
}

/// Two tick counts brought into one time base, over which addition and
/// subtraction are defined.
#[derive(Debug, Clone, PartialEq, Eq)]
pub struct Aligned {
    pub lhs: Option<i64>,
    pub rhs: Option<i64>,
    pub time_base: Rational,
}

impl Aligned {
    /// The sum of the two aligned times; absent if either side is absent.
    pub open spec fn spec_add(self) -> Time {
        match (self.lhs, self.rhs) {
            (Option::Some(l), Option::Some(r)) => Time {
                ticks: Option::Some((l + r) as i64),
                time_base: self.time_base,
            },
            _ => Time { ticks: Option::None, time_base: self.time_base },
        }
    }

    /// The difference of the two aligned times; absent if either side is
    /// absent.
    pub open spec fn spec_subtract(self) -> Time {
        match (self.lhs, self.rhs) {
            (Option::Some(l), Option::Some(r)) => Time {
                ticks: Option::Some((l - r) as i64),
                time_base: self.time_base,
            },
            _ => Time { ticks: Option::None, time_base: self.time_base },
        }
    }

    /// Add the two aligned times.
    pub fn add(self) -> (r: Time)
        requires
            (self.lhs is Some && self.rhs is Some) ==> i64::MIN <= self.lhs->0 + self.rhs->0
                <= i64::MAX,
        ensures
            r == self.spec_add(),
    {
        match (self.lhs, self.rhs) {
            (Option::Some(l), Option::Some(r)) => Time {
                ticks: Option::Some(l + r),
                time_base: self.time_base,
            },
            _ => Time { ticks: Option::None, time_base: self.time_base },
        }
    }

    /// Subtract the right-hand time from the left-hand time.
    pub fn subtract(self) -> (r: Time)
        requires
            (self.lhs is Some && self.rhs is Some) ==> i64::MIN <= self.lhs->0 - self.rhs->0
                <= i64::MAX,
        ensures
            r == self.spec_subtract(),
    {
        match (self.lhs, self.rhs) {
            (Option::Some(l), Option::Some(r)) => Time {
                ticks: Option::Some(l - r),
                time_base: self.time_base,
            },
            _ => Time { ticks: Option::None, time_base: self.time_base },
        }
    }
}

/// A time without a tick value stays without one through alignment and
/// arithmetic: aligning it with anything and adding or subtracting yields a
/// valueless time in its own base, never an error and never a made-up value.
pub proof fn lemma_valueless_time_propagates(t: Time, rhs: Time)
    requires
        t.ticks is None,
    ensures
        t.spec_aligned_with(rhs).spec_add().ticks is None,
        t.spec_aligned_with(rhs).spec_subtract().ticks is None,
        t.spec_aligned_with(rhs).spec_add().time_base == t.time_base,
        t.spec_aligned_with(rhs).spec_subtract().time_base == t.time_base,
{
}

/// Arithmetic on an aligned pair yields a present tick count exactly when
/// both sides are present.
pub proof fn lemma_aligned_arithmetic_presence(a: Aligned)
    ensures
        a.spec_add().ticks is Some <==> (a.lhs is Some && a.rhs is Some),
        a.spec_subtract().ticks is Some <==> (a.lhs is Some && a.rhs is Some),
        a.spec_add().time_base == a.time_base,
        a.spec_subtract().time_base == a.time_base,
{
}

} // verus!

