//! Differential drivetrain commands.
//!
//! A command carries one value per side in the motor's native integer unit:
//! millivolts for [`DrivetrainUnits::Voltage`], RPM at the wheel output for
//! [`DrivetrainUnits::RPM`].

use vstd::arithmetic::div_mod::{lemma_div_by_multiple, lemma_div_is_ordered, lemma_fundamental_div_mod};
use vstd::arithmetic::mul::lemma_mul_inequality;
use vstd::prelude::*;

verus! {

/// The unit that both sides of a [`DrivetrainPair`] are expressed in.
#[derive(Debug, Clone, Copy, PartialEq, Eq, Structural)]
pub enum DrivetrainUnits {
    /// Millivolts applied directly to the motors.
    Voltage,
    /// Wheel velocity handed to the motors' built-in velocity controller.
    RPM,
}

/// A command for a differential (tank) drivetrain.
#[derive(Debug, Clone, Copy, PartialEq, Eq, Structural)]
pub struct DrivetrainPair {
    pub left: i32,
    pub right: i32,
    pub units: DrivetrainUnits,
}

/// Magnitude of an integer.
pub open spec fn mag(v: int) -> int {
    if v < 0 {
        -v
    } else {
        v
    }
}

/// `v * num / den`, rounded toward zero.
pub open spec fn scale_toward_zero(v: int, num: int, den: int) -> int {
    if v >= 0 {
        (v * num) / den
    } else {
        -((-v * num) / den)
    }
}

/// Whether both sides of `p` are within `limit` in magnitude.
pub open spec fn within_limit(p: DrivetrainPair, limit: int) -> bool {
    mag(p.left as int) <= limit && mag(p.right as int) <= limit
}

/// The larger of two magnitudes.
pub open spec fn larger_mag(l: int, r: int) -> int {
    if mag(l) >= mag(r) {
        mag(l)
    } else {
        mag(r)
    }
}

/// The sides `(l, r)` scaled so that the larger has magnitude `limit`, both
/// by the same factor (each rounded toward zero), or left as they are when
/// both are already within `limit`.
pub open spec fn limited_sides(l: int, r: int, limit: int) -> (int, int) {
    if mag(l) <= limit && mag(r) <= limit {
        (l, r)
    } else {
        (scale_toward_zero(l, limit, larger_mag(l, r)), scale_toward_zero(r, limit, larger_mag(l, r)))
    }
}

/// `p` with its sides limited to `limit`; see [`limited_sides`].
pub open spec fn limited(p: DrivetrainPair, limit: int) -> DrivetrainPair {
    DrivetrainPair {
        left: limited_sides(p.left as int, p.right as int, limit).0 as i32,
        right: limited_sides(p.left as int, p.right as int, limit).1 as i32,
        units: p.units,
    }
}

/// `p` with its sides swapped.
pub open spec fn swapped(p: DrivetrainPair) -> DrivetrainPair {
    DrivetrainPair { left: p.right, right: p.left, units: p.units }
}

/// Mean of two integers, rounded toward zero.
pub open spec fn mean_toward_zero(a: int, b: int) -> int {
    scale_toward_zero(a + b, 1, 2)
}

/// Scaling a value of magnitude at most `den` by `num / den` gives a value of
/// magnitude at most `num`, of the same sign, that is short of the exact
/// product by less than one unit.
pub proof fn lemma_scale_bounded(v: int, num: int, den: int)
    requires
        0 <= num,
        0 < den,
        mag(v) <= den,
    ensures
        mag(scale_toward_zero(v, num, den)) <= num,
        v >= 0 ==> scale_toward_zero(v, num, den) >= 0,
        v <= 0 ==> scale_toward_zero(v, num, den) <= 0,
        0 <= mag(v) * num - mag(scale_toward_zero(v, num, den)) * den < den,
        mag(v) == den ==> mag(scale_toward_zero(v, num, den)) == num,
{
    let a = mag(v);
    lemma_mul_inequality(a, den, num);
    assert(a * num <= den * num);
    assert(den * num == num * den) by (nonlinear_arith);
    lemma_div_is_ordered(a * num, num * den, den);
    lemma_div_by_multiple(num, den);
    assert(0 <= a * num) by (nonlinear_arith)
        requires
            0 <= a,
            0 <= num,
    ;
    vstd::arithmetic::div_mod::lemma_div_pos_is_pos(a * num, den);
    lemma_fundamental_div_mod(a * num, den);
    vstd::arithmetic::div_mod::lemma_mod_bound(a * num, den);
    assert(den * ((a * num) / den) == ((a * num) / den) * den) by (nonlinear_arith);
    if v == 0 {
        assert(0 * num == 0);
    }
    if a == den {
        assert(a * num == num * den) by (nonlinear_arith)
            requires
                a == den,
        ;
    }
}

impl DrivetrainPair {
    /// A command in RPM units.
    pub fn new_rpm(left: i32, right: i32) -> (r: DrivetrainPair)
        ensures
            r == (DrivetrainPair { left, right, units: DrivetrainUnits::RPM }),
    {
        DrivetrainPair { left, right, units: DrivetrainUnits::RPM }
    }

    /// Scales the pair, preserving the ratio of its sides, so that neither
    /// side exceeds `max` in magnitude. A pair already within `max` is
    /// returned unchanged.
    pub fn max(self, max: i32) -> (r: DrivetrainPair)
        requires
            max >= 0,
        ensures
            r == limited(self, max as int),
    {
        let (left, right) = limit_sides(self.left, self.right, max);
        DrivetrainPair { left, right, units: self.units }
    }

    /// Swaps the two sides.
    pub fn reverse(self) -> (r: DrivetrainPair)
        ensures
            r == swapped(self),
    {
        DrivetrainPair { left: self.right, right: self.left, units: self.units }
    }

    /// The mean of the two sides, rounded toward zero.
    pub fn average(self) -> (r: i32)
        ensures
            r == mean_toward_zero(self.left as int, self.right as int),
    {
        mean_of(self.left, self.right)
    }
}

/// The sides `(l, r)` limited to `limit`; see [`limited_sides`].
pub(crate) fn limit_sides(l: i32, r: i32, limit: i32) -> (out: (i32, i32))
    requires
        limit >= 0,
    ensures
        out.0 == limited_sides(l as int, r as int, limit as int).0,
        out.1 == limited_sides(l as int, r as int, limit as int).1,
{
    let l = l as i64;
    let rt = r as i64;
    let al: i64 = if l < 0 {
        -l
    } else {
        l
    };
    let ar: i64 = if rt < 0 {
        -rt
    } else {
        rt
    };
    let lim = limit as i64;
    if al <= lim && ar <= lim {
        return (l as i32, rt as i32);
    }
    let den: i64 = if al >= ar {
        al
    } else {
        ar
    };
    proof {
        lemma_scale_bounded(l as int, lim as int, den as int);
        lemma_scale_bounded(rt as int, lim as int, den as int);
        lemma_mul_inequality(al as int, 0x8000_0000, lim as int);
        lemma_mul_inequality(ar as int, 0x8000_0000, lim as int);
        lemma_mul_inequality(lim as int, 0x8000_0000, 0x8000_0000);
        assert(0x8000_0000 * (lim as int) == (lim as int) * 0x8000_0000);
    }
    (scale_i64(l, al, lim, den), scale_i64(rt, ar, lim, den))
}

/// The mean of `a` and `b`, rounded toward zero.
pub(crate) fn mean_of(a: i32, b: i32) -> (r: i32)
    ensures
        r == mean_toward_zero(a as int, b as int),
{
    let s = a as i64 + b as i64;
    let m: i64 = if s >= 0 {
        s / 2
    } else {
        -((-s) / 2)
    };
    m as i32
}

/// `v * lim / den` rounded toward zero, where `a` is the magnitude of `v`.
fn scale_i64(v: i64, a: i64, lim: i64, den: i64) -> (r: i32)
    requires
        a == mag(v as int),
        0 <= lim <= i32::MAX,
        0 < den,
        a <= den,
        a * lim <= 0x8000_0000 * 0x7fff_ffff,
        mag(scale_toward_zero(v as int, lim as int, den as int)) <= lim,
    ensures
        r == scale_toward_zero(v as int, lim as int, den as int),
{
    proof {
        assert(0 <= a * lim) by (nonlinear_arith)
            requires
                0 <= a,
                0 <= lim,
        ;
    }
    let q = (a * lim) / den;
    if v >= 0 {
        q as i32
    } else {
        (-q) as i32
    }
}

impl From<i32> for DrivetrainPair {
    /// A voltage command that drives both sides alike.
    fn from(millivolts: i32) -> (r: DrivetrainPair) {
        DrivetrainPair { left: millivolts, right: millivolts, units: DrivetrainUnits::Voltage }
    }
}

impl vstd::std_specs::convert::FromSpecImpl<i32> for DrivetrainPair {
    open spec fn obeys_from_spec() -> bool {
        true
    }

    open spec fn from_spec(millivolts: i32) -> DrivetrainPair {
        DrivetrainPair { left: millivolts, right: millivolts, units: DrivetrainUnits::Voltage }
    }
}

/// Limiting sides of `i32` range keeps both within the limit and within
/// `i32` range, with the same signs.
pub proof fn lemma_limited_sides_within(l: int, r: int, limit: int)
    requires
        limit >= 0,
        i32::MIN <= l <= i32::MAX,
        i32::MIN <= r <= i32::MAX,
    ensures
        mag(limited_sides(l, r, limit).0) <= limit,
        mag(limited_sides(l, r, limit).1) <= limit,
        i32::MIN <= limited_sides(l, r, limit).0 <= i32::MAX,
        i32::MIN <= limited_sides(l, r, limit).1 <= i32::MAX,
{
    if !(mag(l) <= limit && mag(r) <= limit) {
        lemma_scale_bounded(l, limit, larger_mag(l, r));
        lemma_scale_bounded(r, limit, larger_mag(l, r));
    }
}

/// Scaling a command to a limit keeps both sides within the limit, keeps the
/// sign of each side, and keeps their ratio: each side is its exact share of
/// the limit, rounded toward zero by less than one unit. A command already
/// within the limit is left as it is.
pub proof fn lemma_max_keeps_ratio(p: DrivetrainPair, limit: int)
    requires
        limit >= 0,
    ensures
        within_limit(limited(p, limit), limit),
        limited(p, limit).units == p.units,
        within_limit(p, limit) ==> limited(p, limit) == p,
        !within_limit(p, limit) ==> {
            let q = limited(p, limit);
            let den = larger_mag(p.left as int, p.right as int);
            &&& mag(p.left as int) * limit - mag(q.left as int) * den < den
            &&& 0 <= mag(p.left as int) * limit - mag(q.left as int) * den
            &&& mag(p.right as int) * limit - mag(q.right as int) * den < den
            &&& 0 <= mag(p.right as int) * limit - mag(q.right as int) * den
            &&& (p.left >= 0 ==> q.left >= 0) && (p.left <= 0 ==> q.left <= 0)
            &&& (p.right >= 0 ==> q.right >= 0) && (p.right <= 0 ==> q.right <= 0)
            &&& (mag(q.left as int) == limit || mag(q.right as int) == limit)
        },
{
    lemma_limited_sides_within(p.left as int, p.right as int, limit);
    if !within_limit(p, limit) {
        let den = larger_mag(p.left as int, p.right as int);
        lemma_scale_bounded(p.left as int, limit, den);
        lemma_scale_bounded(p.right as int, limit, den);
    }
}

/// Swapping the sides twice gives the command back.
pub proof fn lemma_reverse_twice(p: DrivetrainPair)
    ensures
        swapped(swapped(p)) == p,
{
}

} // verus!
