//! A left/right pair of motor voltages.

use crate::drivetrain_pair::{
    lemma_limited_sides_within, limit_sides, limited_sides, mag, mean_of, mean_toward_zero,
};
use vstd::prelude::*;

verus! {

/// Millivolts for the left and right sides of a drivetrain.
#[derive(Debug, Clone, Copy, PartialEq, Eq, Structural)]
pub struct VoltagePair {
    pub left: i32,
    pub right: i32,
}

/// `p` with its sides limited to `limit`; see [`limited_sides`].
pub open spec fn voltage_limited(p: VoltagePair, limit: int) -> VoltagePair {
    VoltagePair {
        left: limited_sides(p.left as int, p.right as int, limit).0 as i32,
        right: limited_sides(p.left as int, p.right as int, limit).1 as i32,
    }
}

impl VoltagePair {
    /// Scales the pair, preserving the ratio of its sides, so that neither
    /// side exceeds `max_voltage` in magnitude. A pair already within the
    /// limit is returned unchanged.
    pub fn max_voltage(self, max_voltage: i32) -> (r: VoltagePair)
        requires
            max_voltage >= 0,
        ensures
            r == voltage_limited(self, max_voltage as int),
            mag(r.left as int) <= max_voltage,
            mag(r.right as int) <= max_voltage,
    {
        proof {
            lemma_limited_sides_within(self.left as int, self.right as int, max_voltage as int);
        }
        let (left, right) = limit_sides(self.left, self.right, max_voltage);
        VoltagePair { left, right }
    }

    /// Swaps the two sides.
    pub fn reverse(self) -> (r: VoltagePair)
        ensures
            r == (VoltagePair { left: self.right, right: self.left }),
    {
        VoltagePair { left: self.right, right: self.left }
    }

    /// The mean of the two sides, rounded toward zero.
    pub fn average(self) -> (r: i32)
        ensures
            r == mean_toward_zero(self.left as int, self.right as int),
    {
        mean_of(self.left, self.right)
    }
}

impl From<i32> for VoltagePair {
    /// The same millivolts on both sides.
    fn from(millivolts: i32) -> (r: VoltagePair) {
        VoltagePair { left: millivolts, right: millivolts }
    }
}

impl vstd::std_specs::convert::FromSpecImpl<i32> for VoltagePair {
    open spec fn obeys_from_spec() -> bool {
        true
    }

    open spec fn from_spec(millivolts: i32) -> VoltagePair {
        VoltagePair { left: millivolts, right: millivolts }
    }
}

} // verus!
