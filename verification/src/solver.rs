//! Capacitance and resistance from the two measured intervals, in exact
//! arithmetic.
//!
//! A capacitor that charges through a resistor towards the supply voltage
//! reaches the input-high threshold after `R * C * k` seconds, where `k` is
//! the natural logarithm of `VCC / (VCC - VIH)`. The second interval, taken
//! through the reference resistor, gives the capacitance; the first, taken
//! through the unknown resistor, then gives the resistance. Results are exact
//! fractions of integers: nothing is rounded and nothing is validated.

use vstd::prelude::*;
use crate::sequencer::Intervals;

verus! {

/// The reference resistor of the board, in ohms.
pub const RREF_OHMS: u32 = 10_000;

/// How many units of `Network::log_micro` make one.
pub const LOG_SCALE: u32 = 1_000_000;

/// The fraction `numerator / denominator`. A zero denominator stands for a
/// result that is not finite; it is handed on as computed.
#[derive(Clone, Copy, Debug, PartialEq, Eq, Structural)]
pub struct Ratio {
    pub numerator: u128,
    pub denominator: u128,
}

impl Ratio {
    /// The fraction is a number.
    pub open spec fn is_finite(self) -> bool {
        self.denominator > 0
    }

    /// The fraction is exactly zero.
    pub open spec fn is_zero(self) -> bool {
        self.denominator > 0 && self.numerator == 0
    }

    /// The fraction is a number above zero.
    pub open spec fn is_positive(self) -> bool {
        self.denominator > 0 && self.numerator > 0
    }

    /// Both fractions are the same number.
    pub open spec fn same_as(self, other: Ratio) -> bool {
        &&& self.is_finite()
        &&& other.is_finite()
        &&& self.numerator * other.denominator == other.numerator * self.denominator
    }

    /// This fraction is the smaller number.
    pub open spec fn less_than(self, other: Ratio) -> bool {
        &&& self.is_finite()
        &&& other.is_finite()
        &&& self.numerator * other.denominator < other.numerator * self.denominator
    }
}

/// The fixed quantities of the network under measurement.
#[derive(Clone, Copy, Debug, PartialEq, Eq, Structural)]
pub struct Network {
    /// The reference resistor, in ohms.
    pub rref_ohms: u32,
    /// Ticks that the capture counts per second.
    pub ticks_per_second: u32,
    /// The natural logarithm of `VCC / (VCC - VIH)`, in millionths: how many
    /// time constants the junction takes to reach the threshold.
    pub log_micro: u32,
}

/// What one cycle yields.
#[derive(Clone, Copy, Debug, PartialEq, Eq, Structural)]
pub struct Solution {
    /// Farads.
    pub capacitance: Ratio,
    /// Ohms.
    pub resistance: Ratio,
}

impl Network {
    /// The network is physical: a reference resistor, a tick rate, and a
    /// threshold strictly between ground and the supply, so that the
    /// logarithm is above zero.
    pub open spec fn well_formed(self) -> bool {
        self.rref_ohms > 0 && self.ticks_per_second > 0 && self.log_micro > 0
    }

    /// `t2 / (RREF * k)` with `t2` in seconds: the capacitance in farads.
    pub open spec fn spec_capacitance(self, t2_ticks: u32) -> Ratio {
        Ratio {
            numerator: (t2_ticks * LOG_SCALE) as u128,
            denominator: (self.ticks_per_second * self.rref_ohms * self.log_micro) as u128,
        }
    }

    /// `RREF * t1 / t2`: the resistance in ohms. It is `t1 / (C * k)` with
    /// `C` the capacitance above, in which the logarithm and the tick rate
    /// cancel.
    pub open spec fn spec_resistance(self, t1_ticks: u32, t2_ticks: u32) -> Ratio {
        Ratio { numerator: (self.rref_ohms * t1_ticks) as u128, denominator: t2_ticks as u128 }
    }

    /// Whether the network is physical.
    pub fn is_well_formed(&self) -> (ok: bool)
        ensures
            ok == self.well_formed(),
    {
        self.rref_ohms > 0 && self.ticks_per_second > 0 && self.log_micro > 0
    }

    /// The capacitance in farads, from the interval taken through the
    /// reference resistor.
    pub fn capacitance(&self, t2_ticks: u32) -> (farads: Ratio)
        ensures
            farads == self.spec_capacitance(t2_ticks),
    {
        let tps: u128 = self.ticks_per_second as u128;
        let rref: u128 = self.rref_ohms as u128;
        let log: u128 = self.log_micro as u128;
        assert(tps * rref <= 0xFFFF_FFFF * 0xFFFF_FFFF) by (nonlinear_arith)
            requires
                tps <= 0xFFFF_FFFF,
                rref <= 0xFFFF_FFFF,
        ;
        assert(tps * rref * log <= 0xFFFF_FFFF * 0xFFFF_FFFF * 0xFFFF_FFFF) by (nonlinear_arith)
            requires
                tps * rref <= 0xFFFF_FFFF * 0xFFFF_FFFF,
                log <= 0xFFFF_FFFF,
        ;
        Ratio {
            numerator: (t2_ticks as u128) * (LOG_SCALE as u128),
            denominator: tps * rref * log,
        }
    }

    /// The resistance in ohms, from both intervals.
    pub fn resistance(&self, t1_ticks: u32, t2_ticks: u32) -> (ohms: Ratio)
        ensures
            ohms == self.spec_resistance(t1_ticks, t2_ticks),
    {
        let rref: u128 = self.rref_ohms as u128;
        let t1: u128 = t1_ticks as u128;
        assert(rref * t1 <= 0xFFFF_FFFF * 0xFFFF_FFFF) by (nonlinear_arith)
            requires
                rref <= 0xFFFF_FFFF,
                t1 <= 0xFFFF_FFFF,
        ;
        Ratio { numerator: rref * t1, denominator: t2_ticks as u128 }
    }

    /// Both results of one cycle.
    pub fn solve(&self, intervals: Intervals) -> (solution: Solution)
        ensures
            solution.capacitance == self.spec_capacitance(intervals.t2_ticks),
            solution.resistance == self.spec_resistance(intervals.t1_ticks, intervals.t2_ticks),
    {
        Solution {
            capacitance: self.capacitance(intervals.t2_ticks),
            resistance: self.resistance(intervals.t1_ticks, intervals.t2_ticks),
        }
    }
}

} // verus!
