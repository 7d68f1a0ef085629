//! Value types for depth, pressure and rate of depth change.
//!
//! All three are exact integers: a depth counts tenths of a millimetre,
//! a pressure counts pascals and a rate counts pascals per minute.  With
//! one millimetre of water column worth 0.1 mbar (10 Pa), one tenth of a
//! millimetre is exactly one pascal, so depth and pressure convert into
//! each other without rounding.
use vstd::prelude::*;

verus! {

/// Largest magnitude allowed for a depth, pressure or rate (about 10^15).
pub const UNIT_LIMIT: i64 = 1_000_000_000_000_000;

/// Tenths of a millimetre in one metre.
pub const DMM_PER_METER: i64 = 10_000;

/// Tenths of a millimetre in one foot (304.8 mm).
pub const DMM_PER_FOOT: i64 = 3_048;

/// Pascals in one millibar.
pub const PA_PER_MBAR: i64 = 100;

/// Pascals in one bar.
pub const PA_PER_BAR: i64 = 100_000;

/// A depth of water column, in tenths of a millimetre.
#[derive(Clone, Copy, Debug, PartialEq, Eq, Structural, PartialOrd, Ord, Hash)]
pub struct Depth {
    pub dmm: i64,
}

/// An absolute or relative pressure, in pascals.
#[derive(Clone, Copy, Debug, PartialEq, Eq, Structural, PartialOrd, Ord, Hash)]
pub struct Pressure {
    pub pa: i64,
}

/// A signed rate of pressure change, in pascals per minute; negative on ascent.
#[derive(Clone, Copy, Debug, PartialEq, Eq, Structural, PartialOrd, Ord, Hash)]
pub struct DepthChange {
    pub pa_per_min: i64,
}

/// Is `v` within the range that the unit types accept.
pub open spec fn in_range(v: int) -> bool {
    -UNIT_LIMIT <= v <= UNIT_LIMIT
}

/// The absolute pressure under `depth` of water and an atmosphere `atm`.
pub open spec fn pressure_at(depth: Depth, atm: Pressure) -> int {
    depth.dmm + atm.pa
}

/// The depth of water column between the absolute pressure `p` and `atm`.
pub open spec fn depth_below(p: Pressure, atm: Pressure) -> int {
    p.pa - atm.pa
}

/// Floor of `a / b` for a positive `b`, on exec integers.
fn floor_div(a: i64, b: i64) -> (r: i64)
    requires
        b > 0,
        a > i64::MIN,
    ensures
        r as int == a as int / b as int,
{
    if a >= 0 {
        a / b
    } else {
        let m = ((-a) - 1) / b;
        proof {
            let q = (-a - 1) as int / b as int;
            let s = (-a - 1) as int % b as int;
            assert((-a - 1) as int == b * q + s) by (nonlinear_arith)
                requires q == (-a - 1) as int / b as int, s == (-a - 1) as int % b as int, b > 0;
            assert(0 <= s < b);
            assert(a as int == b * (-q - 1) + (b - 1 - s)) by (nonlinear_arith)
                requires (-a - 1) as int == b * q + s;
            vstd::arithmetic::div_mod::lemma_fundamental_div_mod_converse(
                a as int, b as int, -q - 1, b - 1 - s);
        }
        -m - 1
    }
}

impl Depth {
    /// Spec value in tenths of a millimetre.
    pub open spec fn spec_dmm(self) -> int {
        self.dmm as int
    }

    /// A depth of `mm` millimetres.
    pub fn millimeters(mm: i64) -> (r: Depth)
        requires
            in_range(mm * 10),
        ensures
            r.dmm == mm * 10,
    {
        Depth { dmm: mm * 10 }
    }

    /// A depth of `meters` metres.
    pub fn meters(meters: i64) -> (r: Depth)
        requires
            in_range(meters * DMM_PER_METER),
        ensures
            r.dmm == meters * DMM_PER_METER,
    {
        Depth { dmm: meters * DMM_PER_METER }
    }

    /// A depth of `feet` feet, at 304.8 mm per foot.
    pub fn feet(feet: i64) -> (r: Depth)
        requires
            in_range(feet * DMM_PER_FOOT),
        ensures
            r.dmm == feet * DMM_PER_FOOT,
    {
        Depth { dmm: feet * DMM_PER_FOOT }
    }

    /// The depth of water column whose pressure above `atm` is `pressure`.
    pub fn from_pressure(pressure: Pressure, atm: Pressure) -> (r: Depth)
        requires
            in_range(pressure.pa - atm.pa),
        ensures
            r.dmm == depth_below(pressure, atm),
    {
        Depth { dmm: pressure.pa - atm.pa }
    }

    /// The depth in tenths of a millimetre.
    pub fn to_tenth_mm(&self) -> (r: i64)
        ensures
            r == self.dmm,
    {
        self.dmm
    }

    /// The depth in whole millimetres, rounded down.
    pub fn to_mm(&self) -> (r: i64)
        requires
            in_range(self.dmm as int),
        ensures
            r == self.dmm as int / 10,
    {
        floor_div(self.dmm, 10)
    }

    /// The depth in whole metres, rounded down.
    pub fn to_meters(&self) -> (r: i64)
        requires
            in_range(self.dmm as int),
        ensures
            r == self.dmm as int / DMM_PER_METER as int,
    {
        floor_div(self.dmm, DMM_PER_METER)
    }

    /// The depth in whole feet, rounded down.
    pub fn to_feet(&self) -> (r: i64)
        requires
            in_range(self.dmm as int),
        ensures
            r == self.dmm as int / DMM_PER_FOOT as int,
    {
        floor_div(self.dmm, DMM_PER_FOOT)
    }
}

impl Pressure {
    /// A pressure of `mbar` millibar.
    pub fn millibar(mbar: i64) -> (r: Pressure)
        requires
            in_range(mbar * PA_PER_MBAR),
        ensures
            r.pa == mbar * PA_PER_MBAR,
    {
        Pressure { pa: mbar * PA_PER_MBAR }
    }

    /// A pressure of `pa` pascals.
    pub fn pascal(pa: i64) -> (r: Pressure)
        ensures
            r.pa == pa,
    {
        Pressure { pa }
    }

    /// A pressure of `bar` bar.
    pub fn bar(bar: i64) -> (r: Pressure)
        requires
            in_range(bar * PA_PER_BAR),
        ensures
            r.pa == bar * PA_PER_BAR,
    {
        Pressure { pa: bar * PA_PER_BAR }
    }

    /// The absolute pressure at `depth` under an atmosphere of `atm`:
    /// one tenth of the depth in millimetres, in millibar, plus `atm`.
    pub fn from_depth(depth: Depth, atm: Pressure) -> (r: Pressure)
        requires
            in_range(depth.dmm + atm.pa),
        ensures
            r.pa == pressure_at(depth, atm),
    {
        Pressure { pa: depth.dmm + atm.pa }
    }

    /// The pressure of the water column `depth` alone.
    pub fn from_depth_rel(depth: Depth) -> (r: Pressure)
        ensures
            r.pa == depth.dmm,
    {
        Pressure { pa: depth.dmm }
    }

    /// The pressure in pascals.
    pub fn to_pascal(&self) -> (r: i64)
        ensures
            r == self.pa,
    {
        self.pa
    }

    /// The pressure in whole millibar, rounded down.
    pub fn to_mbar(&self) -> (r: i64)
        requires
            in_range(self.pa as int),
        ensures
            r == self.pa as int / PA_PER_MBAR as int,
    {
        floor_div(self.pa, PA_PER_MBAR)
    }

    /// The pressure in whole bar, rounded down.
    pub fn to_bar(&self) -> (r: i64)
        requires
            in_range(self.pa as int),
        ensures
            r == self.pa as int / PA_PER_BAR as int,
    {
        floor_div(self.pa, PA_PER_BAR)
    }

    /// The depth of water column between this pressure and `atm`.
    pub fn to_depth(&self, atm: Pressure) -> (r: Depth)
        requires
            in_range(self.pa - atm.pa),
        ensures
            r.dmm == depth_below(*self, atm),
    {
        Depth::from_pressure(*self, atm)
    }
}

impl DepthChange {
    /// A descent at `mbar` per minute.
    pub fn descent_pressure(mbar: Pressure) -> (r: DepthChange)
        ensures
            r.pa_per_min == mbar.pa,
    {
        DepthChange { pa_per_min: mbar.pa }
    }

    /// A descent of `depth` per minute.
    pub fn descent_depth(depth: Depth) -> (r: DepthChange)
        ensures
            r.pa_per_min == depth.dmm,
    {
        DepthChange { pa_per_min: depth.dmm }
    }

    /// An ascent at `mbar` per minute (a negative rate).
    pub fn ascent_pressure(mbar: Pressure) -> (r: DepthChange)
        requires
            in_range(mbar.pa as int),
        ensures
            r.pa_per_min == -mbar.pa,
    {
        DepthChange { pa_per_min: -mbar.pa }
    }

    /// An ascent of `depth` per minute (a negative rate).
    pub fn ascent_depth(depth: Depth) -> (r: DepthChange)
        requires
            in_range(depth.dmm as int),
        ensures
            r.pa_per_min == -depth.dmm,
    {
        DepthChange { pa_per_min: -depth.dmm }
    }

    /// The rate in pascals per minute.
    pub fn to_pascal(&self) -> (r: i64)
        ensures
            r == self.pa_per_min,
    {
        self.pa_per_min
    }

    /// The rate in whole millibar per minute, rounded down.
    pub fn to_mbar(&self) -> (r: i64)
        requires
            in_range(self.pa_per_min as int),
        ensures
            r == self.pa_per_min as int / PA_PER_MBAR as int,
    {
        floor_div(self.pa_per_min, PA_PER_MBAR)
    }

    /// The rate in whole bar per minute, rounded down.
    pub fn to_bar(&self) -> (r: i64)
        requires
            in_range(self.pa_per_min as int),
        ensures
            r == self.pa_per_min as int / PA_PER_BAR as int,
    {
        floor_div(self.pa_per_min, PA_PER_BAR)
    }
}

/// Converting a depth to its absolute pressure and back gives the depth again,
/// exactly.
pub proof fn lemma_depth_round_trip(depth: Depth, atm: Pressure)
    requires
        in_range(depth.dmm as int),
        in_range(pressure_at(depth, atm)),
    ensures
        in_range(depth_below(Pressure { pa: pressure_at(depth, atm) as i64 }, atm)),
        depth_below(Pressure { pa: pressure_at(depth, atm) as i64 }, atm) == depth.dmm,
{
}

} // verus!
