//! Breathing gases: their mix, their usable pressure window and their roles.
//!
//! Fractions are counted in parts per thousand (0.1 %), partial pressures of
//! oxygen in millibar.
use vstd::prelude::*;

use crate::segment_type::SegmentType;
use crate::types::{Pressure, PA_PER_BAR};

verus! {

/// Parts per thousand in a whole fraction.
pub const PERMILLE: i64 = 1000;

/// Largest oxygen partial pressure, in millibar, that a gas may be given.
pub const PPO2_LIMIT: i64 = 1_000_000;

/// Working oxygen partial pressure of a decompression gas or a diluent (1.61 bar).
pub const DECO_PPO2: i64 = 1610;

/// Lowest oxygen partial pressure of a bottom gas or a diluent (0.18 bar).
pub const BOTTOM_MIN_PPO2: i64 = 180;

/// Lowest oxygen partial pressure of a decompression gas (0.21 bar).
pub const DECO_MIN_PPO2: i64 = 210;

/// A breathing mix.
#[derive(Clone, Copy, Debug)]
pub struct Gas {
    /// Oxygen, in parts per thousand.
    pub f_o2: i64,
    /// Nitrogen, in parts per thousand: what oxygen and helium leave.
    pub f_n2: i64,
    /// Helium, in parts per thousand.
    pub f_he: i64,
    /// Lowest oxygen partial pressure to breathe, in millibar.
    pub min_ppo2: i64,
    /// Highest oxygen partial pressure to breathe, in millibar.
    pub ppo2: i64,
    /// Shallowest absolute pressure at which the gas may be breathed.
    pub min_depth: Pressure,
    /// Deepest absolute pressure at which the gas may be breathed.
    pub max_depth: Pressure,
    pub use_ascent: bool,
    pub use_descent: bool,
    pub use_diluent: bool,
}

/// The mix parameters that a gas may be built from.
pub open spec fn valid_mix(f_o2: int, f_he: int, ppo2: int, min_ppo2: int) -> bool {
    &&& 0 < f_o2 <= PERMILLE
    &&& 0 <= f_he
    &&& f_o2 + f_he <= PERMILLE
    &&& 0 < ppo2 <= PPO2_LIMIT
    &&& 0 <= min_ppo2 <= PPO2_LIMIT
}

/// Deepest usable absolute pressure, in pascals: `ppo2 / f_o2` bar, rounded down.
pub open spec fn max_depth_of(f_o2: int, ppo2: int) -> int {
    ppo2 * PA_PER_BAR / f_o2
}

/// Shallowest usable absolute pressure, in pascals: the larger of one bar and
/// `min_ppo2 / f_o2` bar, rounded up.
pub open spec fn min_depth_of(f_o2: int, min_ppo2: int) -> int {
    if f_o2 >= min_ppo2 {
        PA_PER_BAR as int
    } else {
        (min_ppo2 * PA_PER_BAR + f_o2 - 1) / f_o2
    }
}

/// Whether a gas with these roles may be breathed on a segment of type `segment`.
pub open spec fn role_allows(gas: Gas, segment: SegmentType) -> bool {
    match segment {
        SegmentType::DOWN => gas.use_descent,
        SegmentType::UP => gas.use_ascent,
        SegmentType::LEVEL => true,
    }
}

/// Whether `gas` may be breathed at absolute pressure `depth` on a segment
/// of type `segment`.
pub open spec fn usable(gas: Gas, depth: Pressure, segment: SegmentType) -> bool {
    gas.min_depth.pa <= depth.pa <= gas.max_depth.pa && role_allows(gas, segment)
}

impl Gas {
    /// The gas was built by one of the constructors.
    pub open spec fn wf(self) -> bool {
        &&& valid_mix(self.f_o2 as int, self.f_he as int, self.ppo2 as int, self.min_ppo2 as int)
        &&& self.f_n2 == PERMILLE - self.f_o2 - self.f_he
        &&& self.min_depth.pa == min_depth_of(self.f_o2 as int, self.min_ppo2 as int)
        &&& self.max_depth.pa == max_depth_of(self.f_o2 as int, self.ppo2 as int)
    }

    fn new(
        f_o2: i64,
        f_he: i64,
        ppo2: i64,
        min_ppo2: i64,
        use_ascent: bool,
        use_descent: bool,
        use_diluent: bool,
    ) -> (r: Gas)
        requires
            valid_mix(f_o2 as int, f_he as int, ppo2 as int, min_ppo2 as int),
        ensures
            r.wf(),
            r.f_o2 == f_o2,
            r.f_he == f_he,
            r.ppo2 == ppo2,
            r.min_ppo2 == min_ppo2,
            r.use_ascent == use_ascent,
            r.use_descent == use_descent,
            r.use_diluent == use_diluent,
    {
        let min = if f_o2 >= min_ppo2 {
            PA_PER_BAR
        } else {
            (min_ppo2 * PA_PER_BAR + f_o2 - 1) / f_o2
        };
        proof {
            assert(0 <= ppo2 * PA_PER_BAR / (f_o2 as int) <= ppo2 * PA_PER_BAR) by (nonlinear_arith)
                requires 0 < f_o2, 0 <= ppo2;
            if f_o2 < min_ppo2 {
                assert(0 <= (min_ppo2 * PA_PER_BAR + f_o2 - 1) / (f_o2 as int)
                    <= min_ppo2 * PA_PER_BAR + f_o2 - 1) by (nonlinear_arith)
                    requires 0 < f_o2, 0 <= min_ppo2;
            }
        }
        let max = ppo2 * PA_PER_BAR / f_o2;
        Gas {
            f_o2,
            f_n2: PERMILLE - (f_o2 + f_he),
            f_he,
            min_ppo2,
            ppo2,
            min_depth: Pressure::pascal(min),
            max_depth: Pressure::pascal(max),
            use_ascent,
            use_descent,
            use_diluent,
        }
    }

    /// A decompression gas: breathed on ascent only, between 0.21 and 1.61 bar
    /// of oxygen.
    pub fn new_deco(f_o2: i64, f_he: i64) -> (r: Gas)
        requires
            valid_mix(f_o2 as int, f_he as int, DECO_PPO2 as int, DECO_MIN_PPO2 as int),
        ensures
            r.wf(),
            r.f_o2 == f_o2,
            r.f_he == f_he,
            r.ppo2 == DECO_PPO2,
            r.min_ppo2 == DECO_MIN_PPO2,
            r.use_ascent && !r.use_descent && !r.use_diluent,
    {
        Gas::new(f_o2, f_he, DECO_PPO2, DECO_MIN_PPO2, true, false, false)
    }

    /// A bottom gas: breathed on descent and ascent, between 0.18 bar and
    /// `ppo2` of oxygen.
    pub fn new_bottom(f_o2: i64, f_he: i64, ppo2: i64) -> (r: Gas)
        requires
            valid_mix(f_o2 as int, f_he as int, ppo2 as int, BOTTOM_MIN_PPO2 as int),
        ensures
            r.wf(),
            r.f_o2 == f_o2,
            r.f_he == f_he,
            r.ppo2 == ppo2,
            r.min_ppo2 == BOTTOM_MIN_PPO2,
            r.use_ascent && r.use_descent && !r.use_diluent,
    {
        Gas::new(f_o2, f_he, ppo2, BOTTOM_MIN_PPO2, true, true, false)
    }

    /// A rebreather diluent, between 0.18 and 1.61 bar of oxygen.
    pub fn new_diluent(f_o2: i64, f_he: i64) -> (r: Gas)
        requires
            valid_mix(f_o2 as int, f_he as int, DECO_PPO2 as int, BOTTOM_MIN_PPO2 as int),
        ensures
            r.wf(),
            r.f_o2 == f_o2,
            r.f_he == f_he,
            r.ppo2 == DECO_PPO2,
            r.min_ppo2 == BOTTOM_MIN_PPO2,
            !r.use_ascent && !r.use_descent && r.use_diluent,
    {
        Gas::new(f_o2, f_he, DECO_PPO2, BOTTOM_MIN_PPO2, false, false, true)
    }

    /// Whether the gas may be breathed at absolute pressure `depth` on a
    /// segment of type `segment`.
    pub fn use_gas(&self, depth: Pressure, segment: SegmentType) -> (r: bool)
        ensures
            r == usable(*self, depth, segment),
    {
        if depth.pa >= self.min_depth.pa && depth.pa <= self.max_depth.pa {
            match segment {
                SegmentType::DOWN => self.use_descent,
                SegmentType::UP => self.use_ascent,
                SegmentType::LEVEL => true,
            }
        } else {
            false
        }
    }

    /// Whether the gas is one that the constructors build.
    pub fn is_wf(&self) -> (r: bool)
        ensures
            r == self.wf(),
    {
        if !(0 < self.f_o2 && self.f_o2 <= PERMILLE && 0 <= self.f_he && self.f_he <= PERMILLE
            - self.f_o2 && 0 < self.ppo2 && self.ppo2 <= PPO2_LIMIT && 0 <= self.min_ppo2
            && self.min_ppo2 <= PPO2_LIMIT) {
            return false;
        }
        let g = Gas::new(
            self.f_o2,
            self.f_he,
            self.ppo2,
            self.min_ppo2,
            self.use_ascent,
            self.use_descent,
            self.use_diluent,
        );
        self.f_n2 == g.f_n2 && self.min_depth.pa == g.min_depth.pa && self.max_depth.pa
            == g.max_depth.pa
    }

    /// The mix as a label: "21%" without helium, "18/45" with it (percent,
    /// rounded half up).
    pub fn label_parts(&self) -> (r: (i64, i64))
        requires
            self.wf(),
        ensures
            r.0 == (self.f_o2 + 5) / 10,
            r.1 == (self.f_he + 5) / 10,
    {
        ((self.f_o2 + 5) / 10, (self.f_he + 5) / 10)
    }
}

impl PartialEq for Gas {
    fn eq(&self, other: &Gas) -> (r: bool) {
        self.f_o2 == other.f_o2 && self.f_he == other.f_he
    }
}

impl vstd::std_specs::cmp::PartialEqSpecImpl for Gas {
    open spec fn obeys_eq_spec() -> bool {
        true
    }

    open spec fn eq_spec(&self, other: &Gas) -> bool {
        self.f_o2 == other.f_o2 && self.f_he == other.f_he
    }
}

impl Eq for Gas {}

/// Gases order by oxygen, then by helium.
pub open spec fn gas_order(a: Gas, b: Gas) -> core::cmp::Ordering {
    if a.f_o2 < b.f_o2 {
        core::cmp::Ordering::Less
    } else if a.f_o2 > b.f_o2 {
        core::cmp::Ordering::Greater
    } else if a.f_he < b.f_he {
        core::cmp::Ordering::Less
    } else if a.f_he > b.f_he {
        core::cmp::Ordering::Greater
    } else {
        core::cmp::Ordering::Equal
    }
}

impl PartialOrd for Gas {
    fn partial_cmp(&self, other: &Gas) -> (r: Option<core::cmp::Ordering>) {
        if self.f_o2 < other.f_o2 {
            Some(core::cmp::Ordering::Less)
        } else if self.f_o2 > other.f_o2 {
            Some(core::cmp::Ordering::Greater)
        } else if self.f_he < other.f_he {
            Some(core::cmp::Ordering::Less)
        } else if self.f_he > other.f_he {
            Some(core::cmp::Ordering::Greater)
        } else {
            Some(core::cmp::Ordering::Equal)
        }
    }
}

impl vstd::std_specs::cmp::PartialOrdSpecImpl for Gas {
    open spec fn obeys_partial_cmp_spec() -> bool {
        true
    }

    open spec fn partial_cmp_spec(&self, other: &Gas) -> Option<core::cmp::Ordering> {
        Some(gas_order(*self, *other))
    }
}

/// A gas is breathable at absolute pressure `d` exactly when `d` is at
/// least one bar and its oxygen partial pressure `f_o2 * d` lies between
/// `min_ppo2` and `ppo2`, and the role allows the segment: the rounding of
/// the stored window to the pascal loses nothing.
pub proof fn lemma_use_gas_window(gas: Gas, d: Pressure, segment: SegmentType)
    requires
        gas.wf(),
    ensures
        usable(gas, d, segment) <==> {
            &&& d.pa >= PA_PER_BAR
            &&& gas.min_ppo2 * PA_PER_BAR <= gas.f_o2 * d.pa
            &&& gas.f_o2 * d.pa <= gas.ppo2 * PA_PER_BAR
            &&& role_allows(gas, segment)
        },
{
    let o = gas.f_o2 as int;
    assert(o * d.pa == gas.f_o2 * d.pa);
    let a = gas.ppo2 * PA_PER_BAR;
    let q = a / o;
    assert(q * o <= a < (q + 1) * o) by (nonlinear_arith)
        requires q == a / o, o > 0;
    assert(d.pa <= q <==> o * d.pa <= a) by (nonlinear_arith)
        requires q * o <= a < (q + 1) * o, o > 0;
    let m = gas.min_ppo2 * PA_PER_BAR;
    if o >= gas.min_ppo2 {
        assert(d.pa >= PA_PER_BAR ==> o * d.pa >= m) by (nonlinear_arith)
            requires o >= gas.min_ppo2, m == gas.min_ppo2 * PA_PER_BAR, gas.min_ppo2 >= 0;
    } else {
        let c = (m + o - 1) / o;
        assert(c * o >= m && (c - 1) * o < m) by (nonlinear_arith)
            requires c == (m + o - 1) / o, o > 0;
        assert(d.pa >= c <==> o * d.pa >= m) by (nonlinear_arith)
            requires c * o >= m, (c - 1) * o < m, o > 0;
        assert(c >= PA_PER_BAR) by (nonlinear_arith)
            requires c * o >= m, o < gas.min_ppo2, m == gas.min_ppo2 * PA_PER_BAR, o > 0;
    }
}

/// Any bottom gas can be breathed down to `ppo2 / f_o2` bar and no deeper,
/// from the larger of one bar and `0.18 / f_o2` bar and no shallower, and
/// holds as nitrogen what oxygen and helium leave.
pub proof fn lemma_bottom_gas_window(gas: Gas, f_o2: i64, f_he: i64, ppo2: i64)
    requires
        gas.wf(),
        gas.f_o2 == f_o2,
        gas.f_he == f_he,
        gas.ppo2 == ppo2,
        gas.min_ppo2 == BOTTOM_MIN_PPO2,
    ensures
        gas.max_depth.pa * f_o2 <= ppo2 * PA_PER_BAR < (gas.max_depth.pa + 1) * f_o2,
        gas.min_depth.pa >= PA_PER_BAR,
        gas.min_depth.pa * f_o2 >= BOTTOM_MIN_PPO2 * PA_PER_BAR,
        gas.min_depth.pa == PA_PER_BAR
            || (gas.min_depth.pa - 1) * f_o2 < BOTTOM_MIN_PPO2 * PA_PER_BAR,
        gas.f_n2 == PERMILLE - f_o2 - f_he,
{
    let a = ppo2 as int * PA_PER_BAR as int;
    let q = a / f_o2 as int;
    assert(q * f_o2 <= a < (q + 1) * f_o2) by (nonlinear_arith)
        requires q == a / f_o2 as int, f_o2 > 0;
    let m = BOTTOM_MIN_PPO2 as int * PA_PER_BAR as int;
    if f_o2 >= BOTTOM_MIN_PPO2 {
        assert(PA_PER_BAR * f_o2 >= m) by (nonlinear_arith)
            requires f_o2 >= BOTTOM_MIN_PPO2, m == BOTTOM_MIN_PPO2 * PA_PER_BAR;
    } else {
        let c = (m + f_o2 - 1) / f_o2 as int;
        assert(c * f_o2 >= m && (c - 1) * f_o2 < m) by (nonlinear_arith)
            requires c == (m + f_o2 - 1) / f_o2 as int, f_o2 > 0;
        assert(c >= PA_PER_BAR) by (nonlinear_arith)
            requires c * f_o2 >= m, f_o2 < BOTTOM_MIN_PPO2, m == BOTTOM_MIN_PPO2 * PA_PER_BAR,
                f_o2 > 0;
    }
}

} // verus!
