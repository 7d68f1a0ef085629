//! The oxygen toxicity table: the bands of oxygen partial pressure and the
//! central nervous system exposure limit within each.
//!
//! An oxygen partial pressure is counted here in units of 10^-8 bar, which
//! is exactly an oxygen fraction in parts per thousand times an absolute
//! pressure in pascals.
use vstd::prelude::*;

use crate::gas::Gas;
use crate::types::{Pressure, UNIT_LIMIT};

verus! {

/// Number of bands in the table.
pub const CNS_BANDS: usize = 7;

/// Units of oxygen partial pressure in one hundredth of a bar.
pub const UNITS_PER_CENTIBAR: i64 = 1_000_000;

/// Oxygen partial pressure of `gas` at absolute pressure `depth`, in units
/// of 10^-8 bar.
pub open spec fn ppo2_units(gas: Gas, depth: Pressure) -> int {
    gas.f_o2 * depth.pa
}

/// Lower edge of band `i` (exclusive), in hundredths of a bar.
pub open spec fn band_lo(i: int) -> int {
    if i == 0 { 50 }
    else if i == 1 { 60 }
    else if i == 2 { 70 }
    else if i == 3 { 80 }
    else if i == 4 { 90 }
    else if i == 5 { 110 }
    else { 150 }
}

/// Upper edge of band `i` (inclusive), in hundredths of a bar.
pub open spec fn band_hi(i: int) -> int {
    if i == 6 { 10_000 } else { band_lo(i + 1) }
}

/// Whether an oxygen partial pressure of `p` units lies in band `i`.
pub open spec fn in_band(p: int, i: int) -> bool {
    0 <= i < CNS_BANDS && band_lo(i) * UNITS_PER_CENTIBAR < p <= band_hi(i) * UNITS_PER_CENTIBAR
}

/// The edges of band `i`, in hundredths of a bar: lower (exclusive), upper
/// (inclusive).
pub fn band_edges(i: usize) -> (r: (i64, i64))
    requires
        i < CNS_BANDS,
    ensures
        r.0 == band_lo(i as int),
        r.1 == band_hi(i as int),
{
    match i {
        0 => (50, 60),
        1 => (60, 70),
        2 => (70, 80),
        3 => (80, 90),
        4 => (90, 110),
        5 => (110, 150),
        _ => (150, 10_000),
    }
}

/// The exposure limit in band `i`: minutes = slope * ppO2 (bar) + intercept.
pub open spec fn band_limit(i: int) -> (int, int) {
    if i == 0 { (-1800, 1800) }
    else if i == 1 { (-1500, 1620) }
    else if i == 2 { (-1200, 1410) }
    else if i == 3 { (-900, 1170) }
    else if i == 4 { (-600, 900) }
    else if i == 5 { (-300, 570) }
    else { (-750, 1245) }
}

/// Slope (minutes per bar) and intercept (minutes) of the exposure limit in
/// band `i`.
pub fn cns_limit(i: usize) -> (r: (i64, i64))
    requires
        i < CNS_BANDS,
    ensures
        (r.0 as int, r.1 as int) == band_limit(i as int),
{
    match i {
        0 => (-1800, 1800),
        1 => (-1500, 1620),
        2 => (-1200, 1410),
        3 => (-900, 1170),
        4 => (-600, 900),
        5 => (-300, 570),
        _ => (-750, 1245),
    }
}

/// The band that the oxygen partial pressure of `gas` at `depth` falls in:
/// none at or below 0.5 bar, where no exposure accrues, nor above 100 bar.
pub fn oxygen_band(gas: &Gas, depth: Pressure) -> (r: Option<usize>)
    requires
        0 <= gas.f_o2 <= 1000,
        0 <= depth.pa <= UNIT_LIMIT,
    ensures
        r.is_none() <==> forall|i: int| 0 <= i < CNS_BANDS ==> !in_band(ppo2_units(*gas, depth), i),
        r.is_none() <==> (ppo2_units(*gas, depth) <= 50 * UNITS_PER_CENTIBAR
            || ppo2_units(*gas, depth) > 10_000 * UNITS_PER_CENTIBAR),
        r matches Some(i) ==> in_band(ppo2_units(*gas, depth), i as int),
{
    assert(0 <= gas.f_o2 * depth.pa <= 1000 * UNIT_LIMIT) by (nonlinear_arith)
        requires 0 <= gas.f_o2 <= 1000, 0 <= depth.pa <= UNIT_LIMIT;
    let p = gas.f_o2 * depth.pa;
    let mut i: usize = 0;
    while i < CNS_BANDS
        invariant
            i <= CNS_BANDS,
            p == ppo2_units(*gas, depth),
            forall|j: int| 0 <= j < i ==> !in_band(p as int, j),
            i > 0 ==> p > band_lo(0) * UNITS_PER_CENTIBAR || p <= 50 * UNITS_PER_CENTIBAR,
            i > 0 ==> p > band_hi(i - 1) * UNITS_PER_CENTIBAR || p <= 50 * UNITS_PER_CENTIBAR,
        decreases CNS_BANDS - i,
    {
        let (lo, hi) = band_edges(i);
        if p > lo * UNITS_PER_CENTIBAR && p <= hi * UNITS_PER_CENTIBAR {
            assert(in_band(p as int, i as int));
            return Some(i);
        }
        i = i + 1;
    }
    None
}

/// Highest oxygen partial pressure of a ramp between `from` and `to` on
/// `gas`, in units of 10^-8 bar.
pub open spec fn ramp_high(gas: Gas, from: Pressure, to: Pressure) -> int {
    if from.pa >= to.pa { ppo2_units(gas, from) } else { ppo2_units(gas, to) }
}

/// Lowest oxygen partial pressure of the same ramp that counts towards
/// exposure: the ramp's lowest, but never below 0.5 bar.
pub open spec fn ramp_low(gas: Gas, from: Pressure, to: Pressure) -> int {
    let m = if from.pa <= to.pa { ppo2_units(gas, from) } else { ppo2_units(gas, to) };
    if m < 50 * UNITS_PER_CENTIBAR { 50 * UNITS_PER_CENTIBAR as int } else { m }
}

/// Where a ramp whose exposure runs between `low` and `high` enters band `i`
/// and where it leaves it (ascending when `up`): the part of the ramp within
/// the band's edges, entered at its deep end when ascending and at its
/// shallow end when descending; `(0, 0)` when the ramp does not reach the
/// band.
pub open spec fn band_passage(high: int, low: int, up: bool, i: int) -> (int, int) {
    let lo = band_lo(i) * UNITS_PER_CENTIBAR;
    let hi = band_hi(i) * UNITS_PER_CENTIBAR;
    let bottom = if low > lo { low } else { lo };
    let top = if high < hi { high } else { hi };
    if !(high > lo && low <= hi) {
        (0, 0)
    } else if up {
        (top, bottom)
    } else {
        (bottom, top)
    }
}

/// Each passage lies within its band and within the ramp, so the time that
/// a ramp spends in the bands adds up to at most its time above 0.5 bar.
pub proof fn lemma_band_passage_within(high: int, low: int, up: bool, i: int)
    requires
        0 <= i < CNS_BANDS,
        low <= high,
    ensures
        ({
            let (a, b) = band_passage(high, low, up, i);
            let (enter_low, leave_high) = if up { (b, a) } else { (a, b) };
            (high > band_lo(i) * UNITS_PER_CENTIBAR && low <= band_hi(i) * UNITS_PER_CENTIBAR)
                ==> {
                &&& band_lo(i) * UNITS_PER_CENTIBAR <= enter_low
                &&& enter_low <= leave_high
                &&& leave_high <= band_hi(i) * UNITS_PER_CENTIBAR
                &&& low <= enter_low
                &&& leave_high <= high
            }
        }),
{
}

/// For each band, where a ramp from `from` to `to` on `gas` enters and
/// leaves it, in units of 10^-8 bar; `(0, 0)` for a band it does not reach.
pub fn band_passages(gas: &Gas, from: Pressure, to: Pressure) -> (r: Vec<(i64, i64)>)
    requires
        0 <= gas.f_o2 <= 1000,
        0 <= from.pa <= UNIT_LIMIT,
        0 <= to.pa <= UNIT_LIMIT,
    ensures
        r.len() == CNS_BANDS,
        forall|i: int| 0 <= i < CNS_BANDS ==> (#[trigger] r@[i].0 as int, r@[i].1 as int)
            == band_passage(ramp_high(*gas, from, to), ramp_low(*gas, from, to), from.pa > to.pa, i),
{
    assert(0 <= gas.f_o2 * from.pa <= 1000 * UNIT_LIMIT) by (nonlinear_arith)
        requires 0 <= gas.f_o2 <= 1000, 0 <= from.pa <= UNIT_LIMIT;
    assert(0 <= gas.f_o2 * to.pa <= 1000 * UNIT_LIMIT) by (nonlinear_arith)
        requires 0 <= gas.f_o2 <= 1000, 0 <= to.pa <= UNIT_LIMIT;
    let pf = gas.f_o2 * from.pa;
    let pt = gas.f_o2 * to.pa;
    let high = if from.pa >= to.pa { pf } else { pt };
    let m = if from.pa <= to.pa { pf } else { pt };
    let low = if m < 50 * UNITS_PER_CENTIBAR { 50 * UNITS_PER_CENTIBAR } else { m };
    let up = from.pa > to.pa;
    let mut r: Vec<(i64, i64)> = Vec::new();
    let mut i: usize = 0;
    while i < CNS_BANDS
        invariant
            i <= CNS_BANDS,
            r.len() == i,
            high == ramp_high(*gas, from, to),
            low == ramp_low(*gas, from, to),
            up == (from.pa > to.pa),
            forall|j: int| 0 <= j < i ==> (#[trigger] r@[j].0 as int, r@[j].1 as int)
                == band_passage(high as int, low as int, up, j),
        decreases CNS_BANDS - i,
    {
        let (lo_c, hi_c) = band_edges(i);
        let lo = lo_c * UNITS_PER_CENTIBAR;
        let hi = hi_c * UNITS_PER_CENTIBAR;
        let bottom = if low > lo { low } else { lo };
        let top = if high < hi { high } else { hi };
        let pass = if !(high > lo && low <= hi) {
            (0, 0)
        } else if up {
            (top, bottom)
        } else {
            (bottom, top)
        };
        r.push(pass);
        i = i + 1;
    }
    r
}

/// Whether breathing `gas` at `depth` accrues oxygen exposure: its oxygen
/// partial pressure is above 0.5 bar.
pub fn is_toxic(gas: &Gas, depth: Pressure) -> (r: bool)
    requires
        0 <= gas.f_o2 <= 1000,
        0 <= depth.pa <= UNIT_LIMIT,
    ensures
        r == (ppo2_units(*gas, depth) > 50 * UNITS_PER_CENTIBAR),
{
    assert(0 <= gas.f_o2 * depth.pa <= 1000 * UNIT_LIMIT) by (nonlinear_arith)
        requires 0 <= gas.f_o2 <= 1000, 0 <= depth.pa <= UNIT_LIMIT;
    gas.f_o2 * depth.pa > 50 * UNITS_PER_CENTIBAR
}

} // verus!
