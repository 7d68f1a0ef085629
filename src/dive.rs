//! The planner's decisions: the dive configuration, which gas to breathe,
//! which stop comes next and which gradient factor applies there.
use vstd::prelude::*;

use crate::gas::{
    max_depth_of, min_depth_of, usable, Gas, BOTTOM_MIN_PPO2, PERMILLE,
};
use crate::segment_type::SegmentType;
use crate::types::{Depth, DepthChange, Pressure, PA_PER_BAR, UNIT_LIMIT};

verus! {

/// Open circuit, or a closed-circuit rebreather.
#[derive(Clone, Copy, Debug, PartialEq, Eq, Structural)]
pub enum DiveType {
    OC,
    CCR,
}

/// Largest pressure, in pascals, that the planner works with (10^12 Pa).
pub const PLAN_LIMIT: i64 = 1_000_000_000_000;

/// The configuration of a dive.
#[derive(Clone, Copy, Debug)]
pub struct Dive {
    /// Gradient factor at the first stop, in parts per thousand.
    pub gf_lo: i64,
    /// Gradient factor at the surface, in parts per thousand.
    pub gf_hi: i64,
    pub dive_type: DiveType,
    /// Oxygen setpoint during decompression, in millibar (rebreather only).
    pub deco_setpoint: i64,
    /// Negative rate of ascent.
    pub ascent_rate: DepthChange,
    /// Positive rate of descent.
    pub descent_rate: DepthChange,
    pub atm_pressure: Pressure,
    /// Absolute pressure of the shallowest stop.
    pub last_stop: Pressure,
    /// Pressure between two stops.
    pub stop_size: Pressure,
    pub metric: bool,
    /// Water vapour in the lungs.
    pub partial_water: Pressure,
}

/// Oxygen of air, in parts per thousand.
pub const AIR_O2: i64 = 210;

/// Working oxygen partial pressure of the fallback air, in millibar.
pub const AIR_PPO2: i64 = 1400;

/// Air as a bottom gas at 1.4 bar of oxygen, breathed when nothing else is.
pub open spec fn air() -> Gas {
    Gas {
        f_o2: 210,
        f_n2: 790,
        f_he: 0,
        min_ppo2: 180,
        ppo2: 1400,
        min_depth: Pressure { pa: 100_000 },
        max_depth: Pressure { pa: 666_666 },
        use_ascent: true,
        use_descent: true,
        use_diluent: false,
    }
}

/// Air as a bottom gas.
pub fn new_air() -> (r: Gas)
    ensures
        r == air(),
        r.wf(),
{
    let r = Gas::new_bottom(AIR_O2, 0, AIR_PPO2);
    assert(max_depth_of(210, 1400) == 666_666);
    assert(min_depth_of(210, 180) == 100_000);
    r
}

impl Dive {
    /// The configuration is one that the planner can work with.
    pub open spec fn wf(self) -> bool {
        &&& 0 <= self.gf_lo <= self.gf_hi <= PERMILLE
        &&& 0 < self.deco_setpoint <= crate::gas::PPO2_LIMIT
        &&& -PLAN_LIMIT <= self.ascent_rate.pa_per_min < 0
        &&& 0 < self.descent_rate.pa_per_min <= PLAN_LIMIT
        &&& 0 < self.atm_pressure.pa < self.last_stop.pa <= PLAN_LIMIT
        &&& 0 < self.stop_size.pa <= PLAN_LIMIT
        &&& 0 <= self.partial_water.pa < self.atm_pressure.pa
    }
}

impl Dive {
    /// Whether the planner can work with this configuration.
    pub fn is_wf(&self) -> (r: bool)
        ensures
            r == self.wf(),
    {
        0 <= self.gf_lo && self.gf_lo <= self.gf_hi && self.gf_hi <= PERMILLE
            && 0 < self.deco_setpoint && self.deco_setpoint <= crate::gas::PPO2_LIMIT
            && -PLAN_LIMIT <= self.ascent_rate.pa_per_min && self.ascent_rate.pa_per_min < 0
            && 0 < self.descent_rate.pa_per_min && self.descent_rate.pa_per_min <= PLAN_LIMIT
            && 0 < self.atm_pressure.pa && self.atm_pressure.pa < self.last_stop.pa
            && self.last_stop.pa <= PLAN_LIMIT && 0 < self.stop_size.pa
            && self.stop_size.pa <= PLAN_LIMIT && 0 <= self.partial_water.pa
            && self.partial_water.pa < self.atm_pressure.pa
    }
}

/// Default: GF 50/80, open circuit, deco setpoint 1.3 bar, ascent at 10 m/min,
/// descent at 18 m/min, 1013 mbar at the surface, last stop and stop size
/// of 3 m, 62.7 mbar of water vapour.
impl Default for Dive {
    fn default() -> (r: Dive)
        ensures
            r.wf(),
            r.gf_lo == 500 && r.gf_hi == 800,
            r.dive_type == DiveType::OC,
            r.deco_setpoint == 1300,
            r.ascent_rate.pa_per_min == -100_000,
            r.descent_rate.pa_per_min == 180_000,
            r.atm_pressure.pa == 101_300,
            r.last_stop.pa == 131_300,
            r.stop_size.pa == 30_000,
            r.metric,
            r.partial_water.pa == 6270,
    {
        let atm = Pressure::millibar(1013);
        Dive {
            gf_lo: 500,
            gf_hi: 800,
            dive_type: DiveType::OC,
            deco_setpoint: 1300,
            ascent_rate: DepthChange::ascent_depth(Depth::meters(10)),
            descent_rate: DepthChange::descent_depth(Depth::meters(18)),
            atm_pressure: atm,
            last_stop: Pressure::from_depth(Depth::meters(3), atm),
            stop_size: Pressure::from_depth_rel(Depth::meters(3)),
            metric: true,
            partial_water: Pressure::pascal(6270),
        }
    }
}

/// `gases[i]` is the gas that open-circuit selection picks at `depth` for a
/// segment of type `segment`: usable there, with the most oxygen of all
/// usable gases, and the first such in the list.
pub open spec fn is_best_oc(gases: Seq<Gas>, depth: Pressure, segment: SegmentType, i: int) -> bool {
    &&& 0 <= i < gases.len()
    &&& usable(gases[i], depth, segment)
    &&& forall|j: int| 0 <= j < gases.len() && usable(gases[j], depth, segment)
        ==> gases[j].f_o2 <= gases[i].f_o2
    &&& forall|j: int| 0 <= j < i && usable(gases[j], depth, segment)
        ==> gases[j].f_o2 < gases[i].f_o2
}

/// Some gas of the list is usable at `depth` for a segment of type `segment`.
pub open spec fn any_usable(gases: Seq<Gas>, depth: Pressure, segment: SegmentType) -> bool {
    exists|j: int| 0 <= j < gases.len() && usable(#[trigger] gases[j], depth, segment)
}

/// Open-circuit gas selection: of the gases usable at `depth`, the one with
/// the most oxygen (the first of equals); air when none is usable.
fn find_ocgas(gasses: &Vec<Gas>, depth: Pressure, segment_type: SegmentType) -> (r: Gas)
    ensures
        any_usable(gasses@, depth, segment_type) ==> exists|i: int|
            is_best_oc(gasses@, depth, segment_type, i) && r == gasses@[i],
        !any_usable(gasses@, depth, segment_type) ==> r == air(),
{
    let mut ret: Option<Gas> = None;
    let ghost mut at: int = -1;
    let mut k: usize = 0;
    while k < gasses.len()
        invariant
            k <= gasses.len(),
            ret.is_none() <==> forall|j: int| 0 <= j < k ==> !usable(#[trigger] gasses@[j], depth, segment_type),
            ret.is_some() ==> {
                &&& 0 <= at < k
                &&& ret == Some(gasses@[at])
                &&& usable(gasses@[at], depth, segment_type)
                &&& forall|j: int| 0 <= j < k && usable(#[trigger] gasses@[j], depth, segment_type)
                    ==> gasses@[j].f_o2 <= gasses@[at].f_o2
                &&& forall|j: int| 0 <= j < at && usable(#[trigger] gasses@[j], depth, segment_type)
                    ==> gasses@[j].f_o2 < gasses@[at].f_o2
            },
        decreases gasses.len() - k,
    {
        let g = gasses[k];
        if g.use_gas(depth, segment_type) {
            match ret {
                Some(rgas) => {
                    if g.f_o2 > rgas.f_o2 {
                        ret = Some(g);
                        proof { at = k as int; }
                    }
                },
                None => {
                    ret = Some(g);
                    proof { at = k as int; }
                },
            }
        }
        k = k + 1;
    }
    if ret.is_none() {
        // Nothing is usable: look for the gas nearest to its limit under the
        // same rule, which cannot find one either.
        let mut k2: usize = 0;
        while k2 < gasses.len()
            invariant
                k2 <= gasses.len(),
                ret.is_none(),
                forall|j: int| 0 <= j < gasses.len() ==> !usable(#[trigger] gasses@[j], depth, segment_type),
            decreases gasses.len() - k2,
        {
            let g = gasses[k2];
            if g.use_gas(depth, segment_type) {
                ret = Some(g);
            }
            k2 = k2 + 1;
        }
    }
    match ret {
        Some(gas) => {
            assert(is_best_oc(gasses@, depth, segment_type, at));
            gas
        },
        None => new_air(),
    }
}

/// Oxygen fraction, in parts per thousand and rounded down, that holds
/// `setpoint` millibar of oxygen at absolute pressure `depth`; at most pure
/// oxygen.
pub open spec fn setpoint_o2(setpoint: int, depth: Pressure) -> int {
    let f = setpoint * PA_PER_BAR / (depth.pa as int);
    if f > PERMILLE { PERMILLE as int } else { f }
}

/// Helium, in parts per thousand and rounded down, of a mix with `f_o2` of
/// oxygen that keeps the diluent's ratio of helium to nitrogen.
pub open spec fn setpoint_he(dil: Gas, f_o2: int) -> int {
    if dil.f_n2 + dil.f_he == 0 {
        0
    } else {
        dil.f_he * (PERMILLE - f_o2) / (dil.f_n2 + dil.f_he) as int
    }
}

/// What a rebreather with diluent `dil` holding `setpoint` delivers at
/// `depth`: the diluent when it alone holds less oxygen than the setpoint
/// asks, else a bottom gas at the setpoint with the diluent's inert ratio.
pub open spec fn setpoint_gas_ok(dil: Gas, setpoint: int, depth: Pressure, r: Gas) -> bool {
    if setpoint * PA_PER_BAR < dil.f_o2 * depth.pa {
        r == dil
    } else {
        &&& r.wf()
        &&& r.f_o2 == setpoint_o2(setpoint, depth)
        &&& r.f_he == setpoint_he(dil, setpoint_o2(setpoint, depth))
        &&& r.ppo2 == setpoint
        &&& r.min_ppo2 == BOTTOM_MIN_PPO2
        &&& r.use_ascent && r.use_descent && !r.use_diluent
    }
}

fn find_gas_for_setpoint(dil: Gas, setpoint: i64, depth: Pressure) -> (r: Gas)
    requires
        dil.wf(),
        0 < setpoint <= crate::gas::PPO2_LIMIT,
        0 < depth.pa <= UNIT_LIMIT,
    ensures
        setpoint_gas_ok(dil, setpoint as int, depth, r),
{
    assert(0 < dil.f_o2 * depth.pa <= PERMILLE * UNIT_LIMIT) by (nonlinear_arith)
        requires 0 < dil.f_o2 <= PERMILLE, 0 < depth.pa <= UNIT_LIMIT;
    if setpoint * PA_PER_BAR < dil.f_o2 * depth.pa {
        return dil;
    }
    let q = setpoint * PA_PER_BAR / depth.pa;
    let o2 = if q > PERMILLE { PERMILLE } else { q };
    assert(o2 > 0) by (nonlinear_arith)
        requires
            q == setpoint * PA_PER_BAR / (depth.pa as int),
            o2 == if q > PERMILLE { PERMILLE } else { q },
            setpoint * PA_PER_BAR >= dil.f_o2 * depth.pa,
            dil.f_o2 >= 1,
            depth.pa > 0;
    let inert = dil.f_n2 + dil.f_he;
    let he = if inert == 0 {
        0
    } else {
        assert(0 <= dil.f_he * (PERMILLE - o2) / (inert as int) <= PERMILLE - o2) by (nonlinear_arith)
            requires
                0 <= dil.f_he <= inert,
                inert > 0,
                0 <= PERMILLE - o2 <= PERMILLE;
        assert(0 <= dil.f_he * (PERMILLE - o2) <= PERMILLE * PERMILLE) by (nonlinear_arith)
            requires 0 <= dil.f_he <= PERMILLE, 0 <= PERMILLE - o2 <= PERMILLE;
        dil.f_he * (PERMILLE - o2) / inert
    };
    Gas::new_bottom(o2, he, setpoint)
}

/// The diluent of a rebreather dive: the last gas of the list marked as one,
/// or air when there is none.
pub open spec fn diluent_of(gases: Seq<Gas>) -> Gas
    decreases gases.len(),
{
    if gases.len() == 0 {
        air()
    } else if gases.last().use_diluent {
        gases.last()
    } else {
        diluent_of(gases.drop_last())
    }
}

/// The gas to breathe at absolute pressure `depth` on a segment of type
/// `segment_type`: for open circuit, the usable gas with the most oxygen (the
/// first of equals) or air; for a rebreather, what the diluent delivers at
/// `setpoint`.
pub fn find_gas(
    dive: &Dive,
    gasses: &Vec<Gas>,
    depth: Pressure,
    segment_type: SegmentType,
    setpoint: i64,
) -> (r: Gas)
    requires
        dive.dive_type == DiveType::CCR ==> {
            &&& forall|i: int| 0 <= i < gasses.len() ==> (#[trigger] gasses@[i]).wf()
            &&& 0 < setpoint <= crate::gas::PPO2_LIMIT
            &&& 0 < depth.pa <= UNIT_LIMIT
        },
    ensures
        dive.dive_type == DiveType::OC && any_usable(gasses@, depth, segment_type)
            ==> exists|i: int| is_best_oc(gasses@, depth, segment_type, i) && r == gasses@[i],
        dive.dive_type == DiveType::OC && !any_usable(gasses@, depth, segment_type) ==> r == air(),
        dive.dive_type == DiveType::CCR ==> setpoint_gas_ok(
            diluent_of(gasses@),
            setpoint as int,
            depth,
            r,
        ),
{
    match dive.dive_type {
        DiveType::CCR => {
            let mut dil = new_air();
            let mut k: usize = 0;
            while k < gasses.len()
                invariant
                    k <= gasses.len(),
                    forall|i: int| 0 <= i < gasses.len() ==> (#[trigger] gasses@[i]).wf(),
                    dil == diluent_of(gasses@.subrange(0, k as int)),
                    dil.wf(),
                decreases gasses.len() - k,
            {
                assert(gasses@.subrange(0, k as int + 1).drop_last() =~= gasses@.subrange(0, k as int));
                if gasses[k].use_diluent {
                    dil = gasses[k];
                }
                k = k + 1;
            }
            assert(gasses@.subrange(0, gasses.len() as int) =~= gasses@);
            find_gas_for_setpoint(dil, setpoint, depth)
        },
        DiveType::OC => find_ocgas(gasses, depth, segment_type),
    }
}

/// The stop to head for under a ceiling of absolute pressure `ceiling`: the
/// surface when the ceiling is at or above it, else the shallowest stop of
/// the ladder `last_stop`, `last_stop + stop_size`, ... that is at or below
/// the ceiling.
pub open spec fn stop_for(dive: Dive, ceiling: int) -> int {
    let atm = dive.atm_pressure.pa as int;
    let last = dive.last_stop.pa as int;
    let size = dive.stop_size.pa as int;
    if ceiling <= atm {
        atm
    } else if ceiling <= last {
        last
    } else {
        last + ((ceiling - last + size - 1) / size) * size
    }
}

/// The next stop under the ceiling `ceiling` (an absolute pressure).
pub fn next_stop(dive: &Dive, ceiling: Pressure) -> (r: Pressure)
    requires
        dive.wf(),
        ceiling.pa <= PLAN_LIMIT,
    ensures
        r.pa == stop_for(*dive, ceiling.pa as int),
        r.pa >= ceiling.pa,
        r.pa > dive.last_stop.pa ==> r.pa - dive.stop_size.pa < ceiling.pa,
{
    if ceiling.pa <= dive.atm_pressure.pa {
        return dive.atm_pressure;
    }
    if ceiling.pa <= dive.last_stop.pa {
        return dive.last_stop;
    }
    let size = dive.stop_size.pa;
    let k = (ceiling.pa - dive.last_stop.pa + size - 1) / size;
    proof {
        let n = ceiling.pa - dive.last_stop.pa;
        assert(1 <= k && (k - 1) * size < n <= k * size && k * size <= n + size)
            by (nonlinear_arith)
            requires
                k == (n + size - 1) / size as int,
                n > 0,
                size > 0;
        assert(dive.last_stop.pa + k * size - size == dive.last_stop.pa + (k - 1) * size)
            by (nonlinear_arith);
    }
    Pressure::pascal(dive.last_stop.pa + k * size)
}

/// The `k`-th stop of the ladder below the last stop.
pub open spec fn ladder_stop(dive: Dive, k: int) -> int {
    dive.last_stop.pa + k * dive.stop_size.pa
}

/// Whatever the ceiling, the next stop is the surface or a stop of the
/// ladder: the last stop plus a whole number of stop sizes.
pub proof fn lemma_next_stop_on_ladder(dive: Dive, ceiling: int)
    requires
        dive.wf(),
    ensures
        stop_for(dive, ceiling) == dive.atm_pressure.pa || exists|k: int|
            k >= 0 && stop_for(dive, ceiling) == #[trigger] ladder_stop(dive, k),
{
    let atm = dive.atm_pressure.pa as int;
    let last = dive.last_stop.pa as int;
    let size = dive.stop_size.pa as int;
    if ceiling <= atm {
    } else if ceiling <= last {
        assert(stop_for(dive, ceiling) == ladder_stop(dive, 0));
    } else {
        let k = (ceiling - last + size - 1) / size;
        assert(k >= 0) by (nonlinear_arith)
            requires k == (ceiling - last + size - 1) / size, ceiling > last, size > 0;
        assert(stop_for(dive, ceiling) == ladder_stop(dive, k));
    }
}

/// A gradient factor held exactly as the ratio `num / den`, in parts per
/// thousand; `den` is positive.
#[derive(Clone, Copy, Debug, PartialEq, Eq, Structural)]
pub struct GradientFactor {
    pub num: i64,
    pub den: i64,
}

/// The gradient factor at the stop `stop` of a schedule whose first stop is
/// `first_stop`, as a numerator over `gf_den`: falling linearly from `gf_hi`
/// one stop above the surface towards `gf_lo`, with
/// `gf = gf_hi - (gf_hi - gf_lo) * (stop - stop_size - atm) / (first_stop - atm)`;
/// `gf_hi` within one stop of the surface, or when the first stop is the
/// surface.
pub open spec fn gf_num(dive: Dive, first_stop: int, stop: int) -> int {
    let atm = dive.atm_pressure.pa as int;
    let x = stop - dive.stop_size.pa - atm;
    let span = first_stop - atm;
    if x < 0 || span <= 0 {
        dive.gf_hi as int
    } else {
        dive.gf_hi * span - (dive.gf_hi - dive.gf_lo) * x
    }
}

/// The denominator that goes with `gf_num`.
pub open spec fn gf_den(dive: Dive, first_stop: int, stop: int) -> int {
    let atm = dive.atm_pressure.pa as int;
    let x = stop - dive.stop_size.pa - atm;
    let span = first_stop - atm;
    if x < 0 || span <= 0 { 1 } else { span }
}

/// The gradient factor at the stop `stop`, for a schedule whose first stop
/// is `first_stop`, exactly.
pub fn next_gf(dive: &Dive, first_stop: Pressure, stop: Pressure) -> (r: GradientFactor)
    requires
        dive.wf(),
        0 <= first_stop.pa <= 4 * PLAN_LIMIT,
        0 <= stop.pa <= 4 * PLAN_LIMIT,
    ensures
        r.num == gf_num(*dive, first_stop.pa as int, stop.pa as int),
        r.den == gf_den(*dive, first_stop.pa as int, stop.pa as int),
        r.den > 0,
{
    let x = stop.pa - dive.stop_size.pa - dive.atm_pressure.pa;
    let span = first_stop.pa - dive.atm_pressure.pa;
    if x < 0 || span <= 0 {
        GradientFactor { num: dive.gf_hi, den: 1 }
    } else {
        let d = dive.gf_hi - dive.gf_lo;
        assert(0 <= d * x <= PERMILLE * (4 * PLAN_LIMIT)) by (nonlinear_arith)
            requires 0 <= d <= PERMILLE, 0 <= x <= 4 * PLAN_LIMIT;
        assert(0 <= dive.gf_hi * span <= PERMILLE * (4 * PLAN_LIMIT)) by (nonlinear_arith)
            requires 0 <= dive.gf_hi <= PERMILLE, 0 < span <= 4 * PLAN_LIMIT;
        GradientFactor { num: dive.gf_hi * span - d * x, den: span }
    }
}

/// Between the surface and the first stop the gradient factor stays within
/// `gf_lo` and `gf_hi`.
pub proof fn lemma_gf_bounded(dive: Dive, first_stop: int, stop: int)
    requires
        dive.wf(),
        dive.atm_pressure.pa <= stop <= first_stop,
    ensures
        gf_den(dive, first_stop, stop) > 0,
        dive.gf_lo * gf_den(dive, first_stop, stop) <= gf_num(dive, first_stop, stop),
        gf_num(dive, first_stop, stop) <= dive.gf_hi * gf_den(dive, first_stop, stop),
{
    lemma_gf_bounded_any(dive, first_stop, stop);
}

/// Wherever the stop, the gradient factor is at most `gf_hi`; between the
/// surface and one stop below the first stop it is at least `gf_lo`.
pub proof fn lemma_gf_bounded_any(dive: Dive, first_stop: int, stop: int)
    requires
        dive.wf(),
    ensures
        gf_den(dive, first_stop, stop) > 0,
        gf_num(dive, first_stop, stop) <= dive.gf_hi * gf_den(dive, first_stop, stop),
        stop <= first_stop + dive.stop_size.pa ==> dive.gf_lo * gf_den(dive, first_stop, stop)
            <= gf_num(dive, first_stop, stop),
{
    let atm = dive.atm_pressure.pa as int;
    let x = stop - dive.stop_size.pa - atm;
    let span = first_stop - atm;
    let d = dive.gf_hi - dive.gf_lo;
    if !(x < 0 || span <= 0) {
        assert(d * x >= 0) by (nonlinear_arith)
            requires 0 <= x, 0 <= d;
        if stop <= first_stop + dive.stop_size.pa {
            assert(d * x <= d * span) by (nonlinear_arith)
                requires 0 <= x <= span, 0 <= d;
            assert(dive.gf_hi * span - d * span == dive.gf_lo * span) by (nonlinear_arith)
                requires d == dive.gf_hi - dive.gf_lo;
        }
    }
}

/// The rate of a ramp from `from` to `to`: the descent rate when going
/// deeper, else the ascent rate.
pub fn ramp_rate(dive: &Dive, from: Pressure, to: Pressure) -> (r: DepthChange)
    ensures
        r == if from.pa < to.pa { dive.descent_rate } else { dive.ascent_rate },
{
    if from.pa < to.pa {
        dive.descent_rate
    } else {
        dive.ascent_rate
    }
}

/// The type of a ramp at rate `rate`: up when it is negative, else down.
pub fn ramp_type(rate: DepthChange) -> (r: SegmentType)
    ensures
        r == if rate.pa_per_min < 0 { SegmentType::UP } else { SegmentType::DOWN },
{
    if rate.pa_per_min < 0 {
        SegmentType::UP
    } else {
        SegmentType::DOWN
    }
}

/// Whole minutes of a ramp from `from` to `to` at `rate`, rounded up.
pub open spec fn ramp_minutes_of(from: int, to: int, rate: int) -> int {
    let n = if to >= from { to - from } else { from - to };
    let v = if rate >= 0 { rate } else { -rate };
    (n + v - 1) / v
}

/// Whole minutes, rounded up, of a ramp from `from` to `to` at `rate`, whose
/// sign goes the same way.
pub fn ramp_minutes(from: Pressure, to: Pressure, rate: DepthChange) -> (r: i64)
    requires
        0 <= from.pa <= PLAN_LIMIT,
        0 <= to.pa <= PLAN_LIMIT,
        rate.pa_per_min != 0,
        -PLAN_LIMIT <= rate.pa_per_min <= PLAN_LIMIT,
        (to.pa - from.pa) * rate.pa_per_min >= 0,
    ensures
        r == ramp_minutes_of(from.pa as int, to.pa as int, rate.pa_per_min as int),
        r >= 0,
        (r - 1) * rate.pa_per_min < to.pa - from.pa <= r * rate.pa_per_min
            || (r - 1) * rate.pa_per_min > to.pa - from.pa >= r * rate.pa_per_min,
{
    let n = if to.pa >= from.pa { to.pa - from.pa } else { from.pa - to.pa };
    let v = if rate.pa_per_min >= 0 { rate.pa_per_min } else { -rate.pa_per_min };
    let r = (n + v - 1) / v;
    proof {
        assert(0 <= r && (r - 1) * v < n <= r * v) by (nonlinear_arith)
            requires r == (n + v - 1) / (v as int), v > 0, n >= 0;
        if rate.pa_per_min >= 0 {
            if to.pa < from.pa {
                assert(n == 0) by (nonlinear_arith)
                    requires (to.pa - from.pa) * rate.pa_per_min >= 0, rate.pa_per_min > 0,
                        n == from.pa - to.pa, to.pa < from.pa;
            }
            assert((r - 1) * v < n <= r * v ==> (r - 1) * rate.pa_per_min < to.pa - from.pa <= r
                * rate.pa_per_min);
        } else {
            assert(to.pa <= from.pa) by (nonlinear_arith)
                requires (to.pa - from.pa) * rate.pa_per_min >= 0, rate.pa_per_min < 0;
            assert((r - 1) * v < n <= r * v ==> (r - 1) * rate.pa_per_min > to.pa - from.pa >= r
                * rate.pa_per_min) by (nonlinear_arith)
                requires v == -rate.pa_per_min, n == from.pa - to.pa;
        }
    }
    r
}

/// Whole minutes shown for a level segment that follows a ramp of
/// `ramp` whole minutes, when `time` minutes were asked for the two
/// together; never below zero.
pub fn level_minutes(time: i64, ramp: i64) -> (r: i64)
    requires
        0 <= time <= PLAN_LIMIT,
        0 <= ramp <= PLAN_LIMIT,
    ensures
        r == if time > ramp { time - ramp } else { 0 },
{
    if time > ramp {
        time - ramp
    } else {
        0
    }
}

/// Whether an ascent on `gas` joins the segment before it, of type
/// `prev_type` on `prev_gas`: only an ascent on the same mix does.
pub fn merges_with(prev_type: SegmentType, prev_gas: &Gas, gas: &Gas) -> (r: bool)
    ensures
        r == (prev_type == SegmentType::UP && prev_gas.f_o2 == gas.f_o2 && prev_gas.f_he
            == gas.f_he),
{
    match prev_type {
        SegmentType::UP => prev_gas.f_o2 == gas.f_o2 && prev_gas.f_he == gas.f_he,
        _ => false,
    }
}

} // verus!
