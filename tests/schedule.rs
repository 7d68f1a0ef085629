use libnemo::dive::{GradientFactor, level_minutes, merges_with, next_gf, next_stop, ramp_minutes, ramp_rate, ramp_type, Dive};
use libnemo::gas::Gas;
use libnemo::otu_cns::{band_edges, band_passages, cns_limit, is_toxic, oxygen_band};
use libnemo::planner::{Action, Phase, Planner};
use libnemo::segment::{check_segments, PlanError, SegmentIn};
use libnemo::segment_type::SegmentType;
use libnemo::types::{Depth, DepthChange, Pressure};

#[test]
fn default_dive() {
    let d = Dive::default();
    assert!(d.is_wf());
    assert_eq!((d.gf_lo, d.gf_hi), (500, 800));
    assert_eq!(d.atm_pressure.to_mbar(), 1013);
    assert_eq!(d.last_stop.to_mbar(), 1313);
    assert_eq!(d.stop_size.to_mbar(), 300);
    assert_eq!(d.ascent_rate.to_mbar(), -1000);
    assert_eq!(d.descent_rate.to_mbar(), 1800);
}

#[test]
fn next_stop_quantizes_upwards() {
    let d = Dive::default();
    assert_eq!(next_stop(&d, Pressure::pascal(50_000)).to_pascal(), 101_300);
    assert_eq!(next_stop(&d, Pressure::pascal(101_300)).to_pascal(), 101_300);
    assert_eq!(next_stop(&d, Pressure::pascal(101_301)).to_pascal(), 131_300);
    assert_eq!(next_stop(&d, Pressure::pascal(131_300)).to_pascal(), 131_300);
    assert_eq!(next_stop(&d, Pressure::pascal(131_301)).to_pascal(), 161_300);
    assert_eq!(next_stop(&d, Pressure::pascal(300_000)).to_pascal(), 311_300);
    for c in (90_000..800_000).step_by(7_919) {
        let s = next_stop(&d, Pressure::pascal(c)).to_pascal();
        assert!(s == 101_300 || (s - 131_300) % 30_000 == 0 && s >= 131_300);
        assert!(s >= c);
    }
}

#[test]
fn gradient_factor_slope() {
    let d = Dive::default();
    let first = Pressure::pascal(311_300);
    // 0.8 - 0.3 * 180000 / 210000 = 0.542857...
    assert_eq!(next_gf(&d, first, first), GradientFactor { num: 114_000_000, den: 210_000 });
    assert_eq!(next_gf(&d, first, Pressure::pascal(161_300)), GradientFactor { num: 159_000_000, den: 210_000 });
    assert_eq!(next_gf(&d, first, Pressure::pascal(131_300)), GradientFactor { num: 168_000_000, den: 210_000 });
    assert_eq!(next_gf(&d, first, Pressure::pascal(101_300)), GradientFactor { num: 800, den: 1 });
    // One stop below the first stop the factor reaches gf_lo exactly.
    let g = next_gf(&d, first, Pressure::pascal(341_300));
    assert_eq!(g.num, 500 * g.den);
    // With the surface as first stop, gf_hi applies throughout.
    assert_eq!(next_gf(&d, d.atm_pressure, Pressure::pascal(311_300)), GradientFactor { num: 800, den: 1 });
}

#[test]
fn ramps() {
    let d = Dive::default();
    let surface = d.atm_pressure;
    let bottom = Pressure::from_depth(Depth::meters(60), surface);
    assert_eq!(ramp_rate(&d, surface, bottom), d.descent_rate);
    assert_eq!(ramp_rate(&d, bottom, surface), d.ascent_rate);
    assert_eq!(ramp_type(d.descent_rate), SegmentType::DOWN);
    assert_eq!(ramp_type(d.ascent_rate), SegmentType::UP);
    assert_eq!(ramp_minutes(surface, bottom, d.descent_rate), 4);
    assert_eq!(ramp_minutes(bottom, surface, d.ascent_rate), 6);
    assert_eq!(ramp_minutes(bottom, bottom, d.ascent_rate), 0);
    let to18 = Pressure::from_depth(Depth::meters(18), surface);
    assert_eq!(ramp_minutes(surface, to18, DepthChange::descent_depth(Depth::meters(18))), 1);
    assert_eq!(level_minutes(30, 4), 26);
    assert_eq!(level_minutes(3, 4), 0);
}

#[test]
fn ascents_merge_on_same_gas() {
    let a = Gas::new_bottom(210, 0, 1400);
    let b = Gas::new_deco(500, 0);
    assert!(merges_with(SegmentType::UP, &a, &Gas::new_deco(210, 0)));
    assert!(!merges_with(SegmentType::UP, &a, &b));
    assert!(!merges_with(SegmentType::LEVEL, &a, &a));
    assert!(!merges_with(SegmentType::DOWN, &a, &a));
}

#[test]
fn oxygen_bands() {
    let o2 = Gas::new_deco(1000, 0);
    assert_eq!(oxygen_band(&o2, Pressure::pascal(50_000)), None);
    assert!(!is_toxic(&o2, Pressure::pascal(50_000)));
    assert!(is_toxic(&o2, Pressure::pascal(50_001)));
    assert_eq!(oxygen_band(&o2, Pressure::pascal(50_001)), Some(0));
    // 1.0 bar lies in (0.9, 1.1]: limit -600 * 1.0 + 900 = 300 minutes.
    let band = oxygen_band(&o2, Pressure::pascal(100_000)).unwrap();
    assert_eq!(band, 4);
    assert_eq!(cns_limit(band), (-600, 900));
    assert_eq!(band_edges(band), (90, 110));
    let air = Gas::new_bottom(210, 0, 1400);
    assert_eq!(oxygen_band(&air, Pressure::pascal(238_095)), None);
    assert_eq!(oxygen_band(&air, Pressure::pascal(701_300)), Some(5));
    assert_eq!(cns_limit(6), (-750, 1245));
}

#[test]
fn no_segments_is_refused() {
    let none: Vec<SegmentIn> = Vec::new();
    assert_eq!(check_segments(&none), Err(PlanError::NoSegments));
    let one = vec![SegmentIn::new_bottom(Depth::meters(18), 30, 1400)];
    assert_eq!(check_segments(&one), Ok(()));
    assert_eq!(one[0].segment_type, SegmentType::LEVEL);
}

#[test]
fn planner_without_stops_goes_straight_up() {
    let d = Dive::default();
    let bottom = Pressure::from_depth(Depth::meters(18), d.atm_pressure);
    let mut p = Planner::new(&d, bottom);
    assert_eq!(p.gf, GradientFactor { num: 500, den: 1 });
    let a = p.step(&d, Pressure::pascal(90_000));
    assert_eq!(a, Action::Ascend { from: bottom, to: d.atm_pressure, settle: false });
    assert_eq!(p.step(&d, Pressure::pascal(90_000)), Action::Continue);
    assert_eq!(p.phase, Phase::Ladder);
    assert_eq!(p.gf, GradientFactor { num: 800, den: 1 });
    assert_eq!(p.step(&d, Pressure::pascal(90_000)), Action::Done);
    assert_eq!(p.phase, Phase::Surfaced);
}

#[test]
fn planner_walks_the_ladder() {
    let d = Dive::default();
    let bottom = Pressure::from_depth(Depth::meters(60), d.atm_pressure);
    let s21 = Pressure::pascal(311_300);
    let s18 = Pressure::pascal(281_300);
    let mut p = Planner::new(&d, bottom);
    assert_eq!(p.step(&d, Pressure::pascal(300_000)), Action::Ascend { from: bottom, to: s21, settle: false });
    assert_eq!(p.step(&d, Pressure::pascal(300_000)), Action::Continue);
    assert_eq!(p.first_stop, s21);
    assert_eq!(p.gf, GradientFactor { num: 114_000_000, den: 210_000 });
    // The stop still holds: Check, then the stop starts.
    assert_eq!(p.step(&d, Pressure::pascal(300_000)), Action::Continue);
    assert_eq!(p.phase, Phase::Check);
    assert_eq!(p.step(&d, Pressure::pascal(300_000)), Action::StartStop { depth: s21 });
    assert_eq!(p.step(&d, Pressure::pascal(290_000)), Action::Wait { depth: s21 });
    assert_eq!(p.step(&d, Pressure::pascal(280_000)), Action::EndStop { depth: s21, minutes: 2 });
    // Up one stop, letting the loadings settle for the whole minute.
    assert_eq!(p.step(&d, Pressure::pascal(280_000)), Action::Ascend { from: s21, to: s18, settle: true });
    assert_eq!(p.step(&d, Pressure::pascal(280_000)), Action::Continue);
    assert_eq!(p.gf, GradientFactor { num: 123_000_000, den: 210_000 });
    assert_eq!(p.phase, Phase::Check);
    // The ceiling clears while checking the stop: the schedule ends there,
    // as the ladder stops once the next stop is the surface.
    assert_eq!(p.step(&d, Pressure::pascal(90_000)), Action::Done);
    assert_eq!(p.phase, Phase::Surfaced);
    assert_eq!(p.step(&d, Pressure::pascal(400_000)), Action::Done);
}

#[test]
fn ramp_band_passages() {
    let air = Gas::new_bottom(210, 0, 1400);
    let surface = Pressure::pascal(101_300);
    let deep = Pressure::pascal(701_300);
    // Down on air from the surface to 60 m: 0.5 to 1.4727 bar of oxygen.
    let p = band_passages(&air, surface, deep);
    assert_eq!(p.len(), 7);
    let high = 210 * 701_300;
    // Each band is crossed between its own edges.
    assert_eq!(p[0], (50_000_000, 60_000_000));
    assert_eq!(p[1], (60_000_000, 70_000_000));
    assert_eq!(p[4], (90_000_000, 110_000_000));
    assert_eq!(p[5], (110_000_000, high));
    assert_eq!(p[6], (0, 0));
    // The same ramp upwards enters each band at its top.
    let q = band_passages(&air, deep, surface);
    assert_eq!(q[1], (70_000_000, 60_000_000));
    assert_eq!(q[5], (high, 110_000_000));
    assert_eq!(q[0], (60_000_000, 50_000_000));
    // A ramp that stays within one band is credited between its own ends.
    let nx50 = Gas::new_deco(500, 0);
    let r = band_passages(&nx50, Pressure::pascal(231_300), Pressure::pascal(211_300));
    assert_eq!(r[5], (115_650_000, 110_000_000));
    assert_eq!(r[4], (110_000_000, 105_650_000));
    assert_eq!(r[3], (0, 0));
    // A level ramp on air at 10 m never reaches 0.5 bar.
    let ten = Pressure::pascal(201_300);
    assert!(band_passages(&air, ten, ten).iter().all(|&x| x == (0, 0)));
}

#[test]
fn planner_first_stop_takes_several_ascents() {
    let d = Dive::default();
    let bottom = Pressure::from_depth(Depth::meters(60), d.atm_pressure);
    let s27 = Pressure::pascal(371_300);
    let s24 = Pressure::pascal(341_300);
    let mut p = Planner::new(&d, bottom);
    assert_eq!(p.step(&d, Pressure::pascal(360_000)), Action::Ascend { from: bottom, to: s27, settle: false });
    assert_eq!(p.phase, Phase::ToFirstStop);
    // The ceiling eased during the ascent: keep going up under gf_lo.
    assert_eq!(p.step(&d, Pressure::pascal(340_000)), Action::Ascend { from: s27, to: s24, settle: false });
    assert_eq!(p.gf, GradientFactor { num: 500, den: 1 });
    assert_eq!(p.step(&d, Pressure::pascal(340_000)), Action::Continue);
    assert_eq!(p.gf, GradientFactor { num: 129_000_000, den: 240_000 });
    assert_eq!(p.first_stop, s24);
    assert_eq!(p.phase, Phase::Ladder);
    // An ascent on the ladder that reaches the surface ends the schedule.
    assert_eq!(p.step(&d, Pressure::pascal(0)), Action::Ascend { from: s24, to: d.atm_pressure, settle: true });
    assert_eq!(p.phase, Phase::Arrived);
    assert_eq!(p.step(&d, Pressure::pascal(0)), Action::Done);
    assert_eq!(p.phase, Phase::Surfaced);
}
