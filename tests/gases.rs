use libnemo::dive::{find_gas, new_air, Dive, DiveType};
use libnemo::gas::Gas;
use libnemo::segment_type::SegmentType;
use libnemo::types::{Depth, Pressure};

fn at(m: i64) -> Pressure {
    Pressure::from_depth(Depth::meters(m), Pressure::millibar(1013))
}

#[test]
fn bottom_gas_window() {
    let air = Gas::new_bottom(210, 0, 1400);
    assert_eq!(air.max_depth.to_pascal(), 666_666);
    assert_eq!(air.min_depth.to_pascal(), 100_000);
    assert_eq!(air.f_n2, 790);
    let hypoxic = Gas::new_bottom(100, 700, 1200);
    assert_eq!(hypoxic.max_depth.to_pascal(), 1_200_000);
    assert_eq!(hypoxic.min_depth.to_pascal(), 180_000);
    assert_eq!(hypoxic.f_n2, 200);
    let odd = Gas::new_bottom(170, 0, 1400);
    // 0.18 / 0.17 bar rounds up to 105883 Pa; 1.4 / 0.17 bar rounds down.
    assert_eq!(odd.min_depth.to_pascal(), 105_883);
    assert_eq!(odd.max_depth.to_pascal(), 823_529);
}

#[test]
fn deco_and_diluent_presets() {
    let nx50 = Gas::new_deco(500, 0);
    assert_eq!(nx50.ppo2, 1610);
    assert_eq!(nx50.min_ppo2, 210);
    assert_eq!(nx50.max_depth.to_pascal(), 322_000);
    assert!(nx50.use_ascent && !nx50.use_descent && !nx50.use_diluent);
    let dil = Gas::new_diluent(180, 450);
    assert!(!dil.use_ascent && !dil.use_descent && dil.use_diluent);
    assert_eq!(dil.min_ppo2, 180);
    assert!(dil.is_wf());
    let mut broken = dil;
    broken.f_n2 = 1;
    assert!(!broken.is_wf());
}

#[test]
fn use_gas_window_and_roles() {
    let nx50 = Gas::new_deco(500, 0);
    assert!(nx50.use_gas(Pressure::pascal(322_000), SegmentType::UP));
    assert!(!nx50.use_gas(Pressure::pascal(322_001), SegmentType::UP));
    assert!(!nx50.use_gas(Pressure::pascal(200_000), SegmentType::DOWN));
    assert!(nx50.use_gas(Pressure::pascal(200_000), SegmentType::LEVEL));
    assert!(!nx50.use_gas(Pressure::pascal(99_999), SegmentType::LEVEL));
    let air = Gas::new_bottom(210, 0, 1400);
    assert!(air.use_gas(Pressure::pascal(100_000), SegmentType::DOWN));
}

#[test]
fn gas_equality_by_mix() {
    assert!(Gas::new_bottom(210, 0, 1400) == Gas::new_deco(210, 0));
    assert!(Gas::new_bottom(210, 0, 1400) != Gas::new_bottom(210, 10, 1400));
    assert_eq!(Gas::new_bottom(185, 447, 1300).label_parts(), (19, 45));
    assert_eq!(Gas::new_bottom(210, 0, 1400).label_parts(), (21, 0));
}

#[test]
fn open_circuit_selection() {
    let dive = Dive::default();
    let gases = vec![Gas::new_bottom(180, 450, 1400), Gas::new_deco(500, 0), Gas::new_deco(990, 0)];
    let g = find_gas(&dive, &gases, at(60), SegmentType::DOWN, 1400);
    assert_eq!((g.f_o2, g.f_he), (180, 450));
    let g = find_gas(&dive, &gases, at(21), SegmentType::UP, 1400);
    assert_eq!(g.f_o2, 500);
    let g = find_gas(&dive, &gases, at(6), SegmentType::UP, 1400);
    assert_eq!(g.f_o2, 990);
    // Only the bottom gas may be used going down, even shallow.
    let g = find_gas(&dive, &gases, at(6), SegmentType::DOWN, 1400);
    assert_eq!(g.f_o2, 180);
    // The first of two equal mixes is kept.
    let twins = vec![Gas::new_deco(500, 0), Gas::new_bottom(500, 0, 1600)];
    let g = find_gas(&dive, &twins, at(6), SegmentType::UP, 1400);
    assert_eq!(g.ppo2, 1610);
}

#[test]
fn open_circuit_falls_back_to_air() {
    let dive = Dive::default();
    let gases = vec![Gas::new_deco(990, 0)];
    let g = find_gas(&dive, &gases, at(60), SegmentType::UP, 1400);
    let air = new_air();
    assert_eq!((g.f_o2, g.f_he, g.ppo2), (air.f_o2, air.f_he, air.ppo2));
    let none: Vec<Gas> = Vec::new();
    let g = find_gas(&dive, &none, at(10), SegmentType::LEVEL, 1400);
    assert_eq!((g.f_o2, g.f_he, g.ppo2), (210, 0, 1400));
}

#[test]
fn rebreather_blends_diluent() {
    let mut dive = Dive::default();
    dive.dive_type = DiveType::CCR;
    let gases = vec![Gas::new_diluent(180, 450), Gas::new_deco(500, 0)];
    let g = find_gas(&dive, &gases, at(60), SegmentType::LEVEL, 1300);
    // 1.3 / 7.013 bar of oxygen; helium keeps 450:370 against nitrogen.
    assert_eq!(g.f_o2, 185);
    assert_eq!(g.f_he, 447);
    assert_eq!(g.ppo2, 1300);
    // Deep enough, the diluent alone exceeds the setpoint.
    let g = find_gas(&dive, &gases, at(70), SegmentType::LEVEL, 1300);
    assert_eq!((g.f_o2, g.f_he, g.ppo2), (180, 450, 1610));
    // Shallower than the setpoint allows: pure oxygen.
    let g = find_gas(&dive, &gases, at(1), SegmentType::UP, 1300);
    assert_eq!((g.f_o2, g.f_he), (1000, 0));
    // Without a diluent, air stands in.
    let none = vec![Gas::new_deco(500, 0)];
    let g = find_gas(&dive, &none, at(30), SegmentType::LEVEL, 1300);
    assert_eq!((g.f_o2, g.f_he), (323, 0));
}

#[test]
fn display() {
    fn label(g: &Gas) -> String {
        let (o2, he) = g.label_parts();
        if g.f_he > 0 { format!("{}/{}", o2, he) } else { format!("{}%", o2) }
    }
    assert_eq!("21%".to_owned(), label(&Gas::new_bottom(210, 0, 1400)));
    assert_eq!("18/45".to_owned(), label(&Gas::new_bottom(180, 450, 1400)));
}

#[test]
fn gases_order_by_oxygen_then_helium() {
    let air = Gas::new_bottom(210, 0, 1400);
    let tx = Gas::new_bottom(210, 350, 1400);
    let nx50 = Gas::new_deco(500, 0);
    assert!(air < nx50);
    assert!(nx50 > tx);
    assert!(air < tx);
    assert!(Gas::new_bottom(180, 450, 1400) < air);
    assert_eq!(air.partial_cmp(&Gas::new_deco(210, 0)), Some(std::cmp::Ordering::Equal));
}

#[test]
fn open_circuit_ignores_setpoint() {
    let dive = Dive::default();
    let gases = vec![Gas::new_bottom(210, 0, 1400)];
    let g = find_gas(&dive, &gases, at(10), SegmentType::LEVEL, 0);
    assert_eq!(g.f_o2, 210);
}
