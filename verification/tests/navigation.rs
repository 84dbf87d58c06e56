use gnss_qc::navigation::{
    Constellation, EphemerisHealth, NavFilter, NavFilterType, NavFrameSummary,
};

fn eph(c: Constellation, healthy: bool, testing: bool) -> NavFrameSummary {
    NavFrameSummary {
        constellation: c,
        ephemeris: Some(EphemerisHealth { healthy, testing }),
    }
}

fn filter(t: NavFilterType, cs: Vec<Constellation>) -> NavFilter {
    NavFilter {
        filter: t,
        constellations: cs,
    }
}

#[test]
fn other_frames_always_pass() {
    let f = NavFrameSummary {
        constellation: Constellation::GPS,
        ephemeris: None,
    };
    for t in [NavFilterType::Healthy, NavFilterType::Unhealthy, NavFilterType::Testing] {
        assert!(filter(t, vec![]).keeps(&f));
        assert!(filter(t, vec![Constellation::GPS]).keeps(&f));
    }
}

#[test]
fn criterion_applies_to_every_constellation_when_none_listed() {
    let h = filter(NavFilterType::Healthy, vec![]);
    assert!(h.keeps(&eph(Constellation::Galileo, true, false)));
    assert!(!h.keeps(&eph(Constellation::Galileo, false, false)));
    let u = filter(NavFilterType::Unhealthy, vec![]);
    assert!(!u.keeps(&eph(Constellation::Galileo, true, false)));
    assert!(u.keeps(&eph(Constellation::Galileo, false, false)));
    let t = filter(NavFilterType::Testing, vec![]);
    assert!(t.keeps(&eph(Constellation::BeiDou, false, true)));
    assert!(!t.keeps(&eph(Constellation::BeiDou, true, false)));
}

#[test]
fn criterion_applies_to_listed_constellations_only() {
    let h = filter(NavFilterType::Healthy, vec![Constellation::GPS]);
    assert!(!h.keeps(&eph(Constellation::GPS, false, false)));
    assert!(h.keeps(&eph(Constellation::Glonass, false, false)));
}

#[test]
fn generic_sbas_entry_covers_augmentation_services() {
    let h = filter(NavFilterType::Healthy, vec![Constellation::SBAS]);
    assert!(!h.keeps(&eph(Constellation::EGNOS, false, false)));
    assert!(h.keeps(&eph(Constellation::EGNOS, true, false)));
    assert!(h.keeps(&eph(Constellation::GPS, false, false)));
    let h = filter(NavFilterType::Healthy, vec![Constellation::GPS]);
    assert!(h.keeps(&eph(Constellation::EGNOS, false, false)));
}

#[test]
fn healthy_and_unhealthy_split_targeted_ephemerides() {
    let cs = vec![Constellation::Galileo];
    for healthy in [true, false] {
        let f = eph(Constellation::Galileo, healthy, false);
        let h = filter(NavFilterType::Healthy, cs.clone()).keeps(&f);
        let u = filter(NavFilterType::Unhealthy, cs.clone()).keeps(&f);
        assert!(h != u);
    }
}

#[test]
fn augmentation_services() {
    assert!(Constellation::WAAS.is_sbas());
    assert!(Constellation::SBAS.is_sbas());
    assert!(Constellation::AusNZ.is_sbas());
    assert!(!Constellation::GPS.is_sbas());
    assert!(!Constellation::IRNSS.is_sbas());
    assert!(!Constellation::Mixed.is_sbas());
    assert!(filter(NavFilterType::Healthy, vec![Constellation::SBAS]).lists(Constellation::SBAS));
    assert!(!filter(NavFilterType::Healthy, vec![]).lists(Constellation::SBAS));
}

#[test]
fn constellation_positions_and_names() {
    for i in 0..21u8 {
        assert_eq!(Constellation::from_index(i).index(), i);
    }
    assert_eq!(Constellation::from_index(0), Constellation::GPS);
    assert_eq!(Constellation::from_index(20), Constellation::Mixed);
    assert_eq!(Constellation::GPS.to_string(), "GPS (US)");
    assert_eq!(Constellation::AusNZ.to_string(), "AUS/NZ (AUS)");
    assert_eq!(Constellation::Mixed.to_string(), "MIXED");
}
