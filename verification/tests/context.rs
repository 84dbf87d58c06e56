use std::collections::{BTreeMap, HashMap};
use std::path::PathBuf;

use anise::constants::frames::EARTH_J2000;
use anise::prelude::Almanac;
use gnss_rs::prelude::{Constellation as GnssConstellation, SV};
use rinex::navigation::{
    EarthOrientation, Ephemeris, NavFrame, NavFrameType, NavKey, NavMessageType,
};
use rinex::navigation::{HeaderFields as NavHeaderFields, TimeOffset};
use rinex::observation::HeaderFields as ObsHeaderFields;
use rinex::prelude::obs::{ObsKey, Observations, SignalObservation};
use rinex::prelude::{
    Epoch, Header, Observable, Record, Rinex, RinexType as OutsideRinexType, TimeScale,
    SV as RinexSV,
};
use std::str::FromStr;
use sp3::prelude::{DataType, SP3Entry, SP3Key, SP3};

use gnss_qc::context::file_name::production_name_ok;
use gnss_qc::context::{AlmanacFile, QcContext};
use gnss_qc::error::{Error, MergeError};
use gnss_qc::navigation::{Constellation, NavFilter, NavFilterType};
use gnss_qc::product::{ProductType, RinexType};
use gnss_qc::report::sampling::SamplingSummary;
use gnss_qc::report::sp3_report::SP3Report;

fn context() -> QcContext {
    QcContext::new_alamac_frame(Almanac::default(), EARTH_J2000)
}

fn sp3(agency: &str, clock: bool) -> SP3 {
    let mut s = SP3::default();
    s.header.agency = agency.to_string();
    let key = SP3Key {
        sv: SV::new(GnssConstellation::GPS, 1),
        epoch: Epoch::from_gregorian_utc_at_midnight(2020, 6, 25),
    };
    let entry = SP3Entry {
        position_km: (1.0, 2.0, 3.0),
        velocity_km_s: None,
        predicted_orbit: false,
        maneuver: false,
        clock_event: false,
        predicted_clock: false,
        clock_us: if clock { Some(1.0) } else { None },
        clock_drift_ns: None,
    };
    s.data.insert(key, entry);
    s
}

fn rinex_of(t: OutsideRinexType, record: Record) -> Rinex {
    let mut header = Header::default();
    header.rinex_type = t;
    Rinex::new(header, record)
}

fn nav_key(constellation: GnssConstellation, prn: u8, frmtype: NavFrameType) -> NavKey {
    NavKey {
        epoch: Epoch::from_gregorian_utc_at_midnight(2020, 6, 25),
        sv: SV::new(constellation, prn),
        msgtype: NavMessageType::LNAV,
        frmtype,
        subtype: None,
        galileo_data_sources: None,
        transmission_time: None,
        sto_identity: None,
    }
}

/// GPS healthy (default health flag), GPS without health (unhealthy),
/// Glonass without health (unhealthy) and a GPS earth orientation frame.
fn nav_rinex() -> Rinex {
    let mut healthy = Ephemeris::default();
    healthy.orbits = HashMap::new();
    healthy.orbits.insert(
        "health".to_string(),
        rinex::navigation::OrbitItem::GpsQzssl1l2l5Health(Default::default()),
    );
    let unhealthy = Ephemeris::default();
    let mut record = BTreeMap::new();
    record.insert(
        nav_key(GnssConstellation::GPS, 1, NavFrameType::Ephemeris),
        NavFrame::EPH(healthy),
    );
    record.insert(
        nav_key(GnssConstellation::GPS, 2, NavFrameType::Ephemeris),
        NavFrame::EPH(unhealthy.clone()),
    );
    record.insert(
        nav_key(GnssConstellation::Glonass, 3, NavFrameType::Ephemeris),
        NavFrame::EPH(unhealthy),
    );
    record.insert(
        nav_key(GnssConstellation::GPS, 4, NavFrameType::EarthOrientation),
        NavFrame::EOP(EarthOrientation::default()),
    );
    rinex_of(OutsideRinexType::NavigationData, Record::NavRecord(record))
}

fn nav_prns(ctx: &QcContext) -> Vec<u8> {
    let nav = ctx.brdc_navigation().unwrap();
    nav.record.as_nav().unwrap().keys().map(|k| k.sv.prn).collect()
}

#[test]
fn new_context_is_empty() {
    let ctx = context();
    assert!(!ctx.has_sp3());
    assert!(!ctx.sp3_has_clock());
    assert!(ctx.sp3().is_none());
    assert!(ctx.observation().is_none());
    assert!(ctx.brdc_navigation().is_none());
    assert!(ctx.clock().is_none());
    assert!(ctx.meteo().is_none());
    assert!(ctx.data(ProductType::Observation).is_none());
    assert!(ctx.files(ProductType::HighPrecisionOrbit).is_none());
    assert!(!ctx.is_ppp_ultra_navigation_compatible());
    assert!(!ctx.is_cpp_navigation_compatible());
    assert!(ctx.reference_rx_orbit().is_none());
}

#[test]
fn first_sp3_makes_the_orbit_product() {
    let mut ctx = context();
    assert!(ctx.load_sp3(PathBuf::from("a.sp3"), sp3("IGS", false)).is_ok());
    assert!(ctx.has_sp3());
    assert!(!ctx.sp3_has_clock());
    assert_eq!(
        ctx.files(ProductType::HighPrecisionOrbit).unwrap(),
        &vec![PathBuf::from("a.sp3")]
    );
    assert_eq!(ctx.sp3().unwrap().header.agency, "IGS");
    assert!(ctx.observation().is_none());
}

#[test]
fn sp3_with_clock_is_reported() {
    let mut ctx = context();
    ctx.load_sp3(PathBuf::from("a.sp3"), sp3("IGS", true)).unwrap();
    assert!(ctx.sp3_has_clock());
}

#[test]
fn merged_sp3_keeps_both_paths_and_gains_clock() {
    let mut ctx = context();
    ctx.load_sp3(PathBuf::from("a.sp3"), sp3("IGS", false)).unwrap();
    ctx.load_sp3(PathBuf::from("b.sp3"), sp3("IGS", true)).unwrap();
    assert_eq!(
        ctx.files(ProductType::HighPrecisionOrbit).unwrap(),
        &vec![PathBuf::from("a.sp3"), PathBuf::from("b.sp3")]
    );
    assert!(ctx.sp3_has_clock());
}

#[test]
fn refused_sp3_merge_changes_nothing() {
    let mut ctx = context();
    ctx.load_sp3(PathBuf::from("a.sp3"), sp3("IGS", false)).unwrap();
    let r = ctx.load_sp3(PathBuf::from("b.sp3"), sp3("COD", true));
    assert!(matches!(r, Err(Error::Merge(MergeError::DataProviderMismatch))));
    assert_eq!(
        ctx.files(ProductType::HighPrecisionOrbit).unwrap(),
        &vec![PathBuf::from("a.sp3")]
    );
    assert!(!ctx.sp3_has_clock());
    assert_eq!(ctx.sp3().unwrap().header.agency, "IGS");
}

#[test]
fn sp3_mut_reaches_the_stored_data() {
    let mut ctx = context();
    assert!(ctx.sp3_mut().is_none());
    ctx.load_sp3(PathBuf::from("a.sp3"), sp3("IGS", false)).unwrap();
    ctx.sp3_mut().unwrap().header.agency = "ESA".to_string();
    assert_eq!(ctx.sp3().unwrap().header.agency, "ESA");
}

#[test]
fn rinex_is_stored_under_its_type() {
    let mut ctx = context();
    let obs = rinex_of(OutsideRinexType::ObservationData, Record::ObsRecord(BTreeMap::new()));
    ctx.load_rinex(PathBuf::from("obs.rnx"), obs).unwrap();
    assert!(ctx.observation().is_some());
    assert!(ctx.brdc_navigation().is_none());
    ctx.load_rinex(PathBuf::from("nav.rnx"), nav_rinex()).unwrap();
    assert!(ctx.brdc_navigation().is_some());
    assert_eq!(
        ctx.files(ProductType::BroadcastNavigation).unwrap(),
        &vec![PathBuf::from("nav.rnx")]
    );
    assert!(!ctx.has_sp3());
    assert!(!ctx.is_cpp_navigation_compatible());
    assert!(ctx.reference_rx_orbit().is_none());
}

#[test]
fn rinex_typed_loading_uses_the_given_type() {
    let mut ctx = context();
    let clk = rinex_of(OutsideRinexType::ClockData, Record::ClockRecord(BTreeMap::new()));
    ctx.load_rinex_typed(RinexType::ClockData, PathBuf::from("c.clk"), clk)
        .unwrap();
    assert!(ctx.clock().is_some());
    assert!(ctx.data(ProductType::HighPrecisionClock).is_some());
    assert_eq!(
        ProductType::from_rinex_type(RinexType::MeteoData),
        ProductType::MeteoObservation
    );
    assert_eq!(
        ProductType::from_rinex_type(RinexType::AntennaData),
        ProductType::ANTEX
    );
}

#[test]
fn healthy_filter_keeps_healthy_and_other_frames() {
    let mut ctx = context();
    ctx.load_rinex(PathBuf::from("nav.rnx"), nav_rinex()).unwrap();
    let filter = NavFilter {
        filter: NavFilterType::Healthy,
        constellations: vec![],
    };
    ctx.nav_filter_mut(&filter);
    assert_eq!(nav_prns(&ctx), vec![1, 4]);
    assert_eq!(
        ctx.files(ProductType::BroadcastNavigation).unwrap(),
        &vec![PathBuf::from("nav.rnx")]
    );
}

#[test]
fn unhealthy_filter_on_gps_leaves_glonass() {
    let mut ctx = context();
    ctx.load_rinex(PathBuf::from("nav.rnx"), nav_rinex()).unwrap();
    let filter = NavFilter {
        filter: NavFilterType::Unhealthy,
        constellations: vec![Constellation::GPS],
    };
    ctx.nav_filter_mut(&filter);
    assert_eq!(nav_prns(&ctx), vec![2, 3, 4]);
}

#[test]
fn nav_filter_applied_twice_keeps_the_same_frames() {
    let mut ctx = context();
    ctx.load_rinex(PathBuf::from("nav.rnx"), nav_rinex()).unwrap();
    let filter = NavFilter {
        filter: NavFilterType::Testing,
        constellations: vec![Constellation::Glonass],
    };
    ctx.nav_filter_mut(&filter);
    let once = nav_prns(&ctx);
    ctx.nav_filter_mut(&filter);
    assert_eq!(nav_prns(&ctx), once);
    assert_eq!(once, vec![1, 2, 4]);
}

#[test]
fn nav_filter_without_navigation_changes_nothing() {
    let mut ctx = context();
    ctx.load_sp3(PathBuf::from("a.sp3"), sp3("IGS", true)).unwrap();
    let filter = NavFilter {
        filter: NavFilterType::Healthy,
        constellations: vec![],
    };
    ctx.nav_filter_mut(&filter);
    assert!(ctx.has_sp3());
    assert!(ctx.brdc_navigation().is_none());
}

#[test]
fn transposition_keeps_products_and_files() {
    let mut ctx = context();
    ctx.load_sp3(PathBuf::from("a.sp3"), sp3("IGS", true)).unwrap();
    ctx.load_rinex(PathBuf::from("nav.rnx"), nav_rinex()).unwrap();
    ctx.timescale_transposition_mut(TimeScale::GST);
    assert!(ctx.has_sp3());
    assert!(ctx.sp3_has_clock());
    assert_eq!(ctx.sp3().unwrap().header.timescale, TimeScale::GST);
    assert_eq!(nav_prns(&ctx), vec![1, 2, 3, 4]);
    assert_eq!(
        ctx.files(ProductType::HighPrecisionOrbit).unwrap(),
        &vec![PathBuf::from("a.sp3")]
    );
}

#[test]
fn almanac_files() {
    let de = QcContext::anise_de440s_bsp();
    assert_eq!(de.uri, "http://public-data.nyxspace.com/anise/de440s.bsp");
    assert_eq!(de.crc32, Some(0x7286750a));
    let pck = QcContext::anise_pck11_pca();
    assert_eq!(pck.uri, "http://public-data.nyxspace.com/anise/v0.5/pck11.pca");
    assert_eq!(pck.crc32, Some(0x8213b6e9));
    let bpc = QcContext::anise_jpl_bpc();
    assert_eq!(bpc.crc32, None);
    assert_eq!(
        QcContext::default_meta_almanac(),
        vec![pck.clone(), de.clone()]
    );
    assert_eq!(
        QcContext::high_precision_meta_almanac(),
        vec![pck, de, bpc]
    );
    let _: Option<AlmanacFile> = None;
}

fn gpst_epoch() -> Epoch {
    Epoch::from_gregorian_at_midnight(2020, 6, 25, TimeScale::GPST)
}

/// Observations of one GPS satellite at one GPST epoch, on the given
/// observables, with the receiver position `rx` in the header.
fn obs_rinex(observables: &[&str], rx: Option<(f64, f64, f64)>) -> Rinex {
    let t = gpst_epoch();
    let mut obs = Observations::default();
    for code in observables {
        obs.signals.push(SignalObservation::new(
            RinexSV::new(rinex::prelude::Constellation::GPS, 1),
            Observable::from_str(code).unwrap(),
            20.0e6,
        ));
    }
    let mut record = BTreeMap::new();
    record.insert(ObsKey::new_ok(t), obs);
    let mut rinex = rinex_of(OutsideRinexType::ObservationData, Record::ObsRecord(record));
    let mut fields = ObsHeaderFields::default();
    fields.timeof_first_obs = Some(t);
    rinex.header.obs = Some(fields);
    rinex.header.rx_position = rx;
    rinex
}

/// A navigation file whose header declares a GPST to UTC offset.
fn nav_rinex_with_gpst_utc_offset() -> Rinex {
    let mut rinex = nav_rinex();
    let mut fields = NavHeaderFields::default();
    fields.add_time_offset(TimeOffset::from_epoch(
        gpst_epoch(),
        TimeScale::GPST,
        TimeScale::UTC,
        (1.0e-9, 0.0, 0.0),
    ));
    rinex.header.nav = Some(fields);
    rinex
}

#[test]
fn precise_correction_of_an_empty_context_succeeds() {
    let mut ctx = context();
    let db = ctx.time_corrections_database();
    assert!(ctx.precise_time_correction_mut(db, TimeScale::UTC).is_ok());
    assert!(ctx.observation().is_none());
}

#[test]
fn precise_correction_without_corrections_fails() {
    let mut ctx = context();
    ctx.load_rinex(PathBuf::from("obs.rnx"), obs_rinex(&["C1C"], None))
        .unwrap();
    let db = ctx.time_corrections_database();
    assert!(ctx.precise_time_correction_mut(db, TimeScale::UTC).is_err());
    assert_eq!(
        ctx.files(ProductType::Observation).unwrap(),
        &vec![PathBuf::from("obs.rnx")]
    );
}

#[test]
fn navigation_offsets_allow_precise_correction() {
    let mut ctx = context();
    ctx.load_rinex(PathBuf::from("obs.rnx"), obs_rinex(&["C1C"], None))
        .unwrap();
    ctx.load_rinex(PathBuf::from("nav.rnx"), nav_rinex_with_gpst_utc_offset())
        .unwrap();
    let db = ctx.time_corrections_database();
    assert!(ctx.precise_time_correction_mut(db, TimeScale::UTC).is_ok());
    let obs = ctx.observation().unwrap();
    let first = obs.header.obs.as_ref().unwrap().timeof_first_obs.unwrap();
    assert_eq!(first.time_scale, TimeScale::UTC);
    assert_eq!(obs.first_epoch().unwrap().time_scale, TimeScale::UTC);
    // the navigation data are left as they were
    assert_eq!(nav_prns(&ctx), vec![1, 2, 3, 4]);
}

#[test]
fn transposition_timeshifts_observations() {
    let mut ctx = context();
    ctx.load_rinex(PathBuf::from("obs.rnx"), obs_rinex(&["C1C"], None))
        .unwrap();
    ctx.timescale_transposition_mut(TimeScale::GST);
    let obs = ctx.observation().unwrap();
    assert_eq!(obs.first_epoch().unwrap().time_scale, TimeScale::GST);
}

#[test]
fn reference_position_comes_from_the_observation_header() {
    let mut ctx = context();
    ctx.load_rinex(PathBuf::from("obs.rnx"), obs_rinex(&["C1C"], None))
        .unwrap();
    assert!(ctx.reference_rx_orbit().is_none());

    let mut ctx = context();
    ctx.load_rinex(
        PathBuf::from("obs.rnx"),
        obs_rinex(&["C1C"], Some((4000.0e3, 500.0e3, 4900.0e3))),
    )
    .unwrap();
    let orbit = ctx.reference_rx_orbit().unwrap();
    assert_eq!(orbit.epoch, gpst_epoch());
    assert!((orbit.radius_km.x - 4000.0).abs() < 1e-9);
    assert!((orbit.radius_km.y - 500.0).abs() < 1e-9);
    assert!((orbit.radius_km.z - 4900.0).abs() < 1e-9);
}

#[test]
fn code_navigation_needs_two_carriers() {
    let mut ctx = context();
    ctx.load_rinex(PathBuf::from("obs.rnx"), obs_rinex(&["C1C", "L1C"], None))
        .unwrap();
    assert!(!ctx.is_cpp_navigation_compatible());

    let mut ctx = context();
    ctx.load_rinex(PathBuf::from("obs.rnx"), obs_rinex(&["C1C", "C2W"], None))
        .unwrap();
    assert!(ctx.is_cpp_navigation_compatible());
    // no clock products nor SP3 clocks
    assert!(!ctx.is_ppp_ultra_navigation_compatible());
}

#[test]
fn observation_mut_reaches_the_stored_data() {
    let mut ctx = context();
    assert!(ctx.observation_mut().is_none());
    ctx.load_rinex(PathBuf::from("obs.rnx"), obs_rinex(&["C1C"], None))
        .unwrap();
    ctx.observation_mut().unwrap().header.rx_position = Some((1.0, 2.0, 3.0));
    assert_eq!(
        ctx.observation().unwrap().header.rx_position,
        Some((1.0, 2.0, 3.0))
    );
    assert!(ctx.rinex_mut(ProductType::HighPrecisionOrbit).is_none());
    assert!(ctx.rinex_mut(ProductType::Observation).is_some());
}

fn entry(clock: Option<f64>) -> SP3Entry {
    SP3Entry {
        position_km: (1.0, 2.0, 3.0),
        velocity_km_s: None,
        predicted_orbit: false,
        maneuver: false,
        clock_event: false,
        predicted_clock: false,
        clock_us: clock,
        clock_drift_ns: None,
    }
}

/// A summary whose first field tells how many entries the data hold.
fn entries_summary(s: &SP3) -> SamplingSummary {
    SamplingSummary {
        first_epoch: s.data.len().to_string(),
        last_epoch: String::new(),
        duration: String::new(),
        sampling_interval: None,
        dominant_sample_rate: None,
        gaps: vec![],
    }
}

#[test]
fn sp3_report_has_one_page_per_constellation() {
    let t = Epoch::from_gregorian_utc_at_midnight(2020, 6, 25);
    let g01 = SV::new(GnssConstellation::GPS, 1);
    let g02 = SV::new(GnssConstellation::GPS, 2);
    let r05 = SV::new(GnssConstellation::Glonass, 5);
    let mut s = SP3::default();
    s.header.agency = "IGS".to_string();
    s.header.coord_system = "IGb14".to_string();
    s.header.data_type = DataType::Velocity;
    s.header.satellites = vec![g01, g02, r05];
    s.data.insert(SP3Key { sv: g01, epoch: t }, entry(Some(1.0)));
    s.data.insert(SP3Key { sv: g02, epoch: t }, entry(None));
    s.data.insert(SP3Key { sv: r05, epoch: t }, entry(None));

    let report = SP3Report::new(&s, entries_summary);
    assert_eq!(report.agency, "IGS");
    assert_eq!(report.coord_system, "IGb14");
    assert_eq!(report.time_scale, s.header.timescale.to_string());
    assert_eq!(report.version, s.header.version.to_string());
    assert_eq!(report.orbit_fit, s.header.orbit_type.to_string());
    assert_eq!(report.constellation, s.header.constellation.to_string());
    assert_eq!(report.sampling.first_epoch, "3");

    assert_eq!(report.pages.len(), 2);
    let (c, gps) = &report.pages[0];
    assert_eq!(*c, Constellation::GPS);
    assert!(gps.has_clock);
    assert!(gps.has_velocity);
    assert!(!gps.has_clock_drift);
    assert_eq!(gps.sampling.first_epoch, "2");
    let names: Vec<String> = gps.satellites.iter().map(|s| s.name.clone()).collect();
    assert_eq!(names, vec!["G01".to_string(), "G02".to_string(), "R05".to_string()]);
    assert_eq!(gps.satellites[2].prn, 5);
    assert_eq!(gps.satellites[2].constellation, Constellation::Glonass);

    let (c, glonass) = &report.pages[1];
    assert_eq!(*c, Constellation::Glonass);
    assert!(!glonass.has_clock);
    assert_eq!(glonass.sampling.first_epoch, "1");
}

#[test]
fn two_navigation_files_are_merged() {
    let mut ctx = context();
    ctx.load_rinex(PathBuf::from("nav1.rnx"), nav_rinex()).unwrap();
    let mut second = nav_rinex();
    let mut record = BTreeMap::new();
    record.insert(
        nav_key(GnssConstellation::Galileo, 7, NavFrameType::Ephemeris),
        NavFrame::EPH(Ephemeris::default()),
    );
    second.record = Record::NavRecord(record);
    ctx.load_rinex(PathBuf::from("nav2.rnx"), second).unwrap();
    assert_eq!(
        ctx.files(ProductType::BroadcastNavigation).unwrap(),
        &vec![PathBuf::from("nav1.rnx"), PathBuf::from("nav2.rnx")]
    );
    assert_eq!(nav_prns(&ctx), vec![1, 2, 3, 4, 7]);
    assert!(ctx.observation().is_none());
}

/// A navigation file with one GLONASS ephemeris whose `health2` item is not
/// a GLONASS health2 flag.
fn unreadable_nav_rinex() -> Rinex {
    let mut eph = Ephemeris::default();
    eph.orbits.insert(
        "health".to_string(),
        rinex::navigation::OrbitItem::GlonassHealth(rinex::navigation::glonass::GlonassHealth::empty()),
    );
    eph.orbits.insert(
        "health2".to_string(),
        rinex::navigation::OrbitItem::F64(0.0),
    );
    let mut record = BTreeMap::new();
    record.insert(
        nav_key(GnssConstellation::Glonass, 5, NavFrameType::Ephemeris),
        NavFrame::EPH(eph),
    );
    rinex_of(OutsideRinexType::NavigationData, Record::NavRecord(record))
}

#[test]
fn checked_filter_refuses_unreadable_health() {
    let mut ctx = context();
    ctx.load_rinex(PathBuf::from("nav.rnx"), unreadable_nav_rinex())
        .unwrap();
    let filter = NavFilter {
        filter: NavFilterType::Healthy,
        constellations: vec![],
    };
    assert!(!ctx.nav_health_readable(&filter));
    assert!(!ctx.nav_filter_checked(&filter));
    assert_eq!(nav_prns(&ctx), vec![5]);
}

#[test]
fn unread_health_does_not_stop_a_filter() {
    let mut ctx = context();
    ctx.load_rinex(PathBuf::from("nav.rnx"), unreadable_nav_rinex())
        .unwrap();
    // the testing criterion does not read the health flags
    let testing = NavFilter {
        filter: NavFilterType::Testing,
        constellations: vec![],
    };
    assert!(ctx.nav_health_readable(&testing));
    assert!(ctx.nav_filter_checked(&testing));
    assert_eq!(nav_prns(&ctx), Vec::<u8>::new());

    // a filter on GPS does not read GLONASS ephemerides
    let mut ctx = context();
    ctx.load_rinex(PathBuf::from("nav.rnx"), unreadable_nav_rinex())
        .unwrap();
    let gps = NavFilter {
        filter: NavFilterType::Unhealthy,
        constellations: vec![Constellation::GPS],
    };
    assert!(ctx.nav_health_readable(&gps));
    ctx.nav_filter_mut(&gps);
    assert_eq!(nav_prns(&ctx), vec![5]);
}

#[test]
fn checked_filter_applies_on_readable_health() {
    let mut ctx = context();
    let filter = NavFilter {
        filter: NavFilterType::Healthy,
        constellations: vec![],
    };
    assert!(ctx.nav_health_readable(&filter));
    ctx.load_rinex(PathBuf::from("nav.rnx"), nav_rinex()).unwrap();
    assert!(ctx.nav_health_readable(&filter));
    assert!(ctx.nav_filter_checked(&filter));
    assert_eq!(nav_prns(&ctx), vec![1, 4]);
}

#[test]
fn navigation_filters_commute() {
    let gps_healthy = NavFilter {
        filter: NavFilterType::Healthy,
        constellations: vec![Constellation::GPS],
    };
    let glonass_unhealthy = NavFilter {
        filter: NavFilterType::Unhealthy,
        constellations: vec![Constellation::Glonass],
    };
    let mut a = context();
    a.load_rinex(PathBuf::from("nav.rnx"), nav_rinex()).unwrap();
    a.nav_filter_mut(&gps_healthy);
    a.nav_filter_mut(&glonass_unhealthy);
    let mut b = context();
    b.load_rinex(PathBuf::from("nav.rnx"), nav_rinex()).unwrap();
    b.nav_filter_mut(&glonass_unhealthy);
    b.nav_filter_mut(&gps_healthy);
    assert_eq!(nav_prns(&a), nav_prns(&b));
    assert_eq!(nav_prns(&a), vec![1, 3, 4]);
    assert_eq!(
        a.brdc_navigation().unwrap().header,
        b.brdc_navigation().unwrap().header
    );
}

#[test]
fn repeated_transposition_changes_nothing_more() {
    let mut ctx = context();
    ctx.load_rinex(PathBuf::from("obs.rnx"), obs_rinex(&["C1C"], None))
        .unwrap();
    ctx.load_rinex(PathBuf::from("nav.rnx"), nav_rinex()).unwrap();
    ctx.timescale_transposition_mut(TimeScale::GST);
    let once_obs = format!("{:?}", ctx.observation().unwrap());
    let once_nav = format!("{:?}", ctx.brdc_navigation().unwrap());
    ctx.timescale_transposition_mut(TimeScale::GST);
    assert_eq!(format!("{:?}", ctx.observation().unwrap()), once_obs);
    assert_eq!(format!("{:?}", ctx.brdc_navigation().unwrap()), once_nav);
}

fn rinex_text(rinex: &Rinex) -> Vec<u8> {
    let mut buf: Vec<u8> = Vec::new();
    {
        let mut writer = std::io::BufWriter::new(&mut buf);
        rinex.format(&mut writer).unwrap();
    }
    buf
}

#[test]
fn production_names() {
    assert!(production_name_ok("AJAC3550.21O"));
    assert!(production_name_ok("nav.rnx"));
    assert!(production_name_ok(""));
    assert!(production_name_ok("ABCDEFGH.XY"));
    assert!(!production_name_ok("ABCDEFGH.1"));
    assert!(!production_name_ok("ABCDEFGH.12"));
    assert!(!production_name_ok("r\u{e9}seau.rnx"));
}

#[test]
fn rinex_bytes_are_parsed_and_loaded() {
    let text = rinex_text(&obs_rinex(&["C1C", "C2W"], None));
    let mut ctx = context();
    ctx.load_rinex_bytes(PathBuf::from("dir/obs.rnx"), "obs.rnx", &text)
        .unwrap();
    assert!(ctx.observation().is_some());
    assert_eq!(
        ctx.files(ProductType::Observation).unwrap(),
        &vec![PathBuf::from("dir/obs.rnx")]
    );
    let mut named = context();
    named
        .load_rinex_bytes(PathBuf::from("AJAC3550.21O"), "AJAC3550.21O", &text)
        .unwrap();
    assert_eq!(named.observation().unwrap().production.name, "AJAC");
    assert_eq!(named.observation().unwrap().production.year, 2021);
    let r = ctx.load_rinex_bytes(PathBuf::from("bad.rnx"), "bad.rnx", b"not a rinex");
    assert!(matches!(r, Err(Error::RinexParsing(_))));
    assert_eq!(
        ctx.files(ProductType::Observation).unwrap(),
        &vec![PathBuf::from("dir/obs.rnx")]
    );
}

#[test]
fn gzip_rinex_bytes_are_parsed_and_loaded() {
    let text = rinex_text(&obs_rinex(&["C1C"], None));
    let mut encoder = flate2::write::GzEncoder::new(Vec::new(), flate2::Compression::default());
    std::io::Write::write_all(&mut encoder, &text).unwrap();
    let gz = encoder.finish().unwrap();
    let mut ctx = context();
    ctx.load_gzip_rinex_bytes(PathBuf::from("obs.rnx.gz"), "obs.rnx.gz", &gz)
        .unwrap();
    assert!(ctx.observation().is_some());
    let r = ctx.load_gzip_rinex_bytes(PathBuf::from("x.gz"), "x.gz", &text);
    assert!(r.is_err());
    assert!(ctx.brdc_navigation().is_none());
}
