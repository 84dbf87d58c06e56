//! The outside types and calls the library relies on, with what is assumed of them.
//!
//! Every item here is trusted: Verus believes its contract without reading
//! the outside code. Each doc comment names the outside item and says what
//! is claimed of it.
use vstd::prelude::*;

use gnss_qc_traits::MergeError as SpMergeError;
use gnss_qc_traits::{Filter, FilterItem, MaskOperand, Preprocessing as Sp3Preprocessing};
use gnss_rs::prelude::Constellation as GnssConstellation;
use gnss_rs::prelude::SV;
use rinex::navigation::{NavFrame, NavKey};
use rinex::prelude::processing::{
    TimeCorrection, TimeCorrectionError, TimeCorrectionsDB, Timeshift as RinexTimeshift,
};
use rinex::prelude::qc::{Merge as RinexMerge, MergeError as RinexMergeError};
use rinex::prelude::{Header, ProductionAttributes, Rinex, TimeScale};
use flate2::read::GzDecoder;
use rinex::prelude::ParsingError as RinexParsingError;
use std::collections::BTreeMap;
use std::io::BufReader;
use std::str::FromStr;
use sp3::prelude::Error as Sp3Error;
use sp3::prelude::{Merge as Sp3Merge, Timeshift as Sp3Timeshift, SP3};

use anise::prelude::{Frame, Orbit};
use rinex::prelude::{Epoch, RinexType as OutsideRinexType};

use crate::context::file_name::production_name_readable;
use crate::error::MergeError;
use crate::product::RinexType;
use crate::navigation::{
    frame_summary, health_readable, keeps_nav_frame, merged_entries, record_readable, NavFilter,
};

verus! {

/// `rinex::prelude::Rinex`, a parsed RINEX file; carried as an opaque value.
#[verifier::external_type_specification]
#[verifier::external_body]
pub struct ExRinex(rinex::prelude::Rinex);

/// `sp3::prelude::SP3`, a parsed SP3 file; carried as an opaque value.
#[verifier::external_type_specification]
#[verifier::external_body]
pub struct ExSp3(sp3::prelude::SP3);

/// `rinex::prelude::ParsingError`, carried in the context errors.
#[verifier::external_type_specification]
#[verifier::external_body]
pub struct ExRinexParsingError(rinex::prelude::ParsingError);

/// `sp3::prelude::Error`, carried in the context errors.
#[verifier::external_type_specification]
#[verifier::external_body]
pub struct ExSp3Error(Sp3Error);

/// `hifitime::TimeScale`, the timescale products are transposed to.
#[verifier::external_type_specification]
#[verifier::external_body]
pub struct ExTimeScale(rinex::prelude::TimeScale);

/// `hifitime::Epoch`, an instant.
#[verifier::external_type_specification]
#[verifier::external_body]
pub struct ExEpoch(rinex::prelude::Epoch);

/// `std::path::PathBuf`, the path a product was loaded from.
#[verifier::external_type_specification]
#[verifier::external_body]
pub struct ExPathBuf(std::path::PathBuf);

/// `anise::prelude::Almanac`, the planetary data of a context.
#[verifier::external_type_specification]
#[verifier::external_body]
pub struct ExAlmanac(anise::prelude::Almanac);

/// `anise::prelude::Frame`, the Earth centered frame of a context.
#[verifier::external_type_specification]
#[verifier::external_body]
pub struct ExFrame(anise::prelude::Frame);

/// `anise::prelude::Orbit`, a state vector.
#[verifier::external_type_specification]
#[verifier::external_body]
pub struct ExOrbit(anise::prelude::Orbit);

/// `anise::errors::PhysicsError`, needed to declare [anise::prelude::Orbit].
#[verifier::external_type_specification]
#[verifier::external_body]
pub struct ExPhysicsError(anise::errors::PhysicsError);

/// `rinex::prelude::Header`, the header of a RINEX.
#[verifier::external_type_specification]
#[verifier::external_body]
pub struct ExHeader(Header);

/// `rinex::prelude::ProductionAttributes`, what a RINEX file name tells.
#[verifier::external_type_specification]
#[verifier::external_body]
pub struct ExProductionAttributes(ProductionAttributes);

/// `rinex::navigation::NavKey`, the key of a navigation frame.
#[verifier::external_type_specification]
#[verifier::external_body]
pub struct ExNavKey(NavKey);

/// `rinex::navigation::NavFrame`, a navigation frame.
#[verifier::external_type_specification]
#[verifier::external_body]
pub struct ExNavFrame(NavFrame);

/// `gnss_rs::prelude::Constellation`, the constellation of a satellite.
#[verifier::external_type_specification]
#[verifier::external_body]
pub struct ExGnssConstellation(GnssConstellation);

/// For each entry of an SP3, in the order of its records, whether the entry
/// carries a satellite clock offset.
pub uninterp spec fn sp3_clock_flags(s: SP3) -> Seq<bool>;

/// The entries of the navigation record of a RINEX, in the order of their
/// keys as the record (a `BTreeMap`) holds them; empty when the RINEX holds
/// no navigation record.
pub uninterp spec fn nav_record(r: Rinex) -> Seq<(NavKey, NavFrame)>;

/// Everything of a RINEX but its record: its header, its comments and its
/// production attributes.
pub uninterp spec fn file_parts(r: Rinex) -> (Header, BTreeMap<Epoch, Vec<String>>, ProductionAttributes);

/// Calls `SP3::has_satellite_clock_offset`, which is true when one of the
/// entries carries a clock offset.
#[verifier::external_body]
pub(crate) fn sp3_has_clock_offset(s: &SP3) -> (b: bool)
    ensures
        b == sp3_clock_flags(*s).contains(true),
{
    s.has_satellite_clock_offset()
}

/// What `Merge::merge_mut` of `SP3` makes of `lhs` merged with `rhs`: the
/// merged data and the outcome, its error converted into the variant of the
/// same name.
pub uninterp spec fn merged_sp3(lhs: SP3, rhs: SP3) -> (SP3, Result<(), MergeError>);

/// Calls `Merge::merge_mut` of `SP3` (gnss-qc-traits 0.4), whose result is
/// named `merged_sp3`. The source checks agency, timescale and coordinates
/// system of both headers before it changes anything, so a refused merge
/// leaves `lhs` as it was; an accepted one keeps every entry of `lhs` with its
/// clock offset and adds or completes it with the entries of `rhs`.
#[verifier::external_body]
pub(crate) fn sp3_merge_mut(lhs: &mut SP3, rhs: &SP3) -> (r: Result<(), MergeError>)
    ensures
        (*final(lhs), r) == merged_sp3(*old(lhs), *rhs),
        r is Err ==> *final(lhs) == *old(lhs),
        r is Ok ==> sp3_clock_flags(*final(lhs)).contains(true) == (sp3_clock_flags(
            *old(lhs),
        ).contains(true) || sp3_clock_flags(*rhs).contains(true)),
{
    match Sp3Merge::merge_mut(lhs, rhs) {
        Ok(()) => Ok(()),
        Err(e) => Err(merge_error_of(e)),
    }
}

/// Calls `Merge::merge_mut` of `Rinex` (gnss-qc-traits 0.5). The merged
/// data depend on the time of the call (the merge stamps the header with the
/// current date), so they are not named. The source refuses files of other
/// kinds before it changes anything, and never changes the kind of `lhs`.
/// An accepted merge always passes through `Header::merge_mut`, which adds a
/// merge comment to the header comments, so the header of `lhs` changes. An
/// accepted merge of navigation records adds the entries of `rhs` whose key
/// `lhs` does not hold (rinex `qc/merge/nav.rs`).
#[verifier::external_body]
pub(crate) fn rinex_merge_mut(lhs: &mut Rinex, rhs: &Rinex) -> (r: Result<(), MergeError>)
    ensures
        rinex_kind(*final(lhs)) == rinex_kind(*old(lhs)),
        rinex_kind(*old(lhs)) != rinex_kind(*rhs) ==> (r matches Err(e) && e == MergeError::FileTypeMismatch),
        rinex_kind(*old(lhs)) != rinex_kind(*rhs) ==> *final(lhs) == *old(lhs),
        r is Ok ==> file_parts(*final(lhs)).0 != file_parts(*old(lhs)).0,
        r is Ok && holds_nav_record(*old(lhs)) ==> holds_nav_record(*final(lhs)) && merged_entries(
            nav_record(*old(lhs)),
            nav_record(*rhs),
            nav_record(*final(lhs)),
        ),
{
    match RinexMerge::merge_mut(lhs, rhs) {
        Ok(()) => Ok(()),
        Err(e) => Err(rinex_merge_error_of(e)),
    }
}

/// What `Timeshift::timeshift_mut` of `SP3` makes of `s` in `timescale`.
pub uninterp spec fn timeshifted_sp3(s: SP3, timescale: TimeScale) -> SP3;

/// Calls `Timeshift::timeshift_mut` of `SP3`, whose result is named
/// `timeshifted_sp3`.
#[verifier::external_body]
pub(crate) fn sp3_timeshift_mut(s: &mut SP3, timescale: TimeScale)
    ensures
        *final(s) == timeshifted_sp3(*old(s), timescale),
{
    Sp3Timeshift::timeshift_mut(s, timescale)
}

/// What `Timeshift::timeshift_mut` of `Rinex` makes of `r`: the file with its
/// epochs rewritten in `timescale`.
pub uninterp spec fn timeshifted_rinex(r: Rinex, timescale: TimeScale) -> Rinex;

/// Calls `Timeshift::timeshift_mut` of `Rinex`, whose result is named
/// `timeshifted_rinex`. Every epoch it rewrites is left in `timescale`
/// (rounded to the microsecond in the header), where `Epoch::to_time_scale`
/// returns it as it is: shifting the result again gives it back.
#[verifier::external_body]
pub(crate) fn rinex_timeshift_mut(r: &mut Rinex, timescale: TimeScale)
    ensures
        *final(r) == timeshifted_rinex(*old(r), timescale),
        timeshifted_rinex(*final(r), timescale) == *final(r),
{
    RinexTimeshift::timeshift_mut(r, timescale)
}

/// Whether the record of a RINEX is a navigation record.
pub uninterp spec fn holds_nav_record(r: Rinex) -> bool;

/// Calls `BTreeMap::retain` on the navigation record of `r`, if it has one,
/// with a predicate that asks `filter` about each frame: the entries the
/// filter keeps remain, unchanged and in their order, the other ones are
/// removed; the header, comments and production attributes are untouched,
/// and a RINEX without navigation record is left as it is. A RINEX is made
/// of its header, comments, record and production attributes, so two
/// RINEX with navigation records are equal when these parts are. The
/// predicate reads the health of the ephemerides the filter needs it of,
/// which `requires` asks to be readable (see [health_kinds]).
#[verifier::external_body]
pub(crate) fn retain_nav_frames(r: &mut Rinex, filter: &NavFilter)
    requires
        record_readable(nav_record(*old(r)), *filter),
    ensures
        nav_record(*final(r)) == nav_record(*old(r)).filter(
            |e: (NavKey, NavFrame)| filter.keeps_spec(frame_summary(e.0, e.1)),
        ),
        file_parts(*final(r)) == file_parts(*old(r)),
        holds_nav_record(*final(r)) == holds_nav_record(*old(r)),
        !holds_nav_record(*old(r)) ==> *final(r) == *old(r),
        nav_record(*final(r)) == nav_record(*old(r)) ==> *final(r) == *old(r),
        forall|x: Rinex|
            #![trigger nav_record(x)]
            holds_nav_record(x) && holds_nav_record(*final(r)) && nav_record(x) == nav_record(*final(r))
                && file_parts(x) == file_parts(*final(r)) ==> x == *final(r),
{
    if let Some(record) = r.record.as_mut_nav() {
        record.retain(|key, frame| keeps_nav_frame(filter, key, frame));
    }
}

/// The position of the constellation of `key.sv` in the declaration of
/// `gnss_rs` constellations.
pub uninterp spec fn key_constellation(key: NavKey) -> u8;

/// Reads the constellation of `key.sv`, named `key_constellation`.
#[verifier::external_body]
pub(crate) fn nav_key_constellation(key: &NavKey) -> (i: u8)
    ensures
        i == key_constellation(*key),
        i < 21,
{
    key.sv.constellation as u8
}

/// What `Ephemeris::sv_healthy` says of the ephemeris of a frame.
pub uninterp spec fn sv_healthy_of(frame: NavFrame) -> bool;

/// Calls `Ephemeris::sv_healthy` on the ephemeris of `frame`, named
/// `sv_healthy_of`. It panics on a GLONASS health item followed by a
/// `health2` item of another kind, which `requires` leaves out.
#[verifier::external_body]
pub(crate) fn frame_sv_healthy(frame: &NavFrame) -> (b: bool)
    requires
        health_kinds(*frame) is Some,
        health_readable(health_kinds(*frame)),
    ensures
        b == sv_healthy_of(*frame),
{
    frame.as_ephemeris().unwrap().sv_healthy()
}

/// What `Ephemeris::sv_in_testing` says of the ephemeris of a frame.
pub uninterp spec fn sv_testing_of(frame: NavFrame) -> bool;

/// Calls `Ephemeris::sv_in_testing` on the ephemeris of `frame`, named
/// `sv_testing_of`.
#[verifier::external_body]
pub(crate) fn frame_sv_testing(frame: &NavFrame) -> (b: bool)
    requires
        health_kinds(*frame) is Some,
    ensures
        b == sv_testing_of(*frame),
{
    frame.as_ephemeris().unwrap().sv_in_testing()
}

/// The kinds of the health items of a frame: none when it is no ephemeris;
/// else whether its `health` item is a GLONASS health flag, and, when it has
/// a `health2` item, whether that one is a GLONASS health2 flag.
pub uninterp spec fn health_kinds(frame: NavFrame) -> Option<(bool, Option<bool>)>;

/// Reads the kinds of the health items of `frame` (`NavFrame::as_ephemeris`,
/// `OrbitItem::as_glonass_health_flag`, `OrbitItem::as_glonass_health2_flag`),
/// named `health_kinds`.
#[verifier::external_body]
pub(crate) fn frame_health_kinds(frame: &NavFrame) -> (k: Option<(bool, Option<bool>)>)
    ensures
        k == health_kinds(*frame),
{
    let eph = frame.as_ephemeris()?;
    let glonass = match eph.orbits.get("health") {
        Some(item) => item.as_glonass_health_flag().is_some(),
        None => false,
    };
    let second = match eph.orbits.get("health2") {
        Some(item) => Some(item.as_glonass_health2_flag().is_some()),
        None => None,
    };
    Some((glonass, second))
}

/// The number of entries of the navigation record of `r` (`BTreeMap::len`).
#[verifier::external_body]
pub(crate) fn nav_record_len(r: &Rinex) -> (n: usize)
    ensures
        n == nav_record(*r).len(),
{
    match r.record.as_nav() {
        Some(record) => record.len(),
        None => 0,
    }
}

/// Entry `i` of the navigation record of `r` (`BTreeMap::iter`, then
/// `Iterator::nth`).
#[verifier::external_body]
pub(crate) fn nav_entry_at(r: &Rinex, i: usize) -> (e: (&NavKey, &NavFrame))
    requires
        i < nav_record(*r).len(),
    ensures
        (*e.0, *e.1) == nav_record(*r)[i as int],
{
    r.record.as_nav().unwrap().iter().nth(i).unwrap()
}

/// `gnss_qc_traits::MergeError` (version 0.4), the merge error of SP3 files.
#[verifier::external_type_specification]
#[verifier::external_body]
pub struct ExSpMergeError(SpMergeError);

/// `gnss_qc_traits::MergeError` (version 0.5), the merge error of RINEX files.
#[verifier::external_type_specification]
#[verifier::external_body]
pub struct ExRinexMergeError(RinexMergeError);

/// `rinex::prelude::RinexType`, the kind of a RINEX file.
#[verifier::external_type_specification]
#[verifier::external_body]
pub struct ExOutsideRinexType(OutsideRinexType);

/// The kind of RINEX file the header of `r` declares (`Header::rinex_type`),
/// as the variant of the same name.
pub uninterp spec fn rinex_kind(r: Rinex) -> RinexType;

/// Reads `Header::rinex_type` of `r`, converted into the variant of the same
/// name: the result is named `rinex_kind`.
#[verifier::external_body]
pub(crate) fn rinex_type_of(r: &Rinex) -> (t: RinexType)
    ensures
        t == rinex_kind(*r),
{
    match r.header.rinex_type {
        OutsideRinexType::ObservationData => RinexType::ObservationData,
        OutsideRinexType::NavigationData => RinexType::NavigationData,
        OutsideRinexType::MeteoData => RinexType::MeteoData,
        OutsideRinexType::ClockData => RinexType::ClockData,
        OutsideRinexType::AntennaData => RinexType::AntennaData,
    }
}

/// How many distinct carriers `Rinex::carrier_iter` yields for the
/// observations of `r`.
pub uninterp spec fn carrier_count(r: Rinex) -> usize;

/// Counts the carriers `Rinex::carrier_iter` yields: the count is named
/// `carrier_count`.
#[verifier::external_body]
pub(crate) fn observed_carrier_count(r: &Rinex) -> (n: usize)
    ensures
        n == carrier_count(*r),
{
    r.carrier_iter().count()
}

/// The first epoch of the record of `r`, as `Rinex::first_epoch` gives it.
pub uninterp spec fn first_epoch(r: Rinex) -> Option<Epoch>;

/// Calls `Rinex::first_epoch`, whose result is named `first_epoch`.
#[verifier::external_body]
pub(crate) fn rinex_first_epoch(r: &Rinex) -> (t: Option<Epoch>)
    ensures
        t == first_epoch(*r),
{
    r.first_epoch()
}

/// What `Header::rx_orbit` gives for the header of `r`: the receiver
/// position it declares, as an [Orbit] at `t` in `frame`; none when it
/// declares no position.
pub uninterp spec fn rx_orbit(r: Rinex, t: Epoch, frame: Frame) -> Option<Orbit>;

/// Calls `Header::rx_orbit` on the header of `r`, whose result is named `rx_orbit`.
#[verifier::external_body]
pub(crate) fn header_rx_orbit(r: &Rinex, t: Epoch, frame: Frame) -> (o: Option<Orbit>)
    ensures
        o == rx_orbit(*r, t, frame),
{
    r.header.rx_orbit(t, frame)
}

/// `gnss_qc_traits::TimeCorrectionsDB` (version 0.5), a list of time corrections.
#[verifier::external_type_specification]
#[verifier::external_body]
pub struct ExTimeCorrectionsDB(TimeCorrectionsDB);

/// `gnss_qc_traits::TimeCorrectionError` (version 0.5).
#[verifier::external_type_specification]
#[verifier::external_body]
pub struct ExTimeCorrectionError(TimeCorrectionError);

/// `gnss_qc_traits::TimeCorrection` (version 0.5), one time correction.
#[verifier::external_type_specification]
#[verifier::external_body]
pub struct ExTimeCorrection(TimeCorrection);

/// The corrections of a time corrections database, in their order.
pub uninterp spec fn time_corrections(db: TimeCorrectionsDB) -> Seq<TimeCorrection>;

/// Whether a time corrections database respects the validity periods of
/// its corrections strictly.
pub uninterp spec fn strict_validity(db: TimeCorrectionsDB) -> bool;

/// Calls `TimeCorrectionsDB::default`, which holds no correction and does
/// not respect validity periods strictly.
#[verifier::external_body]
pub(crate) fn empty_time_corrections() -> (db: TimeCorrectionsDB)
    ensures
        time_corrections(db) == Seq::<TimeCorrection>::empty(),
        !strict_validity(db),
{
    TimeCorrectionsDB::default()
}

/// Calls `Merge::merge_mut` of `TimeCorrectionsDB`, which appends the
/// corrections of `rhs` to those of `db`, keeps the validity mode of `db`
/// and never fails.
#[verifier::external_body]
pub(crate) fn append_time_corrections(db: &mut TimeCorrectionsDB, rhs: &TimeCorrectionsDB)
    ensures
        time_corrections(*final(db)) == time_corrections(*old(db)) + time_corrections(*rhs),
        strict_validity(*final(db)) == strict_validity(*old(db)),
{
    RinexMerge::merge_mut(db, rhs).unwrap()
}

/// The corrections that `Rinex::time_corrections_database` collects from a
/// file: one per time offset its navigation header declares, or nothing for
/// a file that is not a navigation file or has no navigation header.
pub uninterp spec fn header_time_corrections(r: Rinex) -> Option<Seq<TimeCorrection>>;

/// Calls `Rinex::time_corrections_database`, which builds its result from the
/// file alone, into a database that does not respect validity periods
/// strictly: its corrections are named `header_time_corrections`.
#[verifier::external_body]
pub(crate) fn rinex_time_corrections(r: &Rinex) -> (db: Option<TimeCorrectionsDB>)
    ensures
        header_time_corrections(*r) == match db {
            Some(d) => Some(time_corrections(d)),
            None => None,
        },
        db matches Some(d) ==> !strict_validity(d),
{
    r.time_corrections_database()
}

/// What `Timeshift::precise_correction_mut` of `Rinex` makes of `r`: the file
/// with its epochs corrected into `timescale` with the corrections of `db`
/// (partly corrected where one is missing), and the outcome.
pub uninterp spec fn precisely_corrected(r: Rinex, db: TimeCorrectionsDB, timescale: TimeScale) -> (
    Rinex,
    Result<(), TimeCorrectionError>,
);

/// Calls `Timeshift::precise_correction_mut` of `Rinex`, whose result is
/// named `precisely_corrected`.
#[verifier::external_body]
pub(crate) fn rinex_precise_correction_mut(
    r: &mut Rinex,
    db: &TimeCorrectionsDB,
    timescale: TimeScale,
) -> (res: Result<(), TimeCorrectionError>)
    ensures
        (*final(r), res) == precisely_corrected(*old(r), *db, timescale),
{
    RinexTimeshift::precise_correction_mut(r, db, timescale)
}

/// Converts a merge error of SP3 files into the variant of the same name.
#[verifier::external_body]
fn merge_error_of(e: SpMergeError) -> (r: MergeError) {
    match e {
        SpMergeError::MergeNotSupported => MergeError::MergeNotSupported,
        SpMergeError::FileTypeMismatch => MergeError::FileTypeMismatch,
        SpMergeError::TimescaleMismatch => MergeError::TimescaleMismatch,
        SpMergeError::ReferenceFrameMismatch => MergeError::ReferenceFrameMismatch,
        SpMergeError::DataProviderMismatch => MergeError::DataProviderMismatch,
        SpMergeError::DimensionMismatch => MergeError::DimensionMismatch,
        SpMergeError::Other => MergeError::Other,
    }
}

/// Converts a merge error of RINEX files into the variant of the same name.
#[verifier::external_body]
fn rinex_merge_error_of(e: RinexMergeError) -> (r: MergeError) {
    match e {
        RinexMergeError::MergeNotSupported => MergeError::MergeNotSupported,
        RinexMergeError::FileTypeMismatch => MergeError::FileTypeMismatch,
        RinexMergeError::TimescaleMismatch => MergeError::TimescaleMismatch,
        RinexMergeError::ReferenceFrameMismatch => MergeError::ReferenceFrameMismatch,
        RinexMergeError::DataProviderMismatch => MergeError::DataProviderMismatch,
        RinexMergeError::DimensionMismatch => MergeError::DimensionMismatch,
        RinexMergeError::Other => MergeError::Other,
    }
}

/// `gnss_rs::prelude::SV`, a satellite.
#[verifier::external_type_specification]
#[verifier::external_body]
pub struct ExSV(SV);

/// The position of `c` in the declaration of `gnss_rs` constellations.
pub uninterp spec fn gnss_index(c: GnssConstellation) -> u8;

/// Reads the position of `c` in the declaration of `gnss_rs` constellations
/// (21 of them), the result named `gnss_index`.
#[verifier::external_body]
pub(crate) fn constellation_index(c: GnssConstellation) -> (i: u8)
    ensures
        i == gnss_index(c),
        i < 21,
{
    c as u8
}

/// What a satellite report shows of `sv`: its PRN, the position of its
/// constellation in the declaration of `gnss_rs` constellations, and its
/// name as `Display` of `SV` writes it.
pub uninterp spec fn sv_parts_of(sv: SV) -> (u8, u8, Seq<char>);

/// Reads the PRN and constellation of `sv` and formats it with `to_string`:
/// the result is named `sv_parts_of`.
#[verifier::external_body]
pub(crate) fn sv_parts(sv: SV) -> (r: (u8, u8, String))
    ensures
        (r.0, r.1, r.2@) == sv_parts_of(sv),
        r.1 < 21,
{
    (sv.prn, sv.constellation as u8, sv.to_string())
}

/// The constellations `SP3::constellations_iter` yields for `s`, each once,
/// in the order of the satellites the header lists.
pub uninterp spec fn sp3_constellation_list(s: SP3) -> Seq<GnssConstellation>;

/// Collects `SP3::constellations_iter`, named `sp3_constellation_list`.
#[verifier::external_body]
pub(crate) fn sp3_constellations(s: &SP3) -> (v: Vec<GnssConstellation>)
    ensures
        v@ == sp3_constellation_list(*s),
{
    s.constellations_iter().collect()
}

/// The satellites `SP3::satellites_iter` yields for `s`: those the header lists.
pub uninterp spec fn sp3_satellite_list(s: SP3) -> Seq<SV>;

/// Collects `SP3::satellites_iter`, named `sp3_satellite_list`.
#[verifier::external_body]
pub(crate) fn sp3_satellites(s: &SP3) -> (v: Vec<SV>)
    ensures
        v@ == sp3_satellite_list(*s),
{
    s.satellites_iter().collect()
}

/// What `Preprocessing::filter` of `SP3` keeps of `s` under the mask that
/// equals constellation `c`: the part of the file about that constellation.
pub uninterp spec fn constellation_focus(s: SP3, c: GnssConstellation) -> SP3;

/// Filters `s` with `Filter::mask(MaskOperand::Equals,
/// FilterItem::ConstellationItem(vec![c]))`: the result is named
/// `constellation_focus`.
#[verifier::external_body]
pub(crate) fn sp3_focus(s: &SP3, c: GnssConstellation) -> (f: SP3)
    ensures
        f == constellation_focus(*s, c),
{
    let filter = Filter::mask(MaskOperand::Equals, FilterItem::ConstellationItem(vec![c]));
    Sp3Preprocessing::filter(s, &filter)
}

/// What `SP3::has_satellite_velocity` tells of `s`: whether its header
/// declares velocity data.
pub uninterp spec fn sp3_velocity(s: SP3) -> bool;

/// Calls `SP3::has_satellite_velocity`, named `sp3_velocity`.
#[verifier::external_body]
pub(crate) fn sp3_has_velocity(s: &SP3) -> (b: bool)
    ensures
        b == sp3_velocity(*s),
{
    s.has_satellite_velocity()
}

/// What `SP3::has_satellite_clock_drift` tells of `s`: whether one of its
/// entries carries a clock drift.
pub uninterp spec fn sp3_clock_drift(s: SP3) -> bool;

/// Calls `SP3::has_satellite_clock_drift`, named `sp3_clock_drift`.
#[verifier::external_body]
pub(crate) fn sp3_has_clock_drift(s: &SP3) -> (b: bool)
    ensures
        b == sp3_clock_drift(*s),
{
    s.has_satellite_clock_drift()
}

/// The texts an SP3 report shows of the header of `s`, in this order: the
/// agency and the coordinates system as written, then the file revision, the
/// orbit type, the timescale and the constellation as their `Display`
/// writes them.
pub uninterp spec fn sp3_header_texts_of(s: SP3) -> (Seq<char>, Seq<char>, Seq<char>, Seq<char>, Seq<char>, Seq<char>);

/// Reads and formats the header fields of `s` an SP3 report shows: the
/// result is named `sp3_header_texts_of`.
#[verifier::external_body]
pub(crate) fn sp3_header_texts(s: &SP3) -> (t: (String, String, String, String, String, String))
    ensures
        (t.0@, t.1@, t.2@, t.3@, t.4@, t.5@) == sp3_header_texts_of(*s),
{
    let h = &s.header;
    (
        h.agency.clone(),
        h.coord_system.clone(),
        h.version.to_string(),
        h.orbit_type.to_string(),
        h.timescale.to_string(),
        h.constellation.to_string(),
    )
}

/// What `Rinex::parse` reads from `bytes`, with the production attributes
/// that `ProductionAttributes::from_str` finds in `file_name` (the default
/// ones where it finds none), as `Rinex::from_file` sets them.
pub uninterp spec fn rinex_parsed(bytes: Seq<u8>, file_name: Seq<char>) -> Result<Rinex, RinexParsingError>;

/// Parses a RINEX file held in `bytes`, named `file_name`: the result is
/// named `rinex_parsed`. `ProductionAttributes::from_str` slices past the end
/// of some file names, and may cut a non-ASCII one inside a character; such
/// names are left out by `requires` (see [production_name_readable]).
#[verifier::external_body]
pub(crate) fn parse_rinex(bytes: &[u8], file_name: &str) -> (r: Result<Rinex, RinexParsingError>)
    requires
        production_name_readable(file_name@),
    ensures
        r == rinex_parsed(bytes@, file_name@),
{
    let mut rinex = Rinex::parse(&mut BufReader::new(bytes))?;
    rinex.production = match ProductionAttributes::from_str(file_name) {
        Ok(attributes) => attributes,
        Err(_) => ProductionAttributes::default(),
    };
    Ok(rinex)
}

/// What `Rinex::parse` reads from the Gzip stream `bytes` decoded by
/// `flate2::read::GzDecoder`, with the production attributes of
/// `file_name`, as `Rinex::from_gzip_file` sets them.
pub uninterp spec fn gzip_rinex_parsed(bytes: Seq<u8>, file_name: Seq<char>) -> Result<Rinex, RinexParsingError>;

/// Parses a Gzip compressed RINEX file held in `bytes`, named `file_name`:
/// the result is named `gzip_rinex_parsed`. File names are left out as for
/// [parse_rinex].
#[verifier::external_body]
pub(crate) fn parse_gzip_rinex(bytes: &[u8], file_name: &str) -> (r: Result<Rinex, RinexParsingError>)
    requires
        production_name_readable(file_name@),
    ensures
        r == gzip_rinex_parsed(bytes@, file_name@),
{
    let mut rinex = Rinex::parse(&mut BufReader::new(GzDecoder::new(bytes)))?;
    rinex.production = match ProductionAttributes::from_str(file_name) {
        Ok(attributes) => attributes,
        Err(_) => ProductionAttributes::default(),
    };
    Ok(rinex)
}

} // verus!
