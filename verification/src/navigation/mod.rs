//! Navigation filters: which broadcast ephemerides a context keeps.
use vstd::prelude::*;

use rinex::navigation::{NavFrame, NavKey};

use crate::external::{
    frame_health_kinds, frame_sv_healthy, frame_sv_testing, health_kinds, key_constellation,
    nav_key_constellation, sv_healthy_of, sv_testing_of,
};

mod constellation;
mod names;

pub use constellation::{constellation_at, is_sbas_spec, Constellation};
pub use names::constellation_name;

verus! {

/// The health criterion of a [NavFilter].
#[derive(Debug, Clone, Copy, PartialEq, Eq, Structural)]
pub enum NavFilterType {
    /// Keep ephemerides that declare their satellite healthy.
    Healthy,
    /// Keep ephemerides that declare their satellite unhealthy.
    Unhealthy,
    /// Keep ephemerides that declare their satellite in testing mode.
    Testing,
}

/// A filter on broadcast ephemerides: a health criterion, applied to the
/// listed constellations (to every constellation when the list is empty).
#[derive(Debug, Clone)]
pub struct NavFilter {
    /// Health criterion.
    pub filter: NavFilterType,
    /// Constellations the criterion applies to; none means all of them.
    pub constellations: Vec<Constellation>,
}

/// What a broadcast ephemeris declares of its satellite.
#[derive(Debug, Clone, Copy, PartialEq, Eq, Structural)]
pub struct EphemerisHealth {
    /// The satellite is suitable for navigation.
    pub healthy: bool,
    /// The satellite is in testing mode.
    pub testing: bool,
}

/// What a navigation filter reads of a navigation frame: the constellation of
/// the satellite that broadcast it and, for an ephemeris frame, its health.
#[derive(Debug, Clone, Copy, PartialEq, Eq, Structural)]
pub struct NavFrameSummary {
    /// Constellation of the broadcasting satellite.
    pub constellation: Constellation,
    /// Health declared by an ephemeris frame; none for other frames.
    pub ephemeris: Option<EphemerisHealth>,
}

/// Whether an ephemeris meets the health criterion.
pub open spec fn meets_criterion(t: NavFilterType, h: EphemerisHealth) -> bool {
    match t {
        NavFilterType::Healthy => h.healthy,
        NavFilterType::Unhealthy => !h.healthy,
        NavFilterType::Testing => h.testing,
    }
}

impl NavFilter {
    /// Whether the criterion applies to frames of constellation `c`: when no
    /// constellation is listed, when `c` is listed, and when `c` is an
    /// augmentation service while the generic SBAS entry is listed.
    pub open spec fn targets(&self, c: Constellation) -> bool {
        ||| self.constellations@.len() == 0
        ||| self.constellations@.contains(c)
        ||| (is_sbas_spec(c) && self.constellations@.contains(Constellation::SBAS))
    }

    /// Whether the filter keeps a frame: frames other than ephemerides and
    /// frames of constellations the criterion does not apply to are kept;
    /// the other ones are kept when they meet the criterion.
    pub open spec fn keeps_spec(&self, f: NavFrameSummary) -> bool {
        match f.ephemeris {
            None => true,
            Some(h) => !self.targets(f.constellation) || meets_criterion(self.filter, h),
        }
    }

    /// Whether `c` is one of the listed constellations.
    pub fn lists(&self, c: Constellation) -> (b: bool)
        ensures
            b == self.constellations@.contains(c),
    {
        let mut i: usize = 0;
        while i < self.constellations.len()
            invariant
                i <= self.constellations@.len(),
                forall|j: int| 0 <= j < i ==> self.constellations@[j] != c,
            decreases self.constellations@.len() - i,
        {
            if self.constellations[i] == c {
                assert(self.constellations@[i as int] == c);
                return true;
            }
            i = i + 1;
        }
        false
    }

    /// Whether this filter keeps the frame `f`; see [NavFilter::keeps_spec].
    pub fn keeps(&self, f: &NavFrameSummary) -> (b: bool)
        ensures
            b == self.keeps_spec(*f),
    {
        match f.ephemeris {
            None => true,
            Some(eph) => {
                let any_constellation = self.constellations.len() == 0;
                let broad_sbas = self.lists(Constellation::SBAS);
                let meets = match self.filter {
                    NavFilterType::Healthy => eph.healthy,
                    NavFilterType::Testing => eph.testing,
                    NavFilterType::Unhealthy => !eph.healthy,
                };
                if f.constellation.is_sbas() && broad_sbas {
                    meets
                } else if any_constellation {
                    meets
                } else if self.lists(f.constellation) {
                    meets
                } else {
                    true
                }
            },
        }
    }
}

/// What a navigation filter reads of the frame `frame` recorded under `key`:
/// its constellation and, for an ephemeris, `Ephemeris::sv_healthy` and
/// `Ephemeris::sv_in_testing`.
pub open spec fn frame_summary(key: NavKey, frame: NavFrame) -> NavFrameSummary {
    NavFrameSummary {
        constellation: constellation_at(key_constellation(key) as int),
        ephemeris: if health_kinds(frame) is Some {
            Some(EphemerisHealth { healthy: sv_healthy_of(frame), testing: sv_testing_of(frame) })
        } else {
            None
        },
    }
}

/// Whether the health of a frame with health items of kinds `kinds` can be
/// read: unless its `health` item is a GLONASS flag followed by a `health2`
/// item of another kind.
pub open spec fn health_readable(kinds: Option<(bool, Option<bool>)>) -> bool {
    match kinds {
        None => true,
        Some((glonass, second)) => !glonass || second != Some(false),
    }
}

/// Whether `filter` reads the health of the frame `frame` recorded under
/// `key`: an ephemeris of a constellation it targets, under the Healthy or
/// Unhealthy criterion.
pub open spec fn needs_health(filter: NavFilter, key: NavKey, frame: NavFrame) -> bool {
    &&& health_kinds(frame) is Some
    &&& filter.filter != NavFilterType::Testing
    &&& filter.targets(constellation_at(key_constellation(key) as int))
}

/// Whether `filter` can read the health of every frame of a navigation
/// record it needs it of.
pub open spec fn record_readable(record: Seq<(NavKey, NavFrame)>, filter: NavFilter) -> bool {
    forall|i: int|
        0 <= i < record.len() && needs_health(filter, record[i].0, record[i].1) ==> health_readable(
            health_kinds(#[trigger] record[i].1),
        )
}

impl NavFilter {
    /// Whether the criterion applies to frames of constellation `c`; see
    /// [NavFilter::targets].
    pub fn targets_constellation(&self, c: Constellation) -> (b: bool)
        ensures
            b == self.targets(c),
    {
        self.constellations.len() == 0 || self.lists(c) || (c.is_sbas() && self.lists(
            Constellation::SBAS,
        ))
    }
}

/// Whether navigation record `m` is `a` merged with `b`: it holds the
/// entries of `a`, and those of `b` whose key `a` does not hold, and no other.
pub open spec fn merged_entries(
    a: Seq<(NavKey, NavFrame)>,
    b: Seq<(NavKey, NavFrame)>,
    m: Seq<(NavKey, NavFrame)>,
) -> bool {
    forall|e: (NavKey, NavFrame)|
        #[trigger] m.contains(e) <==> (a.contains(e) || (b.contains(e) && !exists|i: int|
            0 <= i < a.len() && a[i].0 == e.0))
}

/// Whether `filter` keeps the navigation frame `frame` recorded under `key`:
/// what [NavFilter::keeps_spec] says of its summary. The health is read only
/// of ephemerides of targeted constellations under the Healthy and
/// Unhealthy criteria.
pub(crate) fn keeps_nav_frame(filter: &NavFilter, key: &NavKey, frame: &NavFrame) -> (b: bool)
    requires
        needs_health(*filter, *key, *frame) ==> health_readable(health_kinds(*frame)),
    ensures
        b == filter.keeps_spec(frame_summary(*key, *frame)),
{
    if frame_health_kinds(frame).is_none() {
        return true;
    }
    let c = Constellation::from_index(nav_key_constellation(key));
    if !filter.targets_constellation(c) {
        return true;
    }
    match filter.filter {
        NavFilterType::Healthy => frame_sv_healthy(frame),
        NavFilterType::Unhealthy => !frame_sv_healthy(frame),
        NavFilterType::Testing => frame_sv_testing(frame),
    }
}

/// Frames other than ephemerides pass every filter.
pub proof fn lemma_non_ephemeris_kept(filter: NavFilter, f: NavFrameSummary)
    requires
        f.ephemeris is None,
    ensures
        filter.keeps_spec(f),
{
}

/// Ephemerides of constellations a filter does not apply to pass it.
pub proof fn lemma_untargeted_kept(filter: NavFilter, f: NavFrameSummary)
    requires
        !filter.targets(f.constellation),
    ensures
        filter.keeps_spec(f),
{
}

/// The healthy and the unhealthy filters over the same constellations split the
/// targeted ephemerides: each of them passes exactly one of the two filters.
pub proof fn lemma_healthy_unhealthy_split(cs: Vec<Constellation>, f: NavFrameSummary)
    requires
        f.ephemeris is Some,
        (NavFilter { filter: NavFilterType::Healthy, constellations: cs }).targets(
            f.constellation,
        ),
    ensures
        (NavFilter { filter: NavFilterType::Healthy, constellations: cs }).keeps_spec(f) != (
        NavFilter { filter: NavFilterType::Unhealthy, constellations: cs }).keeps_spec(f),
{
}

/// An ephemeris of a constellation the filter lists, wherever in the list it
/// stands, is kept exactly when it meets the criterion: a healthy satellite
/// under Healthy, an unhealthy one under Unhealthy, one in testing under
/// Testing.
pub proof fn lemma_listed_constellation_filtered(filter: NavFilter, i: int, h: EphemerisHealth)
    requires
        0 <= i < filter.constellations@.len(),
    ensures
        filter.keeps_spec(NavFrameSummary { constellation: filter.constellations@[i], ephemeris: Some(h) })
            == match filter.filter {
            NavFilterType::Healthy => h.healthy,
            NavFilterType::Unhealthy => !h.healthy,
            NavFilterType::Testing => h.testing,
        },
{
    assert(filter.constellations@.contains(filter.constellations@[i]));
}

/// When the generic SBAS entry is listed, the criterion applies to every
/// augmentation service, listed or not.
pub proof fn lemma_sbas_entry_filters_augmentations(
    filter: NavFilter,
    i: int,
    c: Constellation,
    h: EphemerisHealth,
)
    requires
        0 <= i < filter.constellations@.len(),
        filter.constellations@[i] == Constellation::SBAS,
        is_sbas_spec(c),
    ensures
        filter.keeps_spec(NavFrameSummary { constellation: c, ephemeris: Some(h) }) == match filter.filter {
            NavFilterType::Healthy => h.healthy,
            NavFilterType::Unhealthy => !h.healthy,
            NavFilterType::Testing => h.testing,
        },
{
    assert(filter.constellations@.contains(filter.constellations@[i]));
}

/// Without a listed constellation, the criterion applies to every ephemeris.
pub proof fn lemma_empty_list_filters_all(filter: NavFilter, c: Constellation, h: EphemerisHealth)
    requires
        filter.constellations@.len() == 0,
    ensures
        filter.keeps_spec(NavFrameSummary { constellation: c, ephemeris: Some(h) }) == match filter.filter {
            NavFilterType::Healthy => h.healthy,
            NavFilterType::Unhealthy => !h.healthy,
            NavFilterType::Testing => h.testing,
        },
{
}

/// An ephemeris of a constellation the filter does not list is kept, unless
/// it is an augmentation service and the generic SBAS entry is listed, or
/// nothing is listed at all.
pub proof fn lemma_unlisted_constellation_kept(filter: NavFilter, c: Constellation, h: EphemerisHealth)
    requires
        filter.constellations@.len() > 0,
        forall|i: int| 0 <= i < filter.constellations@.len() ==> filter.constellations@[i] != c,
        !(is_sbas_spec(c) && exists|i: int|
            0 <= i < filter.constellations@.len() && filter.constellations@[i] == Constellation::SBAS),
    ensures
        filter.keeps_spec(NavFrameSummary { constellation: c, ephemeris: Some(h) }),
{
    if filter.constellations@.contains(Constellation::SBAS) && is_sbas_spec(c) {
        let i = choose|i: int| 0 <= i < filter.constellations@.len() && filter.constellations@[i] == Constellation::SBAS;
        assert(false);
    }
}

/// Filtering a sequence twice with the same predicate keeps what filtering it once keeps.
pub proof fn lemma_filter_idempotent<A>(s: Seq<A>, p: spec_fn(A) -> bool)
    ensures
        s.filter(p).filter(p) == s.filter(p),
    decreases s.len(),
{
    reveal(Seq::filter);
    if s.len() > 0 {
        lemma_filter_idempotent(s.drop_last(), p);
        if p(s.last()) {
            let sf = s.filter(p);
            assert(sf == s.drop_last().filter(p).push(s.last()));
            assert(sf.drop_last() == s.drop_last().filter(p));
            assert(sf.last() == s.last());
        } else {
            assert(s.filter(p) == s.drop_last().filter(p));
        }
    }
}

/// Filtering a sequence with one predicate, then another, keeps what
/// filtering it in the other order keeps.
pub proof fn lemma_filter_commute<A>(s: Seq<A>, p: spec_fn(A) -> bool, q: spec_fn(A) -> bool)
    ensures
        s.filter(p).filter(q) == s.filter(q).filter(p),
    decreases s.len(),
{
    reveal(Seq::filter);
    if s.len() > 0 {
        let init = s.drop_last();
        let x = s.last();
        lemma_filter_commute(init, p, q);
        assert(s.filter(p) == if p(x) { init.filter(p).push(x) } else { init.filter(p) });
        assert(s.filter(q) == if q(x) { init.filter(q).push(x) } else { init.filter(q) });
        if p(x) {
            let sp = init.filter(p).push(x);
            assert(sp.drop_last() == init.filter(p));
            assert(sp.last() == x);
        }
        if q(x) {
            let sq = init.filter(q).push(x);
            assert(sq.drop_last() == init.filter(q));
            assert(sq.last() == x);
        }
    }
}

/// An element is in a filtered sequence exactly when it is in the sequence
/// and meets the predicate.
pub proof fn lemma_filter_contains_iff<A>(s: Seq<A>, p: spec_fn(A) -> bool, e: A)
    ensures
        s.filter(p).contains(e) <==> (s.contains(e) && p(e)),
{
    broadcast use vstd::seq_lib::group_filter_ensures;

    if s.filter(p).contains(e) {
        s.lemma_filter_contains_rev(p, e);
        let i = choose|i: int| 0 <= i < s.filter(p).len() && s.filter(p)[i] == e;
        assert(p(s.filter(p)[i]));
    }
    if s.contains(e) && p(e) {
        let i = choose|i: int| 0 <= i < s.len() && s[i] == e;
        assert(s.filter(p).contains(s[i]));
    }
}

} // verus!
