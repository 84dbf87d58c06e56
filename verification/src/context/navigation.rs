//! Navigation related queries and filters of a context.
use vstd::prelude::*;

use anise::prelude::{Frame, Orbit};

use super::{lemma_view_at, lemma_view_update, BlobData, ProductState, QcContext};
use crate::external::{
    carrier_count, file_parts, first_epoch, frame_health_kinds, header_rx_orbit, health_kinds,
    holds_nav_record, nav_entry_at, nav_key_constellation, nav_record, nav_record_len,
    observed_carrier_count, retain_nav_frames, rinex_first_epoch, rx_orbit,
};
use crate::navigation::{
    frame_summary, health_readable, lemma_filter_commute, lemma_filter_contains_iff,
    lemma_filter_idempotent, needs_health, record_readable, Constellation, NavFilter,
    NavFilterType,
};
use rinex::prelude::Rinex;
use rinex::navigation::{NavFrame, NavKey};
use crate::product::ProductType;

verus! {

/// The entries of navigation record `record` that `filter` keeps, unchanged
/// and in their order.
pub open spec fn kept_entries(record: Seq<(NavKey, NavFrame)>, filter: NavFilter) -> Seq<(NavKey, NavFrame)> {
    record.filter(|e: (NavKey, NavFrame)| filter.keeps_spec(frame_summary(e.0, e.1)))
}

/// What applying `filter` does to a context view: the broadcast navigation
/// product keeps its files, its header, comments and production attributes,
/// and, in its navigation record, exactly the entries the filter keeps,
/// unchanged and in their order; every other product is untouched.
pub open spec fn nav_filtered(
    before: Map<ProductType, ProductState>,
    after: Map<ProductType, ProductState>,
    filter: NavFilter,
) -> bool {
    let p = ProductType::BroadcastNavigation;
    &&& after.dom() == before.dom()
    &&& after.remove(p) == before.remove(p)
    &&& before.contains_key(p) ==> {
        &&& after[p].paths == before[p].paths
        &&& match (before[p].data, after[p].data) {
            (BlobData::Rinex(a), BlobData::Rinex(b)) => {
                &&& nav_record(b) == kept_entries(nav_record(a), filter)
                &&& file_parts(b) == file_parts(a)
                &&& holds_nav_record(b) == holds_nav_record(a)
                &&& !holds_nav_record(a) ==> b == a
                &&& nav_record(b) == nav_record(a) ==> b == a
                &&& forall|x: Rinex|
                    #![trigger nav_record(x)]
                    holds_nav_record(x) && holds_nav_record(b) && nav_record(x) == nav_record(b)
                        && file_parts(x) == file_parts(b) ==> x == b
            },
            _ => false,
        }
    }
}

/// Whether `filter` can read the health of every ephemeris of the broadcast
/// navigation of a context view it needs it of (see [record_readable]).
pub open spec fn nav_readable(m: Map<ProductType, ProductState>, filter: NavFilter) -> bool {
    let p = ProductType::BroadcastNavigation;
    m.contains_key(p) ==> match m[p].data {
        BlobData::Rinex(n) => record_readable(nav_record(n), filter),
        BlobData::SP3(_) => true,
    }
}

/// The reference position of a context view in `frame`: the one the header of
/// its observation RINEX declares, at the first epoch of that file; none
/// without observations, without epochs or without a declared position.
pub open spec fn declared_rx_orbit(m: Map<ProductType, ProductState>, frame: Frame) -> Option<Orbit> {
    let p = ProductType::Observation;
    if m.contains_key(p) {
        match m[p].data {
            BlobData::Rinex(obs) => match first_epoch(obs) {
                Some(t) => rx_orbit(obs, t, frame),
                None => None,
            },
            BlobData::SP3(_) => None,
        }
    } else {
        None
    }
}

/// Whether a context view allows code based navigation: it holds
/// observations, over more than one distinct carrier.
pub open spec fn cpp_compatible(m: Map<ProductType, ProductState>) -> bool {
    let p = ProductType::Observation;
    &&& m.contains_key(p)
    &&& match m[p].data {
        BlobData::Rinex(obs) => carrier_count(obs) > 1,
        BlobData::SP3(_) => false,
    }
}

impl QcContext {
    /// Applies complex [NavFilter] to mutable [QcContext].
    /// The health of every ephemeris the filter reads must be readable (the
    /// outside reader panics otherwise); see [QcContext::nav_filter_checked]
    /// for a call that tests it first.
    pub fn nav_filter_mut(&mut self, filter: &NavFilter)
        requires
            old(self).wf(),
            nav_readable(old(self)@, *filter),
        ensures
            final(self).wf(),
            final(self).almanac_view() == old(self).almanac_view(),
            final(self).frame_view() == old(self).frame_view(),
            nav_filtered(old(self)@, final(self)@, *filter),
    {
        let p = ProductType::BroadcastNavigation;
        let ghost before = self.products@;
        match self.position(p) {
            Some(i) => {
                proof {
                    lemma_view_at(before, i as int);
                    self.lemma_data_fits(p);
                }
                let mut entry = self.products.remove(i);
                assert(entry == before[i as int]);
                match &mut entry.data {
                    BlobData::Rinex(brdc) => retain_nav_frames(brdc, filter),
                    BlobData::SP3(_) => {},
                }
                self.products.insert(i, entry);
                proof {
                    assert(self.products@ =~= before.update(i as int, entry));
                    lemma_view_update(before, i as int, entry);
                    assert(self@.remove(p) =~= old(self)@.remove(p));
                    assert(self@.dom() =~= old(self)@.dom());
                }
            },
            None => {
                assert(!old(self)@.contains_key(p));
            },
        }
    }

    /// Whether `filter` can read the health of every ephemeris of the
    /// broadcast navigation it needs it of.
    pub fn nav_health_readable(&self, filter: &NavFilter) -> (b: bool)
        requires
            self.wf(),
        ensures
            b == nav_readable(self@, *filter),
    {
        match self.brdc_navigation() {
            None => true,
            Some(brdc) => {
                let n = nav_record_len(brdc);
                let mut i: usize = 0;
                while i < n
                    invariant
                        self@.contains_key(ProductType::BroadcastNavigation),
                        self@[ProductType::BroadcastNavigation].data == BlobData::Rinex(*brdc),
                        n == nav_record(*brdc).len(),
                        i <= n,
                        forall|j: int|
                            0 <= j < i && needs_health(*filter, nav_record(*brdc)[j].0, nav_record(*brdc)[j].1)
                                ==> health_readable(health_kinds(#[trigger] nav_record(*brdc)[j].1)),
                    decreases n - i,
                {
                    let (key, frame) = nav_entry_at(brdc, i);
                    let kinds = frame_health_kinds(frame);
                    if let Some((glonass, second)) = kinds {
                        let c = Constellation::from_index(nav_key_constellation(key));
                        let needed = filter.filter != NavFilterType::Testing
                            && filter.targets_constellation(c);
                        if needed && glonass && second == Some(false) {
                            assert(!health_readable(health_kinds(nav_record(*brdc)[i as int].1)));
                            assert(!record_readable(nav_record(*brdc), *filter));
                            return false;
                        }
                    }
                    i = i + 1;
                }
                true
            },
        }
    }

    /// Applies `filter` when it can read the health of every ephemeris of the
    /// broadcast navigation it needs it of, and says whether it did; leaves
    /// the context as it is otherwise.
    pub fn nav_filter_checked(&mut self, filter: &NavFilter) -> (applied: bool)
        requires
            old(self).wf(),
        ensures
            final(self).wf(),
            applied == nav_readable(old(self)@, *filter),
            applied ==> final(self).almanac_view() == old(self).almanac_view() && final(self).frame_view()
                == old(self).frame_view() && nav_filtered(old(self)@, final(self)@, *filter),
            !applied ==> *final(self) == *old(self),
    {
        if self.nav_health_readable(filter) {
            self.nav_filter_mut(filter);
            true
        } else {
            false
        }
    }

    /// Returns a possible reference position, expressed as [Orbit], if defined in current [QcContext].
    /// NB: this is only picked from a possible observation RINEX, not any
    /// other possible source: the position its header declares, at its first epoch.
    pub fn reference_rx_orbit(&self) -> (r: Option<Orbit>)
        requires
            self.wf(),
        ensures
            r == declared_rx_orbit(self@, self.frame_view()),
    {
        let obs_rinex = self.observation()?;
        let t = rinex_first_epoch(obs_rinex)?;
        header_rx_orbit(obs_rinex, t, self.earth_cef)
    }

    /// Returns true if the observations allow code based navigation: they
    /// are present and hold more than one carrier.
    pub fn is_cpp_navigation_compatible(&self) -> (b: bool)
        requires
            self.wf(),
        ensures
            b == cpp_compatible(self@),
    {
        if let Some(obs) = self.observation() {
            observed_carrier_count(obs) > 1
        } else {
            false
        }
    }
}

/// Applying the same navigation filter twice leaves the context as applying
/// it once left it.
pub proof fn lemma_nav_filter_idempotent(
    v0: Map<ProductType, ProductState>,
    v1: Map<ProductType, ProductState>,
    v2: Map<ProductType, ProductState>,
    filter: NavFilter,
)
    requires
        nav_filtered(v0, v1, filter),
        nav_filtered(v1, v2, filter),
    ensures
        v2 == v1,
{
    let p = ProductType::BroadcastNavigation;
    if v0.contains_key(p) {
        match (v0[p].data, v1[p].data, v2[p].data) {
            (BlobData::Rinex(a0), BlobData::Rinex(a1), BlobData::Rinex(a2)) => {
                lemma_filter_idempotent(
                    nav_record(a0),
                    |e: (NavKey, NavFrame)| filter.keeps_spec(frame_summary(e.0, e.1)),
                );
                assert(a2 == a1);
                assert(v2[p] == v1[p]);
            },
            _ => {},
        }
        assert forall|q: ProductType| #[trigger] v2.contains_key(q) implies v2[q] == v1[q] by {
            if q != p {
                assert(v2.remove(p)[q] == v2[q]);
                assert(v1.remove(p)[q] == v1[q]);
            }
        }
        assert(v2 =~= v1);
    } else {
        assert forall|q: ProductType| #[trigger] v2.contains_key(q) implies v2[q] == v1[q] by {
            assert(v2.remove(p)[q] == v2[q]);
            assert(v1.remove(p)[q] == v1[q]);
        }
        assert(v2 =~= v1);
    }
}

/// Two navigation filters commute: applied in either order, they leave the
/// same context.
pub proof fn lemma_nav_filters_commute(
    v0: Map<ProductType, ProductState>,
    a1: Map<ProductType, ProductState>,
    a2: Map<ProductType, ProductState>,
    b1: Map<ProductType, ProductState>,
    b2: Map<ProductType, ProductState>,
    f: NavFilter,
    g: NavFilter,
)
    requires
        nav_filtered(v0, a1, f),
        nav_filtered(a1, a2, g),
        nav_filtered(v0, b1, g),
        nav_filtered(b1, b2, f),
    ensures
        a2 == b2,
{
    let p = ProductType::BroadcastNavigation;
    if v0.contains_key(p) {
        match (v0[p].data, a1[p].data, b1[p].data, a2[p].data, b2[p].data) {
            (
                BlobData::Rinex(x0),
                BlobData::Rinex(xa1),
                BlobData::Rinex(xb1),
                BlobData::Rinex(xa2),
                BlobData::Rinex(xb2),
            ) => {
                lemma_filter_commute(
                    nav_record(x0),
                    |e: (NavKey, NavFrame)| f.keeps_spec(frame_summary(e.0, e.1)),
                    |e: (NavKey, NavFrame)| g.keeps_spec(frame_summary(e.0, e.1)),
                );
                if holds_nav_record(x0) {
                    assert(nav_record(xb2) == nav_record(xa2));
                    assert(xb2 == xa2);
                } else {
                    assert(xa2 == x0);
                    assert(xb2 == x0);
                }
                assert(a2[p] == b2[p]);
            },
            _ => {},
        }
    }
    assert forall|q: ProductType| #[trigger] a2.contains_key(q) implies a2[q] == b2[q] by {
        if q != p {
            assert(a2.remove(p)[q] == a2[q]);
            assert(a1.remove(p)[q] == a1[q]);
            assert(b2.remove(p)[q] == b2[q]);
            assert(b1.remove(p)[q] == b1[q]);
            assert(v0.remove(p)[q] == v0[q]);
        }
    }
    assert forall|q: ProductType| a2.contains_key(q) <==> b2.contains_key(q) by {}
    assert(a2 =~= b2);
}

/// The healthy and the unhealthy filters over the same constellations split
/// the navigation record: every entry is kept by one of them at least, and
/// kept by both exactly when it is no ephemeris or its constellation is not
/// filtered; neither keeps an entry the record did not hold.
pub proof fn lemma_healthy_unhealthy_record_split(
    v0: Map<ProductType, ProductState>,
    h: Map<ProductType, ProductState>,
    u: Map<ProductType, ProductState>,
    cs: Vec<Constellation>,
)
    requires
        v0.contains_key(ProductType::BroadcastNavigation),
        v0[ProductType::BroadcastNavigation].data is Rinex,
        nav_filtered(v0, h, NavFilter { filter: NavFilterType::Healthy, constellations: cs }),
        nav_filtered(v0, u, NavFilter { filter: NavFilterType::Unhealthy, constellations: cs }),
    ensures
        ({
            let p = ProductType::BroadcastNavigation;
            let r0 = nav_record(v0[p].data->Rinex_0);
            let hr = nav_record(h[p].data->Rinex_0);
            let ur = nav_record(u[p].data->Rinex_0);
            let all = NavFilter { filter: NavFilterType::Healthy, constellations: cs };
            &&& forall|e: (NavKey, NavFrame)| #[trigger] r0.contains(e) ==> hr.contains(e) || ur.contains(e)
            &&& forall|e: (NavKey, NavFrame)| #[trigger] hr.contains(e) ==> r0.contains(e)
            &&& forall|e: (NavKey, NavFrame)| #[trigger] ur.contains(e) ==> r0.contains(e)
            &&& forall|e: (NavKey, NavFrame)|
                #[trigger] r0.contains(e) ==> ((hr.contains(e) && ur.contains(e)) <==> (frame_summary(
                    e.0,
                    e.1,
                ).ephemeris is None || !all.targets(frame_summary(e.0, e.1).constellation)))
        }),
{
    let p = ProductType::BroadcastNavigation;
    let r0 = nav_record(v0[p].data->Rinex_0);
    let fh = NavFilter { filter: NavFilterType::Healthy, constellations: cs };
    let fu = NavFilter { filter: NavFilterType::Unhealthy, constellations: cs };
    let ph = |e: (NavKey, NavFrame)| fh.keeps_spec(frame_summary(e.0, e.1));
    let pu = |e: (NavKey, NavFrame)| fu.keeps_spec(frame_summary(e.0, e.1));
    assert forall|e: (NavKey, NavFrame)| #[trigger] r0.filter(ph).contains(e) <==> r0.contains(e) && ph(e) by {
        lemma_filter_contains_iff(r0, ph, e);
    }
    assert forall|e: (NavKey, NavFrame)| #[trigger] r0.filter(pu).contains(e) <==> r0.contains(e) && pu(e) by {
        lemma_filter_contains_iff(r0, pu, e);
    }
    assert(fu.targets(Constellation::GPS) == fh.targets(Constellation::GPS));
}

} // verus!
