//! Temporal transpositions of the products of a context.
use vstd::prelude::*;

use rinex::prelude::processing::{TimeCorrection, TimeCorrectionError, TimeCorrectionsDB};
use rinex::prelude::TimeScale;

use super::{
    data_fits, entry_state, index_of, lemma_view_same_products, BlobData, ProductEntry, ProductState, QcContext,
};
use crate::external::{
    append_time_corrections, empty_time_corrections, header_time_corrections, rinex_precise_correction_mut,
    precisely_corrected, rinex_time_corrections, rinex_timeshift_mut,
    sp3_timeshift_mut, strict_validity, time_corrections, timeshifted_rinex, timeshifted_sp3,
};
use crate::product::ProductType;

verus! {

/// What a transposition into `timescale` makes of product `p`: its files stay;
/// observation RINEX and SP3 data are timeshifted; other products stay as
/// they were.
pub open spec fn transposed_state(
    p: ProductType,
    timescale: TimeScale,
    before: ProductState,
    after: ProductState,
) -> bool {
    &&& after.paths == before.paths
    &&& after.data == match (p, before.data) {
        (ProductType::Observation, BlobData::Rinex(a)) => BlobData::Rinex(
            timeshifted_rinex(a, timescale),
        ),
        (ProductType::HighPrecisionOrbit, BlobData::SP3(a)) => BlobData::SP3(
            timeshifted_sp3(a, timescale),
        ),
        _ => before.data,
    }
}

spec fn transposed_entry(timescale: TimeScale, before: ProductEntry, after: ProductEntry) -> bool {
    &&& after.product == before.product
    &&& transposed_state(before.product, timescale, entry_state(before), entry_state(after))
    &&& settled_state(before.product, timescale, entry_state(after))
}

/// Whether product `p` holds data a transposition into `timescale` leaves as
/// they are: observation RINEX data already shifted; any other product.
pub open spec fn settled_state(p: ProductType, timescale: TimeScale, state: ProductState) -> bool {
    match (p, state.data) {
        (ProductType::Observation, BlobData::Rinex(a)) => timeshifted_rinex(a, timescale) == a,
        _ => true,
    }
}

/// What a transposition into `timescale` makes of a context view.
pub open spec fn transposed(
    before: Map<ProductType, ProductState>,
    after: Map<ProductType, ProductState>,
    timescale: TimeScale,
) -> bool {
    &&& after.dom() == before.dom()
    &&& forall|p: ProductType|
        #[trigger] before.contains_key(p) ==> transposed_state(p, timescale, before[p], after[p])
    &&& forall|p: ProductType|
        #[trigger] after.contains_key(p) ==> settled_state(p, timescale, after[p])
}

/// A transposition into a timescale, repeated on a context without SP3
/// data, leaves the context as the first one left it. (SP3 data are left
/// out: their header MJD is recomputed from floating point days, which a
/// second shift need not reproduce.)
pub proof fn lemma_transposition_idempotent(
    v0: Map<ProductType, ProductState>,
    v1: Map<ProductType, ProductState>,
    v2: Map<ProductType, ProductState>,
    timescale: TimeScale,
)
    requires
        !v0.contains_key(ProductType::HighPrecisionOrbit),
        transposed(v0, v1, timescale),
        transposed(v1, v2, timescale),
    ensures
        v2 == v1,
{
    assert forall|p: ProductType| #[trigger] v2.contains_key(p) implies v2[p] == v1[p] by {
        assert(v1.contains_key(p));
        assert(transposed_state(p, timescale, v1[p], v2[p]));
        assert(settled_state(p, timescale, v1[p]));
        assert(v0.contains_key(p));
        assert(transposed_state(p, timescale, v0[p], v1[p]));
    }
    assert(v2 =~= v1);
}

impl QcContext {
    /// Infaillible transposition of the temporal products to desired [TimeScale].
    /// This only applies to the following products:
    /// - Observation RINEX
    /// - SP3
    pub fn timescale_transposition_mut(&mut self, timescale: TimeScale)
        requires
            old(self).wf(),
        ensures
            final(self).wf(),
            final(self).almanac_view() == old(self).almanac_view(),
            final(self).frame_view() == old(self).frame_view(),
            transposed(old(self)@, final(self)@, timescale),
    {
        let ghost before = self.products@;
        let n = self.products.len();
        let mut i: usize = 0;
        while i < n
            invariant
                n == before.len(),
                self.products@.len() == n,
                i <= n,
                self.almanac == old(self).almanac,
                self.earth_cef == old(self).earth_cef,
                forall|j: int| i <= j < n ==> #[trigger] self.products@[j] == before[j],
                forall|j: int|
                    0 <= j < i ==> transposed_entry(timescale, before[j], #[trigger] self.products@[j]),
            decreases n - i,
        {
            let mut entry = self.products.remove(i);
            assert(entry == before[i as int]);
            match entry.product {
                ProductType::Observation => {
                    match &mut entry.data {
                        BlobData::Rinex(rinex) => rinex_timeshift_mut(rinex, timescale),
                        BlobData::SP3(_) => {},
                    }
                },
                ProductType::HighPrecisionOrbit => {
                    match &mut entry.data {
                        BlobData::SP3(sp3) => sp3_timeshift_mut(sp3, timescale),
                        BlobData::Rinex(_) => {},
                    }
                },
                _ => {},
            }
            self.products.insert(i, entry);
            proof {
                assert(transposed_entry(timescale, before[i as int], entry));
                assert forall|j: int| 0 <= j < i + 1 implies transposed_entry(
                    timescale,
                    before[j],
                    #[trigger] self.products@[j],
                ) by {}
            }
            i = i + 1;
        }
        proof {
            let after = self.products@;
            assert forall|j: int| 0 <= j < before.len() implies (#[trigger] before[j]).product
                == after[j].product by {
                assert(transposed_entry(timescale, before[j], after[j]));
            }
            lemma_view_same_products(before, after);
            assert forall|j: int|
                0 <= j < after.len() implies data_fits(
                (#[trigger] after[j]).product,
                after[j].data,
            ) by {
                assert(transposed_entry(timescale, before[j], after[j]));
                assert(data_fits(before[j].product, before[j].data));
            }
            assert forall|p: ProductType| #[trigger] old(self)@.contains_key(p) implies transposed_state(
                p,
                timescale,
                old(self)@[p],
                self@[p],
            ) by {
                let j = index_of(before, p);
                assert(transposed_entry(timescale, before[j], after[j]));
            }
            let h = ProductType::HighPrecisionOrbit;
            if old(self)@.contains_key(h) {
                let j = index_of(before, h);
                assert(transposed_entry(timescale, before[j], after[j]));
            }
        }
    }
}

/// The time corrections a context offers: those the header of its broadcast
/// navigation file declares, in their order; none without such a file.
pub open spec fn collected_corrections(m: Map<ProductType, ProductState>) -> Seq<TimeCorrection> {
    let p = ProductType::BroadcastNavigation;
    if m.contains_key(p) {
        match m[p].data {
            BlobData::Rinex(r) => match header_time_corrections(r) {
                Some(s) => s,
                None => Seq::empty(),
            },
            BlobData::SP3(_) => Seq::empty(),
        }
    } else {
        Seq::empty()
    }
}

/// What a precise correction into `timescale` with `db` makes of a context
/// view, and its outcome: the observation data are corrected (see
/// [precisely_corrected]) and keep their files; nothing else changes.
pub open spec fn precisely_corrected_view(
    m: Map<ProductType, ProductState>,
    db: TimeCorrectionsDB,
    timescale: TimeScale,
) -> (Map<ProductType, ProductState>, Result<(), TimeCorrectionError>) {
    let p = ProductType::Observation;
    if m.contains_key(p) {
        match m[p].data {
            BlobData::Rinex(a) => {
                let (corrected, outcome) = precisely_corrected(a, db, timescale);
                (m.insert(p, ProductState { paths: m[p].paths, data: BlobData::Rinex(corrected) }), outcome)
            },
            BlobData::SP3(_) => (m, Ok(())),
        }
    } else {
        (m, Ok(()))
    }
}

impl QcContext {
    /// Collect a [TimeCorrectionsDB] from this [QcContext], that you can then
    /// use for precise temporal correction: the time corrections the broadcast
    /// navigation data declare, none without such data.
    pub fn time_corrections_database(&self) -> (db: TimeCorrectionsDB)
        requires
            self.wf(),
        ensures
            time_corrections(db) == collected_corrections(self@),
            !strict_validity(db),
    {
        let mut db = empty_time_corrections();
        if let Some(brdc) = self.brdc_navigation() {
            if let Some(nav_db) = rinex_time_corrections(brdc) {
                append_time_corrections(&mut db, &nav_db);
            }
        }
        db
    }

    /// Precise temporal transposition of the observations of this context,
    /// with the corrections of `db`: only the observation data may change;
    /// every product keeps its files. SP3 data take a gnss-qc-traits 0.4
    /// database, while `db` is a 0.5 one, which keeps its corrections in a
    /// private field with no way to read them out: no 0.4 database can be
    /// made of it, and SP3 data are left as they are.
    pub fn precise_time_correction_mut(&mut self, db: TimeCorrectionsDB, timescale: TimeScale) -> (r:
        Result<(), TimeCorrectionError>)
        requires
            old(self).wf(),
        ensures
            final(self).wf(),
            final(self).almanac_view() == old(self).almanac_view(),
            final(self).frame_view() == old(self).frame_view(),
            (final(self)@, r) == precisely_corrected_view(old(self)@, db, timescale),
    {
        if let Some(observations) = self.observation_mut() {
            rinex_precise_correction_mut(observations, &db, timescale)?;
        }
        Ok(())
    }
}

} // verus!
