//! High precision orbit (SP3) products of a context.
use vstd::prelude::*;

use sp3::prelude::SP3;
use std::path::PathBuf;

use super::navigation::cpp_compatible;
use super::{lemma_view_at, lemma_view_push, lemma_view_update, BlobData, ProductEntry, ProductState, QcContext};
use crate::error::Error;
use crate::external::{merged_sp3, sp3_clock_flags, sp3_has_clock_offset, sp3_merge_mut};
use crate::product::ProductType;

verus! {

/// The SP3 data a context view holds, if any.
pub open spec fn held_sp3(m: Map<ProductType, ProductState>) -> Option<SP3> {
    if m.contains_key(ProductType::HighPrecisionOrbit) {
        match m[ProductType::HighPrecisionOrbit].data {
            BlobData::SP3(s) => Some(s),
            BlobData::Rinex(_) => None,
        }
    } else {
        None
    }
}

/// Whether one of the SP3 entries a context view holds carries a clock offset.
pub open spec fn sp3_clock_in(m: Map<ProductType, ProductState>) -> bool {
    match held_sp3(m) {
        Some(s) => sp3_clock_flags(s).contains(true),
        None => false,
    }
}

/// What loading SP3 data `sp3`, read from `path`, does to a context view `before`,
/// given the outcome `r`: the first SP3 file makes the high precision orbit
/// product; a later one is merged into it and its path appended, unless the
/// merge is refused, in which case the outcome is that merge error and nothing
/// changes. The merged data are those of [merged_sp3]. Other products are untouched.
pub open spec fn sp3_loaded(
    before: Map<ProductType, ProductState>,
    after: Map<ProductType, ProductState>,
    path: PathBuf,
    sp3: SP3,
    r: Result<(), Error>,
) -> bool {
    let p = ProductType::HighPrecisionOrbit;
    &&& after.remove(p) == before.remove(p)
    &&& after.contains_key(p)
    &&& if !before.contains_key(p) {
        &&& r is Ok
        &&& after[p] == ProductState { paths: seq![path], data: BlobData::SP3(sp3) }
    } else {
        match before[p].data {
            BlobData::SP3(held) => {
                let (merged, outcome) = merged_sp3(held, sp3);
                match outcome {
                    Ok(()) => {
                        &&& r == Ok::<(), Error>(())
                        &&& after[p].paths == before[p].paths.push(path)
                        &&& after[p].data == BlobData::SP3(merged)
                        &&& sp3_clock_in(after) == (sp3_clock_in(before) || sp3_clock_flags(
                            sp3,
                        ).contains(true))
                    },
                    Err(e) => r == Err::<(), Error>(Error::Merge(e)) && after == before,
                }
            },
            BlobData::Rinex(_) => false,
        }
    }
}

impl QcContext {
    /// Add this [SP3] into current [QcContext].
    /// File revision must be supported and must be correctly formatted
    /// for this operation to be effective.
    pub fn load_sp3(&mut self, path: PathBuf, sp3: SP3) -> (r: Result<(), Error>)
        requires
            old(self).wf(),
        ensures
            final(self).wf(),
            final(self).almanac_view() == old(self).almanac_view(),
            final(self).frame_view() == old(self).frame_view(),
            sp3_loaded(old(self)@, final(self)@, path, sp3, r),
    {
        let p = ProductType::HighPrecisionOrbit;
        let ghost before = self.products@;
        match self.position(p) {
            Some(i) => {
                proof {
                    lemma_view_at(before, i as int);
                }
                let mut entry = self.products.remove(i);
                assert(entry == before[i as int]);
                let r = match &mut entry.data {
                    BlobData::SP3(inner) => {
                        match sp3_merge_mut(inner, &sp3) {
                            Ok(()) => {
                                entry.paths.push(path);
                                Ok(())
                            },
                            Err(e) => Err(Error::Merge(e)),
                        }
                    },
                    BlobData::Rinex(_) => Ok(()),
                };
                self.products.insert(i, entry);
                proof {
                    assert(self.products@ =~= before.update(i as int, entry));
                    lemma_view_update(before, i as int, entry);
                    lemma_view_at(self.products@, i as int);
                    assert(self@.remove(p) =~= old(self)@.remove(p));
                    if r is Err {
                        assert(self@ =~= old(self)@);
                    }
                }
                r
            },
            None => {
                let mut paths: Vec<PathBuf> = Vec::new();
                paths.push(path);
                let entry = ProductEntry { product: p, paths, data: BlobData::SP3(sp3) };
                self.products.push(entry);
                proof {
                    lemma_view_push(before, entry);
                    assert(self.products@ == before.push(entry));
                    assert(entry.paths@ =~= seq![path]);
                    assert(self@.remove(p) =~= old(self)@.remove(p));
                }
                Ok(())
            },
        }
    }

    /// Returns reference to inner SP3 data
    pub fn sp3(&self) -> (r: Option<&SP3>)
        requires
            self.wf(),
        ensures
            match r {
                Some(s) => held_sp3(self@) == Some(*s),
                None => held_sp3(self@) is None,
            },
    {
        match self.data(ProductType::HighPrecisionOrbit) {
            Some(b) => b.as_sp3(),
            None => None,
        }
    }

    /// Returns true if [ProductType::HighPrecisionOrbit] are present in current [QcContext]
    pub fn has_sp3(&self) -> (b: bool)
        requires
            self.wf(),
        ensures
            b == held_sp3(self@) is Some,
            b == self@.contains_key(ProductType::HighPrecisionOrbit),
    {
        proof {
            if self@.contains_key(ProductType::HighPrecisionOrbit) {
                self.lemma_data_fits(ProductType::HighPrecisionOrbit);
            }
        }
        self.sp3().is_some()
    }

    /// Returns true if any [SP3] previously loaded came with clock information.
    pub fn sp3_has_clock(&self) -> (b: bool)
        requires
            self.wf(),
        ensures
            b == sp3_clock_in(self@),
    {
        if let Some(sp3) = self.sp3() {
            sp3_has_clock_offset(sp3)
        } else {
            false
        }
    }

    /// Returns mutable reference to inner [ProductType::HighPrecisionOrbit] data.
    /// Whatever is done through it stays the high precision orbit data of
    /// this context, with the same files.
    pub fn sp3_mut(&mut self) -> (r: Option<&mut SP3>)
        requires
            old(self).wf(),
        ensures
            match r {
                None => held_sp3(old(self)@) is None && *final(self) == *old(self),
                Some(s) => {
                    &&& held_sp3(old(self)@) == Some(*s)
                    &&& final(self).wf()
                    &&& final(self).almanac_view() == old(self).almanac_view()
                    &&& final(self).frame_view() == old(self).frame_view()
                    &&& final(self)@ == old(self)@.insert(
                        ProductType::HighPrecisionOrbit,
                        ProductState {
                            paths: old(self)@[ProductType::HighPrecisionOrbit].paths,
                            data: BlobData::SP3(*final(s)),
                        },
                    )
                },
            },
    {
        let p = ProductType::HighPrecisionOrbit;
        let ghost before = self.products@;
        match self.position(p) {
            Some(i) => {
                proof {
                    lemma_view_at(before, i as int);
                    self.lemma_data_fits(p);
                }
                match &mut self.products[i].data {
                    BlobData::SP3(s) => {
                        proof {
                            let e = before[i as int];
                            let updated = ProductEntry {
                                product: e.product,
                                paths: e.paths,
                                data: BlobData::SP3(*final(s)),
                            };
                            lemma_view_update(before, i as int, updated);
                        }
                        Some(s)
                    },
                    BlobData::Rinex(_) => None,
                }
            },
            None => None,
        }
    }

    /// Returns true when the context allows ultra precise navigation: high
    /// precision clocks, SP3 data with clock offsets and observations
    /// compatible with code based navigation.
    pub fn is_ppp_ultra_navigation_compatible(&self) -> (b: bool)
        requires
            self.wf(),
        ensures
            b == (self@.contains_key(ProductType::HighPrecisionClock) && sp3_clock_in(self@)
                && cpp_compatible(self@)),
    {
        self.clock().is_some() && self.sp3_has_clock() && self.is_cpp_navigation_compatible()
    }
}

/// Loading a first SP3 file into a context that holds none succeeds and
/// makes the high precision orbit product out of that file alone.
pub proof fn lemma_first_sp3_load(
    before: Map<ProductType, ProductState>,
    after: Map<ProductType, ProductState>,
    path: PathBuf,
    sp3: SP3,
    r: Result<(), Error>,
)
    requires
        !before.contains_key(ProductType::HighPrecisionOrbit),
        sp3_loaded(before, after, path, sp3, r),
    ensures
        r is Ok,
        held_sp3(after) == Some(sp3),
        after[ProductType::HighPrecisionOrbit].paths == seq![path],
        sp3_clock_in(after) == sp3_clock_flags(sp3).contains(true),
{
}

/// Once SP3 data with clock offsets are loaded, the context reports SP3 clock
/// offsets, whether the data made the product or were merged into it.
pub proof fn lemma_loaded_clock_is_kept(
    before: Map<ProductType, ProductState>,
    after: Map<ProductType, ProductState>,
    path: PathBuf,
    sp3: SP3,
)
    requires
        sp3_loaded(before, after, path, sp3, Ok(())),
        sp3_clock_flags(sp3).contains(true),
    ensures
        sp3_clock_in(after),
{
}

/// Two SP3 files loaded one after the other into a context that held none
/// leave both paths, in loading order, when the second merge is accepted.
pub proof fn lemma_two_sp3_loads(
    v0: Map<ProductType, ProductState>,
    v1: Map<ProductType, ProductState>,
    v2: Map<ProductType, ProductState>,
    path1: PathBuf,
    sp3_1: SP3,
    r1: Result<(), Error>,
    path2: PathBuf,
    sp3_2: SP3,
)
    requires
        !v0.contains_key(ProductType::HighPrecisionOrbit),
        sp3_loaded(v0, v1, path1, sp3_1, r1),
        sp3_loaded(v1, v2, path2, sp3_2, Ok(())),
    ensures
        v2[ProductType::HighPrecisionOrbit].paths == seq![path1, path2],
        v2.remove(ProductType::HighPrecisionOrbit) == v0.remove(ProductType::HighPrecisionOrbit),
        sp3_clock_in(v2) == (sp3_clock_flags(sp3_1).contains(true) || sp3_clock_flags(
            sp3_2,
        ).contains(true)),
{
    assert(seq![path1].push(path2) =~= seq![path1, path2]);
}

} // verus!
