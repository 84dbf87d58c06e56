//! The data context: every product loaded so far, sorted by product type.
use vstd::prelude::*;

use anise::prelude::{Almanac, Frame};
use rinex::navigation::{NavFrame, NavKey};
use rinex::prelude::Rinex;
use sp3::prelude::SP3;
use std::path::PathBuf;

use crate::error::{Error, MergeError};
pub use almanac::AlmanacFile;
use file_name::production_name_readable;

use crate::external::{
    file_parts, gzip_rinex_parsed, holds_nav_record, nav_record, parse_gzip_rinex, parse_rinex, rinex_kind,
    rinex_merge_mut, rinex_parsed, rinex_type_of,
};
use crate::navigation::merged_entries;
use crate::product::{rinex_product, ProductType, RinexType};

pub mod almanac;
pub mod file_name;
pub mod navigation;
pub mod orbit;
pub mod time;

verus! {

/// The data of one product type: several files of that type merged into one.
pub enum BlobData {
    /// RINEX data.
    Rinex(Rinex),
    /// SP3 data.
    SP3(SP3),
}

impl BlobData {
    /// The RINEX data, if this is RINEX data.
    pub fn as_rinex(&self) -> (r: Option<&Rinex>)
        ensures
            match *self {
                BlobData::Rinex(x) => r == Some(&x),
                BlobData::SP3(_) => r is None,
            },
    {
        match self {
            BlobData::Rinex(x) => Some(x),
            BlobData::SP3(_) => None,
        }
    }

    /// The SP3 data, if this is SP3 data.
    pub fn as_sp3(&self) -> (r: Option<&SP3>)
        ensures
            match *self {
                BlobData::SP3(x) => r == Some(&x),
                BlobData::Rinex(_) => r is None,
            },
    {
        match self {
            BlobData::SP3(x) => Some(x),
            BlobData::Rinex(_) => None,
        }
    }
}

/// What a context holds for one product type: the paths of the files it was
/// made of, in loading order, and their merged data.
pub struct ProductState {
    /// The files, in the order they were loaded.
    pub paths: Seq<PathBuf>,
    /// The merged data.
    pub data: BlobData,
}

/// The kind of data each product type is stored as: SP3 for high precision
/// orbits, RINEX for every other product.
pub open spec fn data_fits(p: ProductType, data: BlobData) -> bool {
    (data is SP3) == (p == ProductType::HighPrecisionOrbit)
}

/// One product type of a context.
pub(crate) struct ProductEntry {
    pub(crate) product: ProductType,
    pub(crate) paths: Vec<PathBuf>,
    pub(crate) data: BlobData,
}

/// The entries of `s` that hold product type `p`: at most one in a well formed context.
pub(crate) closed spec fn holds(s: Seq<ProductEntry>, p: ProductType) -> bool {
    exists|i: int| 0 <= i < s.len() && (#[trigger] s[i]).product == p
}

pub(crate) closed spec fn entry_state(e: ProductEntry) -> ProductState {
    ProductState { paths: e.paths@, data: e.data }
}

pub(crate) closed spec fn entries_view(s: Seq<ProductEntry>) -> Map<ProductType, ProductState> {
    Map::new(
        |p: ProductType| holds(s, p),
        |p: ProductType|
            entry_state(s[choose|i: int| 0 <= i < s.len() && (#[trigger] s[i]).product == p]),
    )
}

pub(crate) closed spec fn unique_products(s: Seq<ProductEntry>) -> bool {
    forall|i: int, j: int|
        0 <= i < s.len() && 0 <= j < s.len() && i != j ==> (#[trigger] s[i]).product != (
        #[trigger] s[j]).product
}

pub(crate) proof fn lemma_view_at(s: Seq<ProductEntry>, i: int)
    requires
        unique_products(s),
        0 <= i < s.len(),
    ensures
        entries_view(s).contains_key(s[i].product),
        entries_view(s)[s[i].product] == entry_state(s[i]),
{
    let p = s[i].product;
    assert(holds(s, p));
    let j = choose|j: int| 0 <= j < s.len() && (#[trigger] s[j]).product == p;
    assert(j == i);
}

pub(crate) proof fn lemma_view_update(s: Seq<ProductEntry>, i: int, e: ProductEntry)
    requires
        unique_products(s),
        0 <= i < s.len(),
        e.product == s[i].product,
    ensures
        unique_products(s.update(i, e)),
        entries_view(s.update(i, e)) == entries_view(s).insert(e.product, entry_state(e)),
{
    let t = s.update(i, e);
    assert forall|a: int, b: int|
        0 <= a < t.len() && 0 <= b < t.len() && a != b implies (#[trigger] t[a]).product != (
        #[trigger] t[b]).product by {
        assert(t[a].product == s[a].product);
        assert(t[b].product == s[b].product);
    }
    let lhs = entries_view(t);
    let rhs = entries_view(s).insert(e.product, entry_state(e));
    assert forall|p: ProductType| lhs.contains_key(p) == rhs.contains_key(p) by {
        if holds(t, p) {
            let j = choose|j: int| 0 <= j < t.len() && (#[trigger] t[j]).product == p;
            assert(s[j].product == p);
        }
        if holds(s, p) {
            let j = choose|j: int| 0 <= j < s.len() && (#[trigger] s[j]).product == p;
            assert(t[j].product == p);
        }
    }
    assert forall|p: ProductType| #[trigger] lhs.contains_key(p) implies lhs[p] == rhs[p] by {
        let j = choose|j: int| 0 <= j < t.len() && (#[trigger] t[j]).product == p;
        lemma_view_at(t, j);
        if j == i {
        } else {
            lemma_view_at(s, j);
        }
    }
    assert(lhs =~= rhs);
}

pub(crate) proof fn lemma_view_push(s: Seq<ProductEntry>, e: ProductEntry)
    requires
        unique_products(s),
        !holds(s, e.product),
    ensures
        unique_products(s.push(e)),
        entries_view(s.push(e)) == entries_view(s).insert(e.product, entry_state(e)),
{
    let t = s.push(e);
    assert forall|a: int, b: int|
        0 <= a < t.len() && 0 <= b < t.len() && a != b implies (#[trigger] t[a]).product != (
        #[trigger] t[b]).product by {
        if a == s.len() {
            assert(t[b] == s[b]);
        } else if b == s.len() {
            assert(t[a] == s[a]);
        } else {
            assert(t[a] == s[a] && t[b] == s[b]);
        }
    }
    let lhs = entries_view(t);
    let rhs = entries_view(s).insert(e.product, entry_state(e));
    assert forall|p: ProductType| lhs.contains_key(p) == rhs.contains_key(p) by {
        if holds(t, p) {
            let j = choose|j: int| 0 <= j < t.len() && (#[trigger] t[j]).product == p;
            if j < s.len() {
                assert(s[j].product == p);
            }
        }
        if holds(s, p) {
            let j = choose|j: int| 0 <= j < s.len() && (#[trigger] s[j]).product == p;
            assert(t[j].product == p);
        }
        if p == e.product {
            assert(t[s.len() as int].product == p);
        }
    }
    assert forall|p: ProductType| #[trigger] lhs.contains_key(p) implies lhs[p] == rhs[p] by {
        let j = choose|j: int| 0 <= j < t.len() && (#[trigger] t[j]).product == p;
        lemma_view_at(t, j);
        if j < s.len() {
            assert(t[j] == s[j]);
            lemma_view_at(s, j);
        }
    }
    assert(lhs =~= rhs);
}

/// The position of product type `p` among the entries `s`.
pub(crate) closed spec fn index_of(s: Seq<ProductEntry>, p: ProductType) -> int {
    choose|i: int| 0 <= i < s.len() && (#[trigger] s[i]).product == p
}

/// Two entry sequences with the same product types at the same positions have
/// views with the same domain, each product read at the same position.
pub(crate) proof fn lemma_view_same_products(s: Seq<ProductEntry>, t: Seq<ProductEntry>)
    requires
        unique_products(s),
        s.len() == t.len(),
        forall|j: int| 0 <= j < s.len() ==> (#[trigger] s[j]).product == t[j].product,
    ensures
        unique_products(t),
        entries_view(t).dom() == entries_view(s).dom(),
        forall|p: ProductType|
            #[trigger] entries_view(s).contains_key(p) ==> {
                let j = index_of(s, p);
                &&& 0 <= j < s.len()
                &&& s[j].product == p
                &&& entries_view(s)[p] == entry_state(s[j])
                &&& entries_view(t)[p] == entry_state(t[j])
            },
{
    assert forall|a: int, b: int|
        0 <= a < t.len() && 0 <= b < t.len() && a != b implies (#[trigger] t[a]).product != (
        #[trigger] t[b]).product by {
        assert(s[a].product == t[a].product);
        assert(s[b].product == t[b].product);
    }
    assert forall|p: ProductType| holds(t, p) == holds(s, p) by {
        if holds(t, p) {
            let j = choose|j: int| 0 <= j < t.len() && (#[trigger] t[j]).product == p;
            assert(s[j].product == p);
        }
        if holds(s, p) {
            let j = choose|j: int| 0 <= j < s.len() && (#[trigger] s[j]).product == p;
            assert(t[j].product == p);
        }
    }
    assert(entries_view(t).dom() =~= entries_view(s).dom());
    assert forall|p: ProductType| #[trigger] entries_view(s).contains_key(p) implies {
        let j = index_of(s, p);
        &&& 0 <= j < s.len()
        &&& s[j].product == p
        &&& entries_view(s)[p] == entry_state(s[j])
        &&& entries_view(t)[p] == entry_state(t[j])
    } by {
        let j = index_of(s, p);
        lemma_view_at(s, j);
        assert(t[j].product == p);
        lemma_view_at(t, j);
    }
}

/// A GNSS data context: the products loaded so far, with the planetary data
/// and the Earth centered frame the navigation works with.
pub struct QcContext {
    products: Vec<ProductEntry>,
    /// Planetary data.
    pub almanac: Almanac,
    /// Earth centered frame.
    pub earth_cef: Frame,
}

impl View for QcContext {
    type V = Map<ProductType, ProductState>;

    /// The products of this context, by product type.
    closed spec fn view(&self) -> Map<ProductType, ProductState> {
        entries_view(self.products@)
    }
}

impl QcContext {
    /// Every product type is held once, with the kind of data it fits.
    pub closed spec fn wf(&self) -> bool {
        &&& unique_products(self.products@)
        &&& forall|i: int|
            0 <= i < self.products@.len() ==> data_fits(
                (#[trigger] self.products@[i]).product,
                self.products@[i].data,
            )
    }

    /// The planetary data of this context.
    pub closed spec fn almanac_view(&self) -> Almanac {
        self.almanac
    }

    /// The Earth centered frame of this context.
    pub closed spec fn frame_view(&self) -> Frame {
        self.earth_cef
    }

    /// In a well formed context, every product holds the kind of data it fits.
    pub proof fn lemma_data_fits(&self, p: ProductType)
        requires
            self.wf(),
            self@.contains_key(p),
        ensures
            data_fits(p, self@[p].data),
    {
        let i = choose|i: int| 0 <= i < self.products@.len() && (#[trigger] self.products@[i]).product
            == p;
        lemma_view_at(self.products@, i);
    }

    /// Create a new [QcContext] using your own [Almanac] and [Frame] definitions
    /// (obtained externally). NB: [Frame] is supposed to be one of the
    /// Earth Centered Frame as we are supposed to operate on planet Earth.
    pub fn new_alamac_frame(almanac: Almanac, frame: Frame) -> (c: Self)
        ensures
            c.wf(),
            c@ == Map::<ProductType, ProductState>::empty(),
            c.almanac_view() == almanac,
            c.frame_view() == frame,
    {
        let c = QcContext { products: Vec::new(), almanac, earth_cef: frame };
        assert(c@ =~= Map::<ProductType, ProductState>::empty());
        c
    }

    /// The position of product type `p` among the entries.
    fn position(&self, p: ProductType) -> (r: Option<usize>)
        ensures
            match r {
                Some(i) => i < self.products@.len() && self.products@[i as int].product == p,
                None => !holds(self.products@, p),
            },
    {
        let mut i: usize = 0;
        while i < self.products.len()
            invariant
                i <= self.products@.len(),
                forall|j: int| 0 <= j < i ==> (#[trigger] self.products@[j]).product != p,
            decreases self.products@.len() - i,
        {
            if self.products[i].product == p {
                return Some(i);
            }
            i = i + 1;
        }
        None
    }

    /// The data held for product type `p`.
    pub fn data(&self, p: ProductType) -> (r: Option<&BlobData>)
        requires
            self.wf(),
        ensures
            match r {
                Some(b) => self@.contains_key(p) && *b == self@[p].data,
                None => !self@.contains_key(p),
            },
    {
        match self.position(p) {
            Some(i) => {
                proof {
                    lemma_view_at(self.products@, i as int);
                }
                Some(&self.products[i].data)
            },
            None => None,
        }
    }

    /// The paths of the files loaded for product type `p`, in loading order.
    pub fn files(&self, p: ProductType) -> (r: Option<&Vec<PathBuf>>)
        requires
            self.wf(),
        ensures
            match r {
                Some(v) => self@.contains_key(p) && v@ == self@[p].paths,
                None => !self@.contains_key(p),
            },
    {
        match self.position(p) {
            Some(i) => {
                proof {
                    lemma_view_at(self.products@, i as int);
                }
                Some(&self.products[i].paths)
            },
            None => None,
        }
    }

    /// The RINEX data held for product type `p`.
    pub fn rinex(&self, p: ProductType) -> (r: Option<&Rinex>)
        requires
            self.wf(),
        ensures
            match r {
                Some(x) => self@.contains_key(p) && self@[p].data == BlobData::Rinex(*x),
                None => !self@.contains_key(p) || self@[p].data is SP3,
            },
    {
        match self.data(p) {
            Some(b) => b.as_rinex(),
            None => None,
        }
    }

    /// Observation RINEX data, if any.
    pub fn observation(&self) -> (r: Option<&Rinex>)
        requires
            self.wf(),
        ensures
            r is Some <==> self@.contains_key(ProductType::Observation),
            r matches Some(x) ==> self@[ProductType::Observation].data == BlobData::Rinex(*x),
    {
        proof {
            if self@.contains_key(ProductType::Observation) {
                self.lemma_data_fits(ProductType::Observation);
            }
        }
        self.rinex(ProductType::Observation)
    }

    /// Broadcast navigation RINEX data, if any.
    pub fn brdc_navigation(&self) -> (r: Option<&Rinex>)
        requires
            self.wf(),
        ensures
            r is Some <==> self@.contains_key(ProductType::BroadcastNavigation),
            r matches Some(x) ==> self@[ProductType::BroadcastNavigation].data == BlobData::Rinex(
                *x,
            ),
    {
        proof {
            if self@.contains_key(ProductType::BroadcastNavigation) {
                self.lemma_data_fits(ProductType::BroadcastNavigation);
            }
        }
        self.rinex(ProductType::BroadcastNavigation)
    }

    /// High precision clock RINEX data, if any.
    pub fn clock(&self) -> (r: Option<&Rinex>)
        requires
            self.wf(),
        ensures
            r is Some <==> self@.contains_key(ProductType::HighPrecisionClock),
            r matches Some(x) ==> self@[ProductType::HighPrecisionClock].data == BlobData::Rinex(
                *x,
            ),
    {
        proof {
            if self@.contains_key(ProductType::HighPrecisionClock) {
                self.lemma_data_fits(ProductType::HighPrecisionClock);
            }
        }
        self.rinex(ProductType::HighPrecisionClock)
    }

    /// Meteo RINEX data, if any.
    pub fn meteo(&self) -> (r: Option<&Rinex>)
        requires
            self.wf(),
        ensures
            r is Some <==> self@.contains_key(ProductType::MeteoObservation),
            r matches Some(x) ==> self@[ProductType::MeteoObservation].data == BlobData::Rinex(
                *x,
            ),
    {
        proof {
            if self@.contains_key(ProductType::MeteoObservation) {
                self.lemma_data_fits(ProductType::MeteoObservation);
            }
        }
        self.rinex(ProductType::MeteoObservation)
    }
}

/// What loading RINEX data `rinex`, read from `path`, as product type `p`
/// does to a context view `before`, given the outcome `r`: the first file of
/// that type makes the product; a later one is merged into it and its path
/// appended, unless the merge is refused: the outcome is then a merge error
/// and the files stay the same (the data may be partly merged). A file of
/// another kind than the held one is refused with nothing changed. The
/// merged data keep the kind of the held ones, and an accepted merge of
/// navigation records adds the entries of the new file whose key the held
/// record does not hold. Other products are untouched.
pub open spec fn rinex_loaded(
    before: Map<ProductType, ProductState>,
    after: Map<ProductType, ProductState>,
    p: ProductType,
    path: PathBuf,
    rinex: Rinex,
    r: Result<(), Error>,
) -> bool {
    &&& after.remove(p) == before.remove(p)
    &&& after.contains_key(p)
    &&& if !before.contains_key(p) {
        &&& r is Ok
        &&& after[p] == ProductState { paths: seq![path], data: BlobData::Rinex(rinex) }
    } else {
        match (before[p].data, after[p].data) {
            (BlobData::Rinex(held), BlobData::Rinex(merged)) => {
                &&& rinex_kind(merged) == rinex_kind(held)
                &&& rinex_kind(held) != rinex_kind(rinex) ==> r == Err::<(), Error>(
                    Error::Merge(MergeError::FileTypeMismatch),
                ) && after == before
                &&& match r {
                    Ok(()) => after[p].paths == before[p].paths.push(path),
                    Err(e) => e is Merge && after[p].paths == before[p].paths,
                }
                &&& r is Ok ==> file_parts(merged).0 != file_parts(held).0
                &&& r is Ok && holds_nav_record(held) ==> holds_nav_record(merged) && merged_entries(
                    nav_record(held),
                    nav_record(rinex),
                    nav_record(merged),
                )
            },
            _ => false,
        }
    }
}

impl QcContext {
    /// Adds RINEX data of the given kind into this context, under the product
    /// type that kind provides.
    pub fn load_rinex_typed(&mut self, rinex_type: RinexType, path: PathBuf, rinex: Rinex) -> (r:
        Result<(), Error>)
        requires
            old(self).wf(),
        ensures
            final(self).wf(),
            final(self).almanac_view() == old(self).almanac_view(),
            final(self).frame_view() == old(self).frame_view(),
            rinex_loaded(old(self)@, final(self)@, rinex_product(rinex_type), path, rinex, r),
    {
        let p = ProductType::from_rinex_type(rinex_type);
        let ghost before = self.products@;
        match self.position(p) {
            Some(i) => {
                proof {
                    lemma_view_at(before, i as int);
                    self.lemma_data_fits(p);
                }
                let mut entry = self.products.remove(i);
                assert(entry == before[i as int]);
                let r = match &mut entry.data {
                    BlobData::Rinex(inner) => {
                        match rinex_merge_mut(inner, &rinex) {
                            Ok(()) => {
                                entry.paths.push(path);
                                Ok(())
                            },
                            Err(e) => Err(Error::Merge(e)),
                        }
                    },
                    BlobData::SP3(_) => Ok(()),
                };
                self.products.insert(i, entry);
                proof {
                    assert(self.products@ =~= before.update(i as int, entry));
                    lemma_view_update(before, i as int, entry);
                    lemma_view_at(self.products@, i as int);
                    assert(self@.remove(p) =~= old(self)@.remove(p));
                    if entry == before[i as int] {
                        assert(self.products@ =~= before);
                    }
                }
                r
            },
            None => {
                let mut paths: Vec<PathBuf> = Vec::new();
                paths.push(path);
                let entry = ProductEntry { product: p, paths, data: BlobData::Rinex(rinex) };
                self.products.push(entry);
                proof {
                    lemma_view_push(before, entry);
                    assert(self.products@ == before.push(entry));
                    assert(entry.paths@ =~= seq![path]);
                    assert(self@.remove(p) =~= old(self)@.remove(p));
                }
                Ok(())
            },
        }
    }

    /// Adds this RINEX into the context, under the product type its header
    /// declares; see [QcContext::load_rinex_typed].
    pub fn load_rinex(&mut self, path: PathBuf, rinex: Rinex) -> (r: Result<(), Error>)
        requires
            old(self).wf(),
        ensures
            final(self).wf(),
            final(self).almanac_view() == old(self).almanac_view(),
            final(self).frame_view() == old(self).frame_view(),
            rinex_loaded(old(self)@, final(self)@, rinex_product(rinex_kind(rinex)), path, rinex, r),
    {
        let t = rinex_type_of(&rinex);
        self.load_rinex_typed(t, path, rinex)
    }
}

/// Loading a first RINEX file of a product type into a context that holds
/// none succeeds and makes that product out of that file alone; the other
/// products stay as they were.
pub proof fn lemma_first_rinex_load(
    before: Map<ProductType, ProductState>,
    after: Map<ProductType, ProductState>,
    p: ProductType,
    path: PathBuf,
    rinex: Rinex,
    r: Result<(), Error>,
)
    requires
        !before.contains_key(p),
        rinex_loaded(before, after, p, path, rinex, r),
    ensures
        r is Ok,
        after == before.insert(p, ProductState { paths: seq![path], data: BlobData::Rinex(rinex) }),
{
    let expected = before.insert(p, after[p]);
    assert forall|q: ProductType| after.contains_key(q) <==> expected.contains_key(q) by {
        if q != p {
            assert(after.remove(p).contains_key(q) == after.contains_key(q));
            assert(before.remove(p).contains_key(q) == before.contains_key(q));
        }
    }
    assert forall|q: ProductType| #[trigger] after.contains_key(q) implies after[q] == expected[q] by {
        if q != p {
            assert(after.remove(p)[q] == after[q]);
            assert(before.remove(p)[q] == before[q]);
        }
    }
    assert(after =~= expected);
}

/// A RINEX load, accepted or refused, never removes a product: the context
/// holds afterwards the products it held, and the loaded one.
pub proof fn lemma_rinex_load_keeps_products(
    before: Map<ProductType, ProductState>,
    after: Map<ProductType, ProductState>,
    p: ProductType,
    path: PathBuf,
    rinex: Rinex,
    r: Result<(), Error>,
)
    requires
        rinex_loaded(before, after, p, path, rinex, r),
    ensures
        after.dom() == before.dom().insert(p),
{
    assert(after.dom() =~= before.dom().insert(p)) by {
        assert forall|q: ProductType| after.contains_key(q) <==> before.dom().insert(p).contains(q) by {
            if q != p {
                assert(after.remove(p).contains_key(q) == after.contains_key(q));
                assert(before.remove(p).contains_key(q) == before.contains_key(q));
            }
        }
    }
}

/// Whether navigation record `s` holds an entry under `key`.
pub open spec fn record_has_key(s: Seq<(NavKey, NavFrame)>, key: NavKey) -> bool {
    exists|k: int| 0 <= k < s.len() && s[k].0 == key
}

/// An accepted load of a RINEX file into a product the context already
/// holds merges the file into the held data: the data change (the merge
/// stamps their header), the file's path is appended, and, for navigation
/// data, every entry the held record had stays and every key of the new
/// file is found in the merged record.
pub proof fn lemma_accepted_rinex_load_merges(
    before: Map<ProductType, ProductState>,
    after: Map<ProductType, ProductState>,
    p: ProductType,
    path: PathBuf,
    rinex: Rinex,
)
    requires
        before.contains_key(p),
        rinex_loaded(before, after, p, path, rinex, Ok(())),
    ensures
        after[p].paths == before[p].paths.push(path),
        after[p].data != before[p].data,
        before[p].data is Rinex && after[p].data is Rinex,
        holds_nav_record(before[p].data->Rinex_0) ==> forall|e: (NavKey, NavFrame)|
            #[trigger] nav_record(before[p].data->Rinex_0).contains(e) ==> nav_record(
                after[p].data->Rinex_0,
            ).contains(e),
        holds_nav_record(before[p].data->Rinex_0) ==> forall|j: int|
            0 <= j < nav_record(rinex).len() ==> record_has_key(
                nav_record(after[p].data->Rinex_0),
                (#[trigger] nav_record(rinex)[j]).0,
            ),
{
    let held = before[p].data->Rinex_0;
    let merged = after[p].data->Rinex_0;
    if holds_nav_record(held) {
        let a = nav_record(held);
        let b = nav_record(rinex);
        let m = nav_record(merged);
        assert(merged_entries(a, b, m));
        assert forall|e: (NavKey, NavFrame)| #[trigger] a.contains(e) implies m.contains(e) by {
            assert(m.contains(e) <==> (a.contains(e) || (b.contains(e) && !exists|i: int|
                0 <= i < a.len() && a[i].0 == e.0)));
        }
        assert forall|j: int| 0 <= j < b.len() implies record_has_key(m, (#[trigger] b[j]).0) by {
            let e = b[j];
            if exists|i: int| 0 <= i < a.len() && a[i].0 == e.0 {
                let i = choose|i: int| 0 <= i < a.len() && a[i].0 == e.0;
                assert(a.contains(a[i]));
                assert(m.contains(a[i]));
                let k = choose|k: int| 0 <= k < m.len() && m[k] == a[i];
                assert(m[k].0 == e.0);
            } else {
                assert(b.contains(e));
                assert(m.contains(e));
                let k = choose|k: int| 0 <= k < m.len() && m[k] == e;
                assert(m[k].0 == e.0);
            }
        }
    }
}

/// Two RINEX files of one product type, loaded one after the other into a
/// context that held none, leave both paths in loading order when the second
/// merge is accepted.
pub proof fn lemma_two_rinex_loads(
    v0: Map<ProductType, ProductState>,
    v1: Map<ProductType, ProductState>,
    v2: Map<ProductType, ProductState>,
    p: ProductType,
    path1: PathBuf,
    rinex1: Rinex,
    r1: Result<(), Error>,
    path2: PathBuf,
    rinex2: Rinex,
)
    requires
        !v0.contains_key(p),
        rinex_loaded(v0, v1, p, path1, rinex1, r1),
        rinex_loaded(v1, v2, p, path2, rinex2, Ok(())),
    ensures
        v2[p].paths == seq![path1, path2],
        v2[p].data is Rinex,
        v2.remove(p) == v0.remove(p),
{
    assert(seq![path1].push(path2) =~= seq![path1, path2]);
}

impl QcContext {
    /// Reads the RINEX file held in `bytes`, named `file_name` and read from
    /// `path`, and adds it into this context (see [QcContext::load_rinex]);
    /// a file that cannot be parsed changes nothing. See
    /// [file_name::production_name_ok] for the names that can be read.
    pub fn load_rinex_bytes(&mut self, path: PathBuf, file_name: &str, bytes: &[u8]) -> (r: Result<(), Error>)
        requires
            old(self).wf(),
            production_name_readable(file_name@),
        ensures
            final(self).wf(),
            final(self).almanac_view() == old(self).almanac_view(),
            final(self).frame_view() == old(self).frame_view(),
            match rinex_parsed(bytes@, file_name@) {
                Ok(x) => rinex_loaded(old(self)@, final(self)@, rinex_product(rinex_kind(x)), path, x, r),
                Err(e) => r == Err::<(), Error>(Error::RinexParsing(e)) && final(self)@ == old(self)@,
            },
    {
        match parse_rinex(bytes, file_name) {
            Ok(rinex) => self.load_rinex(path, rinex),
            Err(e) => Err(Error::RinexParsing(e)),
        }
    }

    /// Reads the Gzip compressed RINEX file held in `bytes`, named
    /// `file_name` and read from `path`, and adds it into this context (see
    /// [QcContext::load_rinex]); a file that cannot be parsed changes nothing.
    pub fn load_gzip_rinex_bytes(&mut self, path: PathBuf, file_name: &str, bytes: &[u8]) -> (r: Result<(), Error>)
        requires
            old(self).wf(),
            production_name_readable(file_name@),
        ensures
            final(self).wf(),
            final(self).almanac_view() == old(self).almanac_view(),
            final(self).frame_view() == old(self).frame_view(),
            match gzip_rinex_parsed(bytes@, file_name@) {
                Ok(x) => rinex_loaded(old(self)@, final(self)@, rinex_product(rinex_kind(x)), path, x, r),
                Err(e) => r == Err::<(), Error>(Error::RinexParsing(e)) && final(self)@ == old(self)@,
            },
    {
        match parse_gzip_rinex(bytes, file_name) {
            Ok(rinex) => self.load_rinex(path, rinex),
            Err(e) => Err(Error::RinexParsing(e)),
        }
    }
}

impl QcContext {
    /// Mutable access to the RINEX data held for product type `p`. Whatever
    /// is done through it stays the data of that product, with the same files.
    pub fn rinex_mut(&mut self, p: ProductType) -> (r: Option<&mut Rinex>)
        requires
            old(self).wf(),
        ensures
            match r {
                None => (!old(self)@.contains_key(p) || old(self)@[p].data is SP3) && *final(self)
                    == *old(self),
                Some(x) => {
                    &&& old(self)@.contains_key(p)
                    &&& old(self)@[p].data == BlobData::Rinex(*x)
                    &&& final(self).wf()
                    &&& final(self).almanac_view() == old(self).almanac_view()
                    &&& final(self).frame_view() == old(self).frame_view()
                    &&& final(self)@ == old(self)@.insert(
                        p,
                        ProductState { paths: old(self)@[p].paths, data: BlobData::Rinex(*final(x)) },
                    )
                },
            },
    {
        let ghost before = self.products@;
        match self.position(p) {
            Some(i) => {
                proof {
                    lemma_view_at(before, i as int);
                }
                if let BlobData::SP3(_) = &self.products[i].data {
                    return None;
                }
                match &mut self.products[i].data {
                    BlobData::Rinex(x) => {
                        proof {
                            let e = before[i as int];
                            let updated = ProductEntry {
                                product: e.product,
                                paths: e.paths,
                                data: BlobData::Rinex(*final(x)),
                            };
                            lemma_view_update(before, i as int, updated);
                        }
                        Some(x)
                    },
                    BlobData::SP3(_) => None,
                }
            },
            None => None,
        }
    }

    /// Mutable access to the observation RINEX data, if any.
    pub fn observation_mut(&mut self) -> (r: Option<&mut Rinex>)
        requires
            old(self).wf(),
        ensures
            r is Some <==> old(self)@.contains_key(ProductType::Observation),
            r is None ==> *final(self) == *old(self),
            r matches Some(x) ==> {
                &&& old(self)@[ProductType::Observation].data == BlobData::Rinex(*x)
                &&& final(self).wf()
                &&& final(self).almanac_view() == old(self).almanac_view()
                &&& final(self).frame_view() == old(self).frame_view()
                &&& final(self)@ == old(self)@.insert(
                    ProductType::Observation,
                    ProductState {
                        paths: old(self)@[ProductType::Observation].paths,
                        data: BlobData::Rinex(*final(x)),
                    },
                )
            },
    {
        proof {
            if self@.contains_key(ProductType::Observation) {
                self.lemma_data_fits(ProductType::Observation);
            }
        }
        self.rinex_mut(ProductType::Observation)
    }
}

} // verus!
