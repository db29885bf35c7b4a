//! Multi-Level-Security labels: sensitivities, categories, levels and
//! ranges, with both the standard and the expanded wire encodings.

use vstd::prelude::*;

use croaring::Bitmap;

use crate::bitmap::{
    bitmap_add, bitmap_clone, bitmap_elems, bitmap_new, decode_bitmap, sp_bitmap,
};
use crate::policy::PolicyObject;
use crate::profile::ProfileV;
use crate::reader::{
    reader_preserved, sp_string, sp_u32, PolicyReadError, PolicyReader, ReadErrV,
};
use crate::symtable::Symbol;

verus! {

/// A sensitivity paired with a set of categories.
#[derive(Debug)]
pub struct MlsLevel {
    pub sensitivity: u32,
    pub categories: Bitmap,
}

/// Mathematical model of an `MlsLevel`.
pub struct MlsLevelV {
    pub sensitivity: u32,
    pub categories: Set<u32>,
}

impl View for MlsLevel {
    type V = MlsLevelV;

    open spec fn view(&self) -> MlsLevelV {
        MlsLevelV { sensitivity: self.sensitivity, categories: bitmap_elems(self.categories) }
    }
}

/// An inclusive low-high pair of levels.
#[derive(Debug)]
pub struct MlsRange {
    pub low: MlsLevel,
    pub high: MlsLevel,
}

/// Mathematical model of an `MlsRange`.
pub struct MlsRangeV {
    pub low: MlsLevelV,
    pub high: MlsLevelV,
}

impl View for MlsRange {
    type V = MlsRangeV;

    open spec fn view(&self) -> MlsRangeV {
        MlsRangeV { low: self.low@, high: self.high@ }
    }
}

/// Standard wire format of a level: `sensitivity`, then a category bitmap.
pub open spec fn sp_mls_level(d: Seq<u8>, p: int) -> Option<(MlsLevelV, int)> {
    match sp_u32(d, p) {
        Some((sensitivity, p1)) => match sp_bitmap(d, p1) {
            Some((categories, p2)) => Some((MlsLevelV { sensitivity, categories }, p2)),
            None => None,
        },
        None => None,
    }
}

/// The closed category run `[low, high]`; empty when `low > high`.
pub open spec fn cat_range(low: u32, high: u32) -> Set<u32> {
    Set::new(|x: u32| low <= x && x <= high)
}

/// Parses `n` closed `(low, high)` category runs and accumulates their
/// union.
pub open spec fn sp_cat_runs(d: Seq<u8>, p: int, n: int) -> Option<(Set<u32>, int)>
    decreases n,
{
    if n <= 0 {
        Some((Set::empty(), p))
    } else {
        match sp_cat_runs(d, p, n - 1) {
            Some((s, p1)) => match sp_u32(d, p1) {
                Some((low, p2)) => match sp_u32(d, p2) {
                    Some((high, p3)) => Some((s.union(cat_range(low, high)), p3)),
                    None => None,
                },
                None => None,
            },
            None => None,
        }
    }
}

/// Expanded wire format of a level: `sensitivity`, `num_cats`, then that
/// many closed category runs.
pub open spec fn sp_mls_level_expanded(d: Seq<u8>, p: int) -> Option<(MlsLevelV, int)> {
    match sp_u32(d, p) {
        Some((sensitivity, p1)) => match sp_u32(d, p1) {
            Some((num_cats, p2)) => match sp_cat_runs(d, p2, num_cats as int) {
                Some((categories, p3)) => Some((MlsLevelV { sensitivity, categories }, p3)),
                None => None,
            },
            None => None,
        },
        None => None,
    }
}

/// Standard wire format of a range: `items`, the low sensitivity, a second
/// sensitivity only when `items > 1`, the low categories, and high
/// categories only when `items > 1` (otherwise the high level copies the
/// low one).
pub open spec fn sp_mls_range(d: Seq<u8>, p: int) -> Option<(MlsRangeV, int)> {
    match sp_u32(d, p) {
        Some((items, p1)) => match sp_u32(d, p1) {
            Some((s1, p2)) => {
                let s2r = if items > 1 {
                    sp_u32(d, p2)
                } else {
                    Some((s1, p2))
                };
                match s2r {
                    Some((s2, p3)) => match sp_bitmap(d, p3) {
                        Some((c1, p4)) => {
                            let c2r = if items > 1 {
                                sp_bitmap(d, p4)
                            } else {
                                Some((c1, p4))
                            };
                            match c2r {
                                Some((c2, p5)) => Some(
                                    (
                                        MlsRangeV {
                                            low: MlsLevelV { sensitivity: s1, categories: c1 },
                                            high: MlsLevelV { sensitivity: s2, categories: c2 },
                                        },
                                        p5,
                                    ),
                                ),
                                None => None,
                            }
                        },
                        None => None,
                    },
                    None => None,
                }
            },
            None => None,
        },
        None => None,
    }
}

/// Expanded wire format of a range: two expanded levels.
pub open spec fn sp_mls_range_expanded(d: Seq<u8>, p: int) -> Option<(MlsRangeV, int)> {
    match sp_mls_level_expanded(d, p) {
        Some((low, p1)) => match sp_mls_level_expanded(d, p1) {
            Some((high, p2)) => Some((MlsRangeV { low, high }, p2)),
            None => None,
        },
        None => None,
    }
}

/// Once a prefix of the category runs fails to parse, any longer count
/// fails too.
proof fn lemma_cat_runs_none_mono(d: Seq<u8>, p: int, m: int, n: int)
    requires
        0 <= m <= n,
        sp_cat_runs(d, p, m) is None,
    ensures
        sp_cat_runs(d, p, n) is None,
    decreases n,
{
    if n > m {
        lemma_cat_runs_none_mono(d, p, m, n - 1);
    }
}

impl PolicyObject for MlsLevel {
    open spec fn sp_decode(d: Seq<u8>, p: int, prof: ProfileV) -> Result<(MlsLevelV, int), ReadErrV> {
        match sp_mls_level(d, p) {
            Some(r) => Ok(r),
            None => Err(ReadErrV::InputError),
        }
    }

    fn decode(r: &mut PolicyReader) -> (res: Result<Self, PolicyReadError>) {
        let sensitivity = match r.read_u32() {
            Ok(v) => v,
            Err(e) => {
                return Err(e);
            },
        };
        let categories = match decode_bitmap(r) {
            Ok(v) => v,
            Err(e) => {
                return Err(e);
            },
        };
        Ok(MlsLevel { sensitivity, categories })
    }
}

impl MlsLevel {
    /// Reads a level in the expanded encoding: each `(low, high)` pair adds
    /// the closed category run `[low, high]`.
    pub fn decode_expanded(r: &mut PolicyReader) -> (res: Result<Self, PolicyReadError>)
        requires
            old(r).wf(),
        ensures
            reader_preserved(*old(r), *final(r)),
            match res {
                Ok(v) => sp_mls_level_expanded(old(r).data@, old(r).pos as int) == Some(
                    (v@, final(r).pos as int),
                ),
                Err(e) => {
                    &&& sp_mls_level_expanded(old(r).data@, old(r).pos as int) is None
                    &&& e@ == ReadErrV::InputError
                },
            },
    {
        let ghost d = r.data@;
        let sensitivity = match r.read_u32() {
            Ok(v) => v,
            Err(e) => {
                return Err(e);
            },
        };
        let num_cats = match r.read_u32() {
            Ok(v) => v,
            Err(e) => {
                return Err(e);
            },
        };
        let ghost ph = r.pos as int;
        let mut categories = bitmap_new();
        let mut idx: u32 = 0;
        proof {
            assert(bitmap_elems(categories) =~= Set::<u32>::empty());
        }
        while idx < num_cats
            invariant
                idx <= num_cats,
                r.wf(),
                r.data@ == d,
                d == old(r).data@,
                r.prof_opt() == old(r).prof_opt(),
                old(r).pos <= r.pos,
                sp_mls_level_expanded(d, old(r).pos as int) == (match sp_cat_runs(
                    d,
                    ph,
                    num_cats as int,
                ) {
                    Some((cats, pe)) => Some(
                        (MlsLevelV { sensitivity, categories: cats }, pe),
                    ),
                    None => None::<(MlsLevelV, int)>,
                }),
                sp_cat_runs(d, ph, idx as int) == Some((bitmap_elems(categories), r.pos as int)),
            decreases num_cats - idx,
        {
            let low = match r.read_u32() {
                Ok(v) => v,
                Err(e) => {
                    proof {
                        assert(sp_cat_runs(d, ph, idx + 1) is None);
                        lemma_cat_runs_none_mono(d, ph, idx + 1, num_cats as int);
                    }
                    return Err(e);
                },
            };
            let high = match r.read_u32() {
                Ok(v) => v,
                Err(e) => {
                    proof {
                        assert(sp_cat_runs(d, ph, idx + 1) is None);
                        lemma_cat_runs_none_mono(d, ph, idx + 1, num_cats as int);
                    }
                    return Err(e);
                },
            };
            let ghost base = bitmap_elems(categories);
            if low <= high {
                let span = high - low;
                let mut k: u64 = 0;
                while k <= span as u64
                    invariant
                        0 <= k <= span as u64 + 1,
                        span == high - low,
                        low <= high,
                        bitmap_elems(categories) == base.union(
                            Set::new(|y: u32| low <= y && (y as u64) < low as u64 + k),
                        ),
                    decreases span as u64 + 1 - k,
                {
                    let cat = ((low as u64 + k) % 0x100000000) as u32;
                    assert(cat == low as u64 + k);
                    let ghost before = bitmap_elems(categories);
                    bitmap_add(&mut categories, cat);
                    proof {
                        assert(bitmap_elems(categories) =~= base.union(
                            Set::new(|y: u32| low <= y && (y as u64) < low as u64 + (k + 1)),
                        ));
                    }
                    k = k + 1;
                }
                proof {
                    assert(Set::new(|y: u32| low <= y && (y as u64) < low as u64 + (span as u64 + 1))
                        =~= cat_range(low, high));
                    assert(bitmap_elems(categories) =~= base.union(cat_range(low, high)));
                }
            } else {
                proof {
                    assert(cat_range(low, high) =~= Set::<u32>::empty());
                    assert(base.union(cat_range(low, high)) =~= base);
                }
            }
            proof {
                assert(sp_cat_runs(d, ph, idx + 1) == Some(
                    (bitmap_elems(categories), r.pos as int),
                ));
            }
            idx = idx + 1;
        }
        Ok(MlsLevel { sensitivity, categories })
    }
}

impl PolicyObject for MlsRange {
    open spec fn sp_decode(d: Seq<u8>, p: int, prof: ProfileV) -> Result<(MlsRangeV, int), ReadErrV> {
        match sp_mls_range(d, p) {
            Some(r) => Ok(r),
            None => Err(ReadErrV::InputError),
        }
    }

    fn decode(r: &mut PolicyReader) -> (res: Result<Self, PolicyReadError>) {
        let items = match r.read_u32() {
            Ok(v) => v,
            Err(e) => {
                return Err(e);
            },
        };
        let s1 = match r.read_u32() {
            Ok(v) => v,
            Err(e) => {
                return Err(e);
            },
        };
        let s2 = if items > 1 {
            match r.read_u32() {
                Ok(v) => v,
                Err(e) => {
                    return Err(e);
                },
            }
        } else {
            s1
        };
        let s1_cats = match decode_bitmap(r) {
            Ok(v) => v,
            Err(e) => {
                return Err(e);
            },
        };
        let s2_cats = if items > 1 {
            match decode_bitmap(r) {
                Ok(v) => v,
                Err(e) => {
                    return Err(e);
                },
            }
        } else {
            bitmap_clone(&s1_cats)
        };
        Ok(MlsRange {
            low: MlsLevel { sensitivity: s1, categories: s1_cats },
            high: MlsLevel { sensitivity: s2, categories: s2_cats },
        })
    }
}

impl MlsRange {
    /// Reads a range in the expanded encoding: two expanded levels.
    pub fn decode_expanded(r: &mut PolicyReader) -> (res: Result<Self, PolicyReadError>)
        requires
            old(r).wf(),
        ensures
            reader_preserved(*old(r), *final(r)),
            match res {
                Ok(v) => sp_mls_range_expanded(old(r).data@, old(r).pos as int) == Some(
                    (v@, final(r).pos as int),
                ),
                Err(e) => {
                    &&& sp_mls_range_expanded(old(r).data@, old(r).pos as int) is None
                    &&& e@ == ReadErrV::InputError
                },
            },
    {
        let low = match Self::decode_expanded_level(r) {
            Ok(v) => v,
            Err(e) => {
                return Err(e);
            },
        };
        let high = match Self::decode_expanded_level(r) {
            Ok(v) => v,
            Err(e) => {
                return Err(e);
            },
        };
        Ok(MlsRange { low, high })
    }

    fn decode_expanded_level(r: &mut PolicyReader) -> (res: Result<MlsLevel, PolicyReadError>)
        requires
            old(r).wf(),
        ensures
            reader_preserved(*old(r), *final(r)),
            match res {
                Ok(v) => sp_mls_level_expanded(old(r).data@, old(r).pos as int) == Some(
                    (v@, final(r).pos as int),
                ),
                Err(e) => {
                    &&& sp_mls_level_expanded(old(r).data@, old(r).pos as int) is None
                    &&& e@ == ReadErrV::InputError
                },
            },
    {
        MlsLevel::decode_expanded(r)
    }
}

/// An expanded range decodes to equal low and high levels exactly when the
/// two encoded levels carry the same sensitivity and the same category set.
pub proof fn lemma_expanded_range_idempotent(d: Seq<u8>, p: int, rv: MlsRangeV, p2: int)
    requires
        sp_mls_range_expanded(d, p) == Some((rv, p2)),
        rv.low.sensitivity == rv.high.sensitivity,
        rv.low.categories == rv.high.categories,
    ensures
        rv.low == rv.high,
{
    assert(rv.low == MlsLevelV {
        sensitivity: rv.low.sensitivity,
        categories: rv.low.categories,
    });
    assert(rv.high == MlsLevelV {
        sensitivity: rv.high.sensitivity,
        categories: rv.high.categories,
    });
}

/// A sensitivity declaration; it owns its level. The stream carries no id
/// for a sensitivity, so the id is always zero.
#[derive(Debug)]
pub struct Sensitivity {
    pub id: u32,
    pub name: Vec<u8>,
    pub level: MlsLevel,
    pub is_alias: bool,
}

/// Mathematical model of a `Sensitivity`.
pub struct SensitivityV {
    pub id: u32,
    pub name: Seq<u8>,
    pub level: MlsLevelV,
    pub is_alias: bool,
}

impl View for Sensitivity {
    type V = SensitivityV;

    open spec fn view(&self) -> SensitivityV {
        SensitivityV { id: self.id, name: self.name@, level: self.level@, is_alias: self.is_alias }
    }
}

/// Wire format of a sensitivity: `name_len, is_alias, name`, then a
/// standard level.
pub open spec fn sp_sensitivity(d: Seq<u8>, p: int) -> Result<(SensitivityV, int), ReadErrV> {
    match sp_u32(d, p) {
        Some((name_len, p1)) => match sp_u32(d, p1) {
            Some((alias_w, p2)) => match sp_string(d, p2, name_len as int) {
                Some((name, p3)) => match sp_mls_level(d, p3) {
                    Some((level, p4)) => Ok(
                        (SensitivityV { id: 0, name, level, is_alias: alias_w == 1 }, p4),
                    ),
                    None => Err(ReadErrV::InputError),
                },
                None => Err(ReadErrV::InputError),
            },
            None => Err(ReadErrV::InputError),
        },
        None => Err(ReadErrV::InputError),
    }
}

impl PolicyObject for Sensitivity {
    open spec fn sp_decode(d: Seq<u8>, p: int, prof: ProfileV) -> Result<(SensitivityV, int), ReadErrV> {
        sp_sensitivity(d, p)
    }

    fn decode(r: &mut PolicyReader) -> (res: Result<Self, PolicyReadError>) {
        let name_len = match r.read_u32() {
            Ok(v) => v,
            Err(e) => {
                return Err(e);
            },
        };
        let alias_w = match r.read_u32() {
            Ok(v) => v,
            Err(e) => {
                return Err(e);
            },
        };
        let name = match r.read_string(name_len as usize) {
            Ok(v) => v,
            Err(e) => {
                return Err(e);
            },
        };
        let level = match r.read_object::<MlsLevel>() {
            Ok(v) => v,
            Err(e) => {
                return Err(e);
            },
        };
        Ok(Sensitivity { id: 0, name, level, is_alias: alias_w == 1 })
    }
}

impl Symbol for Sensitivity {
    open spec fn view_id(v: SensitivityV) -> u32 {
        v.id
    }

    open spec fn view_name(v: SensitivityV) -> Seq<u8> {
        v.name
    }

    fn id(&self) -> (r: u32) {
        self.id
    }

    fn name(&self) -> (r: &Vec<u8>) {
        &self.name
    }
}

/// A category (compartment) declaration.
#[derive(Debug)]
pub struct Category {
    pub id: u32,
    pub name: Vec<u8>,
    pub is_alias: bool,
}

/// Mathematical model of a `Category`.
pub struct CategoryV {
    pub id: u32,
    pub name: Seq<u8>,
    pub is_alias: bool,
}

impl View for Category {
    type V = CategoryV;

    open spec fn view(&self) -> CategoryV {
        CategoryV { id: self.id, name: self.name@, is_alias: self.is_alias }
    }
}

/// Wire format of a category: `name_len, id, is_alias, name`.
pub open spec fn sp_category(d: Seq<u8>, p: int) -> Result<(CategoryV, int), ReadErrV> {
    match sp_u32(d, p) {
        Some((name_len, p1)) => match sp_u32(d, p1) {
            Some((id, p2)) => match sp_u32(d, p2) {
                Some((alias_w, p3)) => match sp_string(d, p3, name_len as int) {
                    Some((name, p4)) => Ok((CategoryV { id, name, is_alias: alias_w == 1 }, p4)),
                    None => Err(ReadErrV::InputError),
                },
                None => Err(ReadErrV::InputError),
            },
            None => Err(ReadErrV::InputError),
        },
        None => Err(ReadErrV::InputError),
    }
}

impl PolicyObject for Category {
    open spec fn sp_decode(d: Seq<u8>, p: int, prof: ProfileV) -> Result<(CategoryV, int), ReadErrV> {
        sp_category(d, p)
    }

    fn decode(r: &mut PolicyReader) -> (res: Result<Self, PolicyReadError>) {
        let name_len = match r.read_u32() {
            Ok(v) => v,
            Err(e) => {
                return Err(e);
            },
        };
        let id = match r.read_u32() {
            Ok(v) => v,
            Err(e) => {
                return Err(e);
            },
        };
        let alias_w = match r.read_u32() {
            Ok(v) => v,
            Err(e) => {
                return Err(e);
            },
        };
        let name = match r.read_string(name_len as usize) {
            Ok(v) => v,
            Err(e) => {
                return Err(e);
            },
        };
        Ok(Category { id, name, is_alias: alias_w == 1 })
    }
}

impl Symbol for Category {
    open spec fn view_id(v: CategoryV) -> u32 {
        v.id
    }

    open spec fn view_name(v: CategoryV) -> Seq<u8> {
        v.name
    }

    fn id(&self) -> (r: u32) {
        self.id
    }

    fn name(&self) -> (r: &Vec<u8>) {
        &self.name
    }
}

} // verus!
