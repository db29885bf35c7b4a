//! Extensible bitmaps. The on-disk encoding is a sequence of
//! `(start_bit, 64-bit map)` runs; the decoded value is held in a roaring
//! bitmap from the `croaring` crate, modelled as the set of its bit indices.

use vstd::prelude::*;

use croaring::Bitmap;

use crate::reader::{
    reader_preserved, sp_u32, sp_u64, PolicyReadError, PolicyReader, ReadErrV,
};

verus! {

#[verifier::external_type_specification]
#[verifier::external_body]
pub struct ExBitmap(Bitmap);

/// The set of bit indices held by a roaring bitmap.
pub uninterp spec fn bitmap_elems(b: Bitmap) -> Set<u32>;

/// Relies on croaring's `Bitmap::new`: a freshly created bitmap is empty.
#[verifier::external_body]
pub fn bitmap_new() -> (r: Bitmap)
    ensures
        bitmap_elems(r) == Set::<u32>::empty(),
{
    Bitmap::new()
}

/// Relies on croaring's `Bitmap::add`: afterwards the bitmap holds the given
/// element besides everything it already held.
#[verifier::external_body]
pub fn bitmap_add(b: &mut Bitmap, v: u32)
    ensures
        bitmap_elems(*final(b)) == bitmap_elems(*old(b)).insert(v),
{
    b.add(v)
}

/// Relies on croaring's `Clone` impl for `Bitmap`: the copy holds exactly the
/// elements of the original.
#[verifier::external_body]
pub fn bitmap_clone(b: &Bitmap) -> (r: Bitmap)
    ensures
        bitmap_elems(r) == bitmap_elems(*b),
{
    b.clone()
}

/// Relies on croaring's `Bitmap::to_vec`: all stored integers, in sorted
/// (strictly ascending) order.
#[verifier::external_body]
pub fn bitmap_to_vec(b: &Bitmap) -> (r: Vec<u32>)
    ensures
        forall|j: int, k: int| 0 <= j < k < r@.len() ==> r@[j] < r@[k],
        forall|x: u32| #[trigger] r@.contains(x) <==> bitmap_elems(*b).contains(x),
{
    b.to_vec()
}

/// The bit index contributed by run entry `start` at offset `k`, with the
/// 32-bit wraparound of the reference decoder's release-mode addition.
pub open spec fn wrap_bit(start: u32, k: int) -> u32 {
    ((start + k) % 0x100000000) as u32
}

/// The bit indices contributed by offsets `k..64` of one `(start, map)` run.
pub open spec fn word_bits_from(start: u32, map: u64, k: int) -> Set<u32>
    decreases 64 - k,
{
    if k < 0 || k >= 64 {
        Set::empty()
    } else {
        let rest = word_bits_from(start, map, k + 1);
        if (map >> (k as u64)) & 1 == 1 {
            rest.insert(wrap_bit(start, k))
        } else {
            rest
        }
    }
}

/// Parses `count` runs of `(start_bit: u32, map: u64)` and accumulates the
/// set of contributed bit indices.
pub open spec fn sp_ebitmap_runs(d: Seq<u8>, p: int, count: int) -> Option<(Set<u32>, int)>
    decreases count,
{
    if count <= 0 {
        Some((Set::empty(), p))
    } else {
        match sp_ebitmap_runs(d, p, count - 1) {
            Some((s, p1)) => match sp_u32(d, p1) {
                Some((start, p2)) => match sp_u64(d, p2) {
                    Some((map, p3)) => Some((s.union(word_bits_from(start, map, 0)), p3)),
                    None => None,
                },
                None => None,
            },
            None => None,
        }
    }
}

/// Parses an extensible bitmap: `map_size`, `high_bit`, `map_count`, then
/// `map_count` runs. `map_size` and `high_bit` are read but not otherwise
/// validated.
pub open spec fn sp_bitmap(d: Seq<u8>, p: int) -> Option<(Set<u32>, int)> {
    match sp_u32(d, p) {
        Some((_map_size, p1)) => match sp_u32(d, p1) {
            Some((_high_bit, p2)) => match sp_u32(d, p2) {
                Some((map_count, p3)) => sp_ebitmap_runs(d, p3, map_count as int),
                None => None,
            },
            None => None,
        },
        None => None,
    }
}

/// Once a prefix of the runs fails to parse, any longer run count fails too.
proof fn lemma_runs_none_mono(d: Seq<u8>, p: int, m: int, n: int)
    requires
        0 <= m <= n,
        sp_ebitmap_runs(d, p, m) is None,
    ensures
        sp_ebitmap_runs(d, p, n) is None,
    decreases n,
{
    if n > m {
        lemma_runs_none_mono(d, p, m, n - 1);
    }
}

/// Reads an extensible bitmap from the stream.
pub fn decode_bitmap(r: &mut PolicyReader) -> (res: Result<Bitmap, PolicyReadError>)
    requires
        old(r).wf(),
    ensures
        reader_preserved(*old(r), *final(r)),
        match res {
            Ok(b) => sp_bitmap(old(r).data@, old(r).pos as int) == Some(
                (bitmap_elems(b), final(r).pos as int),
            ),
            Err(e) => {
                &&& sp_bitmap(old(r).data@, old(r).pos as int) is None
                &&& e@ == ReadErrV::InputError
            },
        },
{
    let ghost d = r.data@;
    let _map_size = match r.read_u32() {
        Ok(v) => v,
        Err(e) => {
            return Err(e);
        },
    };
    let _high_bit = match r.read_u32() {
        Ok(v) => v,
        Err(e) => {
            return Err(e);
        },
    };
    let map_count = match r.read_u32() {
        Ok(v) => v,
        Err(e) => {
            return Err(e);
        },
    };
    let ghost ph = r.pos as int;
    let mut bm = bitmap_new();
    let mut idx: u32 = 0;
    proof {
        assert(bitmap_elems(bm) =~= Set::<u32>::empty());
    }
    while idx < map_count
        invariant
            idx <= map_count,
            r.wf(),
            r.data@ == d,
            d == old(r).data@,
            r.prof_opt() == old(r).prof_opt(),
            old(r).pos <= r.pos,
            sp_bitmap(d, old(r).pos as int) == sp_ebitmap_runs(d, ph, map_count as int),
            sp_ebitmap_runs(d, ph, idx as int) == Some((bitmap_elems(bm), r.pos as int)),
        decreases map_count - idx,
    {
        let ghost p_entry = r.pos as int;
        let start = match r.read_u32() {
            Ok(v) => v,
            Err(e) => {
                proof {
                    assert(sp_ebitmap_runs(d, ph, idx + 1) is None);
                    lemma_runs_none_mono(d, ph, idx + 1, map_count as int);
                }
                return Err(e);
            },
        };
        let map = match r.read_u64() {
            Ok(v) => v,
            Err(e) => {
                proof {
                    assert(sp_ebitmap_runs(d, ph, idx + 1) is None);
                    lemma_runs_none_mono(d, ph, idx + 1, map_count as int);
                }
                return Err(e);
            },
        };
        let ghost base = bitmap_elems(bm);
        let mut k: u64 = 0;
        while k < 64
            invariant
                0 <= k <= 64,
                bitmap_elems(bm).union(word_bits_from(start, map, k as int)) == base.union(
                    word_bits_from(start, map, 0),
                ),
            decreases 64 - k,
        {
            if (map >> k) & 1 == 1 {
                let bit = ((start as u64 + k) % 0x100000000) as u32;
                let ghost before = bitmap_elems(bm);
                bitmap_add(&mut bm, bit);
                proof {
                    assert(bit == wrap_bit(start, k as int));
                    assert(word_bits_from(start, map, k as int) == word_bits_from(
                        start,
                        map,
                        k as int + 1,
                    ).insert(bit));
                    assert(bitmap_elems(bm).union(word_bits_from(start, map, k as int + 1))
                        =~= before.union(word_bits_from(start, map, k as int)));
                }
            } else {
                proof {
                    assert(word_bits_from(start, map, k as int) == word_bits_from(
                        start,
                        map,
                        k as int + 1,
                    ));
                }
            }
            k = k + 1;
        }
        proof {
            assert(word_bits_from(start, map, 64) =~= Set::<u32>::empty());
            assert(bitmap_elems(bm).union(Set::<u32>::empty()) =~= bitmap_elems(bm));
            assert(base.union(word_bits_from(start, map, 0)) =~= bitmap_elems(bm));
            assert(sp_ebitmap_runs(d, ph, idx + 1) == Some((bitmap_elems(bm), r.pos as int)));
        }
        idx = idx + 1;
    }
    Ok(bm)
}

} // verus!
