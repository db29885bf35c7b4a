//! The primitive reader: a forward-only cursor over a byte stream that reads
//! little-endian integers and length-prefixed strings, together with the
//! specification-level parsers that its contracts are stated against.

use vstd::prelude::*;

use crate::avtab::{sp_avtab, AccessVectorTable};
use crate::bitmap::{decode_bitmap, sp_bitmap};
use crate::class::{Class, Common};
use crate::conditional::Boolean;
use crate::mls::{Category, Sensitivity};
use crate::polcap::{sp_polcaps, PolicyCapabilitySet};
use crate::policy::{
    is_selinux_platform, is_xen_platform, lemma_sp_objects_err_mono, platform_is_selinux,
    platform_is_xen, sp_objects, views_of, Policy, PolicyObject, PolicyTargetPlatform,
    PolicyType, PolicyTypeV, PolicyV, SELINUX_MAGIC_NUMBER, SELINUX_MOD_MAGIC_NUMBER,
};
use crate::profile::{CompatibilityProfile, Feature, ProfileV};
use crate::role::Role;
use crate::symtable::{
    sp_counted_symbol_table, sp_symbol_table, st_from_records, Symbol, SymbolTable,
};
use crate::ty::Type;
use crate::user::User;

verus! {

/// The composite decode error. All errors are fatal to the decode: there is
/// no partial policy or best-effort recovery.
#[derive(Debug)]
pub enum PolicyReadError {
    InvalidAccessVectorSpecifier,
    InvalidMagicCode(u32),
    InvalidPolicyCapability,
    InvalidTargetPlatform(Vec<u8>),
    InvalidVersion(u32),
    InputError,
    UnsupportedFeatureUsed(Feature),
}

/// Mathematical model of a decode error.
pub enum ReadErrV {
    InvalidAccessVectorSpecifier,
    InvalidMagicCode(u32),
    InvalidPolicyCapability,
    InvalidTargetPlatform(Seq<u8>),
    InvalidVersion(u32),
    InputError,
    UnsupportedFeatureUsed(Feature),
}

impl View for PolicyReadError {
    type V = ReadErrV;

    open spec fn view(&self) -> ReadErrV {
        match self {
            PolicyReadError::InvalidAccessVectorSpecifier => ReadErrV::InvalidAccessVectorSpecifier,
            PolicyReadError::InvalidMagicCode(m) => ReadErrV::InvalidMagicCode(*m),
            PolicyReadError::InvalidPolicyCapability => ReadErrV::InvalidPolicyCapability,
            PolicyReadError::InvalidTargetPlatform(p) => ReadErrV::InvalidTargetPlatform(p@),
            PolicyReadError::InvalidVersion(v) => ReadErrV::InvalidVersion(*v),
            PolicyReadError::InputError => ReadErrV::InputError,
            PolicyReadError::UnsupportedFeatureUsed(f) => ReadErrV::UnsupportedFeatureUsed(*f),
        }
    }
}

/// A little-endian 16-bit word assembled from two bytes.
pub open spec fn le16(b0: u8, b1: u8) -> u16 {
    (b0 as u16) | ((b1 as u16) << 8)
}

/// A little-endian 32-bit word assembled from four bytes.
pub open spec fn le32(b0: u8, b1: u8, b2: u8, b3: u8) -> u32 {
    (b0 as u32) | ((b1 as u32) << 8) | ((b2 as u32) << 16) | ((b3 as u32) << 24)
}

/// A little-endian 64-bit word assembled from eight bytes.
pub open spec fn le64(b0: u8, b1: u8, b2: u8, b3: u8, b4: u8, b5: u8, b6: u8, b7: u8) -> u64 {
    (b0 as u64) | ((b1 as u64) << 8) | ((b2 as u64) << 16) | ((b3 as u64) << 24)
        | ((b4 as u64) << 32) | ((b5 as u64) << 40) | ((b6 as u64) << 48) | ((b7 as u64) << 56)
}

/// Parses one byte at position `p`; `None` past the end of the stream.
pub open spec fn sp_u8(d: Seq<u8>, p: int) -> Option<(u8, int)> {
    if 0 <= p && p + 1 <= d.len() {
        Some((d[p], p + 1))
    } else {
        None
    }
}

/// Parses a little-endian `u16` at position `p`.
pub open spec fn sp_u16(d: Seq<u8>, p: int) -> Option<(u16, int)> {
    if 0 <= p && p + 2 <= d.len() {
        Some((le16(d[p], d[p + 1]), p + 2))
    } else {
        None
    }
}

/// Parses a little-endian `u32` at position `p`.
pub open spec fn sp_u32(d: Seq<u8>, p: int) -> Option<(u32, int)> {
    if 0 <= p && p + 4 <= d.len() {
        Some((le32(d[p], d[p + 1], d[p + 2], d[p + 3]), p + 4))
    } else {
        None
    }
}

/// Parses a little-endian `u64` at position `p`.
pub open spec fn sp_u64(d: Seq<u8>, p: int) -> Option<(u64, int)> {
    if 0 <= p && p + 8 <= d.len() {
        Some((le64(d[p], d[p + 1], d[p + 2], d[p + 3], d[p + 4], d[p + 5], d[p + 6], d[p + 7]),
            p + 8))
    } else {
        None
    }
}

/// A continuation byte of a UTF-8 sequence.
pub open spec fn is_utf8_cont(b: u8) -> bool {
    0x80 <= b && b <= 0xbf
}

/// Strict UTF-8 well-formedness of a byte sequence, following the RFC 3629
/// table: no overlong encodings, no surrogates, nothing above U+10FFFF.
pub open spec fn is_utf8(s: Seq<u8>) -> bool
    decreases s.len(),
{
    if s.len() == 0 {
        true
    } else {
        let b0 = s[0];
        if b0 < 0x80 {
            is_utf8(s.skip(1))
        } else if 0xc2 <= b0 && b0 <= 0xdf {
            s.len() >= 2 && is_utf8_cont(s[1]) && is_utf8(s.skip(2))
        } else if b0 == 0xe0 {
            s.len() >= 3 && 0xa0 <= s[1] && s[1] <= 0xbf && is_utf8_cont(s[2]) && is_utf8(s.skip(3))
        } else if (0xe1 <= b0 && b0 <= 0xec) || b0 == 0xee || b0 == 0xef {
            s.len() >= 3 && is_utf8_cont(s[1]) && is_utf8_cont(s[2]) && is_utf8(s.skip(3))
        } else if b0 == 0xed {
            s.len() >= 3 && 0x80 <= s[1] && s[1] <= 0x9f && is_utf8_cont(s[2]) && is_utf8(s.skip(3))
        } else if b0 == 0xf0 {
            s.len() >= 4 && 0x90 <= s[1] && s[1] <= 0xbf && is_utf8_cont(s[2]) && is_utf8_cont(s[3])
                && is_utf8(s.skip(4))
        } else if 0xf1 <= b0 && b0 <= 0xf3 {
            s.len() >= 4 && is_utf8_cont(s[1]) && is_utf8_cont(s[2]) && is_utf8_cont(s[3])
                && is_utf8(s.skip(4))
        } else if b0 == 0xf4 {
            s.len() >= 4 && 0x80 <= s[1] && s[1] <= 0x8f && is_utf8_cont(s[2]) && is_utf8_cont(s[3])
                && is_utf8(s.skip(4))
        } else {
            false
        }
    }
}

/// Parses `n` raw bytes at position `p`.
pub open spec fn sp_bytes(d: Seq<u8>, p: int, n: int) -> Option<(Seq<u8>, int)> {
    if 0 <= p && 0 <= n && p + n <= d.len() {
        Some((d.subrange(p, p + n), p + n))
    } else {
        None
    }
}

/// Parses a string of exactly `n` bytes at position `p`: the bytes must be
/// present and pass strict UTF-8 validation.
pub open spec fn sp_string(d: Seq<u8>, p: int, n: int) -> Option<(Seq<u8>, int)> {
    match sp_bytes(d, p, n) {
        Some((s, p2)) => if is_utf8(s) {
            Some((s, p2))
        } else {
            None
        },
        None => None,
    }
}

proof fn lemma_skip_skip(s: Seq<u8>, a: int, b: int)
    requires
        0 <= a,
        0 <= b,
        a + b <= s.len(),
    ensures
        s.skip(a).skip(b) == s.skip(a + b),
{
    assert(s.skip(a).skip(b) =~= s.skip(a + b));
}

/// Checks strict UTF-8 well-formedness of a byte vector.
pub fn check_utf8(v: &Vec<u8>) -> (r: bool)
    ensures
        r == is_utf8(v@),
{
    let n = v.len();
    let mut i: usize = 0;
    assert(v@.skip(0) =~= v@);
    while i < n
        invariant
            0 <= i <= n,
            n == v@.len(),
            is_utf8(v@) == is_utf8(v@.skip(i as int)),
        decreases n - i,
    {
        let ghost s = v@.skip(i as int);
        let b0 = v[i];
        assert(s[0] == b0);
        if b0 < 0x80 {
            proof {
                lemma_skip_skip(v@, i as int, 1);
            }
            i = i + 1;
        } else if 0xc2 <= b0 && b0 <= 0xdf {
            if n - i < 2 || !(0x80 <= v[i + 1] && v[i + 1] <= 0xbf) {
                assert(!is_utf8(s));
                return false;
            }
            assert(s[1] == v@[i + 1]);
            proof {
                lemma_skip_skip(v@, i as int, 2);
            }
            i = i + 2;
        } else if b0 == 0xe0 {
            if n - i < 3 || !(0xa0 <= v[i + 1] && v[i + 1] <= 0xbf)
                || !(0x80 <= v[i + 2] && v[i + 2] <= 0xbf) {
                assert(!is_utf8(s));
                return false;
            }
            assert(s[1] == v@[i + 1] && s[2] == v@[i + 2]);
            proof {
                lemma_skip_skip(v@, i as int, 3);
            }
            i = i + 3;
        } else if (0xe1 <= b0 && b0 <= 0xec) || b0 == 0xee || b0 == 0xef {
            if n - i < 3 || !(0x80 <= v[i + 1] && v[i + 1] <= 0xbf)
                || !(0x80 <= v[i + 2] && v[i + 2] <= 0xbf) {
                assert(!is_utf8(s));
                return false;
            }
            assert(s[1] == v@[i + 1] && s[2] == v@[i + 2]);
            proof {
                lemma_skip_skip(v@, i as int, 3);
            }
            i = i + 3;
        } else if b0 == 0xed {
            if n - i < 3 || !(0x80 <= v[i + 1] && v[i + 1] <= 0x9f)
                || !(0x80 <= v[i + 2] && v[i + 2] <= 0xbf) {
                assert(!is_utf8(s));
                return false;
            }
            assert(s[1] == v@[i + 1] && s[2] == v@[i + 2]);
            proof {
                lemma_skip_skip(v@, i as int, 3);
            }
            i = i + 3;
        } else if b0 == 0xf0 {
            if n - i < 4 || !(0x90 <= v[i + 1] && v[i + 1] <= 0xbf)
                || !(0x80 <= v[i + 2] && v[i + 2] <= 0xbf)
                || !(0x80 <= v[i + 3] && v[i + 3] <= 0xbf) {
                assert(!is_utf8(s));
                return false;
            }
            assert(s[1] == v@[i + 1] && s[2] == v@[i + 2] && s[3] == v@[i + 3]);
            proof {
                lemma_skip_skip(v@, i as int, 4);
            }
            i = i + 4;
        } else if 0xf1 <= b0 && b0 <= 0xf3 {
            if n - i < 4 || !(0x80 <= v[i + 1] && v[i + 1] <= 0xbf)
                || !(0x80 <= v[i + 2] && v[i + 2] <= 0xbf)
                || !(0x80 <= v[i + 3] && v[i + 3] <= 0xbf) {
                assert(!is_utf8(s));
                return false;
            }
            assert(s[1] == v@[i + 1] && s[2] == v@[i + 2] && s[3] == v@[i + 3]);
            proof {
                lemma_skip_skip(v@, i as int, 4);
            }
            i = i + 4;
        } else if b0 == 0xf4 {
            if n - i < 4 || !(0x80 <= v[i + 1] && v[i + 1] <= 0x8f)
                || !(0x80 <= v[i + 2] && v[i + 2] <= 0xbf)
                || !(0x80 <= v[i + 3] && v[i + 3] <= 0xbf) {
                assert(!is_utf8(s));
                return false;
            }
            assert(s[1] == v@[i + 1] && s[2] == v@[i + 2] && s[3] == v@[i + 3]);
            proof {
                lemma_skip_skip(v@, i as int, 4);
            }
            i = i + 4;
        } else {
            assert(!is_utf8(s));
            return false;
        }
    }
    assert(v@.skip(n as int) =~= Seq::<u8>::empty());
    true
}

/// Byte-wise equality of two byte vectors.
pub fn bytes_eq(a: &Vec<u8>, b: &Vec<u8>) -> (r: bool)
    ensures
        r == (a@ == b@),
{
    if a.len() != b.len() {
        return false;
    }
    let n = a.len();
    let mut i: usize = 0;
    while i < n
        invariant
            0 <= i <= n,
            n == a@.len(),
            n == b@.len(),
            forall|j: int| 0 <= j < i ==> a@[j] == b@[j],
        decreases n - i,
    {
        if a[i] != b[i] {
            return false;
        }
        i = i + 1;
    }
    proof {
        assert(a@ =~= b@);
    }
    true
}

/// Decodes the policy representation from a binary stream held in memory.
pub struct PolicyReader {
    pub data: Vec<u8>,
    pub pos: usize,
    pub profile: Option<CompatibilityProfile>,
}

/// The parts of a reader that every decode step preserves: the underlying
/// bytes and the derived profile stay fixed, and the cursor only advances.
pub open spec fn reader_preserved(r0: PolicyReader, r1: PolicyReader) -> bool {
    &&& r1.wf()
    &&& r1.data@ == r0.data@
    &&& r1.prof_opt() == r0.prof_opt()
    &&& r0.pos <= r1.pos
}

impl PolicyReader {
    pub open spec fn wf(&self) -> bool {
        self.pos <= self.data@.len()
    }

    pub open spec fn prof_opt(&self) -> Option<ProfileV> {
        match self.profile {
            Some(p) => Some(p@),
            None => None,
        }
    }

    /// The derived compatibility profile, once the header has been read.
    pub open spec fn prof(&self) -> ProfileV
        recommends
            self.profile is Some,
    {
        match self.profile {
            Some(p) => p@,
            None => arbitrary(),
        }
    }

    pub fn new(buf: Vec<u8>) -> (r: Self)
        ensures
            r.data@ == buf@,
            r.pos == 0,
            r.profile is None,
            r.wf(),
    {
        PolicyReader { data: buf, pos: 0, profile: None }
    }

    /// A borrow of the derived compatibility profile.
    pub fn profile(&self) -> (r: &CompatibilityProfile)
        requires
            self.profile is Some,
        ensures
            r@ == self.prof(),
    {
        match &self.profile {
            Some(p) => p,
            None => vstd::pervasive::unreached(),
        }
    }

    pub fn read_u8(&mut self) -> (res: Result<u8, PolicyReadError>)
        requires
            old(self).wf(),
        ensures
            reader_preserved(*old(self), *final(self)),
            match res {
                Ok(v) => sp_u8(old(self).data@, old(self).pos as int) == Some((v, final(self).pos as int)),
                Err(e) => {
                    &&& sp_u8(old(self).data@, old(self).pos as int) is None
                    &&& e@ == ReadErrV::InputError
                    &&& final(self).pos == old(self).pos
                },
            },
    {
        if self.data.len() - self.pos >= 1 {
            let b = self.data[self.pos];
            self.pos = self.pos + 1;
            Ok(b)
        } else {
            Err(PolicyReadError::InputError)
        }
    }

    pub fn read_u16(&mut self) -> (res: Result<u16, PolicyReadError>)
        requires
            old(self).wf(),
        ensures
            reader_preserved(*old(self), *final(self)),
            match res {
                Ok(v) => sp_u16(old(self).data@, old(self).pos as int) == Some((v, final(self).pos as int)),
                Err(e) => {
                    &&& sp_u16(old(self).data@, old(self).pos as int) is None
                    &&& e@ == ReadErrV::InputError
                    &&& final(self).pos == old(self).pos
                },
            },
    {
        if self.data.len() - self.pos >= 2 {
            let b0 = self.data[self.pos];
            let b1 = self.data[self.pos + 1];
            self.pos = self.pos + 2;
            Ok((b0 as u16) | ((b1 as u16) << 8))
        } else {
            Err(PolicyReadError::InputError)
        }
    }

    pub fn read_u32(&mut self) -> (res: Result<u32, PolicyReadError>)
        requires
            old(self).wf(),
        ensures
            reader_preserved(*old(self), *final(self)),
            match res {
                Ok(v) => sp_u32(old(self).data@, old(self).pos as int) == Some((v, final(self).pos as int)),
                Err(e) => {
                    &&& sp_u32(old(self).data@, old(self).pos as int) is None
                    &&& e@ == ReadErrV::InputError
                    &&& final(self).pos == old(self).pos
                },
            },
    {
        if self.data.len() - self.pos >= 4 {
            let b0 = self.data[self.pos];
            let b1 = self.data[self.pos + 1];
            let b2 = self.data[self.pos + 2];
            let b3 = self.data[self.pos + 3];
            self.pos = self.pos + 4;
            Ok((b0 as u32) | ((b1 as u32) << 8) | ((b2 as u32) << 16) | ((b3 as u32) << 24))
        } else {
            Err(PolicyReadError::InputError)
        }
    }

    pub fn read_u64(&mut self) -> (res: Result<u64, PolicyReadError>)
        requires
            old(self).wf(),
        ensures
            reader_preserved(*old(self), *final(self)),
            match res {
                Ok(v) => sp_u64(old(self).data@, old(self).pos as int) == Some((v, final(self).pos as int)),
                Err(e) => {
                    &&& sp_u64(old(self).data@, old(self).pos as int) is None
                    &&& e@ == ReadErrV::InputError
                    &&& final(self).pos == old(self).pos
                },
            },
    {
        if self.data.len() - self.pos >= 8 {
            let b0 = self.data[self.pos];
            let b1 = self.data[self.pos + 1];
            let b2 = self.data[self.pos + 2];
            let b3 = self.data[self.pos + 3];
            let b4 = self.data[self.pos + 4];
            let b5 = self.data[self.pos + 5];
            let b6 = self.data[self.pos + 6];
            let b7 = self.data[self.pos + 7];
            self.pos = self.pos + 8;
            Ok((b0 as u64) | ((b1 as u64) << 8) | ((b2 as u64) << 16) | ((b3 as u64) << 24)
                | ((b4 as u64) << 32) | ((b5 as u64) << 40) | ((b6 as u64) << 48)
                | ((b7 as u64) << 56))
        } else {
            Err(PolicyReadError::InputError)
        }
    }

    /// Reads a string of exactly `len` bytes; fails with `InputError` on a
    /// short stream or on bytes that are not valid UTF-8.
    pub fn read_string(&mut self, len: usize) -> (res: Result<Vec<u8>, PolicyReadError>)
        requires
            old(self).wf(),
        ensures
            reader_preserved(*old(self), *final(self)),
            match res {
                Ok(v) => sp_string(old(self).data@, old(self).pos as int, len as int) == Some(
                    (v@, final(self).pos as int),
                ),
                Err(e) => {
                    &&& sp_string(old(self).data@, old(self).pos as int, len as int) is None
                    &&& e@ == ReadErrV::InputError
                    &&& final(self).pos == old(self).pos
                },
            },
    {
        if self.data.len() - self.pos < len {
            return Err(PolicyReadError::InputError);
        }
        let mut out: Vec<u8> = Vec::new();
        let mut i: usize = 0;
        while i < len
            invariant
                0 <= i <= len,
                self.pos + len <= self.data@.len(),
                self.data@.len() <= usize::MAX,
                out@ == self.data@.subrange(self.pos as int, self.pos + i),
            decreases len - i,
        {
            out.push(self.data[self.pos + i]);
            proof {
                assert(out@ =~= self.data@.subrange(self.pos as int, self.pos + i + 1));
            }
            i = i + 1;
        }
        if !check_utf8(&out) {
            return Err(PolicyReadError::InputError);
        }
        self.pos = self.pos + len;
        Ok(out)
    }

    /// Decodes one record of type `O` from the stream.
    pub fn read_object<O: PolicyObject>(&mut self) -> (res: Result<O, PolicyReadError>)
        requires
            old(self).wf(),
            old(self).profile is Some,
        ensures
            reader_preserved(*old(self), *final(self)),
            match res {
                Ok(v) => O::sp_decode(old(self).data@, old(self).pos as int, old(self).prof())
                    == Ok::<_, ReadErrV>((v@, final(self).pos as int)),
                Err(e) => O::sp_decode(old(self).data@, old(self).pos as int, old(self).prof())
                    == Err::<(O::V, int), _>(e@),
            },
    {
        O::decode(self)
    }

    /// Decodes `count` records of type `O` in sequence.
    pub fn read_objects<O: PolicyObject>(&mut self, count: usize) -> (res: Result<
        Vec<O>,
        PolicyReadError,
    >)
        requires
            old(self).wf(),
            old(self).profile is Some,
        ensures
            reader_preserved(*old(self), *final(self)),
            match res {
                Ok(v) => sp_objects::<O>(
                    old(self).data@,
                    old(self).pos as int,
                    old(self).prof(),
                    count as int,
                ) == Ok::<_, ReadErrV>((views_of(v@), final(self).pos as int)),
                Err(e) => sp_objects::<O>(
                    old(self).data@,
                    old(self).pos as int,
                    old(self).prof(),
                    count as int,
                ) == Err::<(Seq<O::V>, int), _>(e@),
            },
    {
        let ghost d = self.data@;
        let ghost p0 = self.pos as int;
        let ghost prof = self.prof();
        let mut list: Vec<O> = Vec::new();
        proof {
            assert(views_of(list@) =~= Seq::<O::V>::empty());
        }
        let mut i: usize = 0;
        while i < count
            invariant
                i <= count,
                self.wf(),
                self.data@ == d,
                d == old(self).data@,
                self.prof_opt() == old(self).prof_opt(),
                self.profile is Some,
                prof == old(self).prof(),
                prof == self.prof(),
                p0 == old(self).pos as int,
                old(self).pos <= self.pos,
                sp_objects::<O>(d, p0, prof, i as int) == Ok::<_, ReadErrV>(
                    (views_of(list@), self.pos as int),
                ),
            decreases count - i,
        {
            let ghost lv = views_of(list@);
            let o = match O::decode(self) {
                Ok(o) => o,
                Err(e) => {
                    proof {
                        assert(sp_objects::<O>(d, p0, prof, i + 1) is Err);
                        lemma_sp_objects_err_mono::<O>(d, p0, prof, i + 1, count as int);
                    }
                    return Err(e);
                },
            };
            list.push(o);
            proof {
                assert(views_of(list@) =~= lv.push(o@));
            }
            i = i + 1;
        }
        Ok(list)
    }

    /// Decodes `nel` symbols and assembles them into a table.
    pub fn read_bare_symbol_table<S: Symbol>(&mut self, nel: usize) -> (res: Result<
        SymbolTable<S>,
        PolicyReadError,
    >)
        requires
            old(self).wf(),
            old(self).profile is Some,
        ensures
            reader_preserved(*old(self), *final(self)),
            match res {
                Ok(t) => sp_symbol_table::<S>(
                    old(self).data@,
                    old(self).pos as int,
                    old(self).prof(),
                    nel as int,
                ) == Ok::<_, ReadErrV>((t@, final(self).pos as int)),
                Err(e) => sp_symbol_table::<S>(
                    old(self).data@,
                    old(self).pos as int,
                    old(self).prof(),
                    nel as int,
                ) == Err::<(Seq<S::V>, int), _>(e@),
            },
    {
        let ghost d = self.data@;
        let ghost p0 = self.pos as int;
        let ghost prof = self.prof();
        let mut table: SymbolTable<S> = SymbolTable::with_capacity(nel);
        let ghost mut rs: Seq<S::V> = Seq::empty();
        let mut el: usize = 0;
        while el < nel
            invariant
                el <= nel,
                self.wf(),
                self.data@ == d,
                d == old(self).data@,
                self.prof_opt() == old(self).prof_opt(),
                self.profile is Some,
                prof == old(self).prof(),
                prof == self.prof(),
                p0 == old(self).pos as int,
                old(self).pos <= self.pos,
                sp_objects::<S>(d, p0, prof, el as int) == Ok::<_, ReadErrV>(
                    (rs, self.pos as int),
                ),
                table@ == st_from_records::<S>(rs),
            decreases nel - el,
        {
            let o = match S::decode(self) {
                Ok(o) => o,
                Err(e) => {
                    proof {
                        assert(sp_objects::<S>(d, p0, prof, el + 1) is Err);
                        lemma_sp_objects_err_mono::<S>(d, p0, prof, el + 1, nel as int);
                    }
                    return Err(e);
                },
            };
            proof {
                assert(rs.push(o@).drop_last() =~= rs);
            }
            table.insert(o);
            proof {
                rs = rs.push(o@);
            }
            el = el + 1;
        }
        Ok(table)
    }

    /// Decodes a counted symbol table: two `u32` counts, then the records.
    pub fn read_symbol_table<S: Symbol>(&mut self) -> (res: Result<
        SymbolTable<S>,
        PolicyReadError,
    >)
        requires
            old(self).wf(),
            old(self).profile is Some,
        ensures
            reader_preserved(*old(self), *final(self)),
            match res {
                Ok(t) => sp_counted_symbol_table::<S>(
                    old(self).data@,
                    old(self).pos as int,
                    old(self).prof(),
                ) == Ok::<_, ReadErrV>((t@, final(self).pos as int)),
                Err(e) => sp_counted_symbol_table::<S>(
                    old(self).data@,
                    old(self).pos as int,
                    old(self).prof(),
                ) == Err::<(Seq<S::V>, int), _>(e@),
            },
    {
        let _num_primary_names = match self.read_u32() {
            Ok(v) => v,
            Err(e) => {
                return Err(e);
            },
        };
        let num_elements = match self.read_u32() {
            Ok(v) => v,
            Err(e) => {
                return Err(e);
            },
        };
        self.read_bare_symbol_table(num_elements as usize)
    }

    /// Reads the whole policy: the header, the derived profile, the
    /// capability set, the optional permissive-type bitmap, the eight
    /// symbol tables in their declared order, and the access-vector table.
    pub fn read_policy(self) -> (res: Result<Policy, PolicyReadError>)
        requires
            self.wf(),
        ensures
            match res {
                Ok(pol) => sp_policy(self.data@, self.pos as int) matches Ok((pv, _)) && pv
                    == pol@,
                Err(e) => sp_policy(self.data@, self.pos as int) == Err::<(PolicyV, int), _>(e@),
            },
    {
        let mut rd = self;
        let magic = match rd.read_u32() {
            Ok(v) => v,
            Err(e) => {
                return Err(e);
            },
        };
        if magic != SELINUX_MAGIC_NUMBER && magic != SELINUX_MOD_MAGIC_NUMBER {
            return Err(PolicyReadError::InvalidMagicCode(magic));
        }
        let platform_str_len = match rd.read_u32() {
            Ok(v) => v,
            Err(e) => {
                return Err(e);
            },
        };
        let platform = match rd.read_string(platform_str_len as usize) {
            Ok(v) => v,
            Err(e) => {
                return Err(e);
            },
        };
        let ty: PolicyType;
        if magic == SELINUX_MAGIC_NUMBER {
            let target = if platform_is_selinux(&platform) {
                PolicyTargetPlatform::SELinux
            } else if platform_is_xen(&platform) {
                PolicyTargetPlatform::Xen
            } else {
                return Err(PolicyReadError::InvalidTargetPlatform(platform));
            };
            ty = PolicyType::Kernel(target);
        } else {
            let is_base_w = match rd.read_u32() {
                Ok(v) => v,
                Err(e) => {
                    return Err(e);
                },
            };
            ty = PolicyType::Module {
                is_base_module: is_base_w == 1,
                name: Vec::new(),
                version: Vec::new(),
            };
        }
        let version = match rd.read_u32() {
            Ok(v) => v,
            Err(e) => {
                return Err(e);
            },
        };
        let _config = match rd.read_u32() {
            Ok(v) => v,
            Err(e) => {
                return Err(e);
            },
        };
        let _num_sym_tables = match rd.read_u32() {
            Ok(v) => v,
            Err(e) => {
                return Err(e);
            },
        };
        let _num_ocon_tables = match rd.read_u32() {
            Ok(v) => v,
            Err(e) => {
                return Err(e);
            },
        };
        let ty: PolicyType = match ty {
            PolicyType::Kernel(t) => PolicyType::Kernel(t),
            PolicyType::Module { is_base_module, .. } => {
                let name_len = match rd.read_u32() {
                    Ok(v) => v,
                    Err(e) => {
                        return Err(e);
                    },
                };
                let name = match rd.read_string(name_len as usize) {
                    Ok(v) => v,
                    Err(e) => {
                        return Err(e);
                    },
                };
                let version_len = match rd.read_u32() {
                    Ok(v) => v,
                    Err(e) => {
                        return Err(e);
                    },
                };
                let version_str = match rd.read_string(version_len as usize) {
                    Ok(v) => v,
                    Err(e) => {
                        return Err(e);
                    },
                };
                PolicyType::Module { is_base_module, name, version: version_str }
            },
        };
        let profile = CompatibilityProfile::new(ty, version);
        if !profile.version_in_range() {
            return Err(PolicyReadError::InvalidVersion(version));
        }
        rd.profile = Some(profile);
        let polcaps = match rd.read_object::<PolicyCapabilitySet>() {
            Ok(v) => v,
            Err(e) => {
                return Err(e);
            },
        };
        let permissive_type_map = if rd.profile().supports(Feature::PermissiveTypes) {
            match decode_bitmap(&mut rd) {
                Ok(v) => Some(v),
                Err(e) => {
                    return Err(e);
                },
            }
        } else {
            None
        };
        let common_classes = match rd.read_symbol_table::<Common>() {
            Ok(v) => v,
            Err(e) => {
                return Err(e);
            },
        };
        let classes = match rd.read_symbol_table::<Class>() {
            Ok(v) => v,
            Err(e) => {
                return Err(e);
            },
        };
        let roles = match rd.read_symbol_table::<Role>() {
            Ok(v) => v,
            Err(e) => {
                return Err(e);
            },
        };
        let types = match rd.read_symbol_table::<Type>() {
            Ok(v) => v,
            Err(e) => {
                return Err(e);
            },
        };
        let users = match rd.read_symbol_table::<User>() {
            Ok(v) => v,
            Err(e) => {
                return Err(e);
            },
        };
        let booleans = match rd.read_symbol_table::<Boolean>() {
            Ok(v) => v,
            Err(e) => {
                return Err(e);
            },
        };
        let sensitivities = match rd.read_symbol_table::<Sensitivity>() {
            Ok(v) => v,
            Err(e) => {
                return Err(e);
            },
        };
        let categories = match rd.read_symbol_table::<Category>() {
            Ok(v) => v,
            Err(e) => {
                return Err(e);
            },
        };
        let avtab = match rd.read_object::<AccessVectorTable>() {
            Ok(v) => v,
            Err(e) => {
                return Err(e);
            },
        };
        Ok(Policy {
            version,
            polcaps,
            profile: match rd.profile {
                Some(p) => p,
                None => vstd::pervasive::unreached(),
            },
            permissive_type_map,
            avtab,
            booleans,
            categories,
            common_classes,
            classes,
            roles,
            sensitivities,
            types,
            users,
        })
    }
}

/// Maps a kernel header's platform string to its target platform; an
/// unknown literal is fatal.
pub open spec fn sp_kernel_platform(platform: Seq<u8>) -> Result<PolicyTargetPlatform, ReadErrV> {
    if is_selinux_platform(platform) {
        Ok(PolicyTargetPlatform::SELinux)
    } else if is_xen_platform(platform) {
        Ok(PolicyTargetPlatform::Xen)
    } else {
        Err(ReadErrV::InvalidTargetPlatform(platform))
    }
}

/// The header: the magic word selects kernel or module (anything else is
/// fatal at once), then the platform string (matched against the known
/// literals for a kernel policy), the module's base flag, the version,
/// the config word, the two table counts, and for a module its name and
/// version strings. Yields the policy type, the version and the position
/// after the header.
pub open spec fn sp_header(d: Seq<u8>, p: int) -> Result<(PolicyTypeV, u32, int), ReadErrV> {
    match sp_u32(d, p) {
        Some((magic, p1)) => {
            if magic != SELINUX_MAGIC_NUMBER && magic != SELINUX_MOD_MAGIC_NUMBER {
                Err(ReadErrV::InvalidMagicCode(magic))
            } else {
                match sp_u32(d, p1) {
                    Some((plen, p2)) => match sp_string(d, p2, plen as int) {
                        Some((platform, p3)) => if magic == SELINUX_MAGIC_NUMBER {
                            match sp_kernel_platform(platform) {
                                Ok(target) => match sp_u32(d, p3) {
                                    Some((version, p4)) => match sp_u32(d, p4) {
                                        Some((_config, p5)) => match sp_u32(d, p5) {
                                            Some((_nsym, p6)) => match sp_u32(d, p6) {
                                                Some((_nocon, p7)) => Ok(
                                                    (PolicyTypeV::Kernel(target), version, p7),
                                                ),
                                                None => Err(ReadErrV::InputError),
                                            },
                                            None => Err(ReadErrV::InputError),
                                        },
                                        None => Err(ReadErrV::InputError),
                                    },
                                    None => Err(ReadErrV::InputError),
                                },
                                Err(e) => Err(e),
                            }
                        } else {
                            match sp_u32(d, p3) {
                                Some((is_base_w, p4)) => match sp_u32(d, p4) {
                                    Some((version, p5)) => match sp_u32(d, p5) {
                                        Some((_config, p6)) => match sp_u32(d, p6) {
                                            Some((_nsym, p7)) => match sp_u32(d, p7) {
                                                Some((_nocon, p8)) => match sp_u32(d, p8) {
                                                    Some((name_len, p9)) => match sp_string(
                                                        d,
                                                        p9,
                                                        name_len as int,
                                                    ) {
                                                        Some((name, p10)) => match sp_u32(
                                                            d,
                                                            p10,
                                                        ) {
                                                            Some((vlen, p11)) => match sp_string(
                                                                d,
                                                                p11,
                                                                vlen as int,
                                                            ) {
                                                                Some((vstr, p12)) => Ok(
                                                                    (
                                                                        PolicyTypeV::Module {
                                                                            is_base_module:
                                                                                is_base_w == 1,
                                                                            name,
                                                                            version: vstr,
                                                                        },
                                                                        version,
                                                                        p12,
                                                                    ),
                                                                ),
                                                                None => Err(ReadErrV::InputError),
                                                            },
                                                            None => Err(ReadErrV::InputError),
                                                        },
                                                        None => Err(ReadErrV::InputError),
                                                    },
                                                    None => Err(ReadErrV::InputError),
                                                },
                                                None => Err(ReadErrV::InputError),
                                            },
                                            None => Err(ReadErrV::InputError),
                                        },
                                        None => Err(ReadErrV::InputError),
                                    },
                                    None => Err(ReadErrV::InputError),
                                },
                                None => Err(ReadErrV::InputError),
                            }
                        },
                        None => Err(ReadErrV::InputError),
                    },
                    None => Err(ReadErrV::InputError),
                }
            }
        },
        None => Err(ReadErrV::InputError),
    }
}

/// The whole policy: the header, the profile derived from it (an
/// undecodable type-version pair is fatal), the capability set, the
/// optional permissive-type bitmap, the eight symbol tables in their
/// declared order, and the access-vector table.
pub open spec fn sp_policy(d: Seq<u8>, p: int) -> Result<(PolicyV, int), ReadErrV> {
    match sp_header(d, p) {
        Ok((tyv, version, p1)) => {
            let prof = ProfileV { ty: tyv, version };
            if !prof.version_in_range() {
                Err(ReadErrV::InvalidVersion(version))
            } else {
                match sp_polcaps(d, p1, prof) {
                    Ok((polcaps, p2)) => {
                        let perm_r = if prof.supports(Feature::PermissiveTypes) {
                            match sp_bitmap(d, p2) {
                                Some((s, p3)) => Ok((Some(s), p3)),
                                None => Err(ReadErrV::InputError),
                            }
                        } else {
                            Ok((None::<Set<u32>>, p2))
                        };
                        match perm_r {
                            Ok((permissive_type_map, p3)) => match sp_counted_symbol_table::<
                                Common,
                            >(d, p3, prof) {
                                Ok((common_classes, p4)) => match sp_counted_symbol_table::<
                                    Class,
                                >(d, p4, prof) {
                                    Ok((classes, p5)) => match sp_counted_symbol_table::<Role>(
                                        d,
                                        p5,
                                        prof,
                                    ) {
                                        Ok((roles, p6)) => match sp_counted_symbol_table::<Type>(
                                            d,
                                            p6,
                                            prof,
                                        ) {
                                            Ok((types, p7)) => match sp_counted_symbol_table::<
                                                User,
                                            >(d, p7, prof) {
                                                Ok((users, p8)) => match sp_counted_symbol_table::<
                                                    Boolean,
                                                >(d, p8, prof) {
                                                    Ok((booleans, p9)) => match sp_counted_symbol_table::<
                                                        Sensitivity,
                                                    >(d, p9, prof) {
                                                        Ok((sensitivities, p10)) => match sp_counted_symbol_table::<
                                                            Category,
                                                        >(d, p10, prof) {
                                                            Ok((categories, p11)) => match sp_avtab(
                                                                d,
                                                                p11,
                                                                prof,
                                                            ) {
                                                                Ok((avtab, p12)) => Ok(
                                                                    (
                                                                        PolicyV {
                                                                            version,
                                                                            polcaps,
                                                                            profile: prof,
                                                                            permissive_type_map,
                                                                            avtab,
                                                                            booleans,
                                                                            categories,
                                                                            common_classes,
                                                                            classes,
                                                                            roles,
                                                                            sensitivities,
                                                                            types,
                                                                            users,
                                                                        },
                                                                        p12,
                                                                    ),
                                                                ),
                                                                Err(e) => Err(e),
                                                            },
                                                            Err(e) => Err(e),
                                                        },
                                                        Err(e) => Err(e),
                                                    },
                                                    Err(e) => Err(e),
                                                },
                                                Err(e) => Err(e),
                                            },
                                            Err(e) => Err(e),
                                        },
                                        Err(e) => Err(e),
                                    },
                                    Err(e) => Err(e),
                                },
                                Err(e) => Err(e),
                            },
                            Err(e) => Err(e),
                        }
                    },
                    Err(e) => Err(e),
                }
            }
        },
        Err(e) => Err(e),
    }
}

/// A stream whose first word is neither magic number fails with
/// `InvalidMagicCode` of that word, whatever the rest of the stream
/// holds.
pub proof fn lemma_magic_dispatch(d: Seq<u8>, p: int, magic: u32, p1: int)
    requires
        sp_u32(d, p) == Some((magic, p1)),
        magic != SELINUX_MAGIC_NUMBER,
        magic != SELINUX_MOD_MAGIC_NUMBER,
    ensures
        sp_policy(d, p) == Err::<(PolicyV, int), _>(ReadErrV::InvalidMagicCode(magic)),
{
}

/// The magic-dispatch failure reads no further bytes: two streams that
/// agree on the word at the cursor fail identically, whatever follows.
pub proof fn lemma_magic_error_ignores_tail(
    d1: Seq<u8>,
    p1: int,
    d2: Seq<u8>,
    p2: int,
    magic: u32,
    q1: int,
    q2: int,
)
    requires
        sp_u32(d1, p1) == Some((magic, q1)),
        sp_u32(d2, p2) == Some((magic, q2)),
        magic != SELINUX_MAGIC_NUMBER,
        magic != SELINUX_MOD_MAGIC_NUMBER,
    ensures
        sp_policy(d1, p1) == sp_policy(d2, p2),
{
}

/// Platform mapping: the literal `"SE Linux"` yields the SELinux target,
/// `"XenFlask"` yields the Xen target, and any other literal is rejected
/// as an invalid target platform carrying exactly that string.
pub proof fn lemma_platform_mapping(platform: Seq<u8>)
    ensures
        is_selinux_platform(platform) ==> sp_kernel_platform(platform) == Ok::<_, ReadErrV>(
            PolicyTargetPlatform::SELinux,
        ),
        is_xen_platform(platform) ==> sp_kernel_platform(platform) == Ok::<_, ReadErrV>(
            PolicyTargetPlatform::Xen,
        ),
        !is_selinux_platform(platform) && !is_xen_platform(platform)
            ==> sp_kernel_platform(platform) == Err::<PolicyTargetPlatform, _>(
            ReadErrV::InvalidTargetPlatform(platform),
        ),
{
}

} // verus!
