//! The access-vector rule table, with its legacy and extended wire
//! encodings.

use vstd::prelude::*;

use crate::policy::{views_of, PolicyObject};
use crate::profile::{Feature, ProfileV};
use crate::reader::{sp_u16, sp_u32, sp_u8, PolicyReadError, PolicyReader, ReadErrV};

verus! {

pub const AVTAB_ALLOWED: u16 = 0x0001;

pub const AVTAB_AUDITALLOW: u16 = 0x0002;

pub const AVTAB_AUDITDENY: u16 = 0x0004;

pub const AVTAB_TRANSITION: u16 = 0x0010;

pub const AVTAB_MEMBER: u16 = 0x0020;

pub const AVTAB_CHANGE: u16 = 0x0040;

pub const AVTAB_NEVERALLOW: u16 = 0x0080;

pub const AVTAB_XPERMS_ALLOWED: u16 = 0x0100;

pub const AVTAB_XPERMS_AUDITALLOW: u16 = 0x0200;

pub const AVTAB_XPERMS_DONTAUDIT: u16 = 0x0400;

pub const AVTAB_XPERMS_NEVERALLOW: u16 = 0x0800;

pub const AVTAB_ENABLED: u16 = 0x8000;

/// `ALLOWED | AUDITALLOW | AUDITDENY`.
pub const AVTAB_AV: u16 = 0x0007;

/// `TRANSITION | MEMBER | CHANGE`.
pub const AVTAB_TYPE: u16 = 0x0070;

/// `XPERMS_ALLOWED | XPERMS_AUDITALLOW | XPERMS_DONTAUDIT`.
pub const AVTAB_XPERMS: u16 = 0x0700;

/// Every known specifier bit.
pub const AVTAB_VALID_MASK: u16 = 0x8ff7;

/// The complement of `AVTAB_VALID_MASK` in sixteen bits.
pub const AVTAB_INVALID_MASK: u16 = 0x7008;

/// The enabled bit of the legacy 32-bit specifier word.
pub const AVTAB_ENABLED_OLD: u32 = 0x80000000;

/// A table key: source type, target type, target class and specifier.
#[derive(Clone, Copy, Debug, Hash, PartialEq, Eq, Structural)]
pub struct AccessVectorTableKey {
    pub source_type: u16,
    pub target_type: u16,
    pub target_class: u16,
    pub specifier: u16,
}

/// The value of a rule: a plain access vector or an extended-permission
/// record of exactly eight 32-bit words.
#[derive(Debug)]
pub enum AccessVector {
    Simple(u32),
    Extended { specified: u8, driver: u8, permissions: [u32; 8] },
}

/// Mathematical model of an `AccessVector`.
pub enum AccessVectorV {
    Simple(u32),
    Extended { specified: u8, driver: u8, permissions: Seq<u32> },
}

impl View for AccessVector {
    type V = AccessVectorV;

    open spec fn view(&self) -> AccessVectorV {
        match self {
            AccessVector::Simple(v) => AccessVectorV::Simple(*v),
            AccessVector::Extended { specified, driver, permissions } => AccessVectorV::Extended {
                specified: *specified,
                driver: *driver,
                permissions: permissions@,
            },
        }
    }
}

/// One rule of the table.
#[derive(Debug)]
pub struct AccessVectorTableEntry {
    pub key: AccessVectorTableKey,
    pub av: AccessVector,
}

/// Mathematical model of an `AccessVectorTableEntry`.
pub struct AvtabEntryV {
    pub key: AccessVectorTableKey,
    pub av: AccessVectorV,
}

impl View for AccessVectorTableEntry {
    type V = AvtabEntryV;

    open spec fn view(&self) -> AvtabEntryV {
        AvtabEntryV { key: self.key, av: self.av@ }
    }
}

/// The ordered rule table.
#[derive(Debug)]
pub struct AccessVectorTable {
    pub entries: Vec<AccessVectorTableEntry>,
}

impl View for AccessVectorTable {
    type V = Seq<AvtabEntryV>;

    open spec fn view(&self) -> Seq<AvtabEntryV> {
        views_of(self.entries@)
    }
}

/// The legacy one-of specifier bits, in the order in which a legacy row
/// fans out.
pub open spec fn legacy_spec_at(i: int) -> u16 {
    if i == 0 {
        AVTAB_ALLOWED
    } else if i == 1 {
        AVTAB_AUDITDENY
    } else if i == 2 {
        AVTAB_AUDITALLOW
    } else if i == 3 {
        AVTAB_TRANSITION
    } else if i == 4 {
        AVTAB_CHANGE
    } else if i == 5 {
        AVTAB_MEMBER
    } else if i == 6 {
        AVTAB_XPERMS_ALLOWED
    } else if i == 7 {
        AVTAB_XPERMS_AUDITALLOW
    } else {
        AVTAB_XPERMS_DONTAUDIT
    }
}

fn legacy_spec_of(i: usize) -> (r: u16)
    requires
        i < 9,
    ensures
        r == legacy_spec_at(i as int),
{
    if i == 0 {
        AVTAB_ALLOWED
    } else if i == 1 {
        AVTAB_AUDITDENY
    } else if i == 2 {
        AVTAB_AUDITALLOW
    } else if i == 3 {
        AVTAB_TRANSITION
    } else if i == 4 {
        AVTAB_CHANGE
    } else if i == 5 {
        AVTAB_MEMBER
    } else if i == 6 {
        AVTAB_XPERMS_ALLOWED
    } else if i == 7 {
        AVTAB_XPERMS_AUDITALLOW
    } else {
        AVTAB_XPERMS_DONTAUDIT
    }
}

/// How many of the legacy one-of bits a specifier sets.
pub open spec fn legacy_match_count(s: u16) -> int {
    (if s & AVTAB_ALLOWED != 0 {
        1int
    } else {
        0int
    }) + (if s & AVTAB_AUDITDENY != 0 {
        1int
    } else {
        0int
    }) + (if s & AVTAB_AUDITALLOW != 0 {
        1int
    } else {
        0int
    }) + (if s & AVTAB_TRANSITION != 0 {
        1int
    } else {
        0int
    }) + (if s & AVTAB_CHANGE != 0 {
        1int
    } else {
        0int
    }) + (if s & AVTAB_MEMBER != 0 {
        1int
    } else {
        0int
    }) + (if s & AVTAB_XPERMS_ALLOWED != 0 {
        1int
    } else {
        0int
    }) + (if s & AVTAB_XPERMS_AUDITALLOW != 0 {
        1int
    } else {
        0int
    }) + (if s & AVTAB_XPERMS_DONTAUDIT != 0 {
        1int
    } else {
        0int
    })
}

/// The entries emitted by the first `i` legacy fan-out positions of one
/// legacy row: each matching one-of bit consumes one datum word and emits
/// one entry whose specifier is that single bit ORed with the enabled bit.
pub open spec fn sp_legacy_upto(
    d: Seq<u8>,
    p: int,
    src: u16,
    tgt: u16,
    cls: u16,
    enabled: u16,
    specval: u32,
    i: int,
) -> Option<(Seq<AvtabEntryV>, int)>
    decreases i,
{
    if i <= 0 {
        Some((Seq::empty(), p))
    } else {
        match sp_legacy_upto(d, p, src, tgt, cls, enabled, specval, i - 1) {
            Some((s, p1)) => {
                let bit = legacy_spec_at(i - 1);
                if bit & (specval as u16) != 0 {
                    match sp_u32(d, p1) {
                        Some((datum, p2)) => Some(
                            (
                                s.push(
                                    AvtabEntryV {
                                        key: AccessVectorTableKey {
                                            source_type: src,
                                            target_type: tgt,
                                            target_class: cls,
                                            specifier: bit | enabled,
                                        },
                                        av: AccessVectorV::Simple(datum),
                                    },
                                ),
                                p2,
                            ),
                        ),
                        None => None,
                    }
                } else {
                    Some((s, p1))
                }
            },
            None => None,
        }
    }
}

proof fn lemma_legacy_none_mono(
    d: Seq<u8>,
    p: int,
    src: u16,
    tgt: u16,
    cls: u16,
    enabled: u16,
    specval: u32,
    m: int,
    n: int,
)
    requires
        0 <= m <= n,
        sp_legacy_upto(d, p, src, tgt, cls, enabled, specval, m) is None,
    ensures
        sp_legacy_upto(d, p, src, tgt, cls, enabled, specval, n) is None,
    decreases n,
{
    if n > m {
        lemma_legacy_none_mono(d, p, src, tgt, cls, enabled, specval, m, n - 1);
    }
}

/// Wire format of one legacy row: an informational word, the source type,
/// target type and target class as 32-bit words truncated to 16 bits, the
/// 32-bit specifier word (its top bit encodes the enabled flag), then the
/// fan-out over the legacy one-of bits.
pub open spec fn sp_av_row_legacy(d: Seq<u8>, p: int) -> Result<(Seq<AvtabEntryV>, int), ReadErrV> {
    match sp_u32(d, p) {
        Some((_items2, p1)) => match sp_u32(d, p1) {
            Some((src_w, p2)) => match sp_u32(d, p2) {
                Some((tgt_w, p3)) => match sp_u32(d, p3) {
                    Some((cls_w, p4)) => match sp_u32(d, p4) {
                        Some((specval, p5)) => {
                            let enabled = if specval & AVTAB_ENABLED_OLD != 0 {
                                AVTAB_ENABLED
                            } else {
                                0u16
                            };
                            match sp_legacy_upto(
                                d,
                                p5,
                                src_w as u16,
                                tgt_w as u16,
                                cls_w as u16,
                                enabled,
                                specval,
                                9,
                            ) {
                                Some(r) => Ok(r),
                                None => Err(ReadErrV::InputError),
                            }
                        },
                        None => Err(ReadErrV::InputError),
                    },
                    None => Err(ReadErrV::InputError),
                },
                None => Err(ReadErrV::InputError),
            },
            None => Err(ReadErrV::InputError),
        },
        None => Err(ReadErrV::InputError),
    }
}

/// The checked body of one extended-format row, after its four 16-bit
/// words have been read. A specifier with an unknown bit, or with more
/// than one of the legacy one-of bits, is rejected; a specifier with an
/// extended-permission bit demands `XpermsIoctl`; an extended row carries
/// a kind byte, a driver byte and eight permission words, a plain row one
/// datum word.
pub open spec fn sp_av_checked(
    d: Seq<u8>,
    p: int,
    prof: ProfileV,
    src: u16,
    tgt: u16,
    cls: u16,
    spec: u16,
) -> Result<(Seq<AvtabEntryV>, int), ReadErrV> {
    if spec & AVTAB_INVALID_MASK != 0 {
        Err(ReadErrV::InvalidAccessVectorSpecifier)
    } else if legacy_match_count(spec) > 1 {
        Err(ReadErrV::InvalidAccessVectorSpecifier)
    } else {
        let key = AccessVectorTableKey {
            source_type: src,
            target_type: tgt,
            target_class: cls,
            specifier: spec,
        };
        let extended = spec & AVTAB_XPERMS != 0;
        if extended && !prof.supports(Feature::XpermsIoctl) {
            Err(ReadErrV::UnsupportedFeatureUsed(Feature::XpermsIoctl))
        } else if extended {
            match sp_u8(d, p) {
                Some((specified, p1)) => match sp_u8(d, p1) {
                    Some((driver, p2)) => match sp_u32(d, p2) {
                        Some((w0, q0)) => match sp_u32(d, q0) {
                            Some((w1, q1)) => match sp_u32(d, q1) {
                                Some((w2, q2)) => match sp_u32(d, q2) {
                                    Some((w3, q3)) => match sp_u32(d, q3) {
                                        Some((w4, q4)) => match sp_u32(d, q4) {
                                            Some((w5, q5)) => match sp_u32(d, q5) {
                                                Some((w6, q6)) => match sp_u32(d, q6) {
                                                    Some((w7, q7)) => Ok(
                                                        (
                                                            seq![
                                                                AvtabEntryV {
                                                                    key,
                                                                    av: AccessVectorV::Extended {
                                                                        specified,
                                                                        driver,
                                                                        permissions: seq![
                                                                            w0,
                                                                            w1,
                                                                            w2,
                                                                            w3,
                                                                            w4,
                                                                            w5,
                                                                            w6,
                                                                            w7,
                                                                        ],
                                                                    },
                                                                },
                                                            ],
                                                            q7,
                                                        ),
                                                    ),
                                                    None => Err(ReadErrV::InputError),
                                                },
                                                None => Err(ReadErrV::InputError),
                                            },
                                            None => Err(ReadErrV::InputError),
                                        },
                                        None => Err(ReadErrV::InputError),
                                    },
                                    None => Err(ReadErrV::InputError),
                                },
                                None => Err(ReadErrV::InputError),
                            },
                            None => Err(ReadErrV::InputError),
                        },
                        None => Err(ReadErrV::InputError),
                    },
                    None => Err(ReadErrV::InputError),
                },
                None => Err(ReadErrV::InputError),
            }
        } else {
            match sp_u32(d, p) {
                Some((datum, p1)) => Ok(
                    (seq![AvtabEntryV { key, av: AccessVectorV::Simple(datum) }], p1),
                ),
                None => Err(ReadErrV::InputError),
            }
        }
    }
}

/// Wire format of one extended-format row: four 16-bit words, then the
/// checked body.
pub open spec fn sp_av_row_ext(d: Seq<u8>, p: int, prof: ProfileV) -> Result<
    (Seq<AvtabEntryV>, int),
    ReadErrV,
> {
    match sp_u16(d, p) {
        Some((src, p1)) => match sp_u16(d, p1) {
            Some((tgt, p2)) => match sp_u16(d, p2) {
                Some((cls, p3)) => match sp_u16(d, p3) {
                    Some((spec, p4)) => sp_av_checked(d, p4, prof, src, tgt, cls, spec),
                    None => Err(ReadErrV::InputError),
                },
                None => Err(ReadErrV::InputError),
            },
            None => Err(ReadErrV::InputError),
        },
        None => Err(ReadErrV::InputError),
    }
}

/// One row of the table, in the format selected by `AvTab`.
pub open spec fn sp_av_row(d: Seq<u8>, p: int, prof: ProfileV) -> Result<
    (Seq<AvtabEntryV>, int),
    ReadErrV,
> {
    if prof.supports(Feature::AvTab) {
        sp_av_row_ext(d, p, prof)
    } else {
        sp_av_row_legacy(d, p)
    }
}

/// The entries emitted by the first `n` rows.
pub open spec fn sp_av_entries(d: Seq<u8>, p: int, prof: ProfileV, n: int) -> Result<
    (Seq<AvtabEntryV>, int),
    ReadErrV,
>
    decreases n,
{
    if n <= 0 {
        Ok((Seq::empty(), p))
    } else {
        match sp_av_entries(d, p, prof, n - 1) {
            Ok((s, p1)) => match sp_av_row(d, p1, prof) {
                Ok((es, p2)) => Ok((s + es, p2)),
                Err(e) => Err(e),
            },
            Err(e) => Err(e),
        }
    }
}

proof fn lemma_av_entries_err_mono(d: Seq<u8>, p: int, prof: ProfileV, m: int, n: int)
    requires
        0 <= m <= n,
        sp_av_entries(d, p, prof, m) is Err,
    ensures
        sp_av_entries(d, p, prof, n) == sp_av_entries(d, p, prof, m),
    decreases n,
{
    if n > m {
        lemma_av_entries_err_mono(d, p, prof, m, n - 1);
    }
}

/// Wire format of the table: an entry count, then that many rows.
pub open spec fn sp_avtab(d: Seq<u8>, p: int, prof: ProfileV) -> Result<
    (Seq<AvtabEntryV>, int),
    ReadErrV,
> {
    match sp_u32(d, p) {
        Some((num_entries, p1)) => sp_av_entries(d, p1, prof, num_entries as int),
        None => Err(ReadErrV::InputError),
    }
}

/// How many of the first `i` legacy fan-out positions match the 32-bit
/// specifier word.
pub open spec fn legacy_match_upto(specval: u32, i: int) -> int
    decreases i,
{
    if i <= 0 {
        0
    } else {
        legacy_match_upto(specval, i - 1) + (if legacy_spec_at(i - 1) & (specval as u16) != 0 {
            1int
        } else {
            0int
        })
    }
}

/// Legacy fan-out emits exactly one entry per matching one-of bit: the
/// first `i` positions of a legacy row contribute as many entries as the
/// specifier word matches among them.
pub proof fn lemma_legacy_fanout_count(
    d: Seq<u8>,
    p: int,
    src: u16,
    tgt: u16,
    cls: u16,
    enabled: u16,
    specval: u32,
    i: int,
    s: Seq<AvtabEntryV>,
    p2: int,
)
    requires
        0 <= i,
        sp_legacy_upto(d, p, src, tgt, cls, enabled, specval, i) == Some((s, p2)),
    ensures
        s.len() == legacy_match_upto(specval, i),
    decreases i,
{
    if i > 0 {
        match sp_legacy_upto(d, p, src, tgt, cls, enabled, specval, i - 1) {
            Some((s0, q)) => {
                lemma_legacy_fanout_count(d, p, src, tgt, cls, enabled, specval, i - 1, s0, q);
            },
            None => {},
        }
    }
}

/// An extended-format row whose specifier carries any extended-permission
/// bit, under a profile without `XpermsIoctl`, fails with
/// `UnsupportedFeatureUsed(XpermsIoctl)`.
pub proof fn lemma_xperms_gated(
    d: Seq<u8>,
    p: int,
    prof: ProfileV,
    src: u16,
    tgt: u16,
    cls: u16,
    spec: u16,
)
    requires
        spec & AVTAB_XPERMS != 0,
        spec & AVTAB_INVALID_MASK == 0,
        legacy_match_count(spec) <= 1,
        !prof.supports(Feature::XpermsIoctl),
    ensures
        sp_av_checked(d, p, prof, src, tgt, cls, spec) == Err::<(Seq<AvtabEntryV>, int), _>(
            ReadErrV::UnsupportedFeatureUsed(Feature::XpermsIoctl),
        ),
{
}

/// An extended-format row whose specifier sets both `ALLOWED` and
/// `TRANSITION` is rejected as an invalid specifier, whatever else it
/// carries.
pub proof fn lemma_av_mutual_exclusion(
    d: Seq<u8>,
    p: int,
    prof: ProfileV,
    src: u16,
    tgt: u16,
    cls: u16,
    spec: u16,
)
    requires
        spec & AVTAB_ALLOWED != 0,
        spec & AVTAB_TRANSITION != 0,
    ensures
        sp_av_checked(d, p, prof, src, tgt, cls, spec) == Err::<(Seq<AvtabEntryV>, int), _>(
            ReadErrV::InvalidAccessVectorSpecifier,
        ),
{
    assert(legacy_match_count(spec) >= 2);
}

fn decode_av_row(r: &mut PolicyReader) -> (res: Result<
    Vec<AccessVectorTableEntry>,
    PolicyReadError,
>)
    requires
        old(r).wf(),
        old(r).profile is Some,
    ensures
        crate::reader::reader_preserved(*old(r), *final(r)),
        match res {
            Ok(v) => sp_av_row(old(r).data@, old(r).pos as int, old(r).prof()) == Ok::<
                _,
                ReadErrV,
            >((views_of(v@), final(r).pos as int)),
            Err(e) => sp_av_row(old(r).data@, old(r).pos as int, old(r).prof()) == Err::<
                (Seq<AvtabEntryV>, int),
                _,
            >(e@),
        },
{
    let ghost d = r.data@;
    if !r.profile().supports(Feature::AvTab) {
        let _items2 = match r.read_u32() {
            Ok(v) => v,
            Err(e) => {
                return Err(e);
            },
        };
        let src_w = match r.read_u32() {
            Ok(v) => v,
            Err(e) => {
                return Err(e);
            },
        };
        let tgt_w = match r.read_u32() {
            Ok(v) => v,
            Err(e) => {
                return Err(e);
            },
        };
        let cls_w = match r.read_u32() {
            Ok(v) => v,
            Err(e) => {
                return Err(e);
            },
        };
        let specval = match r.read_u32() {
            Ok(v) => v,
            Err(e) => {
                return Err(e);
            },
        };
        let src = src_w as u16;
        let tgt = tgt_w as u16;
        let cls = cls_w as u16;
        let enabled: u16 = if specval & AVTAB_ENABLED_OLD != 0 {
            AVTAB_ENABLED
        } else {
            0
        };
        let ghost p5 = r.pos as int;
        let mut out: Vec<AccessVectorTableEntry> = Vec::new();
        proof {
            assert(views_of(out@) =~= Seq::<AvtabEntryV>::empty());
        }
        let mut i: usize = 0;
        while i < 9
            invariant
                0 <= i <= 9,
                r.wf(),
                r.data@ == d,
                d == old(r).data@,
                r.prof_opt() == old(r).prof_opt(),
                old(r).pos <= r.pos,
                !old(r).prof().supports(Feature::AvTab),
                sp_av_row_legacy(d, old(r).pos as int) == (match sp_legacy_upto(
                    d,
                    p5,
                    src,
                    tgt,
                    cls,
                    enabled,
                    specval,
                    9,
                ) {
                    Some(x) => Ok::<(Seq<AvtabEntryV>, int), ReadErrV>(x),
                    None => Err(ReadErrV::InputError),
                }),
                sp_legacy_upto(d, p5, src, tgt, cls, enabled, specval, i as int) == Some(
                    (views_of(out@), r.pos as int),
                ),
            decreases 9 - i,
        {
            let bit = legacy_spec_of(i);
            if bit & (specval as u16) != 0 {
                let datum = match r.read_u32() {
                    Ok(v) => v,
                    Err(e) => {
                        proof {
                            assert(sp_legacy_upto(
                                d,
                                p5,
                                src,
                                tgt,
                                cls,
                                enabled,
                                specval,
                                i + 1,
                            ) is None);
                            lemma_legacy_none_mono(d, p5, src, tgt, cls, enabled, specval, i + 1, 9);
                        }
                        return Err(e);
                    },
                };
                let ghost prev = views_of(out@);
                out.push(AccessVectorTableEntry {
                    key: AccessVectorTableKey {
                        source_type: src,
                        target_type: tgt,
                        target_class: cls,
                        specifier: bit | enabled,
                    },
                    av: AccessVector::Simple(datum),
                });
                proof {
                    assert(views_of(out@) =~= prev.push(
                        AvtabEntryV {
                            key: AccessVectorTableKey {
                                source_type: src,
                                target_type: tgt,
                                target_class: cls,
                                specifier: bit | enabled,
                            },
                            av: AccessVectorV::Simple(datum),
                        },
                    ));
                }
            }
            i = i + 1;
        }
        Ok(out)
    } else {
        let src = match r.read_u16() {
            Ok(v) => v,
            Err(e) => {
                return Err(e);
            },
        };
        let tgt = match r.read_u16() {
            Ok(v) => v,
            Err(e) => {
                return Err(e);
            },
        };
        let cls = match r.read_u16() {
            Ok(v) => v,
            Err(e) => {
                return Err(e);
            },
        };
        let spec = match r.read_u16() {
            Ok(v) => v,
            Err(e) => {
                return Err(e);
            },
        };
        if spec & AVTAB_INVALID_MASK != 0 {
            return Err(PolicyReadError::InvalidAccessVectorSpecifier);
        }
        let mut matching: u32 = 0;
        if spec & AVTAB_ALLOWED != 0 {
            matching = matching + 1;
        }
        if spec & AVTAB_AUDITDENY != 0 {
            matching = matching + 1;
        }
        if spec & AVTAB_AUDITALLOW != 0 {
            matching = matching + 1;
        }
        if spec & AVTAB_TRANSITION != 0 {
            matching = matching + 1;
        }
        if spec & AVTAB_CHANGE != 0 {
            matching = matching + 1;
        }
        if spec & AVTAB_MEMBER != 0 {
            matching = matching + 1;
        }
        if spec & AVTAB_XPERMS_ALLOWED != 0 {
            matching = matching + 1;
        }
        if spec & AVTAB_XPERMS_AUDITALLOW != 0 {
            matching = matching + 1;
        }
        if spec & AVTAB_XPERMS_DONTAUDIT != 0 {
            matching = matching + 1;
        }
        assert(matching as int == legacy_match_count(spec));
        if matching > 1 {
            return Err(PolicyReadError::InvalidAccessVectorSpecifier);
        }
        let key = AccessVectorTableKey {
            source_type: src,
            target_type: tgt,
            target_class: cls,
            specifier: spec,
        };
        let extended = spec & AVTAB_XPERMS != 0;
        if extended && !r.profile().supports(Feature::XpermsIoctl) {
            return Err(PolicyReadError::UnsupportedFeatureUsed(Feature::XpermsIoctl));
        }
        let av: AccessVector;
        if extended {
            let specified = match r.read_u8() {
                Ok(v) => v,
                Err(e) => {
                    return Err(e);
                },
            };
            let driver = match r.read_u8() {
                Ok(v) => v,
                Err(e) => {
                    return Err(e);
                },
            };
            let w0 = match r.read_u32() {
                Ok(v) => v,
                Err(e) => {
                    return Err(e);
                },
            };
            let w1 = match r.read_u32() {
                Ok(v) => v,
                Err(e) => {
                    return Err(e);
                },
            };
            let w2 = match r.read_u32() {
                Ok(v) => v,
                Err(e) => {
                    return Err(e);
                },
            };
            let w3 = match r.read_u32() {
                Ok(v) => v,
                Err(e) => {
                    return Err(e);
                },
            };
            let w4 = match r.read_u32() {
                Ok(v) => v,
                Err(e) => {
                    return Err(e);
                },
            };
            let w5 = match r.read_u32() {
                Ok(v) => v,
                Err(e) => {
                    return Err(e);
                },
            };
            let w6 = match r.read_u32() {
                Ok(v) => v,
                Err(e) => {
                    return Err(e);
                },
            };
            let w7 = match r.read_u32() {
                Ok(v) => v,
                Err(e) => {
                    return Err(e);
                },
            };
            let permissions: [u32; 8] = [w0, w1, w2, w3, w4, w5, w6, w7];
            proof {
                assert(permissions@ =~= seq![w0, w1, w2, w3, w4, w5, w6, w7]);
            }
            av = AccessVector::Extended { specified, driver, permissions };
        } else {
            let datum = match r.read_u32() {
                Ok(v) => v,
                Err(e) => {
                    return Err(e);
                },
            };
            av = AccessVector::Simple(datum);
        }
        let entry = AccessVectorTableEntry { key, av };
        let mut out: Vec<AccessVectorTableEntry> = Vec::new();
        let ghost ev = entry@;
        out.push(entry);
        proof {
            assert(views_of(out@) =~= seq![ev]);
        }
        Ok(out)
    }
}

impl PolicyObject for AccessVectorTable {
    open spec fn sp_decode(d: Seq<u8>, p: int, prof: ProfileV) -> Result<
        (Seq<AvtabEntryV>, int),
        ReadErrV,
    > {
        sp_avtab(d, p, prof)
    }

    fn decode(r: &mut PolicyReader) -> (res: Result<Self, PolicyReadError>) {
        let ghost d = r.data@;
        let ghost prof = r.prof();
        let num_entries = match r.read_u32() {
            Ok(v) => v,
            Err(e) => {
                return Err(e);
            },
        };
        let ghost p1 = r.pos as int;
        let mut entries: Vec<AccessVectorTableEntry> = Vec::new();
        proof {
            assert(views_of(entries@) =~= Seq::<AvtabEntryV>::empty());
        }
        let mut i: u32 = 0;
        while i < num_entries
            invariant
                i <= num_entries,
                r.wf(),
                r.data@ == d,
                d == old(r).data@,
                r.prof_opt() == old(r).prof_opt(),
                r.profile is Some,
                prof == old(r).prof(),
                prof == r.prof(),
                old(r).pos <= r.pos,
                sp_avtab(d, old(r).pos as int, prof) == sp_av_entries(d, p1, prof, num_entries as int),
                sp_av_entries(d, p1, prof, i as int) == Ok::<_, ReadErrV>(
                    (views_of(entries@), r.pos as int),
                ),
            decreases num_entries - i,
        {
            let mut row = match decode_av_row(r) {
                Ok(v) => v,
                Err(e) => {
                    proof {
                        assert(sp_av_entries(d, p1, prof, i + 1) is Err);
                        lemma_av_entries_err_mono(d, p1, prof, i + 1, num_entries as int);
                    }
                    return Err(e);
                },
            };
            let ghost prev = views_of(entries@);
            let ghost rowv = views_of(row@);
            entries.append(&mut row);
            proof {
                assert(views_of(entries@) =~= prev + rowv);
            }
            i = i + 1;
        }
        Ok(AccessVectorTable { entries })
    }
}

} // verus!
