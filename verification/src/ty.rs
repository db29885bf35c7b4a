//! Type declarations and type sets.

use vstd::prelude::*;

use croaring::Bitmap;

use crate::bitmap::{bitmap_elems, decode_bitmap, sp_bitmap};
use crate::policy::PolicyObject;
use crate::profile::{Feature, ProfileV};
use crate::reader::{sp_string, sp_u32, PolicyReadError, PolicyReader, ReadErrV};
use crate::symtable::Symbol;

verus! {

/// Type property bit: the type is primary.
pub const TY_PROP_PRIMARY: u32 = 0x0001;

/// Type property bit: the type is an attribute.
pub const TY_PROP_ATTRIBUTE: u32 = 0x0002;

/// Type property bit: the type is an alias.
pub const TY_PROP_ALIAS: u32 = 0x0004;

/// Type property bit: the type is permissive.
pub const TY_PROP_PERMISSIVE: u32 = 0x0008;

/// Type flags bit: the type is permissive.
pub const TY_FLAG_PERMISSIVE: u32 = 0x0001;

/// Either a plain bitmap of type ids (kernel policy) or a triple of types,
/// inverse types and flags (module policy).
#[derive(Debug)]
pub enum TypeSet {
    Bitmap(Bitmap),
    Modular { types: Bitmap, inverse_types: Bitmap, flags: u32 },
}

/// Mathematical model of a `TypeSet`.
pub enum TypeSetV {
    Bitmap(Set<u32>),
    Modular { types: Set<u32>, inverse_types: Set<u32>, flags: u32 },
}

impl View for TypeSet {
    type V = TypeSetV;

    open spec fn view(&self) -> TypeSetV {
        match self {
            TypeSet::Bitmap(b) => TypeSetV::Bitmap(bitmap_elems(*b)),
            TypeSet::Modular { types, inverse_types, flags } => TypeSetV::Modular {
                types: bitmap_elems(*types),
                inverse_types: bitmap_elems(*inverse_types),
                flags: *flags,
            },
        }
    }
}

/// Wire format of a type set: a kernel policy carries one bitmap, a module
/// policy carries two bitmaps and a flags word.
pub open spec fn sp_type_set(d: Seq<u8>, p: int, prof: ProfileV) -> Result<(TypeSetV, int), ReadErrV> {
    if prof.is_kernel() {
        match sp_bitmap(d, p) {
            Some((b, p1)) => Ok((TypeSetV::Bitmap(b), p1)),
            None => Err(ReadErrV::InputError),
        }
    } else {
        match sp_bitmap(d, p) {
            Some((types, p1)) => match sp_bitmap(d, p1) {
                Some((inverse_types, p2)) => match sp_u32(d, p2) {
                    Some((flags, p3)) => Ok(
                        (TypeSetV::Modular { types, inverse_types, flags }, p3),
                    ),
                    None => Err(ReadErrV::InputError),
                },
                None => Err(ReadErrV::InputError),
            },
            None => Err(ReadErrV::InputError),
        }
    }
}

impl PolicyObject for TypeSet {
    open spec fn sp_decode(d: Seq<u8>, p: int, prof: ProfileV) -> Result<(TypeSetV, int), ReadErrV> {
        sp_type_set(d, p, prof)
    }

    fn decode(r: &mut PolicyReader) -> (res: Result<Self, PolicyReadError>) {
        if r.profile().ty().is_kernel_policy() {
            let b = match decode_bitmap(r) {
                Ok(v) => v,
                Err(e) => {
                    return Err(e);
                },
            };
            Ok(TypeSet::Bitmap(b))
        } else {
            let types = match decode_bitmap(r) {
                Ok(v) => v,
                Err(e) => {
                    return Err(e);
                },
            };
            let inverse_types = match decode_bitmap(r) {
                Ok(v) => v,
                Err(e) => {
                    return Err(e);
                },
            };
            let flags = match r.read_u32() {
                Ok(v) => v,
                Err(e) => {
                    return Err(e);
                },
            };
            Ok(TypeSet::Modular { types, inverse_types, flags })
        }
    }
}

/// A type declaration. The shape of the record depends on the platform and
/// on the `Boundary` / `BoundaryAlias` features.
#[derive(Debug)]
pub struct Type {
    pub id: u32,
    pub name: Vec<u8>,
    pub primary: bool,
    pub flavor: Option<u32>,
    pub flags: u32,
    pub bounds: Option<u32>,
    pub assoc_types: Option<Bitmap>,
}

/// Mathematical model of a `Type`.
pub struct TypeV {
    pub id: u32,
    pub name: Seq<u8>,
    pub primary: bool,
    pub flavor: Option<u32>,
    pub flags: u32,
    pub bounds: Option<u32>,
    pub assoc_types: Option<Set<u32>>,
}

impl View for Type {
    type V = TypeV;

    open spec fn view(&self) -> TypeV {
        TypeV {
            id: self.id,
            name: self.name@,
            primary: self.primary,
            flavor: self.flavor,
            flags: self.flags,
            bounds: self.bounds,
            assoc_types: match &self.assoc_types {
                Some(b) => Some(bitmap_elems(*b)),
                None => None,
            },
        }
    }
}

/// Wire format of a type. Under `Boundary`: an optional primary word (only
/// under `BoundaryAlias`), a properties word whose known bits are
/// `Primary`, `Attribute`, `Alias` and `Permissive` (an unknown bit is
/// fatal), and a bounds word; the flavor is derived from `Attribute` or
/// `Alias` and the permissive property sets the permissive flag. Without
/// `Boundary`: a primary word, a module-only flavor word, and a
/// kernel-only flags word whose only known bit is `Permissive`. A module
/// policy then carries the associated-types bitmap; the name comes last.
pub open spec fn sp_type(d: Seq<u8>, p: int, prof: ProfileV) -> Result<(TypeV, int), ReadErrV> {
    let is_kern = prof.is_kernel();
    match sp_u32(d, p) {
        Some((name_len, p1)) => match sp_u32(d, p1) {
            Some((id, p2)) => {
                let head = if prof.supports(Feature::Boundary) {
                    let prim_r = if prof.supports(Feature::BoundaryAlias) {
                        match sp_u32(d, p2) {
                            Some((w, p3)) => Some((w == 1, p3)),
                            None => None,
                        }
                    } else {
                        Some((false, p2))
                    };
                    match prim_r {
                        Some((primary0, p3)) => match sp_u32(d, p3) {
                            Some((properties, p4)) => if properties & 0xfffffff0u32 != 0 {
                                Err(ReadErrV::InvalidPolicyCapability)
                            } else {
                                match sp_u32(d, p4) {
                                    Some((bounds, p5)) => Ok(
                                        (
                                            primary0 || (properties & TY_PROP_PRIMARY != 0),
                                            if properties & TY_PROP_ATTRIBUTE != 0 {
                                                Some(1u32)
                                            } else if properties & TY_PROP_ALIAS != 0 {
                                                Some(2u32)
                                            } else {
                                                None
                                            },
                                            if properties & TY_PROP_PERMISSIVE != 0 {
                                                TY_FLAG_PERMISSIVE
                                            } else {
                                                0u32
                                            },
                                            Some(bounds),
                                            p5,
                                        ),
                                    ),
                                    None => Err(ReadErrV::InputError),
                                }
                            },
                            None => Err(ReadErrV::InputError),
                        },
                        None => Err(ReadErrV::InputError),
                    }
                } else {
                    match sp_u32(d, p2) {
                        Some((prim_w, p3)) => {
                            let flav_r = if !is_kern {
                                match sp_u32(d, p3) {
                                    Some((f, p4)) => Some((Some(f), p4)),
                                    None => None,
                                }
                            } else {
                                Some((None::<u32>, p3))
                            };
                            match flav_r {
                                Some((flavor, p4)) => if is_kern {
                                    match sp_u32(d, p4) {
                                        Some((flags, p5)) => if flags & 0xfffffffeu32 != 0 {
                                            Err(ReadErrV::InvalidPolicyCapability)
                                        } else {
                                            Ok((prim_w == 1, flavor, flags, None::<u32>, p5))
                                        },
                                        None => Err(ReadErrV::InputError),
                                    }
                                } else {
                                    Ok((prim_w == 1, flavor, 0u32, None::<u32>, p4))
                                },
                                None => Err(ReadErrV::InputError),
                            }
                        },
                        None => Err(ReadErrV::InputError),
                    }
                };
                match head {
                    Ok((primary, flavor, flags, bounds, p5)) => {
                        let assoc_r = if !is_kern {
                            match sp_bitmap(d, p5) {
                                Some((b, p6)) => Some((Some(b), p6)),
                                None => None,
                            }
                        } else {
                            Some((None::<Set<u32>>, p5))
                        };
                        match assoc_r {
                            Some((assoc_types, p6)) => match sp_string(d, p6, name_len as int) {
                                Some((name, p7)) => Ok(
                                    (
                                        TypeV {
                                            id,
                                            name,
                                            primary,
                                            flavor,
                                            flags,
                                            bounds,
                                            assoc_types,
                                        },
                                        p7,
                                    ),
                                ),
                                None => Err(ReadErrV::InputError),
                            },
                            None => Err(ReadErrV::InputError),
                        }
                    },
                    Err(e) => Err(e),
                }
            },
            None => Err(ReadErrV::InputError),
        },
        None => Err(ReadErrV::InputError),
    }
}

impl PolicyObject for Type {
    open spec fn sp_decode(d: Seq<u8>, p: int, prof: ProfileV) -> Result<(TypeV, int), ReadErrV> {
        sp_type(d, p, prof)
    }

    fn decode(r: &mut PolicyReader) -> (res: Result<Self, PolicyReadError>) {
        let is_kern = r.profile().ty().is_kernel_policy();
        let name_len = match r.read_u32() {
            Ok(v) => v,
            Err(e) => {
                return Err(e);
            },
        };
        let id = match r.read_u32() {
            Ok(v) => v,
            Err(e) => {
                return Err(e);
            },
        };
        let primary: bool;
        let flavor: Option<u32>;
        let flags: u32;
        let bounds: Option<u32>;
        if r.profile().supports(Feature::Boundary) {
            let primary0 = if r.profile().supports(Feature::BoundaryAlias) {
                let w = match r.read_u32() {
                    Ok(v) => v,
                    Err(e) => {
                        return Err(e);
                    },
                };
                w == 1
            } else {
                false
            };
            let properties = match r.read_u32() {
                Ok(v) => v,
                Err(e) => {
                    return Err(e);
                },
            };
            if properties & 0xfffffff0u32 != 0 {
                return Err(PolicyReadError::InvalidPolicyCapability);
            }
            let b = match r.read_u32() {
                Ok(v) => v,
                Err(e) => {
                    return Err(e);
                },
            };
            primary = primary0 || (properties & TY_PROP_PRIMARY != 0);
            flavor = if properties & TY_PROP_ATTRIBUTE != 0 {
                Some(1)
            } else if properties & TY_PROP_ALIAS != 0 {
                Some(2)
            } else {
                None
            };
            flags = if properties & TY_PROP_PERMISSIVE != 0 {
                TY_FLAG_PERMISSIVE
            } else {
                0
            };
            bounds = Some(b);
        } else {
            let prim_w = match r.read_u32() {
                Ok(v) => v,
                Err(e) => {
                    return Err(e);
                },
            };
            flavor = if !is_kern {
                let f = match r.read_u32() {
                    Ok(v) => v,
                    Err(e) => {
                        return Err(e);
                    },
                };
                Some(f)
            } else {
                None
            };
            if is_kern {
                let f = match r.read_u32() {
                    Ok(v) => v,
                    Err(e) => {
                        return Err(e);
                    },
                };
                if f & 0xfffffffeu32 != 0 {
                    return Err(PolicyReadError::InvalidPolicyCapability);
                }
                flags = f;
            } else {
                flags = 0;
            }
            primary = prim_w == 1;
            bounds = None;
        }
        let assoc_types = if !is_kern {
            let b = match decode_bitmap(r) {
                Ok(v) => v,
                Err(e) => {
                    return Err(e);
                },
            };
            Some(b)
        } else {
            None
        };
        let name = match r.read_string(name_len as usize) {
            Ok(v) => v,
            Err(e) => {
                return Err(e);
            },
        };
        Ok(Type { id, name, primary, flavor, flags, bounds, assoc_types })
    }
}

impl Symbol for Type {
    open spec fn view_id(v: TypeV) -> u32 {
        v.id
    }

    open spec fn view_name(v: TypeV) -> Seq<u8> {
        v.name
    }

    fn id(&self) -> (r: u32) {
        self.id
    }

    fn name(&self) -> (r: &Vec<u8>) {
        &self.name
    }
}

} // verus!
