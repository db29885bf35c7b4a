//! Role declarations and role sets.

use vstd::prelude::*;

use croaring::Bitmap;

use crate::bitmap::{bitmap_elems, decode_bitmap, sp_bitmap};
use crate::policy::PolicyObject;
use crate::profile::{Feature, ProfileV};
use crate::reader::{sp_string, sp_u32, PolicyReadError, PolicyReader, ReadErrV};
use crate::symtable::Symbol;
use crate::ty::{sp_type_set, TypeSet, TypeSetV};

verus! {

/// Either a plain bitmap of role ids (kernel policy) or a bitmap paired
/// with a flags word (module policy).
#[derive(Debug)]
pub enum RoleSet {
    Bitmap(Bitmap),
    Modular { roles: Bitmap, flags: u32 },
}

/// Mathematical model of a `RoleSet`.
pub enum RoleSetV {
    Bitmap(Set<u32>),
    Modular { roles: Set<u32>, flags: u32 },
}

impl View for RoleSet {
    type V = RoleSetV;

    open spec fn view(&self) -> RoleSetV {
        match self {
            RoleSet::Bitmap(b) => RoleSetV::Bitmap(bitmap_elems(*b)),
            RoleSet::Modular { roles, flags } => RoleSetV::Modular {
                roles: bitmap_elems(*roles),
                flags: *flags,
            },
        }
    }
}

/// Wire format of a role set: a kernel policy carries one bitmap, a module
/// policy carries a bitmap and a flags word.
pub open spec fn sp_role_set(d: Seq<u8>, p: int, prof: ProfileV) -> Result<(RoleSetV, int), ReadErrV> {
    if prof.is_kernel() {
        match sp_bitmap(d, p) {
            Some((b, p1)) => Ok((RoleSetV::Bitmap(b), p1)),
            None => Err(ReadErrV::InputError),
        }
    } else {
        match sp_bitmap(d, p) {
            Some((roles, p1)) => match sp_u32(d, p1) {
                Some((flags, p2)) => Ok((RoleSetV::Modular { roles, flags }, p2)),
                None => Err(ReadErrV::InputError),
            },
            None => Err(ReadErrV::InputError),
        }
    }
}

impl PolicyObject for RoleSet {
    open spec fn sp_decode(d: Seq<u8>, p: int, prof: ProfileV) -> Result<(RoleSetV, int), ReadErrV> {
        sp_role_set(d, p, prof)
    }

    fn decode(r: &mut PolicyReader) -> (res: Result<Self, PolicyReadError>) {
        if r.profile().ty().is_kernel_policy() {
            let b = match decode_bitmap(r) {
                Ok(v) => v,
                Err(e) => {
                    return Err(e);
                },
            };
            Ok(RoleSet::Bitmap(b))
        } else {
            let roles = match decode_bitmap(r) {
                Ok(v) => v,
                Err(e) => {
                    return Err(e);
                },
            };
            let flags = match r.read_u32() {
                Ok(v) => v,
                Err(e) => {
                    return Err(e);
                },
            };
            Ok(RoleSet::Modular { roles, flags })
        }
    }
}

/// A role declaration. The `flavor` and `roles` fields are module-only.
#[derive(Debug)]
pub struct Role {
    pub id: u32,
    pub name: Vec<u8>,
    pub dominates: Bitmap,
    pub type_set: TypeSet,
    pub flavor: Option<u32>,
    pub roles: Option<Bitmap>,
}

/// Mathematical model of a `Role`.
pub struct RoleV {
    pub id: u32,
    pub name: Seq<u8>,
    pub dominates: Set<u32>,
    pub type_set: TypeSetV,
    pub flavor: Option<u32>,
    pub roles: Option<Set<u32>>,
}

impl View for Role {
    type V = RoleV;

    open spec fn view(&self) -> RoleV {
        RoleV {
            id: self.id,
            name: self.name@,
            dominates: bitmap_elems(self.dominates),
            type_set: self.type_set@,
            flavor: self.flavor,
            roles: match &self.roles {
                Some(b) => Some(bitmap_elems(*b)),
                None => None,
            },
        }
    }
}

/// Wire format of a role: `name_len, id`, a bounds word under `Boundary`
/// (read and discarded), `name`, the dominates bitmap, then for a kernel
/// policy a plain type bitmap, and for a module policy a type set, a
/// flavor word and a roles bitmap.
pub open spec fn sp_role(d: Seq<u8>, p: int, prof: ProfileV) -> Result<(RoleV, int), ReadErrV> {
    match sp_u32(d, p) {
        Some((name_len, p1)) => match sp_u32(d, p1) {
            Some((id, p2)) => {
                let bounds_r = if prof.supports(Feature::Boundary) {
                    match sp_u32(d, p2) {
                        Some((_b, p3)) => Some(p3),
                        None => None,
                    }
                } else {
                    Some(p2)
                };
                match bounds_r {
                    Some(p3) => match sp_string(d, p3, name_len as int) {
                        Some((name, p4)) => match sp_bitmap(d, p4) {
                            Some((dominates, p5)) => if prof.is_kernel() {
                                match sp_bitmap(d, p5) {
                                    Some((types, p6)) => Ok(
                                        (
                                            RoleV {
                                                id,
                                                name,
                                                dominates,
                                                type_set: TypeSetV::Bitmap(types),
                                                flavor: None,
                                                roles: None,
                                            },
                                            p6,
                                        ),
                                    ),
                                    None => Err(ReadErrV::InputError),
                                }
                            } else {
                                match sp_type_set(d, p5, prof) {
                                    Ok((type_set, p6)) => match sp_u32(d, p6) {
                                        Some((flavor, p7)) => match sp_bitmap(d, p7) {
                                            Some((roles, p8)) => Ok(
                                                (
                                                    RoleV {
                                                        id,
                                                        name,
                                                        dominates,
                                                        type_set,
                                                        flavor: Some(flavor),
                                                        roles: Some(roles),
                                                    },
                                                    p8,
                                                ),
                                            ),
                                            None => Err(ReadErrV::InputError),
                                        },
                                        None => Err(ReadErrV::InputError),
                                    },
                                    Err(e) => Err(e),
                                }
                            },
                            None => Err(ReadErrV::InputError),
                        },
                        None => Err(ReadErrV::InputError),
                    },
                    None => Err(ReadErrV::InputError),
                }
            },
            None => Err(ReadErrV::InputError),
        },
        None => Err(ReadErrV::InputError),
    }
}

impl PolicyObject for Role {
    open spec fn sp_decode(d: Seq<u8>, p: int, prof: ProfileV) -> Result<(RoleV, int), ReadErrV> {
        sp_role(d, p, prof)
    }

    fn decode(r: &mut PolicyReader) -> (res: Result<Self, PolicyReadError>) {
        let name_len = match r.read_u32() {
            Ok(v) => v,
            Err(e) => {
                return Err(e);
            },
        };
        let id = match r.read_u32() {
            Ok(v) => v,
            Err(e) => {
                return Err(e);
            },
        };
        if r.profile().supports(Feature::Boundary) {
            let _bounds = match r.read_u32() {
                Ok(v) => v,
                Err(e) => {
                    return Err(e);
                },
            };
        }
        let name = match r.read_string(name_len as usize) {
            Ok(v) => v,
            Err(e) => {
                return Err(e);
            },
        };
        let dominates = match decode_bitmap(r) {
            Ok(v) => v,
            Err(e) => {
                return Err(e);
            },
        };
        if r.profile().ty().is_kernel_policy() {
            let types = match decode_bitmap(r) {
                Ok(v) => v,
                Err(e) => {
                    return Err(e);
                },
            };
            Ok(Role {
                id,
                name,
                dominates,
                type_set: TypeSet::Bitmap(types),
                flavor: None,
                roles: None,
            })
        } else {
            let type_set = match r.read_object::<TypeSet>() {
                Ok(v) => v,
                Err(e) => {
                    return Err(e);
                },
            };
            let flavor = match r.read_u32() {
                Ok(v) => v,
                Err(e) => {
                    return Err(e);
                },
            };
            let roles = match decode_bitmap(r) {
                Ok(v) => v,
                Err(e) => {
                    return Err(e);
                },
            };
            Ok(Role {
                id,
                name,
                dominates,
                type_set,
                flavor: Some(flavor),
                roles: Some(roles),
            })
        }
    }
}

impl Symbol for Role {
    open spec fn view_id(v: RoleV) -> u32 {
        v.id
    }

    open spec fn view_name(v: RoleV) -> Seq<u8> {
        v.name
    }

    fn id(&self) -> (r: u32) {
        self.id
    }

    fn name(&self) -> (r: &Vec<u8>) {
        &self.name
    }
}

} // verus!
