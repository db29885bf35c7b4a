//! Object classes, commons, and permissions.

use vstd::prelude::*;

use crate::cons::{Constraint, ConstraintV};
use crate::policy::{sp_objects, views_of, PolicyObject};
use crate::profile::{Feature, ProfileV};
use crate::reader::{sp_string, sp_u32, PolicyReadError, PolicyReader, ReadErrV};
use crate::symtable::{sp_symbol_table, Symbol, SymbolTable};

verus! {

/// A named operation on an object class; ids are scoped to the enclosing
/// class or common.
#[derive(Debug)]
pub struct Permission {
    pub id: u32,
    pub name: Vec<u8>,
}

/// Mathematical model of a `Permission`.
pub struct PermissionV {
    pub id: u32,
    pub name: Seq<u8>,
}

impl View for Permission {
    type V = PermissionV;

    open spec fn view(&self) -> PermissionV {
        PermissionV { id: self.id, name: self.name@ }
    }
}

/// Wire format of a permission: `name_len, id, name`.
pub open spec fn sp_permission(d: Seq<u8>, p: int) -> Result<(PermissionV, int), ReadErrV> {
    match sp_u32(d, p) {
        Some((name_len, p1)) => match sp_u32(d, p1) {
            Some((id, p2)) => match sp_string(d, p2, name_len as int) {
                Some((name, p3)) => Ok((PermissionV { id, name }, p3)),
                None => Err(ReadErrV::InputError),
            },
            None => Err(ReadErrV::InputError),
        },
        None => Err(ReadErrV::InputError),
    }
}

impl PolicyObject for Permission {
    open spec fn sp_decode(d: Seq<u8>, p: int, prof: ProfileV) -> Result<(PermissionV, int), ReadErrV> {
        sp_permission(d, p)
    }

    fn decode(r: &mut PolicyReader) -> (res: Result<Self, PolicyReadError>) {
        let name_len = match r.read_u32() {
            Ok(v) => v,
            Err(e) => {
                return Err(e);
            },
        };
        let id = match r.read_u32() {
            Ok(v) => v,
            Err(e) => {
                return Err(e);
            },
        };
        let name = match r.read_string(name_len as usize) {
            Ok(v) => v,
            Err(e) => {
                return Err(e);
            },
        };
        Ok(Permission { id, name })
    }
}

impl Symbol for Permission {
    open spec fn view_id(v: PermissionV) -> u32 {
        v.id
    }

    open spec fn view_name(v: PermissionV) -> Seq<u8> {
        v.name
    }

    fn id(&self) -> (r: u32) {
        self.id
    }

    fn name(&self) -> (r: &Vec<u8>) {
        &self.name
    }
}

/// A named permission group that classes can inherit from by naming it.
#[derive(Debug)]
pub struct Common {
    pub id: u32,
    pub name: Vec<u8>,
    pub permissions: SymbolTable<Permission>,
}

/// Mathematical model of a `Common`.
pub struct CommonV {
    pub id: u32,
    pub name: Seq<u8>,
    pub permissions: Seq<PermissionV>,
}

impl View for Common {
    type V = CommonV;

    open spec fn view(&self) -> CommonV {
        CommonV { id: self.id, name: self.name@, permissions: self.permissions@ }
    }
}

/// Wire format of a common: `name_len, id, num_perm_names,
/// num_perm_elements, name, permissions`.
pub open spec fn sp_common(d: Seq<u8>, p: int, prof: ProfileV) -> Result<(CommonV, int), ReadErrV> {
    match sp_u32(d, p) {
        Some((name_len, p1)) => match sp_u32(d, p1) {
            Some((id, p2)) => match sp_u32(d, p2) {
                Some((_nprim, p3)) => match sp_u32(d, p3) {
                    Some((nel, p4)) => match sp_string(d, p4, name_len as int) {
                        Some((name, p5)) => match sp_symbol_table::<Permission>(
                            d,
                            p5,
                            prof,
                            nel as int,
                        ) {
                            Ok((permissions, p6)) => Ok(
                                (CommonV { id, name, permissions }, p6),
                            ),
                            Err(e) => Err(e),
                        },
                        None => Err(ReadErrV::InputError),
                    },
                    None => Err(ReadErrV::InputError),
                },
                None => Err(ReadErrV::InputError),
            },
            None => Err(ReadErrV::InputError),
        },
        None => Err(ReadErrV::InputError),
    }
}

impl PolicyObject for Common {
    open spec fn sp_decode(d: Seq<u8>, p: int, prof: ProfileV) -> Result<(CommonV, int), ReadErrV> {
        sp_common(d, p, prof)
    }

    fn decode(r: &mut PolicyReader) -> (res: Result<Self, PolicyReadError>) {
        let name_len = match r.read_u32() {
            Ok(v) => v,
            Err(e) => {
                return Err(e);
            },
        };
        let id = match r.read_u32() {
            Ok(v) => v,
            Err(e) => {
                return Err(e);
            },
        };
        let _num_perm_names = match r.read_u32() {
            Ok(v) => v,
            Err(e) => {
                return Err(e);
            },
        };
        let num_perm_elements = match r.read_u32() {
            Ok(v) => v,
            Err(e) => {
                return Err(e);
            },
        };
        let name = match r.read_string(name_len as usize) {
            Ok(v) => v,
            Err(e) => {
                return Err(e);
            },
        };
        let permissions = match r.read_bare_symbol_table::<Permission>(
            num_perm_elements as usize,
        ) {
            Ok(v) => v,
            Err(e) => {
                return Err(e);
            },
        };
        Ok(Common { id, name, permissions })
    }
}

impl Symbol for Common {
    open spec fn view_id(v: CommonV) -> u32 {
        v.id
    }

    open spec fn view_name(v: CommonV) -> Seq<u8> {
        v.name
    }

    fn id(&self) -> (r: u32) {
        self.id
    }

    fn name(&self) -> (r: &Vec<u8>) {
        &self.name
    }
}

impl Common {
    /// A borrow of the permission sub-table.
    pub fn permissions(&self) -> (r: &SymbolTable<Permission>)
        ensures
            r@ == self@.permissions,
    {
        &self.permissions
    }
}

/// An object class: a category of resource to which permissions apply. It
/// may inherit permissions from a common by naming it; the defaults and
/// transition constraints are only present under the respective features.
#[derive(Debug)]
pub struct Class {
    pub id: u32,
    pub name: Vec<u8>,
    pub common_name: Option<Vec<u8>>,
    pub permissions: SymbolTable<Permission>,
    pub constraints: Vec<Constraint>,
    pub transition_constraints: Vec<Constraint>,
    pub default_user: Option<u32>,
    pub default_role: Option<u32>,
    pub default_range: Option<u32>,
    pub default_type: Option<u32>,
}

/// Mathematical model of a `Class`.
pub struct ClassV {
    pub id: u32,
    pub name: Seq<u8>,
    pub common_name: Option<Seq<u8>>,
    pub permissions: Seq<PermissionV>,
    pub constraints: Seq<ConstraintV>,
    pub transition_constraints: Seq<ConstraintV>,
    pub default_user: Option<u32>,
    pub default_role: Option<u32>,
    pub default_range: Option<u32>,
    pub default_type: Option<u32>,
}

impl View for Class {
    type V = ClassV;

    open spec fn view(&self) -> ClassV {
        ClassV {
            id: self.id,
            name: self.name@,
            common_name: match &self.common_name {
                Some(n) => Some(n@),
                None => None,
            },
            permissions: self.permissions@,
            constraints: views_of(self.constraints@),
            transition_constraints: views_of(self.transition_constraints@),
            default_user: self.default_user,
            default_role: self.default_role,
            default_range: self.default_range,
            default_type: self.default_type,
        }
    }
}

/// Wire format of a class: `name_len, common_name_len, id,
/// num_perm_names, num_perm_elements, num_constraints, name`, the common
/// name iff its length is non-zero, the permissions, the constraints;
/// then under `ValidateTransition` a count of transition constraints and
/// that many constraints; under `NewObjectDefaults` the default user,
/// range and role words; and under `DefaultType` the default type word.
pub open spec fn sp_class(d: Seq<u8>, p: int, prof: ProfileV) -> Result<(ClassV, int), ReadErrV> {
    match sp_u32(d, p) {
        Some((name_len, p1)) => match sp_u32(d, p1) {
            Some((common_name_len, p2)) => match sp_u32(d, p2) {
                Some((id, p3)) => match sp_u32(d, p3) {
                    Some((_nprim, p4)) => match sp_u32(d, p4) {
                        Some((nperm, p5)) => match sp_u32(d, p5) {
                            Some((ncons, p6)) => match sp_string(d, p6, name_len as int) {
                                Some((name, p7)) => {
                                    let common_r = if common_name_len == 0 {
                                        Some((None::<Seq<u8>>, p7))
                                    } else {
                                        match sp_string(d, p7, common_name_len as int) {
                                            Some((cn, p8)) => Some((Some(cn), p8)),
                                            None => None,
                                        }
                                    };
                                    match common_r {
                                        Some((common_name, p8)) => match sp_symbol_table::<
                                            Permission,
                                        >(d, p8, prof, nperm as int) {
                                            Ok((permissions, p9)) => match sp_objects::<
                                                Constraint,
                                            >(d, p9, prof, ncons as int) {
                                                Ok((constraints, p10)) => sp_class_tail(
                                                    d,
                                                    p10,
                                                    prof,
                                                    ClassV {
                                                        id,
                                                        name,
                                                        common_name,
                                                        permissions,
                                                        constraints,
                                                        transition_constraints: Seq::empty(),
                                                        default_user: None,
                                                        default_role: None,
                                                        default_range: None,
                                                        default_type: None,
                                                    },
                                                ),
                                                Err(e) => Err(e),
                                            },
                                            Err(e) => Err(e),
                                        },
                                        None => Err(ReadErrV::InputError),
                                    }
                                },
                                None => Err(ReadErrV::InputError),
                            },
                            None => Err(ReadErrV::InputError),
                        },
                        None => Err(ReadErrV::InputError),
                    },
                    None => Err(ReadErrV::InputError),
                },
                None => Err(ReadErrV::InputError),
            },
            None => Err(ReadErrV::InputError),
        },
        None => Err(ReadErrV::InputError),
    }
}

/// The feature-gated tail of a class record: transition constraints and
/// default words.
pub open spec fn sp_class_tail(d: Seq<u8>, p: int, prof: ProfileV, base: ClassV) -> Result<
    (ClassV, int),
    ReadErrV,
> {
    let trans_r = if prof.supports(Feature::ValidateTransition) {
        match sp_u32(d, p) {
            Some((ntrans, p1)) => match sp_objects::<Constraint>(d, p1, prof, ntrans as int) {
                Ok((tcs, p2)) => Ok((tcs, p2)),
                Err(e) => Err(e),
            },
            None => Err(ReadErrV::InputError),
        }
    } else {
        Ok((Seq::<ConstraintV>::empty(), p))
    };
    match trans_r {
        Ok((transition_constraints, p1)) => {
            let defaults_r = if prof.supports(Feature::NewObjectDefaults) {
                match sp_u32(d, p1) {
                    Some((du, p2)) => match sp_u32(d, p2) {
                        Some((dra, p3)) => match sp_u32(d, p3) {
                            Some((dro, p4)) => Some((Some(du), Some(dra), Some(dro), p4)),
                            None => None,
                        },
                        None => None,
                    },
                    None => None,
                }
            } else {
                Some((None::<u32>, None::<u32>, None::<u32>, p1))
            };
            match defaults_r {
                Some((default_user, default_range, default_role, p2)) => {
                    let dt_r = if prof.supports(Feature::DefaultType) {
                        match sp_u32(d, p2) {
                            Some((dt, p3)) => Some((Some(dt), p3)),
                            None => None,
                        }
                    } else {
                        Some((None::<u32>, p2))
                    };
                    match dt_r {
                        Some((default_type, p3)) => Ok(
                            (
                                ClassV {
                                    transition_constraints,
                                    default_user,
                                    default_role,
                                    default_range,
                                    default_type,
                                    ..base
                                },
                                p3,
                            ),
                        ),
                        None => Err(ReadErrV::InputError),
                    }
                },
                None => Err(ReadErrV::InputError),
            }
        },
        Err(e) => Err(e),
    }
}

impl PolicyObject for Class {
    open spec fn sp_decode(d: Seq<u8>, p: int, prof: ProfileV) -> Result<(ClassV, int), ReadErrV> {
        sp_class(d, p, prof)
    }

    fn decode(r: &mut PolicyReader) -> (res: Result<Self, PolicyReadError>) {
        let name_len = match r.read_u32() {
            Ok(v) => v,
            Err(e) => {
                return Err(e);
            },
        };
        let common_name_len = match r.read_u32() {
            Ok(v) => v,
            Err(e) => {
                return Err(e);
            },
        };
        let id = match r.read_u32() {
            Ok(v) => v,
            Err(e) => {
                return Err(e);
            },
        };
        let _num_perm_names = match r.read_u32() {
            Ok(v) => v,
            Err(e) => {
                return Err(e);
            },
        };
        let num_perm_elements = match r.read_u32() {
            Ok(v) => v,
            Err(e) => {
                return Err(e);
            },
        };
        let num_constraints = match r.read_u32() {
            Ok(v) => v,
            Err(e) => {
                return Err(e);
            },
        };
        let name = match r.read_string(name_len as usize) {
            Ok(v) => v,
            Err(e) => {
                return Err(e);
            },
        };
        let common_name = if common_name_len == 0 {
            None
        } else {
            match r.read_string(common_name_len as usize) {
                Ok(v) => Some(v),
                Err(e) => {
                    return Err(e);
                },
            }
        };
        let permissions = match r.read_bare_symbol_table::<Permission>(
            num_perm_elements as usize,
        ) {
            Ok(v) => v,
            Err(e) => {
                return Err(e);
            },
        };
        let constraints = match r.read_objects::<Constraint>(num_constraints as usize) {
            Ok(v) => v,
            Err(e) => {
                return Err(e);
            },
        };
        let transition_constraints = if r.profile().supports(Feature::ValidateTransition) {
            let num_transition_constraints = match r.read_u32() {
                Ok(v) => v,
                Err(e) => {
                    return Err(e);
                },
            };
            match r.read_objects::<Constraint>(num_transition_constraints as usize) {
                Ok(v) => v,
                Err(e) => {
                    return Err(e);
                },
            }
        } else {
            let none_read: Vec<Constraint> = Vec::new();
            proof {
                assert(views_of(none_read@) =~= Seq::<ConstraintV>::empty());
            }
            none_read
        };
        let default_user: Option<u32>;
        let default_range: Option<u32>;
        let default_role: Option<u32>;
        if r.profile().supports(Feature::NewObjectDefaults) {
            let du = match r.read_u32() {
                Ok(v) => v,
                Err(e) => {
                    return Err(e);
                },
            };
            let dra = match r.read_u32() {
                Ok(v) => v,
                Err(e) => {
                    return Err(e);
                },
            };
            let dro = match r.read_u32() {
                Ok(v) => v,
                Err(e) => {
                    return Err(e);
                },
            };
            default_user = Some(du);
            default_range = Some(dra);
            default_role = Some(dro);
        } else {
            default_user = None;
            default_range = None;
            default_role = None;
        }
        let default_type = if r.profile().supports(Feature::DefaultType) {
            match r.read_u32() {
                Ok(v) => Some(v),
                Err(e) => {
                    return Err(e);
                },
            }
        } else {
            None
        };
        Ok(Class {
            id,
            name,
            common_name,
            permissions,
            constraints,
            transition_constraints,
            default_user,
            default_role,
            default_range,
            default_type,
        })
    }
}

impl Symbol for Class {
    open spec fn view_id(v: ClassV) -> u32 {
        v.id
    }

    open spec fn view_name(v: ClassV) -> Seq<u8> {
        v.name
    }

    fn id(&self) -> (r: u32) {
        self.id
    }

    fn name(&self) -> (r: &Vec<u8>) {
        &self.name
    }
}

} // verus!
