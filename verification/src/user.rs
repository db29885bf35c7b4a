//! User declarations.

use vstd::prelude::*;

use crate::mls::{
    sp_mls_level, sp_mls_level_expanded, sp_mls_range, sp_mls_range_expanded, MlsLevel,
    MlsLevelV, MlsRange, MlsRangeV,
};
use crate::policy::PolicyObject;
use crate::profile::{Feature, ProfileV};
use crate::reader::{sp_string, sp_u32, PolicyReadError, PolicyReader, ReadErrV};
use crate::role::{sp_role_set, RoleSet, RoleSetV};
use crate::symtable::Symbol;

verus! {

/// A user declaration: a set of authorized roles, an MLS range and a
/// default level, and an optional bounds reference.
#[derive(Debug)]
pub struct User {
    pub id: u32,
    pub name: Vec<u8>,
    pub roles: RoleSet,
    pub range: MlsRange,
    pub default_level: MlsLevel,
    pub bounds: Option<u32>,
}

/// Mathematical model of a `User`.
pub struct UserV {
    pub id: u32,
    pub name: Seq<u8>,
    pub roles: RoleSetV,
    pub range: MlsRangeV,
    pub default_level: MlsLevelV,
    pub bounds: Option<u32>,
}

impl View for User {
    type V = UserV;

    open spec fn view(&self) -> UserV {
        UserV {
            id: self.id,
            name: self.name@,
            roles: self.roles@,
            range: self.range@,
            default_level: self.default_level@,
            bounds: self.bounds,
        }
    }
}

/// Wire format of a user: `name_len, id`, a bounds word under `Boundary`,
/// `name`, the role set, then the MLS range and default level — in the
/// expanded encoding iff both `Mls` and `MlsUsers` are supported.
pub open spec fn sp_user(d: Seq<u8>, p: int, prof: ProfileV) -> Result<(UserV, int), ReadErrV> {
    match sp_u32(d, p) {
        Some((name_len, p1)) => match sp_u32(d, p1) {
            Some((id, p2)) => {
                let bounds_r = if prof.supports(Feature::Boundary) {
                    match sp_u32(d, p2) {
                        Some((b, p3)) => Some((Some(b), p3)),
                        None => None,
                    }
                } else {
                    Some((None::<u32>, p2))
                };
                match bounds_r {
                    Some((bounds, p3)) => match sp_string(d, p3, name_len as int) {
                        Some((name, p4)) => match sp_role_set(d, p4, prof) {
                            Ok((roles, p5)) => {
                                let expanded = prof.supports(Feature::Mls) && prof.supports(
                                    Feature::MlsUsers,
                                );
                                let range_r = if expanded {
                                    sp_mls_range_expanded(d, p5)
                                } else {
                                    sp_mls_range(d, p5)
                                };
                                match range_r {
                                    Some((range, p6)) => {
                                        let level_r = if expanded {
                                            sp_mls_level_expanded(d, p6)
                                        } else {
                                            sp_mls_level(d, p6)
                                        };
                                        match level_r {
                                            Some((default_level, p7)) => Ok(
                                                (
                                                    UserV {
                                                        id,
                                                        name,
                                                        roles,
                                                        range,
                                                        default_level,
                                                        bounds,
                                                    },
                                                    p7,
                                                ),
                                            ),
                                            None => Err(ReadErrV::InputError),
                                        }
                                    },
                                    None => Err(ReadErrV::InputError),
                                }
                            },
                            Err(e) => Err(e),
                        },
                        None => Err(ReadErrV::InputError),
                    },
                    None => Err(ReadErrV::InputError),
                }
            },
            None => Err(ReadErrV::InputError),
        },
        None => Err(ReadErrV::InputError),
    }
}

impl PolicyObject for User {
    open spec fn sp_decode(d: Seq<u8>, p: int, prof: ProfileV) -> Result<(UserV, int), ReadErrV> {
        sp_user(d, p, prof)
    }

    fn decode(r: &mut PolicyReader) -> (res: Result<Self, PolicyReadError>) {
        let name_len = match r.read_u32() {
            Ok(v) => v,
            Err(e) => {
                return Err(e);
            },
        };
        let id = match r.read_u32() {
            Ok(v) => v,
            Err(e) => {
                return Err(e);
            },
        };
        let bounds = if r.profile().supports(Feature::Boundary) {
            let b = match r.read_u32() {
                Ok(v) => v,
                Err(e) => {
                    return Err(e);
                },
            };
            Some(b)
        } else {
            None
        };
        let name = match r.read_string(name_len as usize) {
            Ok(v) => v,
            Err(e) => {
                return Err(e);
            },
        };
        let roles = match r.read_object::<RoleSet>() {
            Ok(v) => v,
            Err(e) => {
                return Err(e);
            },
        };
        let expanded = r.profile().supports(Feature::Mls) && r.profile().supports(
            Feature::MlsUsers,
        );
        let range = if expanded {
            match MlsRange::decode_expanded(r) {
                Ok(v) => v,
                Err(e) => {
                    return Err(e);
                },
            }
        } else {
            match r.read_object::<MlsRange>() {
                Ok(v) => v,
                Err(e) => {
                    return Err(e);
                },
            }
        };
        let default_level = if expanded {
            match MlsLevel::decode_expanded(r) {
                Ok(v) => v,
                Err(e) => {
                    return Err(e);
                },
            }
        } else {
            match r.read_object::<MlsLevel>() {
                Ok(v) => v,
                Err(e) => {
                    return Err(e);
                },
            }
        };
        Ok(User { id, name, roles, range, default_level, bounds })
    }
}

impl Symbol for User {
    open spec fn view_id(v: UserV) -> u32 {
        v.id
    }

    open spec fn view_name(v: UserV) -> Seq<u8> {
        v.name
    }

    fn id(&self) -> (r: u32) {
        self.id
    }

    fn name(&self) -> (r: &Vec<u8>) {
        &self.name
    }
}

impl User {
    /// A borrow of the default MLS level.
    pub fn default_level(&self) -> (r: &MlsLevel)
        ensures
            r@ == self@.default_level,
    {
        &self.default_level
    }

    /// A borrow of the MLS range.
    pub fn range(&self) -> (r: &MlsRange)
        ensures
            r@ == self@.range,
    {
        &self.range
    }
}

} // verus!
