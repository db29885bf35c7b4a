//! Conditional booleans: runtime-tunable policy switches.

use vstd::prelude::*;

use crate::policy::PolicyObject;
use crate::profile::{Feature, ProfileV};
use crate::reader::{sp_string, sp_u32, PolicyReadError, PolicyReader, ReadErrV};
use crate::symtable::Symbol;

verus! {

/// A runtime-tunable policy switch that gates conditional rules. The
/// `flags` word is only present in the stream under `TunableSep`.
#[derive(Debug)]
pub struct Boolean {
    pub id: u32,
    pub name: Vec<u8>,
    pub state: bool,
    pub flags: u32,
}

/// Mathematical model of a `Boolean`.
pub struct BooleanV {
    pub id: u32,
    pub name: Seq<u8>,
    pub state: bool,
    pub flags: u32,
}

impl View for Boolean {
    type V = BooleanV;

    open spec fn view(&self) -> BooleanV {
        BooleanV { id: self.id, name: self.name@, state: self.state, flags: self.flags }
    }
}

/// Wire format of a boolean: `id, state, name_len, name`, then `flags` iff
/// the profile supports `TunableSep`; otherwise the flags are zero.
pub open spec fn sp_boolean(d: Seq<u8>, p: int, prof: ProfileV) -> Result<(BooleanV, int), ReadErrV> {
    match sp_u32(d, p) {
        Some((id, p1)) => match sp_u32(d, p1) {
            Some((state_w, p2)) => match sp_u32(d, p2) {
                Some((name_len, p3)) => match sp_string(d, p3, name_len as int) {
                    Some((name, p4)) => if prof.supports(Feature::TunableSep) {
                        match sp_u32(d, p4) {
                            Some((flags, p5)) => Ok(
                                (BooleanV { id, name, state: state_w == 1, flags }, p5),
                            ),
                            None => Err(ReadErrV::InputError),
                        }
                    } else {
                        Ok((BooleanV { id, name, state: state_w == 1, flags: 0 }, p4))
                    },
                    None => Err(ReadErrV::InputError),
                },
                None => Err(ReadErrV::InputError),
            },
            None => Err(ReadErrV::InputError),
        },
        None => Err(ReadErrV::InputError),
    }
}

impl PolicyObject for Boolean {
    open spec fn sp_decode(d: Seq<u8>, p: int, prof: ProfileV) -> Result<(BooleanV, int), ReadErrV> {
        sp_boolean(d, p, prof)
    }

    fn decode(r: &mut PolicyReader) -> (res: Result<Self, PolicyReadError>) {
        let id = match r.read_u32() {
            Ok(v) => v,
            Err(e) => {
                return Err(e);
            },
        };
        let state_w = match r.read_u32() {
            Ok(v) => v,
            Err(e) => {
                return Err(e);
            },
        };
        let name_len = match r.read_u32() {
            Ok(v) => v,
            Err(e) => {
                return Err(e);
            },
        };
        let name = match r.read_string(name_len as usize) {
            Ok(v) => v,
            Err(e) => {
                return Err(e);
            },
        };
        let flags = if r.profile().supports(Feature::TunableSep) {
            match r.read_u32() {
                Ok(v) => v,
                Err(e) => {
                    return Err(e);
                },
            }
        } else {
            0
        };
        Ok(Boolean { id, name, state: state_w == 1, flags })
    }
}

impl Symbol for Boolean {
    open spec fn view_id(v: BooleanV) -> u32 {
        v.id
    }

    open spec fn view_name(v: BooleanV) -> Seq<u8> {
        v.name
    }

    fn id(&self) -> (r: u32) {
        self.id
    }

    fn name(&self) -> (r: &Vec<u8>) {
        &self.name
    }
}

impl Boolean {
    /// The current state of the switch.
    pub fn is_toggled(&self) -> (r: bool)
        ensures
            r == self@.state,
    {
        self.state
    }
}

} // verus!
