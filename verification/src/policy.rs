//! The policy root record and the kernel-vs-module distinction.

use vstd::prelude::*;

use croaring::Bitmap;

use crate::avtab::{AccessVectorTable, AvtabEntryV};
use crate::bitmap::bitmap_elems;
use crate::class::{Class, ClassV, Common, CommonV};
use crate::conditional::{Boolean, BooleanV};
use crate::mls::{Category, CategoryV, Sensitivity, SensitivityV};
use crate::polcap::{PolicyCapability, PolicyCapabilitySet};
use crate::profile::{CompatibilityProfile, ProfileV};
use crate::reader::{reader_preserved, PolicyReadError, PolicyReader, ReadErrV};
use crate::role::{Role, RoleV};
use crate::symtable::SymbolTable;
use crate::ty::{Type, TypeV};
use crate::user::{User, UserV};

verus! {

/// Target platform carried by a kernel policy header.
#[derive(Clone, Copy, Debug, PartialEq, Eq, Structural)]
pub enum PolicyTargetPlatform {
    SELinux,
    Xen,
}

/// Whether the policy is a fully linked kernel policy or a re-locatable
/// module fragment, as selected by the header magic number.
#[derive(Debug, Clone)]
pub enum PolicyType {
    Kernel(PolicyTargetPlatform),
    Module { is_base_module: bool, name: Vec<u8>, version: Vec<u8> },
}

/// Mathematical model of a `PolicyType`: strings become byte sequences.
pub enum PolicyTypeV {
    Kernel(PolicyTargetPlatform),
    Module { is_base_module: bool, name: Seq<u8>, version: Seq<u8> },
}

impl View for PolicyType {
    type V = PolicyTypeV;

    open spec fn view(&self) -> PolicyTypeV {
        match self {
            PolicyType::Kernel(p) => PolicyTypeV::Kernel(*p),
            PolicyType::Module { is_base_module, name, version } => PolicyTypeV::Module {
                is_base_module: *is_base_module,
                name: name@,
                version: version@,
            },
        }
    }
}

impl PolicyType {
    pub fn is_kernel_policy(&self) -> (r: bool)
        ensures
            r == (self@ is Kernel),
    {
        match self {
            PolicyType::Kernel(_) => true,
            _ => false,
        }
    }
}

/// Low bits of the header's config word.
#[derive(Debug, PartialEq, Eq)]
pub struct PolicyConfig {
    pub mls_enabled: bool,
    pub allow_unknowns: bool,
}

pub const SELINUX_MAGIC_NUMBER: u32 = 0xf97cff8c;

pub const SELINUX_MOD_MAGIC_NUMBER: u32 = 0xf97cff8d;

pub const CONFIG_MLS_ENABLED: u32 = 0x00000001;

pub const CONFIG_REJECT_UNKNOWN: u32 = 0x00000002;

pub const CONFIG_ALLOW_UNKNOWN: u32 = 0x00000004;

/// The platform literal `"SE Linux"` as bytes.
pub open spec fn is_selinux_platform(s: Seq<u8>) -> bool {
    s.len() == 8 && s[0] == 0x53u8 && s[1] == 0x45u8 && s[2] == 0x20u8 && s[3] == 0x4cu8
        && s[4] == 0x69u8 && s[5] == 0x6eu8 && s[6] == 0x75u8 && s[7] == 0x78u8
}

/// The platform literal `"XenFlask"` as bytes.
pub open spec fn is_xen_platform(s: Seq<u8>) -> bool {
    s.len() == 8 && s[0] == 0x58u8 && s[1] == 0x65u8 && s[2] == 0x6eu8 && s[3] == 0x46u8
        && s[4] == 0x6cu8 && s[5] == 0x61u8 && s[6] == 0x73u8 && s[7] == 0x6bu8
}

/// The element-wise model of a sequence of records.
pub open spec fn views_of<O: View>(s: Seq<O>) -> Seq<O::V> {
    s.map_values(|o: O| o@)
}

/// Implemented by every record type that can be decoded from the stream.
/// Each implementation carries a specification-level parser and proves its
/// executable decoder against it.
pub trait PolicyObject: View + Sized {
    /// The specification-level parser: the record's wire format, stated over
    /// the byte sequence, the cursor position, and the compatibility profile.
    spec fn sp_decode(d: Seq<u8>, p: int, prof: ProfileV) -> Result<(Self::V, int), ReadErrV>;

    /// Decodes one record from the stream.
    fn decode(r: &mut PolicyReader) -> (res: Result<Self, PolicyReadError>)
        requires
            old(r).wf(),
            old(r).profile is Some,
        ensures
            reader_preserved(*old(r), *final(r)),
            match res {
                Ok(v) => Self::sp_decode(old(r).data@, old(r).pos as int, old(r).prof())
                    == Ok::<_, ReadErrV>((v@, final(r).pos as int)),
                Err(e) => Self::sp_decode(old(r).data@, old(r).pos as int, old(r).prof())
                    == Err::<(Self::V, int), _>(e@),
            },
    ;
}

/// Parses `n` records of type `O` in sequence.
pub open spec fn sp_objects<O: PolicyObject>(d: Seq<u8>, p: int, prof: ProfileV, n: int) -> Result<
    (Seq<O::V>, int),
    ReadErrV,
>
    decreases n,
{
    if n <= 0 {
        Ok((Seq::empty(), p))
    } else {
        match sp_objects::<O>(d, p, prof, n - 1) {
            Ok((s, p1)) => match O::sp_decode(d, p1, prof) {
                Ok((v, p2)) => Ok((s.push(v), p2)),
                Err(e) => Err(e),
            },
            Err(e) => Err(e),
        }
    }
}

/// Once a prefix of the records fails to parse, any longer count fails the
/// same way.
pub proof fn lemma_sp_objects_err_mono<O: PolicyObject>(
    d: Seq<u8>,
    p: int,
    prof: ProfileV,
    m: int,
    n: int,
)
    requires
        0 <= m <= n,
        sp_objects::<O>(d, p, prof, m) is Err,
    ensures
        sp_objects::<O>(d, p, prof, n) == sp_objects::<O>(d, p, prof, m),
    decreases n,
{
    if n > m {
        lemma_sp_objects_err_mono::<O>(d, p, prof, m, n - 1);
    }
}

/// The root record: the complete decoded mandatory-access-control
/// configuration. Created once per decode and immutable afterwards.
#[derive(Debug)]
pub struct Policy {
    pub version: u32,
    pub polcaps: PolicyCapabilitySet,
    pub profile: CompatibilityProfile,
    pub permissive_type_map: Option<Bitmap>,
    pub avtab: AccessVectorTable,
    pub booleans: SymbolTable<Boolean>,
    pub categories: SymbolTable<Category>,
    pub common_classes: SymbolTable<Common>,
    pub classes: SymbolTable<Class>,
    pub roles: SymbolTable<Role>,
    pub sensitivities: SymbolTable<Sensitivity>,
    pub types: SymbolTable<Type>,
    pub users: SymbolTable<User>,
}

/// Mathematical model of a `Policy`.
pub struct PolicyV {
    pub version: u32,
    pub polcaps: Seq<PolicyCapability>,
    pub profile: ProfileV,
    pub permissive_type_map: Option<Set<u32>>,
    pub avtab: Seq<AvtabEntryV>,
    pub booleans: Seq<BooleanV>,
    pub categories: Seq<CategoryV>,
    pub common_classes: Seq<CommonV>,
    pub classes: Seq<ClassV>,
    pub roles: Seq<RoleV>,
    pub sensitivities: Seq<SensitivityV>,
    pub types: Seq<TypeV>,
    pub users: Seq<UserV>,
}

impl View for Policy {
    type V = PolicyV;

    open spec fn view(&self) -> PolicyV {
        PolicyV {
            version: self.version,
            polcaps: self.polcaps@,
            profile: self.profile@,
            permissive_type_map: match &self.permissive_type_map {
                Some(b) => Some(bitmap_elems(*b)),
                None => None,
            },
            avtab: self.avtab@,
            booleans: self.booleans@,
            categories: self.categories@,
            common_classes: self.common_classes@,
            classes: self.classes@,
            roles: self.roles@,
            sensitivities: self.sensitivities@,
            types: self.types@,
            users: self.users@,
        }
    }
}

impl Policy {
    pub fn booleans(&self) -> (r: &SymbolTable<Boolean>)
        ensures
            r@ == self@.booleans,
    {
        &self.booleans
    }

    pub fn categories(&self) -> (r: &SymbolTable<Category>)
        ensures
            r@ == self@.categories,
    {
        &self.categories
    }

    pub fn common_classes(&self) -> (r: &SymbolTable<Common>)
        ensures
            r@ == self@.common_classes,
    {
        &self.common_classes
    }

    pub fn classes(&self) -> (r: &SymbolTable<Class>)
        ensures
            r@ == self@.classes,
    {
        &self.classes
    }

    pub fn roles(&self) -> (r: &SymbolTable<Role>)
        ensures
            r@ == self@.roles,
    {
        &self.roles
    }

    pub fn sensitivities(&self) -> (r: &SymbolTable<Sensitivity>)
        ensures
            r@ == self@.sensitivities,
    {
        &self.sensitivities
    }

    pub fn types(&self) -> (r: &SymbolTable<Type>)
        ensures
            r@ == self@.types,
    {
        &self.types
    }

    pub fn users(&self) -> (r: &SymbolTable<User>)
        ensures
            r@ == self@.users,
    {
        &self.users
    }

    pub fn profile(&self) -> (r: &CompatibilityProfile)
        ensures
            r@ == self@.profile,
    {
        &self.profile
    }

    pub fn polcaps(&self) -> (r: &PolicyCapabilitySet)
        ensures
            r@ == self@.polcaps,
    {
        &self.polcaps
    }

    pub fn ty(&self) -> (r: &PolicyType)
        ensures
            r@ == self@.profile.ty,
    {
        &self.profile.ty
    }

    pub fn version(&self) -> (r: u32)
        ensures
            r == self@.version,
    {
        self.version
    }

    /// A borrow of the access-vector rule table.
    pub fn avtab(&self) -> (r: &AccessVectorTable)
        ensures
            r@ == self@.avtab,
    {
        &self.avtab
    }
}

/// Decides whether a platform string names the SELinux target.
pub fn platform_is_selinux(s: &Vec<u8>) -> (r: bool)
    ensures
        r == is_selinux_platform(s@),
{
    s.len() == 8 && s[0] == 0x53u8 && s[1] == 0x45u8 && s[2] == 0x20u8 && s[3] == 0x4cu8
        && s[4] == 0x69u8 && s[5] == 0x6eu8 && s[6] == 0x75u8 && s[7] == 0x78u8
}

/// Decides whether a platform string names the Xen target.
pub fn platform_is_xen(s: &Vec<u8>) -> (r: bool)
    ensures
        r == is_xen_platform(s@),
{
    s.len() == 8 && s[0] == 0x58u8 && s[1] == 0x65u8 && s[2] == 0x6eu8 && s[3] == 0x46u8
        && s[4] == 0x6cu8 && s[5] == 0x61u8 && s[6] == 0x73u8 && s[7] == 0x6bu8
}

} // verus!
