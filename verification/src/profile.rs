//! The compatibility profile: given a policy type and a format version, it
//! answers which optional features and layout variants are present in the
//! stream. Every non-trivial decode site is gated on `supports`.

use vstd::prelude::*;

use crate::policy::{PolicyTargetPlatform, PolicyType, PolicyTypeV};

verus! {

pub const POLICYDB_VERSION_BASE: u32 = 15;

pub const POLICYDB_VERSION_VALIDATETRANS: u32 = 19;

pub const POLICYDB_VERSION_MLS: u32 = 19;

pub const POLICYDB_VERSION_AVTAB: u32 = 20;

pub const POLICYDB_VERSION_POLCAP: u32 = 22;

pub const POLICYDB_VERSION_PERMISSIVE: u32 = 23;

pub const POLICYDB_VERSION_BOUNDARY: u32 = 24;

pub const POLICYDB_VERSION_NEW_OBJECT_DEFAULTS: u32 = 27;

pub const POLICYDB_VERSION_DEFAULT_TYPE: u32 = 28;

pub const POLICYDB_VERSION_XPERMS_IOCTL: u32 = 30;

pub const POLICYDB_VERSION_INFINIBAND: u32 = 31;

pub const MOD_POLICYDB_VERSION_BASE: u32 = 4;

pub const MOD_POLICYDB_VERSION_VALIDATETRANS: u32 = 5;

pub const MOD_POLICYDB_VERSION_MLS: u32 = 5;

pub const MOD_POLICYDB_VERSION_MLS_USERS: u32 = 6;

pub const MOD_POLICYDB_VERSION_POLCAP: u32 = 7;

pub const MOD_POLICYDB_VERSION_PERMISSIVE: u32 = 8;

pub const MOD_POLICYDB_VERSION_BOUNDARY: u32 = 9;

pub const MOD_POLICYDB_VERSION_BOUNDARY_ALIAS: u32 = 10;

pub const MOD_POLICYDB_VERSION_TUNABLE_SEP: u32 = 14;

pub const MOD_POLICYDB_VERSION_NEW_OBJECT_DEFAULTS: u32 = 15;

pub const MOD_POLICYDB_VERSION_DEFAULT_TYPE: u32 = 16;

pub const MOD_POLICYDB_VERSION_XPERMS_IOCTL: u32 = 18;

pub const MOD_POLICYDB_VERSION_INFINIBAND: u32 = 19;

/// One condition on the availability of a feature: either a version pair
/// (the side that applies to the current policy kind must exist and be
/// reached) or a required target platform.
#[derive(Clone, Copy, Debug)]
enum FeatureRequirement {
    Version { kernel: Option<u32>, module: Option<u32> },
    Platform(PolicyTargetPlatform),
}

/// An enumerated capability whose availability is computed from the policy
/// kind and the format version.
#[derive(Clone, Copy, Debug, Hash, PartialEq, Eq, Structural)]
pub enum Feature {
    PermissiveTypes,
    PolicyCapabilities,
    ValidateTransition,
    NewObjectDefaults,
    DefaultType,
    Boundary,
    BoundaryAlias,
    Mls,
    MlsUsers,
    TunableSep,
    AvTab,
    XpermsIoctl,
}

/// The kernel-side version threshold of a feature; `None` for a
/// module-exclusive feature.
pub open spec fn kernel_threshold(f: Feature) -> Option<u32> {
    match f {
        Feature::PolicyCapabilities => Some(POLICYDB_VERSION_POLCAP),
        Feature::PermissiveTypes => Some(POLICYDB_VERSION_PERMISSIVE),
        Feature::ValidateTransition => Some(POLICYDB_VERSION_VALIDATETRANS),
        Feature::NewObjectDefaults => Some(POLICYDB_VERSION_NEW_OBJECT_DEFAULTS),
        Feature::DefaultType => Some(POLICYDB_VERSION_DEFAULT_TYPE),
        Feature::Boundary => Some(POLICYDB_VERSION_BOUNDARY),
        Feature::BoundaryAlias => None,
        Feature::Mls => Some(POLICYDB_VERSION_MLS),
        Feature::MlsUsers => None,
        Feature::TunableSep => None,
        Feature::AvTab => Some(POLICYDB_VERSION_AVTAB),
        Feature::XpermsIoctl => Some(POLICYDB_VERSION_XPERMS_IOCTL),
    }
}

/// The module-side version threshold of a feature; `None` for a
/// kernel-exclusive feature.
pub open spec fn module_threshold(f: Feature) -> Option<u32> {
    match f {
        Feature::PolicyCapabilities => Some(MOD_POLICYDB_VERSION_POLCAP),
        Feature::PermissiveTypes => Some(MOD_POLICYDB_VERSION_PERMISSIVE),
        Feature::ValidateTransition => Some(MOD_POLICYDB_VERSION_VALIDATETRANS),
        Feature::NewObjectDefaults => Some(MOD_POLICYDB_VERSION_NEW_OBJECT_DEFAULTS),
        Feature::DefaultType => Some(MOD_POLICYDB_VERSION_DEFAULT_TYPE),
        Feature::Boundary => Some(MOD_POLICYDB_VERSION_BOUNDARY),
        Feature::BoundaryAlias => Some(MOD_POLICYDB_VERSION_BOUNDARY_ALIAS),
        Feature::Mls => Some(MOD_POLICYDB_VERSION_MLS),
        Feature::MlsUsers => Some(MOD_POLICYDB_VERSION_MLS_USERS),
        Feature::TunableSep => Some(MOD_POLICYDB_VERSION_TUNABLE_SEP),
        Feature::AvTab => None,
        Feature::XpermsIoctl => Some(MOD_POLICYDB_VERSION_XPERMS_IOCTL),
    }
}

/// Whether one requirement holds for the given policy type and version.
/// For a version pair, the side that applies to the policy kind must exist
/// and be reached; a missing side marks a kind-exclusive feature, which
/// never holds. A platform requirement demands a kernel policy with
/// exactly that target.
spec fn req_holds(ty: PolicyTypeV, version: u32, r: FeatureRequirement) -> bool {
    match r {
        FeatureRequirement::Version { kernel, module } => if ty is Kernel {
            match kernel {
                Some(t) => version >= t,
                None => false,
            }
        } else {
            match module {
                Some(t) => version >= t,
                None => false,
            }
        },
        FeatureRequirement::Platform(p) => ty == PolicyTypeV::Kernel(p),
    }
}

/// The requirement list of a feature: one version pair per feature in the
/// current table.
spec fn spec_requirements(f: Feature) -> Seq<FeatureRequirement> {
    seq![FeatureRequirement::Version { kernel: kernel_threshold(f), module: module_threshold(f) }]
}

/// A feature is supported iff the threshold on the side that applies to the
/// current policy kind exists and the version reaches it. A feature whose
/// applicable side has no threshold is exclusive to the other kind and is
/// never supported, at any version.
pub open spec fn spec_supports(is_kernel: bool, version: u32, f: Feature) -> bool {
    if is_kernel {
        match kernel_threshold(f) {
            Some(t) => version >= t,
            None => false,
        }
    } else {
        match module_threshold(f) {
            Some(t) => version >= t,
            None => false,
        }
    }
}

/// The versions for which a compatibility profile can be derived at all.
pub open spec fn spec_version_in_range(is_kernel: bool, version: u32) -> bool {
    if is_kernel {
        POLICYDB_VERSION_BASE <= version && version <= POLICYDB_VERSION_INFINIBAND
    } else {
        MOD_POLICYDB_VERSION_BASE <= version && version <= MOD_POLICYDB_VERSION_INFINIBAND
    }
}

/// Immutable value derived from the policy type and the format version;
/// `supports` resolves which optional fields and layout variants are present.
#[derive(Debug, Clone)]
pub struct CompatibilityProfile {
    pub ty: PolicyType,
    pub version: u32,
}

/// Mathematical model of a profile.
pub struct ProfileV {
    pub ty: PolicyTypeV,
    pub version: u32,
}

impl View for CompatibilityProfile {
    type V = ProfileV;

    open spec fn view(&self) -> ProfileV {
        ProfileV { ty: self.ty@, version: self.version }
    }
}

impl ProfileV {
    pub open spec fn is_kernel(self) -> bool {
        self.ty is Kernel
    }

    pub open spec fn supports(self, f: Feature) -> bool {
        spec_supports(self.is_kernel(), self.version, f)
    }

    pub open spec fn version_in_range(self) -> bool {
        spec_version_in_range(self.is_kernel(), self.version)
    }
}

impl Feature {
    /// The requirement list that decides this feature's availability.
    fn requirements(&self) -> (r: Vec<FeatureRequirement>)
        ensures
            r@ == spec_requirements(*self),
    {
        let kernel: Option<u32> = match self {
            Feature::PolicyCapabilities => Some(POLICYDB_VERSION_POLCAP),
            Feature::PermissiveTypes => Some(POLICYDB_VERSION_PERMISSIVE),
            Feature::ValidateTransition => Some(POLICYDB_VERSION_VALIDATETRANS),
            Feature::NewObjectDefaults => Some(POLICYDB_VERSION_NEW_OBJECT_DEFAULTS),
            Feature::DefaultType => Some(POLICYDB_VERSION_DEFAULT_TYPE),
            Feature::Boundary => Some(POLICYDB_VERSION_BOUNDARY),
            Feature::BoundaryAlias => None,
            Feature::Mls => Some(POLICYDB_VERSION_MLS),
            Feature::MlsUsers => None,
            Feature::TunableSep => None,
            Feature::AvTab => Some(POLICYDB_VERSION_AVTAB),
            Feature::XpermsIoctl => Some(POLICYDB_VERSION_XPERMS_IOCTL),
        };
        let module: Option<u32> = match self {
            Feature::PolicyCapabilities => Some(MOD_POLICYDB_VERSION_POLCAP),
            Feature::PermissiveTypes => Some(MOD_POLICYDB_VERSION_PERMISSIVE),
            Feature::ValidateTransition => Some(MOD_POLICYDB_VERSION_VALIDATETRANS),
            Feature::NewObjectDefaults => Some(MOD_POLICYDB_VERSION_NEW_OBJECT_DEFAULTS),
            Feature::DefaultType => Some(MOD_POLICYDB_VERSION_DEFAULT_TYPE),
            Feature::Boundary => Some(MOD_POLICYDB_VERSION_BOUNDARY),
            Feature::BoundaryAlias => Some(MOD_POLICYDB_VERSION_BOUNDARY_ALIAS),
            Feature::Mls => Some(MOD_POLICYDB_VERSION_MLS),
            Feature::MlsUsers => Some(MOD_POLICYDB_VERSION_MLS_USERS),
            Feature::TunableSep => Some(MOD_POLICYDB_VERSION_TUNABLE_SEP),
            Feature::AvTab => None,
            Feature::XpermsIoctl => Some(MOD_POLICYDB_VERSION_XPERMS_IOCTL),
        };
        let list: Vec<FeatureRequirement> = vec![FeatureRequirement::Version { kernel, module }];
        proof {
            assert(list@ =~= spec_requirements(*self));
        }
        list
    }
}

impl CompatibilityProfile {
    pub fn new(ty: PolicyType, version: u32) -> (r: Self)
        ensures
            r@.ty == ty@,
            r@.version == version,
    {
        CompatibilityProfile { ty, version }
    }

    /// Answers whether the given feature applies under this profile, by
    /// evaluating every requirement in the feature's list.
    pub fn supports(&self, feature: Feature) -> (r: bool)
        ensures
            r == self@.supports(feature),
    {
        let is_kernel = self.ty.is_kernel_policy();
        let reqs = feature.requirements();
        let n = reqs.len();
        let mut i: usize = 0;
        let mut all_hold = true;
        while i < n
            invariant
                0 <= i <= n,
                n == reqs@.len(),
                reqs@ == spec_requirements(feature),
                is_kernel == (self.ty@ is Kernel),
                all_hold == (forall|j: int|
                    0 <= j < i ==> req_holds(self.ty@, self.version, #[trigger] reqs@[j])),
            decreases n - i,
        {
            let holds = match reqs[i] {
                FeatureRequirement::Version { kernel, module } => {
                    let side = if is_kernel {
                        kernel
                    } else {
                        module
                    };
                    match side {
                        Some(t) => self.version >= t,
                        None => false,
                    }
                },
                FeatureRequirement::Platform(p) => match &self.ty {
                    PolicyType::Kernel(q) => *q == p,
                    _ => false,
                },
            };
            assert(holds == req_holds(self.ty@, self.version, reqs@[i as int]));
            if !holds {
                all_hold = false;
            }
            i = i + 1;
        }
        assert(all_hold == spec_supports(self.ty@ is Kernel, self.version, feature)) by {
            assert(spec_requirements(feature)[0] == FeatureRequirement::Version {
                kernel: kernel_threshold(feature),
                module: module_threshold(feature),
            });
        }
        all_hold
    }

    /// Answers whether a profile can be derived for this type-version pair.
    pub fn version_in_range(&self) -> (r: bool)
        ensures
            r == self@.version_in_range(),
    {
        if self.ty.is_kernel_policy() {
            POLICYDB_VERSION_BASE <= self.version && self.version <= POLICYDB_VERSION_INFINIBAND
        } else {
            MOD_POLICYDB_VERSION_BASE <= self.version
                && self.version <= MOD_POLICYDB_VERSION_INFINIBAND
        }
    }

    pub fn ty(&self) -> (r: &PolicyType)
        ensures
            r@ == self@.ty,
    {
        &self.ty
    }
}

/// For a feature with a kernel threshold, a kernel profile supports it
/// exactly when the version reaches that threshold.
pub proof fn lemma_kernel_threshold_supports(f: Feature, version: u32)
    requires
        kernel_threshold(f) is Some,
    ensures
        spec_supports(true, version, f) <==> version >= kernel_threshold(f)->Some_0,
{
}

/// For a feature with a module threshold, a module profile supports it
/// exactly when the version reaches that threshold.
pub proof fn lemma_module_threshold_supports(f: Feature, version: u32)
    requires
        module_threshold(f) is Some,
    ensures
        spec_supports(false, version, f) <==> version >= module_threshold(f)->Some_0,
{
}

/// A feature whose applicable side has no threshold is never supported:
/// a module-exclusive feature stays unsupported on kernel policies at
/// arbitrarily high versions, and symmetrically.
pub proof fn lemma_exclusive_feature_unsupported(is_kernel: bool, f: Feature, version: u32)
    requires
        is_kernel ==> kernel_threshold(f) is None,
        !is_kernel ==> module_threshold(f) is None,
    ensures
        !spec_supports(is_kernel, version, f),
{
}

/// Feature support is monotone in the version: raising the version never
/// takes a feature away.
pub proof fn lemma_supports_monotone(is_kernel: bool, v1: u32, v2: u32, f: Feature)
    requires
        v1 <= v2,
        spec_supports(is_kernel, v1, f),
    ensures
        spec_supports(is_kernel, v2, f),
{
}

} // verus!
