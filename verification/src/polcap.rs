//! Policy capabilities: named feature flags stored in the policy itself,
//! encoded as an extensible bitmap of stable ids.

use vstd::prelude::*;

use crate::bitmap::{bitmap_elems, bitmap_to_vec, decode_bitmap, sp_bitmap};
use crate::policy::PolicyObject;
use crate::profile::{Feature, ProfileV};
use crate::reader::{PolicyReadError, PolicyReader, ReadErrV};

verus! {

/// Closed enumeration of policy capabilities with stable wire ids 0 to 5.
#[derive(Clone, Copy, Debug, Hash, PartialEq, Eq, Structural)]
pub enum PolicyCapability {
    NetworkPeerControls,
    CheckOpenPermission,
    ExtendedSocketClasses,
    CheckNetworkPermissionAlways,
    CgroupSecLabel,
    NnpNoSuidTransition,
}

/// The stable wire id of a capability.
pub open spec fn spec_cap_id(c: PolicyCapability) -> u32 {
    match c {
        PolicyCapability::NetworkPeerControls => 0,
        PolicyCapability::CheckOpenPermission => 1,
        PolicyCapability::ExtendedSocketClasses => 2,
        PolicyCapability::CheckNetworkPermissionAlways => 3,
        PolicyCapability::CgroupSecLabel => 4,
        PolicyCapability::NnpNoSuidTransition => 5,
    }
}

/// The capability with the given wire id; `None` outside the closed range.
pub open spec fn spec_cap_from_id(id: u32) -> Option<PolicyCapability> {
    if id == 0 {
        Some(PolicyCapability::NetworkPeerControls)
    } else if id == 1 {
        Some(PolicyCapability::CheckOpenPermission)
    } else if id == 2 {
        Some(PolicyCapability::ExtendedSocketClasses)
    } else if id == 3 {
        Some(PolicyCapability::CheckNetworkPermissionAlways)
    } else if id == 4 {
        Some(PolicyCapability::CgroupSecLabel)
    } else if id == 5 {
        Some(PolicyCapability::NnpNoSuidTransition)
    } else {
        None
    }
}

impl PolicyCapability {
    pub fn id(&self) -> (r: u32)
        ensures
            r == spec_cap_id(*self),
    {
        match self {
            PolicyCapability::NetworkPeerControls => 0,
            PolicyCapability::CheckOpenPermission => 1,
            PolicyCapability::ExtendedSocketClasses => 2,
            PolicyCapability::CheckNetworkPermissionAlways => 3,
            PolicyCapability::CgroupSecLabel => 4,
            PolicyCapability::NnpNoSuidTransition => 5,
        }
    }

    pub fn from_id(id: u32) -> (r: Option<PolicyCapability>)
        ensures
            r == spec_cap_from_id(id),
    {
        if id == 0 {
            Some(PolicyCapability::NetworkPeerControls)
        } else if id == 1 {
            Some(PolicyCapability::CheckOpenPermission)
        } else if id == 2 {
            Some(PolicyCapability::ExtendedSocketClasses)
        } else if id == 3 {
            Some(PolicyCapability::CheckNetworkPermissionAlways)
        } else if id == 4 {
            Some(PolicyCapability::CgroupSecLabel)
        } else if id == 5 {
            Some(PolicyCapability::NnpNoSuidTransition)
        } else {
            None
        }
    }
}

/// The unordered set of capabilities carried by a policy.
#[derive(Debug)]
pub struct PolicyCapabilitySet {
    pub polcaps: Vec<PolicyCapability>,
}

impl View for PolicyCapabilitySet {
    type V = Seq<PolicyCapability>;

    open spec fn view(&self) -> Seq<PolicyCapability> {
        self.polcaps@
    }
}

/// The sequence with the first occurrence of `x` removed.
pub open spec fn remove_first(s: Seq<PolicyCapability>, x: PolicyCapability) -> Seq<
    PolicyCapability,
>
    decreases s.len(),
{
    if s.len() == 0 {
        s
    } else if s[0] == x {
        s.skip(1)
    } else {
        seq![s[0]] + remove_first(s.skip(1), x)
    }
}

proof fn lemma_remove_first_at(s: Seq<PolicyCapability>, x: PolicyCapability, i: int)
    requires
        0 <= i < s.len(),
        forall|j: int| 0 <= j < i ==> s[j] != x,
        s[i] == x,
    ensures
        remove_first(s, x) == s.remove(i),
    decreases i,
{
    if i == 0 {
        assert(remove_first(s, x) =~= s.remove(0));
    } else {
        lemma_remove_first_at(s.skip(1), x, i - 1);
        assert(remove_first(s, x) =~= s.remove(i));
    }
}

proof fn lemma_remove_first_absent(s: Seq<PolicyCapability>, x: PolicyCapability)
    requires
        forall|j: int| 0 <= j < s.len() ==> s[j] != x,
    ensures
        remove_first(s, x) == s,
    decreases s.len(),
{
    if s.len() > 0 {
        lemma_remove_first_absent(s.skip(1), x);
        assert(remove_first(s, x) =~= s);
    }
}

impl PolicyCapabilitySet {
    pub fn new(polcaps: Vec<PolicyCapability>) -> (r: Self)
        ensures
            r@ == polcaps@,
    {
        PolicyCapabilitySet { polcaps }
    }

    pub fn empty() -> (r: Self)
        ensures
            r@ == Seq::<PolicyCapability>::empty(),
    {
        PolicyCapabilitySet { polcaps: Vec::new() }
    }

    /// A borrow of all capabilities held.
    pub fn all(&self) -> (r: &Vec<PolicyCapability>)
        ensures
            r@ == self@,
    {
        &self.polcaps
    }

    /// Whether the given capability is in the set.
    pub fn is_enabled(&self, polcap: PolicyCapability) -> (r: bool)
        ensures
            r == self@.contains(polcap),
    {
        let n = self.polcaps.len();
        let mut i: usize = 0;
        while i < n
            invariant
                0 <= i <= n,
                n == self@.len(),
                forall|j: int| 0 <= j < i ==> self@[j] != polcap,
            decreases n - i,
        {
            if self.polcaps[i] == polcap {
                return true;
            }
            i = i + 1;
        }
        false
    }

    /// Adds the capability (even if already present, as the reference
    /// decoder does).
    pub fn enable(&mut self, polcap: PolicyCapability)
        ensures
            final(self)@ == old(self)@.push(polcap),
    {
        self.polcaps.push(polcap)
    }

    /// Removes the first occurrence of the capability, if any.
    pub fn disable(&mut self, polcap: PolicyCapability)
        ensures
            final(self)@ == remove_first(old(self)@, polcap),
    {
        let n = self.polcaps.len();
        let mut i: usize = 0;
        while i < n
            invariant
                0 <= i <= n,
                n == self@.len(),
                self@ == old(self)@,
                forall|j: int| 0 <= j < i ==> self@[j] != polcap,
            decreases n - i,
        {
            if self.polcaps[i] == polcap {
                proof {
                    lemma_remove_first_at(self@, polcap, i as int);
                }
                self.polcaps.remove(i);
                return;
            }
            i = i + 1;
        }
        proof {
            lemma_remove_first_absent(self@, polcap);
        }
    }
}

/// The wire ids below 6 that are present in the set, in ascending order.
pub open spec fn sorted_cap_ids(bits: Set<u32>) -> Seq<u32> {
    let s0 = if bits.contains(0u32) {
        seq![0u32]
    } else {
        Seq::empty()
    };
    let s1 = if bits.contains(1u32) {
        s0.push(1u32)
    } else {
        s0
    };
    let s2 = if bits.contains(2u32) {
        s1.push(2u32)
    } else {
        s1
    };
    let s3 = if bits.contains(3u32) {
        s2.push(3u32)
    } else {
        s2
    };
    let s4 = if bits.contains(4u32) {
        s3.push(4u32)
    } else {
        s3
    };
    if bits.contains(5u32) {
        s4.push(5u32)
    } else {
        s4
    }
}

/// The capability set encoded by a bitmap: each set bit maps to the
/// capability with that id, in ascending id order; a bit outside the closed
/// enumeration makes the whole set undecodable.
pub open spec fn caps_of_bits(bits: Set<u32>) -> Option<Seq<PolicyCapability>> {
    if forall|x: u32| bits.contains(x) ==> x <= 5 {
        Some(sorted_cap_ids(bits).map_values(|i: u32| spec_cap_from_id(i)->Some_0))
    } else {
        None
    }
}

/// Wire format of the capability set: under `PolicyCapabilities` an
/// extensible bitmap of capability ids, otherwise nothing (the set is
/// empty).
pub open spec fn sp_polcaps(d: Seq<u8>, p: int, prof: ProfileV) -> Result<
    (Seq<PolicyCapability>, int),
    ReadErrV,
> {
    if prof.supports(Feature::PolicyCapabilities) {
        match sp_bitmap(d, p) {
            Some((bits, p1)) => match caps_of_bits(bits) {
                Some(caps) => Ok((caps, p1)),
                None => Err(ReadErrV::InvalidPolicyCapability),
            },
            None => Err(ReadErrV::InputError),
        }
    } else {
        Ok((Seq::empty(), p))
    }
}

/// A capability bit outside the closed enumeration — any index above 5 —
/// makes the whole capability set undecodable, with
/// `InvalidPolicyCapability`.
pub proof fn lemma_unknown_capability_fatal(
    d: Seq<u8>,
    p: int,
    prof: ProfileV,
    bits: Set<u32>,
    p1: int,
    x: u32,
)
    requires
        prof.supports(Feature::PolicyCapabilities),
        sp_bitmap(d, p) == Some((bits, p1)),
        bits.contains(x),
        x > 5,
    ensures
        sp_polcaps(d, p, prof) == Err::<(Seq<PolicyCapability>, int), _>(
            ReadErrV::InvalidPolicyCapability,
        ),
{
    assert(!(forall|y: u32| bits.contains(y) ==> y <= 5));
}

/// Two strictly ascending sequences over the same set of elements are
/// equal.
proof fn lemma_sorted_unique(a: Seq<u32>, b: Seq<u32>)
    requires
        forall|i: int, j: int| 0 <= i < j < a.len() ==> a[i] < a[j],
        forall|i: int, j: int| 0 <= i < j < b.len() ==> b[i] < b[j],
        forall|x: u32| a.contains(x) <==> b.contains(x),
    ensures
        a == b,
    decreases a.len(),
{
    if a.len() == 0 {
        if b.len() > 0 {
            assert(b.contains(b[0]));
            assert(a.contains(b[0]));
        }
        assert(a =~= b);
    } else {
        assert(a.contains(a[0]));
        assert(b.contains(a[0]));
        assert(b.len() > 0);
        let k = choose|k: int| 0 <= k < b.len() && b[k] == a[0];
        assert(b.contains(b[0]));
        assert(a.contains(b[0]));
        let m = choose|m: int| 0 <= m < a.len() && a[m] == b[0];
        assert(b[0] <= b[k]);
        assert(a[0] <= a[m]);
        assert(a[0] == b[0]);
        let at = a.skip(1);
        let bt = b.skip(1);
        assert(forall|i: int, j: int| 0 <= i < j < at.len() ==> at[i] < at[j]) by {
            assert(forall|i: int| 0 <= i < at.len() ==> at[i] == a[i + 1]);
        }
        assert(forall|i: int, j: int| 0 <= i < j < bt.len() ==> bt[i] < bt[j]) by {
            assert(forall|i: int| 0 <= i < bt.len() ==> bt[i] == b[i + 1]);
        }
        assert forall|x: u32| at.contains(x) <==> bt.contains(x) by {
            if at.contains(x) {
                let i = choose|i: int| 0 <= i < at.len() && at[i] == x;
                assert(a[i + 1] == x);
                assert(a.contains(x));
                assert(b.contains(x));
                let j = choose|j: int| 0 <= j < b.len() && b[j] == x;
                assert(x > a[0]);
                assert(j != 0);
                assert(bt[j - 1] == x);
                assert(bt.contains(x));
            }
            if bt.contains(x) {
                let i = choose|i: int| 0 <= i < bt.len() && bt[i] == x;
                assert(b[i + 1] == x);
                assert(b.contains(x));
                assert(a.contains(x));
                let j = choose|j: int| 0 <= j < a.len() && a[j] == x;
                assert(x > b[0]);
                assert(j != 0);
                assert(at[j - 1] == x);
                assert(at.contains(x));
            }
        }
        lemma_sorted_unique(at, bt);
        assert forall|i: int| 0 <= i < a.len() implies a[i] == b[i] by {
            if i > 0 {
                assert(at[i - 1] == a[i]);
                assert(bt[i - 1] == b[i]);
            }
        }
        assert(a =~= b);
    }
}

/// `sorted_cap_ids` is strictly ascending and holds exactly the set's
/// members below 6.
proof fn lemma_sorted_cap_ids(bits: Set<u32>)
    ensures
        forall|i: int, j: int|
            0 <= i < j < sorted_cap_ids(bits).len() ==> sorted_cap_ids(bits)[i] < sorted_cap_ids(
                bits,
            )[j],
        forall|x: u32|
            sorted_cap_ids(bits).contains(x) <==> (bits.contains(x) && x <= 5),
{
    broadcast use vstd::seq_lib::group_seq_properties;

    let s = sorted_cap_ids(bits);
    assert forall|x: u32| s.contains(x) implies (bits.contains(x) && x <= 5) by {
        let i = choose|i: int| 0 <= i < s.len() && s[i] == x;
    }
    assert forall|x: u32| bits.contains(x) && x <= 5 implies s.contains(x) by {
        assert(x == 0 || x == 1 || x == 2 || x == 3 || x == 4 || x == 5);
        let s0 = if bits.contains(0u32) {
            seq![0u32]
        } else {
            Seq::<u32>::empty()
        };
        let s1 = if bits.contains(1u32) {
            s0.push(1u32)
        } else {
            s0
        };
        let s2 = if bits.contains(2u32) {
            s1.push(2u32)
        } else {
            s1
        };
        let s3 = if bits.contains(3u32) {
            s2.push(3u32)
        } else {
            s2
        };
        let s4 = if bits.contains(4u32) {
            s3.push(4u32)
        } else {
            s3
        };
        if x == 0 {
            assert(s0.contains(x));
            assert(s1.contains(x));
            assert(s2.contains(x));
            assert(s3.contains(x));
            assert(s4.contains(x));
        } else if x == 1 {
            assert(s1.contains(x));
            assert(s2.contains(x));
            assert(s3.contains(x));
            assert(s4.contains(x));
        } else if x == 2 {
            assert(s2.contains(x));
            assert(s3.contains(x));
            assert(s4.contains(x));
        } else if x == 3 {
            assert(s3.contains(x));
            assert(s4.contains(x));
        } else if x == 4 {
            assert(s4.contains(x));
        }
        assert(s.contains(x));
    }
}

impl PolicyObject for PolicyCapabilitySet {
    open spec fn sp_decode(d: Seq<u8>, p: int, prof: ProfileV) -> Result<
        (Seq<PolicyCapability>, int),
        ReadErrV,
    > {
        sp_polcaps(d, p, prof)
    }

    fn decode(r: &mut PolicyReader) -> (res: Result<Self, PolicyReadError>) {
        if !r.profile().supports(Feature::PolicyCapabilities) {
            let s = PolicyCapabilitySet::empty();
            return Ok(s);
        }
        let bm = match decode_bitmap(r) {
            Ok(v) => v,
            Err(e) => {
                return Err(e);
            },
        };
        let ghost bits = bitmap_elems(bm);
        let ids = bitmap_to_vec(&bm);
        let mut caps: Vec<PolicyCapability> = Vec::new();
        let n = ids.len();
        let mut i: usize = 0;
        while i < n
            invariant
                0 <= i <= n,
                n == ids@.len(),
                r.wf(),
                r.data@ == old(r).data@,
                r.prof_opt() == old(r).prof_opt(),
                old(r).pos <= r.pos,
                old(r).prof().supports(Feature::PolicyCapabilities),
                sp_bitmap(old(r).data@, old(r).pos as int) == Some((bits, r.pos as int)),
                forall|j: int, k: int| 0 <= j < k < ids@.len() ==> ids@[j] < ids@[k],
                forall|x: u32| #[trigger] ids@.contains(x) <==> bits.contains(x),
                forall|j: int| 0 <= j < i ==> ids@[j] <= 5,
                caps@ == ids@.take(i as int).map_values(|id: u32| spec_cap_from_id(id)->Some_0),
            decreases n - i,
        {
            let id = ids[i];
            match PolicyCapability::from_id(id) {
                Some(c) => {
                    let ghost prev = caps@;
                    caps.push(c);
                    proof {
                        assert(ids@.take(i + 1).drop_last() =~= ids@.take(i as int));
                        assert(caps@ =~= ids@.take(i + 1).map_values(
                            |id: u32| spec_cap_from_id(id)->Some_0,
                        ));
                    }
                },
                None => {
                    proof {
                        assert(ids@.contains(ids@[i as int]));
                        assert(bits.contains(id) && id > 5);
                        assert(caps_of_bits(bits) is None);
                    }
                    return Err(PolicyReadError::InvalidPolicyCapability);
                },
            }
            i = i + 1;
        }
        proof {
            assert forall|x: u32| bits.contains(x) implies x <= 5 by {
                assert(ids@.contains(x));
                let j = choose|j: int| 0 <= j < ids@.len() && ids@[j] == x;
            }
            lemma_sorted_cap_ids(bits);
            assert forall|x: u32| ids@.contains(x) <==> sorted_cap_ids(bits).contains(x) by {
                if ids@.contains(x) {
                    assert(bits.contains(x));
                    let j = choose|j: int| 0 <= j < ids@.len() && ids@[j] == x;
                }
            }
            lemma_sorted_unique(ids@, sorted_cap_ids(bits));
            assert(ids@.take(n as int) =~= ids@);
        }
        Ok(PolicyCapabilitySet { polcaps: caps })
    }
}

} // verus!
