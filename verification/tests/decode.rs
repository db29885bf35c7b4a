//! End-to-end decoding scenarios over whole policy streams.

use sepolrs::{
    CompatibilityProfile, Feature, Policy, PolicyCapability, PolicyReadError, PolicyReader,
    PolicyTargetPlatform, PolicyType, Symbol,
};

fn w32(out: &mut Vec<u8>, v: u32) {
    out.extend_from_slice(&v.to_le_bytes());
}

fn w64(out: &mut Vec<u8>, v: u64) {
    out.extend_from_slice(&v.to_le_bytes());
}

fn empty_bitmap(out: &mut Vec<u8>) {
    w32(out, 64); // map_size
    w32(out, 0); // high_bit
    w32(out, 0); // map_count
}

fn empty_table(out: &mut Vec<u8>) {
    w32(out, 0); // num_primary_names
    w32(out, 0); // num_elements
}

fn kernel_header(out: &mut Vec<u8>, platform: &[u8], version: u32) {
    w32(out, 0xf97cff8c);
    w32(out, platform.len() as u32);
    out.extend_from_slice(platform);
    w32(out, version);
    w32(out, 1); // config: MLS enabled
    w32(out, 8); // num symbol tables
    w32(out, 6); // num ocon tables
}

fn module_header(out: &mut Vec<u8>, version: u32, name: &[u8], vstr: &[u8]) {
    w32(out, 0xf97cff8d);
    w32(out, 8);
    out.extend_from_slice(b"SE Linux");
    w32(out, 1); // is_base_module
    w32(out, version);
    w32(out, 0); // config
    w32(out, 8); // num symbol tables
    w32(out, 0); // num ocon tables
    w32(out, name.len() as u32);
    out.extend_from_slice(name);
    w32(out, vstr.len() as u32);
    out.extend_from_slice(vstr);
}

/// A minimal kernel policy at the given version with empty tables.
fn minimal_kernel_policy(platform: &[u8], version: u32) -> Vec<u8> {
    let mut out = Vec::new();
    kernel_header(&mut out, platform, version);
    if version >= 22 {
        empty_bitmap(&mut out); // policy capabilities
    }
    if version >= 23 {
        empty_bitmap(&mut out); // permissive types
    }
    for _ in 0..8 {
        empty_table(&mut out);
    }
    w32(&mut out, 0); // access-vector table: no entries
    out
}

/// A minimal module policy at the given version with empty tables.
fn minimal_module_policy(version: u32, name: &[u8], vstr: &[u8]) -> Vec<u8> {
    let mut out = Vec::new();
    module_header(&mut out, version, name, vstr);
    if version >= 7 {
        empty_bitmap(&mut out);
    }
    if version >= 8 {
        empty_bitmap(&mut out);
    }
    for _ in 0..8 {
        empty_table(&mut out);
    }
    w32(&mut out, 0);
    out
}

fn decode(bytes: Vec<u8>) -> Result<Policy, PolicyReadError> {
    PolicyReader::new(bytes).read_policy()
}

#[test]
fn invalid_magic_zero() {
    let mut out = Vec::new();
    w32(&mut out, 0);
    w32(&mut out, 8);
    out.extend_from_slice(b"SE Linux");
    match decode(out) {
        Err(PolicyReadError::InvalidMagicCode(v)) => assert_eq!(v, 0),
        other => panic!("expected InvalidMagicCode, got {:?}", other),
    }
}

#[test]
fn invalid_magic_arbitrary_value() {
    let mut out = Vec::new();
    w32(&mut out, 0x12345678);
    match decode(out) {
        Err(PolicyReadError::InvalidMagicCode(v)) => assert_eq!(v, 0x12345678),
        other => panic!("expected InvalidMagicCode, got {:?}", other),
    }
}

#[test]
fn magic_fails_without_reading_further() {
    // Exactly four bytes: enough to read the magic and fail on it, so the
    // failure must not demand more of the stream.
    let mut out = Vec::new();
    w32(&mut out, 7);
    match decode(out) {
        Err(PolicyReadError::InvalidMagicCode(v)) => assert_eq!(v, 7),
        other => panic!("expected InvalidMagicCode, got {:?}", other),
    }
}

#[test]
fn platform_selinux_maps_to_kernel_selinux() {
    let policy = decode(minimal_kernel_policy(b"SE Linux", 25)).unwrap();
    match policy.ty() {
        PolicyType::Kernel(p) => assert_eq!(*p, PolicyTargetPlatform::SELinux),
        other => panic!("expected kernel policy, got {:?}", other),
    }
}

#[test]
fn platform_xenflask_maps_to_kernel_xen() {
    let policy = decode(minimal_kernel_policy(b"XenFlask", 25)).unwrap();
    match policy.ty() {
        PolicyType::Kernel(p) => assert_eq!(*p, PolicyTargetPlatform::Xen),
        other => panic!("expected kernel policy, got {:?}", other),
    }
}

#[test]
fn platform_unknown_is_rejected_with_the_string() {
    let policy = decode(minimal_kernel_policy(b"foo", 25));
    match policy {
        Err(PolicyReadError::InvalidTargetPlatform(s)) => assert_eq!(s, b"foo".to_vec()),
        other => panic!("expected InvalidTargetPlatform, got {:?}", other),
    }
}

#[test]
fn minimal_kernel_header_derives_profile() {
    let policy = decode(minimal_kernel_policy(b"SE Linux", 25)).unwrap();
    assert_eq!(policy.version(), 25);
    assert!(policy.profile().supports(Feature::PolicyCapabilities));
    assert!(!policy.profile().supports(Feature::DefaultType));
}

#[test]
fn module_header_yields_module_type() {
    let policy = decode(minimal_module_policy(15, b"base", b"1.0")).unwrap();
    assert_eq!(policy.version(), 15);
    match policy.ty() {
        PolicyType::Module { is_base_module, name, version } => {
            assert!(*is_base_module);
            assert_eq!(name, &b"base".to_vec());
            assert_eq!(version, &b"1.0".to_vec());
        },
        other => panic!("expected module policy, got {:?}", other),
    }
}

#[test]
fn out_of_range_version_is_invalid() {
    match decode(minimal_kernel_policy(b"SE Linux", 14)) {
        Err(PolicyReadError::InvalidVersion(v)) => assert_eq!(v, 14),
        other => panic!("expected InvalidVersion, got {:?}", other),
    }
    match decode(minimal_kernel_policy(b"SE Linux", 99)) {
        Err(PolicyReadError::InvalidVersion(v)) => assert_eq!(v, 99),
        other => panic!("expected InvalidVersion, got {:?}", other),
    }
}

#[test]
fn truncated_platform_string_is_an_input_error() {
    let mut out = Vec::new();
    w32(&mut out, 0xf97cff8c);
    w32(&mut out, 8);
    out.extend_from_slice(b"SE L"); // only 4 of the promised 8 bytes
    match decode(out) {
        Err(PolicyReadError::InputError) => {},
        other => panic!("expected InputError, got {:?}", other),
    }
}

#[test]
fn invalid_utf8_platform_string_is_an_input_error() {
    let mut out = Vec::new();
    w32(&mut out, 0xf97cff8c);
    w32(&mut out, 2);
    out.extend_from_slice(&[0xff, 0xff]);
    match decode(out) {
        Err(PolicyReadError::InputError) => {},
        other => panic!("expected InputError, got {:?}", other),
    }
}

fn kernel_policy_with_polcap_bitmap(map: u64) -> Vec<u8> {
    let mut out = Vec::new();
    kernel_header(&mut out, b"SE Linux", 25);
    // policy capability bitmap: one run starting at bit zero
    w32(&mut out, 64); // map_size
    w32(&mut out, 64); // high_bit
    w32(&mut out, 1); // map_count
    w32(&mut out, 0); // start_bit
    w64(&mut out, map);
    empty_bitmap(&mut out); // permissive types
    for _ in 0..8 {
        empty_table(&mut out);
    }
    w32(&mut out, 0);
    out
}

#[test]
fn capability_bitmap_decodes_to_the_named_set() {
    // bits 0, 2 and 5
    let policy = decode(kernel_policy_with_polcap_bitmap(0b100101)).unwrap();
    let caps = policy.polcaps();
    assert_eq!(caps.all().len(), 3);
    assert!(caps.is_enabled(PolicyCapability::NetworkPeerControls));
    assert!(caps.is_enabled(PolicyCapability::ExtendedSocketClasses));
    assert!(caps.is_enabled(PolicyCapability::NnpNoSuidTransition));
    assert!(!caps.is_enabled(PolicyCapability::CheckOpenPermission));
    assert_eq!(
        caps.all(),
        &vec![
            PolicyCapability::NetworkPeerControls,
            PolicyCapability::ExtendedSocketClasses,
            PolicyCapability::NnpNoSuidTransition,
        ]
    );
}

#[test]
fn unknown_capability_bit_is_fatal() {
    // bit 42 set
    let policy = decode(kernel_policy_with_polcap_bitmap(1u64 << 42));
    match policy {
        Err(PolicyReadError::InvalidPolicyCapability) => {},
        other => panic!("expected InvalidPolicyCapability, got {:?}", other),
    }
}

#[test]
fn boolean_with_tunable_sep_consumes_flags() {
    // A module at version 14 supports TunableSep: one boolean entry with a
    // trailing flags word round-trips.
    let mut out = Vec::new();
    module_header(&mut out, 14, b"m", b"1");
    empty_bitmap(&mut out); // polcaps
    empty_bitmap(&mut out); // permissive
    empty_table(&mut out); // commons
    empty_table(&mut out); // classes
    empty_table(&mut out); // roles
    empty_table(&mut out); // types
    empty_table(&mut out); // users
    // booleans: one element
    w32(&mut out, 1);
    w32(&mut out, 1);
    w32(&mut out, 1); // id
    w32(&mut out, 1); // state
    w32(&mut out, 3); // name_len
    out.extend_from_slice(b"foo");
    w32(&mut out, 0); // flags (TunableSep)
    empty_table(&mut out); // sensitivities
    empty_table(&mut out); // categories
    w32(&mut out, 0); // avtab
    let policy = decode(out).unwrap();
    let booleans = policy.booleans();
    assert_eq!(booleans.len(), 1);
    let b = booleans.get_by_id(1).unwrap();
    assert!(b.is_toggled());
    assert_eq!(b.name(), &b"foo".to_vec());
    assert_eq!(b.flags, 0);
    let by_name = policy.booleans().get_by_name(&b"foo".to_vec()).unwrap();
    assert_eq!(by_name.id, 1);
}

#[test]
fn boolean_without_tunable_sep_reads_no_flags() {
    // The same boolean entry without the flags word decodes at module
    // version 13, where TunableSep is absent.
    let mut out = Vec::new();
    module_header(&mut out, 13, b"m", b"1");
    empty_bitmap(&mut out);
    empty_bitmap(&mut out);
    for _ in 0..5 {
        empty_table(&mut out);
    }
    w32(&mut out, 1);
    w32(&mut out, 1);
    w32(&mut out, 1); // id
    w32(&mut out, 0); // state
    w32(&mut out, 3);
    out.extend_from_slice(b"foo");
    // no flags word at version 13
    empty_table(&mut out);
    empty_table(&mut out);
    w32(&mut out, 0);
    let policy = decode(out).unwrap();
    let b = policy.booleans().get_by_id(1).unwrap();
    assert!(!b.is_toggled());
    assert_eq!(b.flags, 0);
}

#[test]
fn profile_thresholds_follow_the_table() {
    let kernel = |v: u32| {
        CompatibilityProfile::new(PolicyType::Kernel(PolicyTargetPlatform::SELinux), v)
    };
    let module = |v: u32| {
        CompatibilityProfile::new(
            PolicyType::Module { is_base_module: false, name: Vec::new(), version: Vec::new() },
            v,
        )
    };
    assert!(!kernel(21).supports(Feature::PolicyCapabilities));
    assert!(kernel(22).supports(Feature::PolicyCapabilities));
    assert!(kernel(31).supports(Feature::PolicyCapabilities));
    assert!(!kernel(29).supports(Feature::XpermsIoctl));
    assert!(kernel(30).supports(Feature::XpermsIoctl));
    assert!(!module(6).supports(Feature::PolicyCapabilities));
    assert!(module(7).supports(Feature::PolicyCapabilities));
    assert!(!module(13).supports(Feature::TunableSep));
    assert!(module(14).supports(Feature::TunableSep));
    // platform-exclusive features stay unsupported at any version
    assert!(!kernel(31).supports(Feature::BoundaryAlias));
    assert!(!kernel(31).supports(Feature::TunableSep));
    assert!(!module(19).supports(Feature::AvTab));
    assert!(kernel(20).supports(Feature::AvTab));
}

#[test]
fn permissive_type_bitmap_is_kept() {
    let mut out = Vec::new();
    kernel_header(&mut out, b"SE Linux", 25);
    empty_bitmap(&mut out); // policy capabilities
    // permissive types: bit 7
    w32(&mut out, 64);
    w32(&mut out, 64);
    w32(&mut out, 1);
    w32(&mut out, 0);
    w64(&mut out, 1 << 7);
    for _ in 0..8 {
        empty_table(&mut out);
    }
    w32(&mut out, 0);
    let policy = decode(out).unwrap();
    let map = policy.permissive_type_map.as_ref().unwrap();
    assert!(map.contains(7));
    assert!(!map.contains(6));
}

#[test]
fn pre_permissive_kernel_policy_has_no_permissive_map() {
    let policy = decode(minimal_kernel_policy(b"SE Linux", 22)).unwrap();
    assert!(policy.permissive_type_map.is_none());
    assert_eq!(policy.avtab().entries.len(), 0);
}

#[test]
fn policy_capability_ids_round_trip() {
    for id in 0..6u32 {
        let cap = PolicyCapability::from_id(id).unwrap();
        assert_eq!(cap.id(), id);
    }
    assert!(PolicyCapability::from_id(6).is_none());
    assert!(PolicyCapability::from_id(42).is_none());
}
