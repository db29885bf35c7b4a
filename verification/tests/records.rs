//! Record-level decoding: individual symbols, MLS values, the
//! access-vector table, and the primitive reader.

use sepolrs::{
    AccessVector, AccessVectorTable, CompatibilityProfile, Constraint, ConstraintExpressionKind,
    Feature, MlsLevel, MlsRange, PolicyCapability, PolicyCapabilitySet, PolicyObject,
    PolicyReadError, PolicyReader, PolicyTargetPlatform, PolicyType, Role, RoleSet, Type,
    TypeSet, UnaryOp, User,
};

fn w32(out: &mut Vec<u8>, v: u32) {
    out.extend_from_slice(&v.to_le_bytes());
}

fn w16(out: &mut Vec<u8>, v: u16) {
    out.extend_from_slice(&v.to_le_bytes());
}

fn w64(out: &mut Vec<u8>, v: u64) {
    out.extend_from_slice(&v.to_le_bytes());
}

fn bitmap_single_run(out: &mut Vec<u8>, start: u32, map: u64) {
    w32(out, 64);
    w32(out, 64);
    w32(out, 1);
    w32(out, start);
    w64(out, map);
}

fn empty_bitmap(out: &mut Vec<u8>) {
    w32(out, 64);
    w32(out, 0);
    w32(out, 0);
}

fn kernel_reader(bytes: Vec<u8>, version: u32) -> PolicyReader {
    let mut r = PolicyReader::new(bytes);
    r.profile = Some(CompatibilityProfile::new(
        PolicyType::Kernel(PolicyTargetPlatform::SELinux),
        version,
    ));
    r
}

fn module_reader(bytes: Vec<u8>, version: u32) -> PolicyReader {
    let mut r = PolicyReader::new(bytes);
    r.profile = Some(CompatibilityProfile::new(
        PolicyType::Module { is_base_module: true, name: b"m".to_vec(), version: b"1".to_vec() },
        version,
    ));
    r
}

#[test]
fn primitives_read_little_endian() {
    let mut r = PolicyReader::new(vec![0x01, 0x02, 0x03, 0x04, 0x05, 0x06, 0x07, 0x08, 0x09]);
    assert_eq!(r.read_u16().unwrap(), 0x0201);
    assert_eq!(r.read_u32().unwrap(), 0x06050403);
    assert_eq!(r.read_u8().unwrap(), 0x07);
    assert!(matches!(r.read_u32(), Err(PolicyReadError::InputError)));
    assert_eq!(r.read_u16().unwrap(), 0x0908);
    let mut r64 = PolicyReader::new(vec![1, 0, 0, 0, 0, 0, 0, 0x80]);
    assert_eq!(r64.read_u64().unwrap(), 0x8000000000000001);
}

#[test]
fn extensible_bitmap_sets_run_bits() {
    // sensitivity 3, then a bitmap whose run starts at 32 with bits 1 and 2
    let mut out = Vec::new();
    w32(&mut out, 3);
    bitmap_single_run(&mut out, 32, 0b110);
    let mut r = kernel_reader(out, 25);
    let level = r.read_object::<MlsLevel>().unwrap();
    assert_eq!(level.sensitivity, 3);
    assert!(level.categories.contains(33));
    assert!(level.categories.contains(34));
    assert!(!level.categories.contains(32));
    assert_eq!(level.categories.cardinality(), 2);
}

#[test]
fn expanded_level_uses_closed_ranges() {
    // sensitivity 2, one (low, high) pair: the closed run [1, 3]
    let mut out = Vec::new();
    w32(&mut out, 2);
    w32(&mut out, 1);
    w32(&mut out, 1);
    w32(&mut out, 3);
    let mut r = kernel_reader(out, 25);
    let level = MlsLevel::decode_expanded(&mut r).unwrap();
    assert_eq!(level.sensitivity, 2);
    assert!(!level.categories.contains(0));
    assert!(level.categories.contains(1));
    assert!(level.categories.contains(2));
    assert!(level.categories.contains(3));
    assert!(!level.categories.contains(4));
}

#[test]
fn expanded_range_with_equal_levels_is_idempotent() {
    let mut out = Vec::new();
    for _ in 0..2 {
        w32(&mut out, 5); // sensitivity
        w32(&mut out, 1); // one run
        w32(&mut out, 2); // low
        w32(&mut out, 4); // high
    }
    let mut r = kernel_reader(out, 25);
    let range = MlsRange::decode_expanded(&mut r).unwrap();
    assert_eq!(range.low.sensitivity, range.high.sensitivity);
    assert_eq!(range.low.categories, range.high.categories);
}

#[test]
fn standard_range_with_one_item_copies_the_low_level() {
    // items=1: the high level is a copy of the low one
    let mut out = Vec::new();
    w32(&mut out, 1); // items
    w32(&mut out, 9); // s_low
    bitmap_single_run(&mut out, 0, 0b1010);
    let mut r = kernel_reader(out, 25);
    let range = r.read_object::<MlsRange>().unwrap();
    assert_eq!(range.low.sensitivity, 9);
    assert_eq!(range.high.sensitivity, 9);
    assert_eq!(range.low.categories, range.high.categories);
    assert!(range.high.categories.contains(1));
    assert!(range.high.categories.contains(3));
    assert_eq!(range.high.categories.cardinality(), 2);
}

#[test]
fn legacy_av_row_fans_out_in_order() {
    // One legacy row with ALLOWED | AUDITALLOW and the enabled top bit:
    // exactly two entries, in the fan-out order.
    let mut out = Vec::new();
    w32(&mut out, 1); // num_entries
    w32(&mut out, 0); // items2 (informational)
    w32(&mut out, 1); // source_type
    w32(&mut out, 2); // target_type
    w32(&mut out, 3); // target_class
    w32(&mut out, 0x80000003); // ALLOWED | AUDITALLOW | enabled
    w32(&mut out, 0xAA); // datum for ALLOWED
    w32(&mut out, 0xBB); // datum for AUDITALLOW
    let mut r = kernel_reader(out, 15); // v15: legacy format
    let table = r.read_object::<AccessVectorTable>().unwrap();
    assert_eq!(table.entries.len(), 2);
    let e0 = &table.entries[0];
    assert_eq!(e0.key.source_type, 1);
    assert_eq!(e0.key.target_type, 2);
    assert_eq!(e0.key.target_class, 3);
    assert_eq!(e0.key.specifier, 0x8001); // ALLOWED | ENABLED
    assert!(matches!(e0.av, AccessVector::Simple(0xAA)));
    let e1 = &table.entries[1];
    assert_eq!(e1.key.specifier, 0x8002); // AUDITALLOW | ENABLED
    assert!(matches!(e1.av, AccessVector::Simple(0xBB)));
}

#[test]
fn xperms_row_without_the_feature_is_rejected() {
    let mut out = Vec::new();
    w32(&mut out, 1);
    w16(&mut out, 1);
    w16(&mut out, 2);
    w16(&mut out, 3);
    w16(&mut out, 0x0100); // XPERMS_ALLOWED
    let mut r = kernel_reader(out, 25); // v25: extended format, no XpermsIoctl
    match r.read_object::<AccessVectorTable>() {
        Err(PolicyReadError::UnsupportedFeatureUsed(f)) => {
            assert_eq!(f, Feature::XpermsIoctl)
        },
        other => panic!("expected UnsupportedFeatureUsed, got {:?}", other),
    }
}

#[test]
fn specifier_with_two_one_of_bits_is_rejected() {
    let mut out = Vec::new();
    w32(&mut out, 1);
    w16(&mut out, 1);
    w16(&mut out, 2);
    w16(&mut out, 3);
    w16(&mut out, 0x0011); // ALLOWED | TRANSITION
    let mut r = kernel_reader(out, 25);
    match r.read_object::<AccessVectorTable>() {
        Err(PolicyReadError::InvalidAccessVectorSpecifier) => {},
        other => panic!("expected InvalidAccessVectorSpecifier, got {:?}", other),
    }
}

#[test]
fn specifier_with_unknown_bit_is_rejected() {
    let mut out = Vec::new();
    w32(&mut out, 1);
    w16(&mut out, 1);
    w16(&mut out, 2);
    w16(&mut out, 3);
    w16(&mut out, 0x4000); // not a known specifier bit
    let mut r = kernel_reader(out, 25);
    match r.read_object::<AccessVectorTable>() {
        Err(PolicyReadError::InvalidAccessVectorSpecifier) => {},
        other => panic!("expected InvalidAccessVectorSpecifier, got {:?}", other),
    }
}

#[test]
fn xperms_row_with_the_feature_reads_extended_record() {
    let mut out = Vec::new();
    w32(&mut out, 1);
    w16(&mut out, 7);
    w16(&mut out, 8);
    w16(&mut out, 9);
    w16(&mut out, 0x0100); // XPERMS_ALLOWED
    out.push(1); // specified
    out.push(2); // driver
    for i in 0..8u32 {
        w32(&mut out, i + 10);
    }
    let mut r = kernel_reader(out, 30); // v30 supports XpermsIoctl
    let table = r.read_object::<AccessVectorTable>().unwrap();
    assert_eq!(table.entries.len(), 1);
    match &table.entries[0].av {
        AccessVector::Extended { specified, driver, permissions } => {
            assert_eq!(*specified, 1);
            assert_eq!(*driver, 2);
            assert_eq!(permissions, &[10, 11, 12, 13, 14, 15, 16, 17]);
        },
        other => panic!("expected extended access vector, got {:?}", other),
    }
}

#[test]
fn simple_av_row_reads_one_datum() {
    let mut out = Vec::new();
    w32(&mut out, 1);
    w16(&mut out, 4);
    w16(&mut out, 5);
    w16(&mut out, 6);
    w16(&mut out, 0x8001); // ALLOWED | ENABLED
    w32(&mut out, 0x77);
    let mut r = kernel_reader(out, 25);
    let table = r.read_object::<AccessVectorTable>().unwrap();
    assert_eq!(table.entries.len(), 1);
    assert_eq!(table.entries[0].key.specifier, 0x8001);
    assert!(matches!(table.entries[0].av, AccessVector::Simple(0x77)));
}

#[test]
fn constraint_with_unknown_expression_kind_is_rejected() {
    let mut out = Vec::new();
    w32(&mut out, 0xFF); // permissions mask
    w32(&mut out, 1); // one expression
    w32(&mut out, 9); // unknown kind code
    w32(&mut out, 0); // attr
    w32(&mut out, 0); // op
    let mut r = kernel_reader(out, 25);
    match r.read_object::<Constraint>() {
        Err(PolicyReadError::InvalidPolicyCapability) => {},
        other => panic!("expected InvalidPolicyCapability, got {:?}", other),
    }
}

#[test]
fn constraint_not_expression_decodes() {
    let mut out = Vec::new();
    w32(&mut out, 0x0F);
    w32(&mut out, 1);
    w32(&mut out, 1); // NOT
    w32(&mut out, 5); // attr
    w32(&mut out, 6); // op
    let mut r = kernel_reader(out, 25);
    let c = r.read_object::<Constraint>().unwrap();
    assert_eq!(c.permissions, 0x0F);
    assert_eq!(c.expressions.len(), 1);
    assert_eq!(c.expressions[0].attr, 5);
    assert_eq!(c.expressions[0].op, 6);
    assert!(matches!(
        c.expressions[0].kind,
        ConstraintExpressionKind::Unary(UnaryOp::Not)
    ));
}

#[test]
fn type_with_unknown_property_bit_is_rejected() {
    // kernel v24 supports Boundary: properties word follows the id
    let mut out = Vec::new();
    w32(&mut out, 1); // name_len
    w32(&mut out, 4); // id
    w32(&mut out, 0x10); // properties: unknown bit
    w32(&mut out, 0); // bounds
    out.extend_from_slice(b"t");
    let mut r = kernel_reader(out, 24);
    match r.read_object::<Type>() {
        Err(PolicyReadError::InvalidPolicyCapability) => {},
        other => panic!("expected InvalidPolicyCapability, got {:?}", other),
    }
}

#[test]
fn type_under_boundary_derives_fields_from_properties() {
    let mut out = Vec::new();
    w32(&mut out, 1); // name_len
    w32(&mut out, 4); // id
    w32(&mut out, 0x0B); // Primary | Attribute | Permissive
    w32(&mut out, 2); // bounds
    out.extend_from_slice(b"t");
    let mut r = kernel_reader(out, 24);
    let t = r.read_object::<Type>().unwrap();
    assert_eq!(t.id, 4);
    assert_eq!(t.name, b"t".to_vec());
    assert!(t.primary);
    assert_eq!(t.flavor, Some(1)); // attribute
    assert_eq!(t.flags, 1); // permissive
    assert_eq!(t.bounds, Some(2));
    assert!(t.assoc_types.is_none());
}

#[test]
fn kernel_type_without_boundary_reads_plain_fields() {
    let mut out = Vec::new();
    w32(&mut out, 2); // name_len
    w32(&mut out, 9); // id
    w32(&mut out, 1); // primary
    w32(&mut out, 1); // flags: permissive
    out.extend_from_slice(b"ab");
    let mut r = kernel_reader(out, 20); // v20 < 24: no Boundary
    let t = r.read_object::<Type>().unwrap();
    assert_eq!(t.id, 9);
    assert!(t.primary);
    assert_eq!(t.flavor, None);
    assert_eq!(t.flags, 1);
    assert_eq!(t.bounds, None);
    assert_eq!(t.name, b"ab".to_vec());
}

#[test]
fn kernel_user_reads_standard_mls_fields() {
    // kernel v19: Mls supported, MlsUsers is module-only, no Boundary
    let mut out = Vec::new();
    w32(&mut out, 1); // name_len
    w32(&mut out, 7); // id
    out.extend_from_slice(b"u");
    empty_bitmap(&mut out); // role set (kernel: one bitmap)
    w32(&mut out, 1); // range: items
    w32(&mut out, 2); // s_low
    bitmap_single_run(&mut out, 0, 0b1); // cats_low (high copies it)
    w32(&mut out, 2); // default level sensitivity
    empty_bitmap(&mut out); // default level categories
    let mut r = kernel_reader(out, 19);
    let u = r.read_object::<User>().unwrap();
    assert_eq!(u.id, 7);
    assert_eq!(u.name, b"u".to_vec());
    assert_eq!(u.bounds, None);
    assert_eq!(u.range().low.sensitivity, 2);
    assert_eq!(u.range().high.sensitivity, 2);
    assert!(u.range().high.categories.contains(0));
    assert_eq!(u.default_level().sensitivity, 2);
}

#[test]
fn module_user_reads_expanded_mls_fields() {
    // module v6: Mls and MlsUsers both supported, no Boundary (v9)
    let mut out = Vec::new();
    w32(&mut out, 1); // name_len
    w32(&mut out, 3); // id
    out.extend_from_slice(b"v");
    empty_bitmap(&mut out); // role set bitmap
    w32(&mut out, 0); // role set flags (module)
    // expanded range: two expanded levels
    for _ in 0..2 {
        w32(&mut out, 1); // sensitivity
        w32(&mut out, 1); // one run
        w32(&mut out, 0); // low
        w32(&mut out, 1); // high
    }
    // expanded default level
    w32(&mut out, 1);
    w32(&mut out, 0); // no runs
    let mut r = module_reader(out, 6);
    let u = r.read_object::<User>().unwrap();
    assert_eq!(u.id, 3);
    assert!(u.range().low.categories.contains(0));
    assert!(u.range().low.categories.contains(1));
    assert_eq!(u.range().low.categories, u.range().high.categories);
    assert_eq!(u.default_level().sensitivity, 1);
    assert_eq!(u.default_level().categories.cardinality(), 0);
}

#[test]
fn kernel_role_reads_bounds_and_type_bitmap() {
    // kernel v24 supports Boundary: a bounds word is read (and discarded)
    let mut out = Vec::new();
    w32(&mut out, 1); // name_len
    w32(&mut out, 6); // id
    w32(&mut out, 0); // bounds
    out.extend_from_slice(b"r");
    bitmap_single_run(&mut out, 0, 0b1); // dominates
    bitmap_single_run(&mut out, 0, 0b10); // type bitmap
    let mut r = kernel_reader(out, 24);
    let role = r.read_object::<Role>().unwrap();
    assert_eq!(role.id, 6);
    assert_eq!(role.name, b"r".to_vec());
    assert!(role.dominates.contains(0));
    match &role.type_set {
        TypeSet::Bitmap(b) => assert!(b.contains(1)),
        other => panic!("expected plain type bitmap, got {:?}", other),
    }
    assert_eq!(role.flavor, None);
    assert!(role.roles.is_none());
}

#[test]
fn module_role_reads_modular_sets() {
    // module v6: no Boundary yet; type set is a triple, then flavor and roles
    let mut out = Vec::new();
    w32(&mut out, 1); // name_len
    w32(&mut out, 2); // id
    out.extend_from_slice(b"s");
    empty_bitmap(&mut out); // dominates
    bitmap_single_run(&mut out, 0, 0b1); // types
    bitmap_single_run(&mut out, 0, 0b100); // inverse types
    w32(&mut out, 5); // type set flags
    w32(&mut out, 1); // flavor
    bitmap_single_run(&mut out, 0, 0b1000); // roles
    let mut r = module_reader(out, 6);
    let role = r.read_object::<Role>().unwrap();
    match &role.type_set {
        TypeSet::Modular { types, inverse_types, flags } => {
            assert!(types.contains(0));
            assert!(inverse_types.contains(2));
            assert_eq!(*flags, 5);
        },
        other => panic!("expected modular type set, got {:?}", other),
    }
    assert_eq!(role.flavor, Some(1));
    assert!(role.roles.as_ref().unwrap().contains(3));
}

#[test]
fn module_role_set_carries_flags() {
    let mut out = Vec::new();
    bitmap_single_run(&mut out, 0, 0b11);
    w32(&mut out, 7);
    let mut r = module_reader(out, 6);
    let rs = r.read_object::<RoleSet>().unwrap();
    match &rs {
        RoleSet::Modular { roles, flags } => {
            assert!(roles.contains(0) && roles.contains(1));
            assert_eq!(*flags, 7);
        },
        other => panic!("expected modular role set, got {:?}", other),
    }
}

#[test]
fn capability_set_operations() {
    let mut set = PolicyCapabilitySet::empty();
    assert!(!set.is_enabled(PolicyCapability::CgroupSecLabel));
    set.enable(PolicyCapability::CgroupSecLabel);
    set.enable(PolicyCapability::CheckOpenPermission);
    assert!(set.is_enabled(PolicyCapability::CgroupSecLabel));
    assert!(set.is_enabled(PolicyCapability::CheckOpenPermission));
    assert_eq!(set.all().len(), 2);
    set.disable(PolicyCapability::CgroupSecLabel);
    assert!(!set.is_enabled(PolicyCapability::CgroupSecLabel));
    assert!(set.is_enabled(PolicyCapability::CheckOpenPermission));
    let from_vec = PolicyCapabilitySet::new(vec![PolicyCapability::NetworkPeerControls]);
    assert!(from_vec.is_enabled(PolicyCapability::NetworkPeerControls));
}
