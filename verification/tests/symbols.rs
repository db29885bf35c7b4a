//! Symbol tables assembled from decoded records: ordering, lookups, and
//! the class and common decoders.

use sepolrs::{
    Class, Common, CompatibilityProfile, PolicyReader, PolicyTargetPlatform, PolicyType, Symbol,
};

fn w32(out: &mut Vec<u8>, v: u32) {
    out.extend_from_slice(&v.to_le_bytes());
}

fn kernel_reader(bytes: Vec<u8>, version: u32) -> PolicyReader {
    let mut r = PolicyReader::new(bytes);
    r.profile = Some(CompatibilityProfile::new(
        PolicyType::Kernel(PolicyTargetPlatform::SELinux),
        version,
    ));
    r
}

fn common_record(out: &mut Vec<u8>, id: u32, name: &[u8], perms: &[(u32, &[u8])]) {
    w32(out, name.len() as u32);
    w32(out, id);
    w32(out, perms.len() as u32); // num_perm_names
    w32(out, perms.len() as u32); // num_perm_elements
    out.extend_from_slice(name);
    for (pid, pname) in perms {
        w32(out, pname.len() as u32);
        w32(out, *pid);
        out.extend_from_slice(pname);
    }
}

#[test]
fn common_decodes_with_permission_subtable() {
    let mut out = Vec::new();
    common_record(&mut out, 1, b"file", &[(1, b"read"), (2, b"write")]);
    let mut r = kernel_reader(out, 25);
    let c = r.read_object::<Common>().unwrap();
    assert_eq!(c.id(), 1);
    assert_eq!(c.name(), &b"file".to_vec());
    assert_eq!(c.permissions().len(), 2);
    let read_perm = c.permissions().get_by_name(&b"read".to_vec()).unwrap();
    assert_eq!(read_perm.id, 1);
    let write_perm = c.permissions().get_by_id(2).unwrap();
    assert_eq!(write_perm.name, b"write".to_vec());
}

#[test]
fn symbol_table_orders_records_by_id() {
    // Two commons decoded in id order 5 then 2: iteration is by id.
    let mut out = Vec::new();
    w32(&mut out, 2); // num_primary_names
    w32(&mut out, 2); // num_elements
    common_record(&mut out, 5, b"sock", &[]);
    common_record(&mut out, 2, b"file", &[]);
    let mut r = kernel_reader(out, 25);
    let table = r.read_symbol_table::<Common>().unwrap();
    assert_eq!(table.len(), 2);
    let all = table.all();
    assert_eq!(all[0].id(), 2);
    assert_eq!(all[0].name(), &b"file".to_vec());
    assert_eq!(all[1].id(), 5);
    assert_eq!(all[1].name(), &b"sock".to_vec());
    // lookup by name agrees with lookup by id
    let by_name = table.get_by_name(&b"sock".to_vec()).unwrap();
    let by_id = table.get_by_id(5).unwrap();
    assert_eq!(by_name.id(), by_id.id());
    assert_eq!(by_name.name(), by_id.name());
    assert!(table.get_by_id(3).is_none());
    assert!(table.get_by_name(&b"nope".to_vec()).is_none());
}

#[test]
fn symbol_table_replaces_same_id() {
    let mut out = Vec::new();
    w32(&mut out, 2);
    w32(&mut out, 2);
    common_record(&mut out, 4, b"old", &[]);
    common_record(&mut out, 4, b"new", &[]);
    let mut r = kernel_reader(out, 25);
    let table = r.read_symbol_table::<Common>().unwrap();
    assert_eq!(table.len(), 1);
    assert_eq!(table.get_by_id(4).unwrap().name(), &b"new".to_vec());
}

#[test]
fn class_with_defaults_reads_feature_gated_tail() {
    // kernel v28: ValidateTransition, NewObjectDefaults and DefaultType all
    // apply.
    let mut out = Vec::new();
    w32(&mut out, 1); // name_len
    w32(&mut out, 4); // common_name_len
    w32(&mut out, 3); // id
    w32(&mut out, 0); // num_perm_names
    w32(&mut out, 1); // num_perm_elements
    w32(&mut out, 0); // num_constraints
    out.extend_from_slice(b"c");
    out.extend_from_slice(b"file"); // common name
    // one permission
    w32(&mut out, 2);
    w32(&mut out, 1);
    out.extend_from_slice(b"rx");
    w32(&mut out, 0); // num transition constraints (ValidateTransition)
    w32(&mut out, 11); // default_user
    w32(&mut out, 12); // default_range
    w32(&mut out, 13); // default_role
    w32(&mut out, 14); // default_type
    let mut r = kernel_reader(out, 28);
    let c = r.read_object::<Class>().unwrap();
    assert_eq!(c.id(), 3);
    assert_eq!(c.name(), &b"c".to_vec());
    assert_eq!(c.common_name, Some(b"file".to_vec()));
    assert_eq!(c.permissions.len(), 1);
    assert_eq!(c.constraints.len(), 0);
    assert_eq!(c.transition_constraints.len(), 0);
    assert_eq!(c.default_user, Some(11));
    assert_eq!(c.default_range, Some(12));
    assert_eq!(c.default_role, Some(13));
    assert_eq!(c.default_type, Some(14));
}

#[test]
fn class_without_features_has_no_tail() {
    // kernel v15: no ValidateTransition, no defaults
    let mut out = Vec::new();
    w32(&mut out, 1);
    w32(&mut out, 0); // no common name
    w32(&mut out, 1);
    w32(&mut out, 0);
    w32(&mut out, 0); // no permissions
    w32(&mut out, 0); // no constraints
    out.extend_from_slice(b"c");
    let mut r = kernel_reader(out, 15);
    let c = r.read_object::<Class>().unwrap();
    assert_eq!(c.common_name, None);
    assert_eq!(c.transition_constraints.len(), 0);
    assert_eq!(c.default_user, None);
    assert_eq!(c.default_type, None);
}
