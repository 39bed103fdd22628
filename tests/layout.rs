use abi_stable::prefix_type::{
    panic_on_missing_field_ty, panic_on_missing_field_val, PrefixInstance, PrefixTypeMetadata,
    PrefixTypeTrait,
};
use abi_stable::type_layout::{TLData, TLField, TypeInfo, TypeLayout, VersionNumber};
use abi_stable::vtable::{Capability, Interface, VTable};

fn field(name: &str) -> TLField {
    TLField { name: name.to_string(), field_type: "u32".to_string() }
}

fn prefix_layout(version: u32, field_count: usize, first_suffix_field: usize) -> TypeLayout {
    let names = ["a", "b", "c", "d", "e"];
    TypeLayout {
        full_type: "Module".to_string(),
        package: "plugin".to_string(),
        package_version: VersionNumber { major: 1, minor: version, patch: 0 },
        data: TLData::PrefixType { first_suffix_field },
        fields: names[..field_count].iter().map(|n| field(n)).collect(),
    }
}

fn info(uid: u64, name: &str) -> TypeInfo {
    TypeInfo {
        size: 8,
        alignment: 8,
        uid,
        name: name.to_string(),
        module: "app".to_string(),
        package: "app".to_string(),
        package_version: VersionNumber { major: 1, minor: 0, patch: 0 },
    }
}

fn all_interface() -> Interface {
    Interface {
        send: true,
        sync: true,
        iterator: true,
        double_ended_iterator: true,
        display: true,
        debug: true,
        clone: true,
        default: true,
        eq: true,
        partial_eq: true,
        ord: true,
        partial_ord: true,
        hash: true,
        fmt_write: true,
        io_write: true,
        io_read: true,
        io_bufread: true,
        io_seek: true,
        serialize: true,
        deserialize_owned: true,
        deserialize_borrowed: true,
    }
}

#[test]
fn metadata_reads_prefix_count_and_fields() {
    let meta = PrefixTypeMetadata::new(prefix_layout(2, 5, 3));
    assert_eq!(meta.prefix_field_count, 3);
    assert_eq!(meta.fields().len(), 5);
    assert_eq!(meta.fields()[4].name, "e");
}

#[test]
fn max_picks_the_longer_layout() {
    let old = PrefixTypeMetadata::new(prefix_layout(1, 3, 2));
    let new = PrefixTypeMetadata::new(prefix_layout(2, 5, 2));
    assert_eq!(old.clone().max(new.clone()).fields().len(), 5);
    assert_eq!(new.max(old).fields().len(), 5);
}

#[test]
fn max_of_equal_lengths_keeps_self() {
    let a = PrefixTypeMetadata::new(prefix_layout(1, 4, 2));
    let b = PrefixTypeMetadata::new(prefix_layout(7, 4, 2));
    assert_eq!(a.max(b).layout.package_version.minor, 1);
}

#[test]
fn min_max_orders_by_field_count() {
    let old = PrefixTypeMetadata::new(prefix_layout(1, 3, 2));
    let new = PrefixTypeMetadata::new(prefix_layout(2, 5, 2));
    let (lo, hi) = new.clone().min_max(old.clone());
    assert_eq!((lo.fields().len(), hi.fields().len()), (3, 5));
    let (lo, hi) = old.min_max(new);
    assert_eq!((lo.fields().len(), hi.fields().len()), (3, 5));
}

#[test]
fn min_max_of_equal_lengths_puts_other_first() {
    let a = PrefixTypeMetadata::new(prefix_layout(1, 4, 2));
    let b = PrefixTypeMetadata::new(prefix_layout(7, 4, 2));
    let (lo, hi) = a.min_max(b);
    assert_eq!(lo.layout.package_version.minor, 7);
    assert_eq!(hi.layout.package_version.minor, 1);
}

#[test]
fn missing_field_diagnostic_names_field_and_versions() {
    let expected = prefix_layout(3, 5, 2);
    let actual = prefix_layout(1, 3, 2);
    let e = panic_on_missing_field_val(4, &expected, &actual);
    assert_eq!(e.index, 4);
    assert_eq!(e.field_name, "e");
    assert_eq!(e.field_type, "u32");
    assert_eq!(e.struct_type, "Module");
    assert_eq!(e.package, "plugin");
    assert_eq!(e.expected_package_version.minor, 3);
    assert_eq!(e.expected_field_count, 5);
    assert_eq!(e.actual_package_version.minor, 1);
    assert_eq!(e.actual_field_count, 3);
}

#[test]
fn missing_field_diagnostic_from_type() {
    let actual = VTable::layout_with_slots(12);
    let e = panic_on_missing_field_ty::<VTable>(14, &actual);
    assert_eq!(e.index, 14);
    assert_eq!(e.field_name, "io_read");
    assert_eq!(e.expected_field_count, 17);
    assert_eq!(e.actual_field_count, 12);
}

#[test]
fn get_field_present_and_missing() {
    let expected = PrefixTypeMetadata::new(prefix_layout(2, 5, 2));
    let older = PrefixInstance::new(prefix_layout(1, 3, 2), vec![10u32, 20, 30]);
    assert_eq!(older.field_count(), 3);
    assert_eq!(older.get_field(&expected, 0).ok(), Some(&10));
    assert_eq!(older.get_field(&expected, 2).ok(), Some(&30));
    let err = older.get_field(&expected, 3).err().unwrap();
    assert_eq!(err.field_name, "d");
    assert_eq!(err.actual_field_count, 3);
    assert_eq!(err.expected_field_count, 5);
}

#[test]
fn vtable_metadata_describes_current_layout() {
    let meta = VTable::metadata();
    assert_eq!(meta.prefix_field_count, 10);
    assert_eq!(meta.fields().len(), 17);
    assert_eq!(meta.fields()[0].name, "drop_ptr");
    assert_eq!(meta.fields()[16].name, "io_seek");
}

#[test]
fn older_vtable_reports_fewer_slots_and_keeps_prefix() {
    let old = VTable::with_slot_count(0x1000, info(1, "Foo"), all_interface(), true, 10);
    assert_eq!(old.field_count(), 10);
    for c in [
        Capability::Drop,
        Capability::Clone,
        Capability::Default,
        Capability::Display,
        Capability::Debug,
        Capability::Serialize,
        Capability::PartialEq,
        Capability::Cmp,
        Capability::PartialCmp,
        Capability::Hash,
    ] {
        assert_eq!(old.slot(c).ok(), Some(c));
        assert!(old.provides(c));
    }
    let err = old.slot(Capability::Iter).err().unwrap();
    assert_eq!(err.index, 10);
    assert_eq!(err.field_name, "iter");
    assert_eq!(err.actual_field_count, 10);
    assert!(!old.provides(Capability::Iter));
}

#[test]
fn newer_vtable_holds_every_slot() {
    let new = VTable::new(0x2000, info(1, "Foo"), all_interface(), true);
    assert_eq!(new.field_count(), 17);
    assert_eq!(new.slot(Capability::IoSeek).ok(), Some(Capability::IoSeek));
    assert!(new.provides(Capability::BackIter));
}

#[test]
fn provides_needs_the_descriptor_flag() {
    let mut iface = all_interface();
    iface.hash = false;
    let vt = VTable::new(0x3000, info(1, "Foo"), iface, true);
    assert!(!vt.provides(Capability::Hash));
    assert!(vt.provides(Capability::Drop));
    assert!(iface.has(Capability::Drop));
    assert!(!iface.has(Capability::Hash));
}

#[test]
fn capability_slots_follow_declaration_order() {
    assert_eq!(Capability::Drop.slot(), 0);
    assert_eq!(Capability::Hash.slot(), 9);
    assert_eq!(Capability::Iter.slot(), 10);
    assert_eq!(Capability::IoSeek.slot(), 16);
}

#[test]
fn type_info_compatibility_is_structural() {
    let a = info(1, "Foo");
    let b = info(2, "Foo");
    let c = info(1, "Bar");
    assert!(a.is_compatible(&b));
    assert!(!a.is_same_token(&b));
    assert!(a.is_same_token(&a.copied()));
    assert!(!a.is_compatible(&c));
    let mut d = info(1, "Foo");
    d.size = 16;
    assert!(!a.is_compatible(&d));
}

#[test]
fn vtable_layout_names_its_slots() {
    let l = VTable::layout_with_slots(12);
    let names: Vec<&str> = l.fields.iter().map(|f| f.name.as_str()).collect();
    assert_eq!(
        names,
        vec![
            "drop_ptr", "clone_ptr", "default_ptr", "display", "debug", "serialize", "partial_eq",
            "cmp", "partial_cmp", "hash", "iter", "back_iter"
        ]
    );
    assert_eq!(l.full_type, "VTable");
    assert_eq!(l.data, TLData::PrefixType { first_suffix_field: 10 });
}

#[test]
fn missing_slot_diagnostic_is_complete() {
    let old = VTable::with_slot_count(0x1000, info(1, "Foo"), all_interface(), true, 11);
    let e = old.slot(Capability::FmtWrite).err().unwrap();
    assert_eq!(e.index, 12);
    assert_eq!(e.field_name, "fmt_write_str");
    assert_eq!(e.struct_type, "VTable");
    assert_eq!(e.expected_field_count, 17);
    assert_eq!(e.actual_field_count, 11);
    assert_eq!(old.slot(Capability::BackIter).err().unwrap().field_name, "back_iter");
    assert_eq!(old.slot(Capability::Iter).ok(), Some(Capability::Iter));
}
