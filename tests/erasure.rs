use std::cmp::Ordering;

use abi_stable::boxed::RBox;
use abi_stable::dyn_trait::{DropAction, DynTrait, Opaque};
use abi_stable::erased::SeqIter;
use abi_stable::stream::{ByteCursor, IoErrorKind, SeekFrom};
use abi_stable::type_layout::{TypeInfo, VersionNumber};
use abi_stable::vtable::{Interface, VTable, VTableKey, VTableRegistry};

fn info(uid: u64, name: &str) -> TypeInfo {
    TypeInfo {
        size: 8,
        alignment: 8,
        uid,
        name: name.to_string(),
        module: "app".to_string(),
        package: "app".to_string(),
        package_version: VersionNumber { major: 1, minor: 0, patch: 0 },
    }
}

fn interface() -> Interface {
    Interface {
        send: true,
        sync: true,
        iterator: true,
        double_ended_iterator: true,
        display: false,
        debug: true,
        clone: true,
        default: true,
        eq: true,
        partial_eq: true,
        ord: true,
        partial_ord: true,
        hash: false,
        fmt_write: true,
        io_write: false,
        io_read: false,
        io_bufread: false,
        io_seek: false,
        serialize: false,
        deserialize_owned: false,
        deserialize_borrowed: false,
    }
}

fn table(address: usize, uid: u64, name: &str) -> VTable {
    VTable::new(address, info(uid, name), interface(), true)
}

fn items(range: std::ops::RangeInclusive<u64>) -> SeqIter<u64> {
    SeqIter::new(range.collect())
}

#[test]
fn from_value_then_recover_gives_value_back() {
    let vt = table(0x100, 1, "u64");
    let c = DynTrait::from_value(42u64, &vt);
    let p = c.sabi_into_unerased(&vt).ok().unwrap();
    assert_eq!(RBox::into_inner(p), 42);
}

#[test]
fn from_ptr_then_recover_by_reference() {
    let vt = table(0x100, 1, "u64");
    let c = DynTrait::from_ptr(RBox::new(7u64), &vt);
    let p = c.sabi_as_unerased(&vt).ok().unwrap();
    assert_eq!(*p.as_ref(), 7);
}

#[test]
fn from_any_value_then_recover_any() {
    let vt = table(0x100, 1, "u64");
    let c = DynTrait::from_any_value(9u64, &vt);
    assert_eq!(*c.sabi_as_any_unerased(&vt).ok().unwrap().as_ref(), 9);
    let p = c.sabi_into_any_unerased(&vt).ok().unwrap();
    assert_eq!(RBox::into_inner(p), 9);
}

#[test]
fn from_any_ptr_then_recover_mutably() {
    let vt = table(0x100, 1, "u64");
    let mut c = DynTrait::from_any_ptr(RBox::new(5u64), &vt);
    let p = c.sabi_as_any_unerased_mut(&vt).ok().unwrap();
    *p = RBox::new(6);
    let q = c.sabi_as_unerased_mut(&vt).ok().unwrap();
    assert_eq!(*q.as_ref(), 6);
}

#[test]
fn recovery_with_a_separately_built_table_of_the_same_token() {
    let built = table(0x100, 1, "u64");
    let derived = table(0x200, 1, "u64");
    let c = DynTrait::from_value(3u64, &built);
    assert_eq!(RBox::into_inner(c.sabi_into_unerased(&derived).ok().unwrap()), 3);
}

#[test]
fn recovery_with_another_type_fails_and_returns_the_container() {
    let vt = table(0x100, 1, "u64");
    let other = table(0x200, 2, "String");
    let c = DynTrait::from_value(11u64, &vt);
    let err = c.sabi_into_unerased(&other).err().unwrap();
    assert_eq!(err.expected_vtable_address, 0x200);
    assert_eq!(err.found_vtable_address, 0x100);
    assert_eq!(err.expected_type_info.name, "String");
    assert_eq!(err.found_type_info.name, "u64");
    let c = err.into_inner();
    assert_eq!(c.sabi_vtable_address(), 0x100);
    assert_eq!(*c.sabi_erased_ref().as_ref(), 11);
    assert_eq!(RBox::into_inner(c.sabi_into_unerased(&vt).ok().unwrap()), 11);
}

#[test]
fn failed_borrowing_recoveries_leave_the_container_usable() {
    let vt = table(0x100, 1, "u64");
    let other = table(0x200, 2, "String");
    let mut c = DynTrait::from_value(11u64, &vt);
    assert!(c.sabi_as_unerased(&other).is_err());
    assert!(c.sabi_as_any_unerased(&other).is_err());
    assert!(c.sabi_as_unerased_mut(&other).is_err());
    assert!(c.sabi_as_any_unerased_mut(&other).is_err());
    assert!(c.sabi_as_unerased(&vt).is_ok());
}

#[test]
fn structural_match_with_another_token_compares_but_does_not_recover() {
    let built = table(0x100, 1, "u64");
    let lookalike = table(0x200, 2, "u64");
    let a = DynTrait::from_value(1u64, &built);
    let b = DynTrait::from_value(1u64, &lookalike);
    assert!(a.sabi_is_same_type(&b));
    assert!(a.eq(&b));
    assert!(a.sabi_into_unerased(&lookalike).is_err());
}

#[test]
fn any_recovery_needs_the_same_descriptor() {
    let vt = table(0x100, 1, "u64");
    let mut iface = interface();
    iface.hash = true;
    let other = VTable::new(0x100, info(1, "u64"), iface, true);
    let c = DynTrait::from_any_value(4u64, &vt);
    let c = c.sabi_into_any_unerased(&other).err().unwrap().into_inner();
    assert!(c.sabi_into_unerased(&other).is_ok());
}

#[test]
fn borrowing_container_is_opaque_but_usable() {
    let vt = VTable::new(0x300, info(3, "Iter"), interface(), false);
    let mut c = DynTrait::from_borrowing_value(items(1..=3), &vt);
    assert_eq!(c.next(), Some(1));
    let d: DynTrait<'_, RBox<u64>, Opaque> = DynTrait::from_borrowing_ptr(RBox::new(5u64), &vt);
    assert!(!d.sabi_is_borrowed());
    assert_eq!(d.drop_action(), DropAction::Destroy { call_destructor: true, deallocate: true });
}

#[test]
fn reborrow_drops_nothing_and_leaves_the_owner_intact() {
    let vt = table(0x100, 1, "u64");
    let c = DynTrait::from_value(8u64, &vt);
    {
        let r = c.reborrow();
        assert!(r.sabi_is_borrowed());
        assert_eq!(r.drop_action(), DropAction::Nothing);
        assert_eq!(r.sabi_vtable_address(), 0x100);
        assert_eq!(*r.sabi_erased_ref().as_ref(), 8);
    }
    assert!(!c.sabi_is_borrowed());
    assert_eq!(c.drop_action(), DropAction::Destroy { call_destructor: true, deallocate: true });
    assert_eq!(RBox::into_inner(c.sabi_into_unerased(&vt).ok().unwrap()), 8);
}

#[test]
fn reborrow_mut_iterates_the_owner() {
    let vt = table(0x400, 4, "Iter");
    let mut c = DynTrait::from_value(items(0..=4), &vt);
    {
        let r = c.reborrow_mut();
        assert!(r.sabi_is_borrowed());
        assert_eq!(r.drop_action(), DropAction::Nothing);
    }
    assert_eq!(c.next(), Some(0));
    assert!(!c.sabi_is_borrowed());
}

#[test]
fn reborrow_clone_copies_the_reference() {
    let vt = table(0x100, 1, "u64");
    let c = DynTrait::from_value(8u64, &vt);
    let r = c.reborrow();
    let r2 = r.clone_impl();
    assert!(r2.sabi_is_borrowed());
    assert_eq!(*r2.sabi_erased_ref().as_ref(), 8);
}

#[test]
fn clone_duplicates_the_value() {
    let vt = table(0x100, 1, "u64");
    let c = DynTrait::from_value(21u64, &vt);
    let d = c.clone_impl();
    assert_eq!(d.sabi_vtable_address(), 0x100);
    assert_eq!(RBox::into_inner(d.sabi_into_unerased(&vt).ok().unwrap()), 21);
    assert_eq!(RBox::into_inner(c.sabi_into_unerased(&vt).ok().unwrap()), 21);
}

#[test]
fn default_builds_a_new_owning_container() {
    let vt = table(0x100, 1, "u64");
    let c = DynTrait::from_value(21u64, &vt);
    let d = c.default();
    assert!(!d.sabi_is_borrowed());
    assert_eq!(RBox::into_inner(d.sabi_into_unerased(&vt).ok().unwrap()), 0);
}

#[test]
fn same_type_compares_by_value() {
    let vt = table(0x100, 1, "u64");
    let a = DynTrait::from_value(1u64, &vt);
    let b = DynTrait::from_value(2u64, &vt);
    assert!(!a.eq(&b));
    assert!(a.eq(&a));
    assert_eq!(a.cmp(&b), Ordering::Less);
    assert_eq!(b.cmp(&a), Ordering::Greater);
    assert_eq!(a.cmp(&a), Ordering::Equal);
    assert_eq!(a.partial_cmp(&b), Some(Ordering::Less));
}

#[test]
fn different_types_compare_by_table_address() {
    let low = table(0x100, 1, "u64");
    let mid = table(0x200, 2, "Meters");
    let high = table(0x300, 3, "Seconds");
    let a = DynTrait::from_value(9u64, &low);
    let b = DynTrait::from_value(1u64, &mid);
    let c = DynTrait::from_value(5u64, &high);
    assert!(!a.eq(&b));
    assert_eq!(a.cmp(&b), Ordering::Less);
    assert_eq!(b.cmp(&a), Ordering::Greater);
    assert_eq!(b.cmp(&c), Ordering::Less);
    assert_eq!(a.cmp(&c), Ordering::Less);
    assert_eq!(c.partial_cmp(&a), Some(Ordering::Greater));
}

#[test]
fn take_five_then_reverse_the_rest() {
    let vt = table(0x400, 4, "Iter");
    let mut c = DynTrait::from_value(items(0..=10), &vt);
    let front: Vec<u64> = (0..5).map(|_| c.next().unwrap()).collect();
    assert_eq!(front, vec![0, 1, 2, 3, 4]);
    let mut back = Vec::new();
    while let Some(x) = c.next_back() {
        back.push(x);
    }
    assert_eq!(back, vec![10, 9, 8, 7, 6, 5]);
    assert_eq!(c.next(), None);
}

#[test]
fn skip_eager_skips_items() {
    let vt = table(0x400, 4, "Iter");
    let mut c = DynTrait::from_value(items(0..=19), &vt);
    assert_eq!(c.next(), Some(0));
    c.skip_eager(2);
    assert_eq!(c.next(), Some(3));
    assert_eq!(c.next(), Some(4));
    assert_eq!(c.next(), Some(5));
    c.skip_eager(2);
    assert_eq!(c.next(), Some(8));
    assert_eq!(c.next(), Some(9));
    c.skip_eager(9);
    assert_eq!(c.next(), Some(19));
    assert_eq!(c.next(), None);
    c.skip_eager(3);
    assert_eq!(c.next(), None);
}

#[test]
fn extending_rvec_takes_from_the_front() {
    let vt = table(0x400, 4, "Iter");
    let mut c = DynTrait::from_value(items(0..=9), &vt);
    let mut buffer = vec![101, 102, 103];
    c.extending_rvec(&mut buffer, Some(5));
    assert_eq!(buffer, vec![101, 102, 103, 0, 1, 2, 3, 4]);
    assert_eq!(c.next(), Some(5));
    assert_eq!(c.next(), Some(6));
    c.extending_rvec(&mut buffer, None);
    assert_eq!(buffer, vec![101, 102, 103, 0, 1, 2, 3, 4, 7, 8, 9]);
    assert_eq!(c.next(), None);
}

#[test]
fn extending_rvec_back_takes_from_the_back() {
    let vt = table(0x400, 4, "Iter");
    let mut c = DynTrait::from_value(items(0..=3), &vt);
    let mut buffer = vec![101, 102, 103];
    c.extending_rvec_back(&mut buffer, None);
    assert_eq!(buffer, vec![101, 102, 103, 3, 2, 1, 0]);
    let mut d = DynTrait::from_value(items(0..=3), &vt);
    let mut buffer = Vec::new();
    d.extending_rvec_back(&mut buffer, Some(2));
    assert_eq!(buffer, vec![3, 2]);
    assert_eq!(d.next_back(), Some(1));
}

#[test]
fn nth_from_both_ends() {
    let vt = table(0x400, 4, "Iter");
    let mut c = DynTrait::from_value(items(0..=9), &vt);
    assert_eq!(c.nth(2), Some(2));
    assert_eq!(c.next(), Some(3));
    assert_eq!(c.nth_back_(1), Some(8));
    assert_eq!(c.next_back(), Some(7));
    assert_eq!(c.nth(10), None);
    assert_eq!(c.next_back(), None);
}

#[test]
fn count_last_and_size_hint() {
    let vt = table(0x400, 4, "Iter");
    let mut c = DynTrait::from_value(items(0..=9), &vt);
    c.skip_eager(3);
    assert_eq!(c.size_hint(), (7, Some(7)));
    assert_eq!(c.count(), 7);
    let d = DynTrait::from_value(items(0..=9), &vt);
    assert_eq!(d.last(), Some(9));
    let e = DynTrait::from_value(SeqIter::<u64>::new(Vec::new()), &vt);
    assert_eq!(e.size_hint(), (0, Some(0)));
    assert_eq!(e.last(), None);
}

#[test]
fn formatted_writes_append_to_the_buffer() {
    let vt = table(0x500, 5, "String");
    let mut c = DynTrait::from_value(String::new(), &vt);
    assert!(c.write_str("Foo").is_ok());
    assert!(c.write_str("Bar").is_ok());
    assert!(c.write_str("Baz").is_ok());
    let text = RBox::into_inner(c.sabi_into_unerased(&vt).ok().unwrap());
    assert_eq!(text, "FooBarBaz");
}

#[test]
fn rbox_round_trips() {
    let b = RBox::new(3u64);
    assert_eq!(*b.as_ref(), 3);
    let boxed = RBox::into_box(b);
    assert_eq!(*boxed, 3);
    let b = RBox::from_box(Box::new(4u64));
    assert_eq!(RBox::into_inner(b), 4);
}

fn stream_interface() -> Interface {
    let mut iface = interface();
    iface.io_write = true;
    iface.io_read = true;
    iface.io_bufread = true;
    iface.io_seek = true;
    iface
}

#[test]
fn byte_writes_reach_the_buffer() {
    let vt = VTable::new(0x600, info(6, "Vec<u8>"), stream_interface(), true);
    let mut c = DynTrait::from_value(Vec::<u8>::new(), &vt);
    assert_eq!(c.write(b"ab").ok(), Some(2));
    assert!(c.write_all(b"cde").is_ok());
    assert!(c.flush().is_ok());
    let bytes = RBox::into_inner(c.sabi_into_unerased(&vt).ok().unwrap());
    assert_eq!(bytes, b"abcde".to_vec());
}

#[test]
fn byte_reads_and_seeks_through_the_container() {
    let vt = VTable::new(0x700, info(7, "ByteCursor"), stream_interface(), true);
    let mut c = DynTrait::from_value(ByteCursor::new(b"hello world".to_vec()), &vt);
    let mut buf = [0u8; 5];
    assert_eq!(c.read(&mut buf).ok(), Some(5));
    assert_eq!(&buf, b"hello");
    assert_eq!(c.seek(SeekFrom::Current(1)).ok(), Some(6));
    let mut rest = [0u8; 5];
    assert!(c.read_exact(&mut rest).is_ok());
    assert_eq!(&rest, b"world");
    let mut more = [0u8; 1];
    assert_eq!(c.read_exact(&mut more).err().map(|e| e.kind), Some(IoErrorKind::UnexpectedEof));
    assert_eq!(c.read(&mut more).ok(), Some(0));
    assert_eq!(c.seek(SeekFrom::End(-5)).ok(), Some(6));
    assert_eq!(c.fill_buf().ok().map(|b| b.to_vec()), Some(b"world".to_vec()));
    c.consume(3);
    assert_eq!(c.fill_buf().ok().map(|b| b.to_vec()), Some(b"ld".to_vec()));
    c.consume(10);
    assert_eq!(c.fill_buf().ok().map(|b| b.len()), Some(0));
    assert_eq!(c.seek(SeekFrom::Current(-100)).err().map(|e| e.kind), Some(IoErrorKind::InvalidInput));
    assert_eq!(c.seek(SeekFrom::Start(0)).ok(), Some(0));
    let mut one = [0u8; 1];
    assert_eq!(c.read(&mut one).ok(), Some(1));
    assert_eq!(&one, b"h");
}

#[test]
fn short_read_fills_only_what_is_left() {
    let vt = VTable::new(0x700, info(7, "ByteCursor"), stream_interface(), true);
    let mut c = DynTrait::from_value(ByteCursor::new(b"abc".to_vec()), &vt);
    let mut buf = [9u8; 5];
    assert_eq!(c.read(&mut buf).ok(), Some(3));
    assert_eq!(buf, [b'a', b'b', b'c', 9, 9]);
}

#[test]
fn registry_builds_one_table_per_key() {
    let mut reg = VTableRegistry::new();
    let a = reg.get_or_build(info(1, "u64"), interface(), true).unwrap();
    let b = reg.get_or_build(info(2, "String"), interface(), true).unwrap();
    let a2 = reg.get_or_build(info(1, "u64"), interface(), true).unwrap();
    let c = reg.get_or_build(info(1, "u64"), interface(), false).unwrap();
    assert_eq!(a, a2);
    assert_ne!(a, b);
    assert_ne!(a, c);
    assert_eq!(reg.len(), 3);
    assert_ne!(reg.table(a).address, reg.table(b).address);
    assert_ne!(reg.table(a).address, reg.table(c).address);
    let key = VTableKey { type_uid: 2, interface: interface(), unerasable: true };
    assert_eq!(reg.find(&key), Some(b));
    let missing = VTableKey { type_uid: 9, interface: interface(), unerasable: true };
    assert_eq!(reg.find(&missing), None);
}

#[test]
fn registry_tables_drive_recovery() {
    let mut reg = VTableRegistry::new();
    let a = reg.get_or_build(info(1, "u64"), interface(), true).unwrap();
    let b = reg.get_or_build(info(2, "String"), interface(), true).unwrap();
    let c = DynTrait::from_value(13u64, reg.table(a));
    let c = c.sabi_into_unerased(reg.table(b)).err().unwrap().into_inner();
    assert_eq!(RBox::into_inner(c.sabi_into_unerased(reg.table(a)).ok().unwrap()), 13);
}

#[test]
fn display_renders_the_wrapped_text() {
    let mut iface = interface();
    iface.display = true;
    let vt = VTable::new(0x800, info(8, "String"), iface, true);
    let c = DynTrait::from_value("shown".to_string(), &vt);
    assert_eq!(c.display(), "shown");
    assert_eq!(c.reborrow().display(), "shown");
}

#[test]
fn extra_vtable_travels_with_the_container() {
    let vt = table(0x100, 1, "u64");
    let c: DynTrait<'_, RBox<u64>, abi_stable::dyn_trait::Unerasable, u32> =
        DynTrait::with_vtable(RBox::new(2u64), &vt, 77u32);
    assert_eq!(*c.sabi_et_vtable(), 77);
    assert_eq!(*c.reborrow().sabi_et_vtable(), 77);
    assert_eq!(*c.clone_impl().sabi_et_vtable(), 77);
    assert_eq!(RBox::into_inner(c.sabi_into_unerased(&vt).ok().unwrap()), 2);
}

#[test]
fn equality_across_pointer_types_compares_values() {
    let vt = table(0x100, 1, "u64");
    let hundred = 100u64;
    let mut also_hundred = 100u64;
    let left = DynTrait::from_any_ptr(&hundred, &vt);
    let right = DynTrait::from_any_ptr(&mut also_hundred, &vt);
    assert!(left.eq(&right));
    let boxed = DynTrait::from_any_value(200u64, &vt);
    let by_ref_value = 200u64;
    let by_ref = DynTrait::from_any_ptr(&by_ref_value, &vt);
    assert!(boxed.eq(&by_ref));
    assert!(!boxed.eq(&left));
    assert_eq!(left.cmp(&boxed), Ordering::Less);
    assert_eq!(boxed.partial_cmp(&right), Some(Ordering::Greater));
}

#[test]
fn debug_and_hash_go_through_the_table() {
    let vt = table(0x100, 1, "u64");
    let c = DynTrait::from_value(1234u64, &vt);
    assert_eq!(c.debug(), "1234");
    let z = DynTrait::from_value(0u64, &vt);
    assert_eq!(z.debug(), "0");
    let mut state = vec![9u8];
    c.hash(&mut state);
    assert_eq!(state, vec![9, 0xd2, 0x04, 0, 0, 0, 0, 0, 0]);
    let mut direct = Vec::new();
    std::hash::Hasher::write(&mut SinkHasher(&mut direct), &1234u64.to_le_bytes());
    assert_eq!(&state[1..], &direct[..]);
}

struct SinkHasher<'a>(&'a mut Vec<u8>);

impl std::hash::Hasher for SinkHasher<'_> {
    fn finish(&self) -> u64 {
        0
    }
    fn write(&mut self, bytes: &[u8]) {
        self.0.extend_from_slice(bytes);
    }
}

#[test]
fn display_renders_numbers_in_decimal() {
    let mut iface = interface();
    iface.display = true;
    let vt = VTable::new(0x100, info(1, "u64"), iface, true);
    assert_eq!(DynTrait::from_value(18446744073709551615u64, &vt).display(), "18446744073709551615");
    assert_eq!(DynTrait::from_value(7u64, &vt).display(), "7");
}

#[test]
fn with_vtable_over_an_opaque_table_never_recovers() {
    let vt = VTable::new(0x100, info(1, "u64"), interface(), false);
    let c: DynTrait<'_, RBox<u64>, abi_stable::dyn_trait::Unerasable, ()> =
        DynTrait::with_vtable(RBox::new(2u64), &vt, ());
    let c = c.sabi_into_unerased(&vt).err().unwrap().into_inner();
    assert!(c.sabi_as_any_unerased(&vt).is_err());
}

#[test]
fn failed_mutable_recovery_leaves_the_value_in_place() {
    let vt = table(0x100, 1, "u64");
    let other = table(0x200, 2, "String");
    let mut c = DynTrait::from_value(11u64, &vt);
    {
        let e = c.sabi_as_unerased_mut(&other).err().unwrap();
        assert_eq!(e.found_vtable_address, 0x100);
        assert_eq!(*e.into_inner().sabi_erased_ref().as_ref(), 11);
    }
    assert_eq!(*c.sabi_as_unerased(&vt).ok().unwrap().as_ref(), 11);
}

#[test]
fn registry_returns_the_existing_table_unchanged() {
    let mut reg = VTableRegistry::new();
    let a = reg.get_or_build(info(1, "u64"), interface(), true).unwrap();
    assert_eq!(a, 0);
    assert_eq!(reg.table(a).address, 1);
    assert_eq!(reg.table(a).field_count(), 17);
    let again = reg.get_or_build(info(1, "renamed"), interface(), true).unwrap();
    assert_eq!(again, a);
    assert_eq!(reg.len(), 1);
    assert_eq!(reg.table(a).type_info.name, "u64");
}
