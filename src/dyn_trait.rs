//! The erased-object container: a pointer paired with the dispatch table of
//! the type it points to.

use vstd::prelude::*;
use core::cmp::Ordering;
use core::marker::PhantomData;
use crate::boxed::RBox;
use crate::erased::{
    ErasedClone, ErasedDebug, ErasedDefault, ErasedDisplay, ErasedEq, ErasedHash, ErasedFmtWrite, ErasedIterator, ErasedOrd,
    ErasedPartialOrd, ErasedPointer, FmtError,
};
use crate::stream::{
    seek_target, ErasedBufRead, ErasedIoRead, ErasedIoWrite, ErasedSeek, IoError, SeekFrom,
};
use crate::type_layout::TypeInfo;
use crate::vtable::{Capability, VTable};

verus! {

/// Marks containers that may be turned back into their concrete type.
pub struct Unerasable;

/// Marks containers built from borrowing values, which never can.
pub struct Opaque;

/// The two tables belong to compatible types: the same table, or tokens of
/// the same structure.  Comparisons rely on this.
pub open spec fn same_type(a: &VTable, b: &VTable) -> bool {
    a.address == b.address || a.type_info.same_structure(&b.type_info)
}

/// The two tables destroy values the same way: the same table, or tokens
/// naming exactly the same minted type.  Recovery relies on this.
pub open spec fn same_destructor(a: &VTable, b: &VTable) -> bool {
    a.address == b.address || a.type_info.same_token(&b.type_info)
}

/// A container built with table `found` may be turned back into the
/// candidate type whose table is `expected`: `found` allows recovery, and
/// the two destroy values the same way.
pub open spec fn recoverable(found: &VTable, expected: &VTable) -> bool {
    found.unerasable && same_destructor(found, expected)
}

/// The order of two table addresses.
pub open spec fn address_order(a: usize, b: usize) -> Ordering {
    if a < b {
        Ordering::Less
    } else if a == b {
        Ordering::Equal
    } else {
        Ordering::Greater
    }
}

/// What dropping a container does to the value it points to.
#[derive(Clone, Copy, Debug, PartialEq, Eq, Structural)]
pub enum DropAction {
    /// The container is a reborrow: the owner keeps destruction authority.
    Nothing,
    /// The table's destructor runs, with the two flags it takes.
    Destroy { call_destructor: bool, deallocate: bool },
}

/// A failed attempt to recover the concrete type: the data that was handed
/// in, with the two tables that did not agree.
pub struct UneraseError<T> {
    pub dyn_trait: T,
    pub expected_vtable_address: usize,
    pub expected_type_info: TypeInfo,
    pub found_vtable_address: usize,
    pub found_type_info: TypeInfo,
}

impl<T> UneraseError<T> {
    /// The same diagnostic around other data.
    fn map<U>(self, data: U) -> (r: UneraseError<U>)
        ensures
            r.dyn_trait == data,
            r.expected_vtable_address == self.expected_vtable_address,
            r.expected_type_info == self.expected_type_info,
            r.found_vtable_address == self.found_vtable_address,
            r.found_type_info == self.found_type_info,
    {
        UneraseError {
            dyn_trait: data,
            expected_vtable_address: self.expected_vtable_address,
            expected_type_info: self.expected_type_info,
            found_vtable_address: self.found_vtable_address,
            found_type_info: self.found_type_info,
        }
    }

    /// Gives back the data that the failed recovery was handed.
    pub fn into_inner(self) -> (r: T)
        ensures
            r == self.dyn_trait,
    {
        self.dyn_trait
    }
}

/// A pointer `P` to a value whose type is known only through its dispatch
/// table, with the capabilities that the table's descriptor provides.
///
/// `E` is `Unerasable` or `Opaque`: only the former offers recovery.  `EV`
/// is an extra table that a caller may pair with the pointer.
pub struct DynTrait<'v, P, E, EV = ()> {
    object: P,
    vtable: &'v VTable,
    borrowed: bool,
    extra_vtable: EV,
    erasability: PhantomData<E>,
}

impl<'v, P, E, EV> DynTrait<'v, P, E, EV> {
    /// The pointer held.
    pub closed spec fn object(&self) -> P {
        self.object
    }

    /// The dispatch table.
    pub closed spec fn vtable(&self) -> &'v VTable {
        self.vtable
    }

    /// Whether this container is a reborrow of another.
    pub closed spec fn is_borrowed(&self) -> bool {
        self.borrowed
    }

    /// The extra table paired with the pointer.
    pub closed spec fn extra_vtable(&self) -> EV {
        self.extra_vtable
    }

    /// Wraps a pointer with its dispatch table and an extra table, which
    /// the caller pairs with the pointer's type.
    pub fn with_vtable(ptr: P, vtable: &'v VTable, extra_vtable: EV) -> (r: Self)
        requires
            vtable.wf(),
        ensures
            r.object() == ptr,
            r.vtable() == vtable,
            !r.is_borrowed(),
            r.extra_vtable() == extra_vtable,
    {
        Self::with_table(ptr, vtable, extra_vtable)
    }

    /// A container over `object` with this container's table and flags.
    fn from_new_ptr(&self, object: P, extra_vtable: EV) -> (r: Self)
        ensures
            r.object() == object,
            r.vtable() == self.vtable(),
            r.is_borrowed() == self.is_borrowed(),
            r.extra_vtable() == extra_vtable,
    {
        DynTrait { object, vtable: self.vtable, borrowed: self.borrowed, extra_vtable, erasability: PhantomData }
    }

    /// The extra table paired with the pointer.
    pub fn sabi_et_vtable(&self) -> (r: &EV)
        ensures
            *r == self.extra_vtable(),
    {
        &self.extra_vtable
    }

    /// Whether the container can forward capability `c`.
    pub open spec fn spec_provides(&self, c: Capability) -> bool {
        self.vtable().spec_provides(c)
    }

    fn with_table(object: P, vtable: &'v VTable, extra_vtable: EV) -> (r: Self)
        ensures
            r.object() == object,
            r.vtable() == vtable,
            !r.is_borrowed(),
            r.extra_vtable() == extra_vtable,
    {
        DynTrait { object, vtable, borrowed: false, extra_vtable, erasability: PhantomData }
    }

    /// The dispatch table.
    pub fn sabi_vtable(&self) -> (r: &'v VTable)
        ensures
            r == self.vtable(),
    {
        self.vtable
    }

    /// The address of the dispatch table.
    pub fn sabi_vtable_address(&self) -> (r: usize)
        ensures
            r == self.vtable().address,
    {
        self.vtable.address
    }

    /// Whether this container is a reborrow, whose drop destroys nothing.
    pub fn sabi_is_borrowed(&self) -> (r: bool)
        ensures
            r == self.is_borrowed(),
    {
        self.borrowed
    }

    /// The pointer held, as the dispatch table's functions see it.
    pub fn sabi_erased_ref(&self) -> (r: &P)
        ensures
            *r == self.object(),
    {
        &self.object
    }

    /// The pointer held, mutably, as the dispatch table's functions see it.
    pub fn sabi_erased_mut(&mut self) -> (r: &mut P)
        ensures
            *r == old(self).object(),
            final(self).object() == *final(r),
            final(self).vtable() == old(self).vtable(),
            final(self).is_borrowed() == old(self).is_borrowed(),
    {
        &mut self.object
    }

    /// Whether `other` holds a value of a compatible type.
    pub fn sabi_is_same_type<'w, Q, F, FV>(&self, other: &DynTrait<'w, Q, F, FV>) -> (r: bool)
        ensures
            r == same_type(self.vtable(), other.vtable()),
    {
        self.vtable.address == other.vtable.address || self.vtable.type_info.is_compatible(
            &other.vtable.type_info,
        )
    }

    /// Checks that `expected`, the table derived for the candidate type,
    /// destroys values as this container's table does.
    fn sabi_check_same_destructor(&self, expected: &VTable) -> (r: Result<(), UneraseError<()>>)
        ensures
            r is Ok <==> recoverable(self.vtable(), expected),
            r matches Err(e) ==> e.expected_vtable_address == expected.address
                && e.expected_type_info == expected.type_info && e.found_vtable_address
                == self.vtable().address && e.found_type_info == self.vtable().type_info,
    {
        if self.vtable.unerasable && (self.vtable.address == expected.address
            || self.vtable.type_info.is_same_token(&expected.type_info)) {
            Ok(())
        } else {
            Err(
                UneraseError {
                    dyn_trait: (),
                    expected_vtable_address: expected.address,
                    expected_type_info: expected.type_info.copied(),
                    found_vtable_address: self.vtable.address,
                    found_type_info: self.vtable.type_info.copied(),
                },
            )
        }
    }

    /// What dropping this container does: nothing for a reborrow, else the
    /// table's destructor, which both drops the value and frees it.
    pub open spec fn spec_drop_action(&self) -> DropAction {
        if self.is_borrowed() {
            DropAction::Nothing
        } else {
            DropAction::Destroy { call_destructor: true, deallocate: true }
        }
    }

    /// What dropping this container does: nothing for a reborrow, else the
    /// table's destructor, which both drops the value and frees it.
    pub fn drop_action(&self) -> (r: DropAction)
        ensures
            r == self.spec_drop_action(),
    {
        if self.borrowed {
            DropAction::Nothing
        } else {
            DropAction::Destroy { call_destructor: true, deallocate: true }
        }
    }

    /// A shorter-lived container over the same value, flagged as borrowed.
    /// Only for descriptors that ask for both `Send` and `Sync` or for
    /// neither, so that the reborrow is shared between threads exactly as
    /// the owner is.
    pub fn reborrow<'r>(&'r self) -> (r: DynTrait<'v, &'r P, E, EV>) where EV: Copy
        requires
            self.vtable().interface.send == self.vtable().interface.sync,
        ensures
            *r.object() == self.object(),
            r.vtable() == self.vtable(),
            r.is_borrowed(),
            r.extra_vtable() == self.extra_vtable(),
    {
        DynTrait {
            object: &self.object,
            vtable: self.vtable,
            borrowed: true,
            extra_vtable: self.extra_vtable,
            erasability: PhantomData,
        }
    }
}

impl<'v, P> DynTrait<'v, P, Unerasable> {
    /// Wraps a pointer to a value whose type names itself through the
    /// table's token; recovery can later name that exact type.
    pub fn from_ptr(object: P, vtable: &'v VTable) -> (r: Self)
        requires
            vtable.wf(),
            vtable.unerasable,
        ensures
            r.object() == object,
            r.vtable() == vtable,
            !r.is_borrowed(),
    {
        Self::with_table(object, vtable, ())
    }

    /// Wraps a pointer to a value of a type without borrows, recoverable
    /// through the descriptor-parameterised check.
    pub fn from_any_ptr(object: P, vtable: &'v VTable) -> (r: Self)
        requires
            vtable.wf(),
            vtable.unerasable,
        ensures
            r.object() == object,
            r.vtable() == vtable,
            !r.is_borrowed(),
    {
        Self::with_table(object, vtable, ())
    }
}

impl<'v, T> DynTrait<'v, RBox<T>, Unerasable> {
    /// Moves `object` to the heap and wraps it, as `from_ptr` does.
    pub fn from_value(object: T, vtable: &'v VTable) -> (r: Self)
        requires
            vtable.wf(),
            vtable.unerasable,
        ensures
            r.object()@ == object,
            r.vtable() == vtable,
            !r.is_borrowed(),
    {
        DynTrait::from_ptr(RBox::new(object), vtable)
    }

    /// Moves `object` to the heap and wraps it, as `from_any_ptr` does.
    pub fn from_any_value(object: T, vtable: &'v VTable) -> (r: Self)
        requires
            vtable.wf(),
            vtable.unerasable,
        ensures
            r.object()@ == object,
            r.vtable() == vtable,
            !r.is_borrowed(),
    {
        DynTrait::from_any_ptr(RBox::new(object), vtable)
    }
}

impl<'v, P> DynTrait<'v, P, Opaque> {
    /// Wraps a pointer to a value that may borrow; the container can never
    /// be turned back into the concrete type.
    pub fn from_borrowing_ptr(object: P, vtable: &'v VTable) -> (r: Self)
        requires
            vtable.wf(),
        ensures
            r.object() == object,
            r.vtable() == vtable,
            !r.is_borrowed(),
    {
        Self::with_table(object, vtable, ())
    }
}

impl<'v, T> DynTrait<'v, RBox<T>, Opaque> {
    /// Moves `object` to the heap and wraps it, as `from_borrowing_ptr` does.
    pub fn from_borrowing_value(object: T, vtable: &'v VTable) -> (r: Self)
        requires
            vtable.wf(),
        ensures
            r.object()@ == object,
            r.vtable() == vtable,
            !r.is_borrowed(),
    {
        DynTrait::from_borrowing_ptr(RBox::new(object), vtable)
    }
}

impl<'v, P, EV> DynTrait<'v, P, Unerasable, EV> {
    /// What recovery with the candidate table `expected` gives: the pointer
    /// held where the container is recoverable with it, else nothing.
    pub open spec fn spec_unerased(&self, expected: &VTable) -> Option<P> {
        if recoverable(self.vtable(), expected) {
            Some(self.object())
        } else {
            None
        }
    }

    /// What recovery checked against this container's capability
    /// descriptor gives: as `spec_unerased`, where the candidate's table was
    /// built for the same descriptor.
    pub open spec fn spec_any_unerased(&self, expected: &VTable) -> Option<P> {
        if self.vtable().interface == expected.interface {
            self.spec_unerased(expected)
        } else {
            None
        }
    }

    /// Turns the container back into its pointer, where `expected`, the
    /// table derived for the candidate type, destroys values as this
    /// container's table does and the table allows recovery; else gives the container back, unchanged.
    pub fn sabi_into_unerased(self, expected: &VTable) -> (r: Result<P, UneraseError<Self>>)
        ensures
            r is Ok <==> self.spec_unerased(expected) is Some,
            r matches Ok(p) ==> self.spec_unerased(expected) == Some(p),
            r matches Err(e) ==> e.dyn_trait == self && e.expected_vtable_address == expected.address
                && e.found_vtable_address == self.vtable().address,
    {
        match self.sabi_check_same_destructor(expected) {
            Ok(()) => Ok(self.object),
            Err(e) => Err(e.map(self)),
        }
    }

    /// The pointer, borrowed, where `expected` destroys values as this
    /// container's table does; else the container, borrowed.
    pub fn sabi_as_unerased<'a>(&'a self, expected: &VTable) -> (r: Result<&'a P, UneraseError<&'a Self>>)
        ensures
            r is Ok <==> self.spec_unerased(expected) is Some,
            r matches Ok(p) ==> self.spec_unerased(expected) == Some(*p),
            r matches Err(e) ==> *e.dyn_trait == *self,
    {
        match self.sabi_check_same_destructor(expected) {
            Ok(()) => Ok(&self.object),
            Err(e) => Err(e.map(self)),
        }
    }

    /// The pointer, mutably borrowed, where `expected` destroys values as
    /// this container's table does; else the container, mutably borrowed.
    pub fn sabi_as_unerased_mut<'a>(&'a mut self, expected: &VTable) -> (r: Result<&'a mut P, UneraseError<&'a mut Self>>)
        ensures
            r is Ok <==> old(self).spec_unerased(expected) is Some,
            r matches Ok(p) ==> {
                &&& old(self).spec_unerased(expected) == Some(*p)
                &&& final(self).object() == *final(p)
                &&& final(self).vtable() == old(self).vtable()
                &&& final(self).is_borrowed() == old(self).is_borrowed()
                &&& final(self).extra_vtable() == old(self).extra_vtable()
            },
            r matches Err(e) ==> *e.dyn_trait == *old(self) && *final(self) == *final(e.dyn_trait),
    {
        match self.sabi_check_same_destructor(expected) {
            Ok(()) => Ok(&mut self.object),
            Err(e) => Err(e.map(self)),
        }
    }

    /// As `sabi_into_unerased`, where the candidate's table was also
    /// derived against this container's capability descriptor.
    pub fn sabi_into_any_unerased(self, expected: &VTable) -> (r: Result<P, UneraseError<Self>>)
        ensures
            r is Ok <==> self.spec_any_unerased(expected) is Some,
            r matches Ok(p) ==> self.spec_any_unerased(expected) == Some(p),
            r matches Err(e) ==> e.dyn_trait == self && e.expected_vtable_address == expected.address
                && e.found_vtable_address == self.vtable().address,
    {
        if self.vtable.interface == expected.interface {
            self.sabi_into_unerased(expected)
        } else {
            let found_vtable_address = self.vtable.address;
            let found_type_info = self.vtable.type_info.copied();
            Err(
                UneraseError {
                    dyn_trait: self,
                    expected_vtable_address: expected.address,
                    expected_type_info: expected.type_info.copied(),
                    found_vtable_address,
                    found_type_info,
                },
            )
        }
    }

    /// As `sabi_as_unerased`, where the candidate's table was also derived
    /// against this container's capability descriptor.
    pub fn sabi_as_any_unerased<'a>(&'a self, expected: &VTable) -> (r: Result<&'a P, UneraseError<&'a Self>>)
        ensures
            r is Ok <==> self.spec_any_unerased(expected) is Some,
            r matches Ok(p) ==> self.spec_any_unerased(expected) == Some(*p),
            r matches Err(e) ==> *e.dyn_trait == *self,
    {
        if self.vtable.interface == expected.interface {
            self.sabi_as_unerased(expected)
        } else {
            Err(
                UneraseError {
                    dyn_trait: self,
                    expected_vtable_address: expected.address,
                    expected_type_info: expected.type_info.copied(),
                    found_vtable_address: self.vtable.address,
                    found_type_info: self.vtable.type_info.copied(),
                },
            )
        }
    }

    /// As `sabi_as_unerased_mut`, where the candidate's table was also
    /// derived against this container's capability descriptor.
    pub fn sabi_as_any_unerased_mut<'a>(&'a mut self, expected: &VTable) -> (r: Result<&'a mut P, UneraseError<&'a mut Self>>)
        ensures
            r is Ok <==> old(self).spec_any_unerased(expected) is Some,
            r matches Ok(p) ==> {
                &&& old(self).spec_any_unerased(expected) == Some(*p)
                &&& final(self).object() == *final(p)
                &&& final(self).vtable() == old(self).vtable()
                &&& final(self).is_borrowed() == old(self).is_borrowed()
                &&& final(self).extra_vtable() == old(self).extra_vtable()
            },
            r matches Err(e) ==> *e.dyn_trait == *old(self) && *final(self) == *final(e.dyn_trait),
    {
        if self.vtable.interface == expected.interface {
            self.sabi_as_unerased_mut(expected)
        } else {
            let found_vtable_address = self.vtable.address;
            let found_type_info = self.vtable.type_info.copied();
            Err(
                UneraseError {
                    dyn_trait: self,
                    expected_vtable_address: expected.address,
                    expected_type_info: expected.type_info.copied(),
                    found_vtable_address,
                    found_type_info,
                },
            )
        }
    }
}

impl<'v, P, E, EV> DynTrait<'v, P, E, EV> {
    /// A shorter-lived container over the same value, mutably borrowed and
    /// flagged as borrowed.  Only for descriptors that ask for both `Send`
    /// and `Sync` or for neither.
    pub fn reborrow_mut<'r>(&'r mut self) -> (r: DynTrait<'v, &'r mut P, E, EV>) where EV: Copy
        requires
            old(self).vtable().interface.send == old(self).vtable().interface.sync,
        ensures
            *r.object() == old(self).object(),
            r.vtable() == old(self).vtable(),
            r.is_borrowed(),
            r.extra_vtable() == old(self).extra_vtable(),
            final(self).vtable() == old(self).vtable(),
            final(self).is_borrowed() == old(self).is_borrowed(),
            final(self).object() == *final(r.object()),
    {
        let vtable = self.vtable;
        let extra_vtable = self.extra_vtable;
        DynTrait { object: &mut self.object, vtable, borrowed: true, extra_vtable, erasability: PhantomData }
    }
}

impl<'v, P: ErasedPointer, E, EV> DynTrait<'v, P, E, EV> where P::Target: ErasedEq {
    /// Equality: values of compatible types compare through the table,
    /// whatever pointers reach them, and values of incompatible types are
    /// never equal.
    pub fn eq<'w, Q: ErasedPointer<Target = P::Target>, F, FV>(&self, other: &DynTrait<'w, Q, F, FV>) -> (r:
        bool)
        requires
            self.spec_provides(Capability::PartialEq),
        ensures
            r == (same_type(self.vtable(), other.vtable()) && self.object().pointee().spec_eq(
                &other.object().pointee(),
            )),
    {
        if !self.sabi_is_same_type(other) {
            return false;
        }
        self.object.pointee_ref().erased_eq(other.object.pointee_ref())
    }
}

fn compare_addresses(a: usize, b: usize) -> (r: Ordering)
    ensures
        r == address_order(a, b),
{
    if a < b {
        Ordering::Less
    } else if a == b {
        Ordering::Equal
    } else {
        Ordering::Greater
    }
}

impl<'v, P: ErasedPointer, E, EV> DynTrait<'v, P, E, EV> where P::Target: ErasedOrd {
    /// The order of two containers: by value for compatible types, by
    /// table address otherwise.
    pub open spec fn spec_cmp<'w, Q: ErasedPointer<Target = P::Target>, F, FV>(
        &self,
        other: &DynTrait<'w, Q, F, FV>,
    ) -> Ordering {
        if same_type(self.vtable(), other.vtable()) {
            self.object().pointee().spec_cmp(&other.object().pointee())
        } else {
            address_order(self.vtable().address, other.vtable().address)
        }
    }

    /// Total ordering: values of compatible types compare through the
    /// table, whatever pointers reach them; containers of incompatible
    /// types by their tables' addresses.
    pub fn cmp<'w, Q: ErasedPointer<Target = P::Target>, F, FV>(&self, other: &DynTrait<'w, Q, F, FV>) -> (r:
        Ordering)
        requires
            self.spec_provides(Capability::Cmp),
        ensures
            r == self.spec_cmp(other),
    {
        if !self.sabi_is_same_type(other) {
            return compare_addresses(self.vtable.address, other.vtable.address);
        }
        self.object.pointee_ref().erased_cmp(other.object.pointee_ref())
    }
}

impl<'v, P: ErasedPointer, E, EV> DynTrait<'v, P, E, EV> where P::Target: ErasedPartialOrd {
    /// Partial ordering: values of compatible types compare through the
    /// table, and may be unordered; containers of incompatible types are
    /// ordered by their tables' addresses.
    pub fn partial_cmp<'w, Q: ErasedPointer<Target = P::Target>, F, FV>(
        &self,
        other: &DynTrait<'w, Q, F, FV>,
    ) -> (r: Option<Ordering>)
        requires
            self.spec_provides(Capability::PartialCmp),
        ensures
            r == (if same_type(self.vtable(), other.vtable()) {
                self.object().pointee().spec_partial_cmp(&other.object().pointee())
            } else {
                Some(address_order(self.vtable().address, other.vtable().address))
            }),
    {
        if !self.sabi_is_same_type(other) {
            return Some(compare_addresses(self.vtable.address, other.vtable.address));
        }
        self.object.pointee_ref().erased_partial_cmp(other.object.pointee_ref())
    }
}

impl<'v, P: ErasedClone, E, EV: Copy> DynTrait<'v, P, E, EV> {
    /// A new container with the same table over a duplicate of the pointer:
    /// an owning pointer duplicates its referent, a shared reference is
    /// copied.  A mutable reborrow has no such duplicate.
    pub fn clone_impl(&self) -> (r: Self)
        requires
            self.spec_provides(Capability::Clone),
        ensures
            r.object() == self.object(),
            r.vtable() == self.vtable(),
            r.is_borrowed() == self.is_borrowed(),
            r.extra_vtable() == self.extra_vtable(),
    {
        self.from_new_ptr(self.object.erased_clone(), self.extra_vtable)
    }
}

impl<'v, P: ErasedDefault, E, EV: Copy> DynTrait<'v, P, E, EV> {
    /// A new, owning container with the same table over the default value.
    pub fn default(&self) -> (r: Self)
        requires
            self.spec_provides(Capability::Default),
        ensures
            r.object() == P::spec_default(),
            r.vtable() == self.vtable(),
            !r.is_borrowed(),
            r.extra_vtable() == self.extra_vtable(),
    {
        DynTrait {
            object: P::erased_default(),
            vtable: self.vtable,
            borrowed: false,
            extra_vtable: self.extra_vtable,
            erasability: PhantomData,
        }
    }
}

impl<'v, P: ErasedDisplay, E, EV> DynTrait<'v, P, E, EV> {
    /// The text that renders the wrapped value, through the table.
    pub fn display(&self) -> (r: String)
        requires
            self.spec_provides(Capability::Display),
        ensures
            r@ == self.object().shown(),
    {
        self.object.erased_display()
    }
}

impl<'v, P: ErasedDebug, E, EV> DynTrait<'v, P, E, EV> {
    /// The debugging text of the wrapped value, through the table.
    pub fn debug(&self) -> (r: String)
        requires
            self.spec_provides(Capability::Debug),
        ensures
            r@ == self.object().debug_shown(),
    {
        self.object.erased_debug()
    }
}

impl<'v, P: ErasedHash, E, EV> DynTrait<'v, P, E, EV> {
    /// Feeds the wrapped value's bytes to the hasher state, through the
    /// table.
    pub fn hash(&self, state: &mut Vec<u8>)
        requires
            self.spec_provides(Capability::Hash),
        ensures
            final(state)@ == old(state)@ + self.object().hash_bytes(),
    {
        self.object.erased_hash(state)
    }
}

impl<'v, P: ErasedFmtWrite, E, EV> DynTrait<'v, P, E, EV> {
    /// Writes `s` through the table.
    pub fn write_str(&mut self, s: &str) -> (r: Result<(), FmtError>)
        requires
            old(self).spec_provides(Capability::FmtWrite),
        ensures
            r is Ok ==> final(self).object().written() == old(self).object().written() + s@,
            r is Err ==> final(self).object().written() == old(self).object().written(),
            old(self).object().never_fails() ==> r is Ok,
            final(self).object().never_fails() == old(self).object().never_fails(),
            final(self).vtable() == old(self).vtable(),
            final(self).is_borrowed() == old(self).is_borrowed(),
    {
        self.object.erased_write_str(s)
    }
}

/// How many items a bulk iteration takes out of `len`: all of them, or at
/// most the count asked for.
pub open spec fn taken(len: nat, taking: Option<usize>) -> nat {
    match taking {
        None => len,
        Some(t) => if t < len {
            t as nat
        } else {
            len
        },
    }
}

impl<'v, P: ErasedIterator, E, EV> DynTrait<'v, P, E, EV> {
    /// The items the wrapped iterator has not yet yielded, front first.
    pub open spec fn remaining(&self) -> Seq<P::Item> {
        self.object().remaining()
    }

    /// The container changed only in its iterator's position.
    pub open spec fn same_frame<'w, F, FV>(&self, other: &DynTrait<'w, P, F, FV>) -> bool {
        self.vtable() == other.vtable() && self.is_borrowed() == other.is_borrowed()
    }

    /// The next item from the front.
    pub fn next(&mut self) -> (r: Option<P::Item>)
        requires
            old(self).spec_provides(Capability::Iter),
        ensures
            final(self).same_frame(old(self)),
            old(self).remaining().len() == 0 ==> r is None && final(self).remaining() == old(
                self,
            ).remaining(),
            old(self).remaining().len() > 0 ==> r == Some(old(self).remaining()[0])
                && final(self).remaining() == old(self).remaining().drop_first(),
    {
        self.object.erased_next()
    }

    /// The number of items left, as a lower and an upper bound.
    pub fn size_hint(&self) -> (r: (usize, Option<usize>))
        requires
            self.spec_provides(Capability::Iter),
        ensures
            r.0 == self.remaining().len(),
            r.1 == Some(r.0),
    {
        let n = self.object.erased_len();
        (n, Some(n))
    }

    /// Skips `n` items from the front, or all of them where fewer are left.
    pub fn skip_eager(&mut self, n: usize)
        requires
            old(self).spec_provides(Capability::Iter),
        ensures
            final(self).same_frame(old(self)),
            final(self).remaining() == old(self).remaining().skip(
                taken(old(self).remaining().len(), Some(n)) as int,
            ),
    {
        let len = self.object.erased_len();
        let k: usize = if n < len {
            n
        } else {
            len
        };
        let ghost start = self.remaining();
        let mut i: usize = 0;
        while i < k
            invariant
                k <= len == start.len(),
                i <= k,
                self.same_frame(old(self)),
                self.remaining() == start.skip(i as int),
            decreases k - i,
        {
            let _ = self.object.erased_next();
            assert(start.skip(i as int).drop_first() =~= start.skip(i + 1));
            i = i + 1;
        }
    }

    /// The item at position `nth` from the front, after which iteration
    /// resumes; `None`, with nothing left, where there are no more items.
    pub fn nth(&mut self, nth: usize) -> (r: Option<P::Item>)
        requires
            old(self).spec_provides(Capability::Iter),
        ensures
            final(self).same_frame(old(self)),
            nth < old(self).remaining().len() ==> r == Some(old(self).remaining()[nth as int])
                && final(self).remaining() == old(self).remaining().skip(nth + 1),
            nth >= old(self).remaining().len() ==> r is None && final(self).remaining().len() == 0,
    {
        self.skip_eager(nth);
        let r = self.next();
        proof {
            let s = old(self).remaining();
            if nth < s.len() {
                assert(s.skip(nth as int).drop_first() =~= s.skip(nth + 1));
            }
        }
        r
    }

    /// Consumes the container, giving the number of items that were left.
    pub fn count(self) -> (r: usize)
        requires
            self.spec_provides(Capability::Iter),
        ensures
            r == self.remaining().len(),
    {
        let mut this = self;
        let len = this.object.erased_len();
        this.skip_eager(len);
        len
    }

    /// Consumes the container, giving the last item that was left.
    pub fn last(self) -> (r: Option<P::Item>)
        requires
            self.spec_provides(Capability::Iter),
        ensures
            self.remaining().len() == 0 ==> r is None,
            self.remaining().len() > 0 ==> r == Some(self.remaining().last()),
    {
        let mut this = self;
        let len = this.object.erased_len();
        if len == 0 {
            return None;
        }
        this.skip_eager(len - 1);
        this.next()
    }

    /// Appends items from the front to `buffer`: all of them for `None`,
    /// at most `n` for `Some(n)`.
    pub fn extending_rvec(&mut self, buffer: &mut Vec<P::Item>, taking: Option<usize>)
        requires
            old(self).spec_provides(Capability::Iter),
        ensures
            final(self).same_frame(old(self)),
            final(buffer)@ == old(buffer)@ + old(self).remaining().take(
                taken(old(self).remaining().len(), taking) as int,
            ),
            final(self).remaining() == old(self).remaining().skip(
                taken(old(self).remaining().len(), taking) as int,
            ),
    {
        let len = self.object.erased_len();
        let k: usize = match taking {
            None => len,
            Some(t) => if t < len {
                t
            } else {
                len
            },
        };
        let ghost start = self.remaining();
        let ghost buf0 = buffer@;
        let mut i: usize = 0;
        while i < k
            invariant
                k <= len == start.len(),
                i <= k,
                self.same_frame(old(self)),
                self.remaining() == start.skip(i as int),
                buffer@ == buf0 + start.take(i as int),
            decreases k - i,
        {
            let x = self.object.erased_next();
            match x {
                Some(v) => {
                    buffer.push(v);
                },
                None => {},
            }
            assert(start.skip(i as int).drop_first() =~= start.skip(i + 1));
            assert(buf0 + start.take(i + 1) =~= buf0 + start.take(i as int) + seq![start[i as int]]);
            i = i + 1;
        }
    }

    /// The next item from the back.
    pub fn next_back(&mut self) -> (r: Option<P::Item>)
        requires
            old(self).spec_provides(Capability::Iter),
            old(self).spec_provides(Capability::BackIter),
        ensures
            final(self).same_frame(old(self)),
            old(self).remaining().len() == 0 ==> r is None && final(self).remaining() == old(
                self,
            ).remaining(),
            old(self).remaining().len() > 0 ==> r == Some(old(self).remaining().last())
                && final(self).remaining() == old(self).remaining().drop_last(),
    {
        self.object.erased_next_back()
    }

    /// Skips `n` items from the back, or all of them where fewer are left.
    fn skip_back(&mut self, n: usize)
        requires
            old(self).spec_provides(Capability::BackIter),
        ensures
            final(self).same_frame(old(self)),
            final(self).remaining() == old(self).remaining().take(
                old(self).remaining().len() - taken(old(self).remaining().len(), Some(n)),
            ),
    {
        let len = self.object.erased_len();
        let k: usize = if n < len {
            n
        } else {
            len
        };
        let ghost start = self.remaining();
        let mut i: usize = 0;
        while i < k
            invariant
                k <= len == start.len(),
                i <= k,
                self.same_frame(old(self)),
                self.remaining() == start.take(len - i),
            decreases k - i,
        {
            let _ = self.object.erased_next_back();
            assert(start.take(len - i).drop_last() =~= start.take(len - i - 1));
            i = i + 1;
        }
    }

    /// The item at position `nth` from the back, after which iteration
    /// resumes; `None`, with nothing left, where there are no more items.
    pub fn nth_back_(&mut self, nth: usize) -> (r: Option<P::Item>)
        requires
            old(self).spec_provides(Capability::Iter),
            old(self).spec_provides(Capability::BackIter),
        ensures
            final(self).same_frame(old(self)),
            nth < old(self).remaining().len() ==> r == Some(
                old(self).remaining()[old(self).remaining().len() - 1 - nth],
            ) && final(self).remaining() == old(self).remaining().take(
                old(self).remaining().len() - 1 - nth,
            ),
            nth >= old(self).remaining().len() ==> r is None && final(self).remaining().len() == 0,
    {
        self.skip_back(nth);
        let r = self.next_back();
        proof {
            let s = old(self).remaining();
            if nth < s.len() {
                assert(s.take(s.len() - nth).drop_last() =~= s.take(s.len() - 1 - nth));
            }
        }
        r
    }

    /// Appends items from the back to `buffer`, last item first: all of
    /// them for `None`, at most `n` for `Some(n)`.
    pub fn extending_rvec_back(&mut self, buffer: &mut Vec<P::Item>, taking: Option<usize>)
        requires
            old(self).spec_provides(Capability::Iter),
            old(self).spec_provides(Capability::BackIter),
        ensures
            final(self).same_frame(old(self)),
            final(buffer)@ == old(buffer)@ + old(self).remaining().skip(
                old(self).remaining().len() - taken(old(self).remaining().len(), taking),
            ).reverse(),
            final(self).remaining() == old(self).remaining().take(
                old(self).remaining().len() - taken(old(self).remaining().len(), taking),
            ),
    {
        let len = self.object.erased_len();
        let k: usize = match taking {
            None => len,
            Some(t) => if t < len {
                t
            } else {
                len
            },
        };
        let ghost start = self.remaining();
        let ghost buf0 = buffer@;
        let mut i: usize = 0;
        while i < k
            invariant
                k <= len == start.len(),
                i <= k,
                self.same_frame(old(self)),
                self.remaining() == start.take(len - i),
                buffer@ == buf0 + start.skip(len - i).reverse(),
            decreases k - i,
        {
            let x = self.object.erased_next_back();
            match x {
                Some(v) => {
                    buffer.push(v);
                },
                None => {},
            }
            assert(start.take(len - i).drop_last() =~= start.take(len - i - 1));
            assert(start.skip(len - i - 1).reverse() =~= start.skip(len - i).reverse().push(
                start[len - i - 1],
            ));
            i = i + 1;
        }
    }
}

impl<'v, P: ErasedIoWrite, E, EV> DynTrait<'v, P, E, EV> {
    /// Writes some prefix of `buf` through the table.
    pub fn write(&mut self, buf: &[u8]) -> (r: Result<usize, IoError>)
        requires
            old(self).spec_provides(Capability::IoWrite),
        ensures
            final(self).vtable() == old(self).vtable(),
            final(self).is_borrowed() == old(self).is_borrowed(),
            r matches Ok(n) ==> n <= buf@.len() && final(self).object().sink() == old(
                self,
            ).object().sink() + buf@.take(n as int),
            r is Err ==> final(self).object().sink() == old(self).object().sink(),
            old(self).object().never_fails() ==> r == Ok::<usize, IoError>(buf@.len() as usize),
            final(self).object().never_fails() == old(self).object().never_fails(),
    {
        self.object.erased_write(buf)
    }

    /// Flushes the wrapped stream.
    pub fn flush(&mut self) -> (r: Result<(), IoError>)
        requires
            old(self).spec_provides(Capability::IoWrite),
        ensures
            final(self).vtable() == old(self).vtable(),
            final(self).is_borrowed() == old(self).is_borrowed(),
            final(self).object().sink() == old(self).object().sink(),
            old(self).object().never_fails() ==> r is Ok,
            final(self).object().never_fails() == old(self).object().never_fails(),
    {
        self.object.erased_flush()
    }

    /// Writes all of `buf` through the table.
    pub fn write_all(&mut self, buf: &[u8]) -> (r: Result<(), IoError>)
        requires
            old(self).spec_provides(Capability::IoWrite),
        ensures
            final(self).vtable() == old(self).vtable(),
            final(self).is_borrowed() == old(self).is_borrowed(),
            r is Ok ==> final(self).object().sink() == old(self).object().sink() + buf@,
            old(self).object().never_fails() ==> r is Ok,
            final(self).object().never_fails() == old(self).object().never_fails(),
    {
        self.object.erased_write_all(buf)
    }
}

impl<'v, P: ErasedIoRead, E, EV> DynTrait<'v, P, E, EV> {
    /// Reads some unread bytes into the front of `buf`.
    pub fn read(&mut self, buf: &mut [u8]) -> (r: Result<usize, IoError>)
        requires
            old(self).spec_provides(Capability::IoRead),
        ensures
            final(self).vtable() == old(self).vtable(),
            final(self).is_borrowed() == old(self).is_borrowed(),
            final(buf)@.len() == old(buf)@.len(),
            r matches Ok(n) ==> {
                &&& n <= old(buf)@.len()
                &&& n <= old(self).object().unread().len()
                &&& final(buf)@.take(n as int) == old(self).object().unread().take(n as int)
                &&& final(self).object().unread() == old(self).object().unread().skip(n as int)
            },
    {
        self.object.erased_read(buf)
    }

    /// Fills `buf` with the next unread bytes.
    pub fn read_exact(&mut self, buf: &mut [u8]) -> (r: Result<(), IoError>)
        requires
            old(self).spec_provides(Capability::IoRead),
        ensures
            final(self).vtable() == old(self).vtable(),
            final(self).is_borrowed() == old(self).is_borrowed(),
            final(buf)@.len() == old(buf)@.len(),
            r is Ok ==> {
                &&& old(buf)@.len() <= old(self).object().unread().len()
                &&& final(buf)@ == old(self).object().unread().take(old(buf)@.len() as int)
                &&& final(self).object().unread() == old(self).object().unread().skip(
                    old(buf)@.len() as int,
                )
            },
    {
        self.object.erased_read_exact(buf)
    }
}

impl<'v, P: ErasedBufRead, E, EV> DynTrait<'v, P, E, EV> {
    /// The buffered unread bytes, refilled where the buffer was empty.
    pub fn fill_buf(&mut self) -> (r: Result<&[u8], IoError>)
        requires
            old(self).spec_provides(Capability::IoRead),
            old(self).spec_provides(Capability::IoBufRead),
        ensures
            final(self).vtable() == old(self).vtable(),
            final(self).is_borrowed() == old(self).is_borrowed(),
            final(self).object().unread() == old(self).object().unread(),
            r matches Ok(b) ==> b@ == old(self).object().unread().take(b@.len() as int) && (b@.len()
                == 0 <==> old(self).object().unread().len() == 0),
    {
        self.object.erased_fill_buf()
    }

    /// Marks `amount` buffered bytes as read.
    pub fn consume(&mut self, amount: usize)
        requires
            old(self).spec_provides(Capability::IoRead),
            old(self).spec_provides(Capability::IoBufRead),
        ensures
            final(self).vtable() == old(self).vtable(),
            final(self).is_borrowed() == old(self).is_borrowed(),
            final(self).object().unread() == old(self).object().unread().skip(
                if amount < old(self).object().unread().len() {
                    amount as int
                } else {
                    old(self).object().unread().len() as int
                },
            ),
    {
        self.object.erased_consume(amount)
    }
}

impl<'v, P: ErasedSeek, E, EV> DynTrait<'v, P, E, EV> {
    /// Moves the position of the wrapped stream.
    pub fn seek(&mut self, pos: SeekFrom) -> (r: Result<u64, IoError>)
        requires
            old(self).spec_provides(Capability::IoSeek),
        ensures
            final(self).vtable() == old(self).vtable(),
            final(self).is_borrowed() == old(self).is_borrowed(),
            final(self).object().end() == old(self).object().end(),
            r matches Ok(p) ==> p == final(self).object().position() && p as int == seek_target(
                pos,
                old(self).object().position(),
                old(self).object().end(),
            ),
            r is Err ==> final(self).object().position() == old(self).object().position(),
    {
        self.object.erased_seek(pos)
    }
}

/// A container recovers the pointer it was built from, with the table it
/// was built with or with any table whose token names exactly the same
/// minted type: every constructor of a recoverable container keeps the
/// pointer it is given and takes only tables that allow recovery.
pub proof fn lemma_recovery_with_own_type<'v, P, EV>(
    container: &DynTrait<'v, P, Unerasable, EV>,
    object: P,
    expected: &VTable,
)
    requires
        container.object() == object,
        container.vtable().unerasable,
        container.vtable().address == expected.address || container.vtable().type_info.same_token(
            &expected.type_info,
        ),
    ensures
        container.spec_unerased(expected) == Some(object),
        container.vtable().interface == expected.interface ==> container.spec_any_unerased(expected)
            == Some(object),
{
}

/// Recovery with the table of a type whose layout differs fails, by every
/// recovery entry point: each then returns an error that holds the
/// container it was given, unchanged.
pub proof fn lemma_recovery_with_other_type_fails<'v, P, EV>(
    container: &DynTrait<'v, P, Unerasable, EV>,
    expected: &VTable,
)
    requires
        container.vtable().address != expected.address,
        !container.vtable().type_info.same_structure(&expected.type_info),
    ensures
        container.spec_unerased(expected) is None,
        container.spec_any_unerased(expected) is None,
        !same_type(container.vtable(), expected),
{
}

/// Whether dropping a container runs the table's destructor.
pub open spec fn destroys(action: DropAction) -> int {
    match action {
        DropAction::Nothing => 0,
        DropAction::Destroy { .. } => 1,
    }
}

/// A reborrow shares its owner's table, so its capabilities and its `Send`
/// and `Sync` classification, and its extra table; dropping it destroys
/// nothing, so of an owner and its reborrow exactly one destroys the value:
/// the owner.
pub proof fn lemma_reborrow_drops_nothing<'v, 'r, P, E, EV>(
    owner: &DynTrait<'v, P, E, EV>,
    reborrowed: &DynTrait<'v, &'r P, E, EV>,
)
    requires
        *reborrowed.object() == owner.object(),
        reborrowed.vtable() == owner.vtable(),
        reborrowed.is_borrowed(),
        reborrowed.extra_vtable() == owner.extra_vtable(),
        !owner.is_borrowed(),
    ensures
        reborrowed.spec_drop_action() == DropAction::Nothing,
        reborrowed.vtable().interface.send == owner.vtable().interface.send,
        reborrowed.vtable().interface.sync == owner.vtable().interface.sync,
        owner.spec_drop_action() == (DropAction::Destroy { call_destructor: true, deallocate: true }),
        destroys(owner.spec_drop_action()) + destroys(reborrowed.spec_drop_action()) == 1,
{
}

/// A mutable reborrow, likewise, destroys nothing when dropped, shares its
/// owner's table and extra table, and what is done through it is what the
/// owner holds afterwards.
pub proof fn lemma_reborrow_mut_drops_nothing<'v, 'r, P, E, EV>(
    owner_before: &DynTrait<'v, P, E, EV>,
    owner_after: &DynTrait<'v, P, E, EV>,
    reborrowed: &DynTrait<'v, &'r mut P, E, EV>,
    reborrowed_object_after: P,
)
    requires
        *reborrowed.object() == owner_before.object(),
        reborrowed.vtable() == owner_before.vtable(),
        reborrowed.is_borrowed(),
        reborrowed.extra_vtable() == owner_before.extra_vtable(),
        owner_after.vtable() == owner_before.vtable(),
        owner_after.is_borrowed() == owner_before.is_borrowed(),
        owner_after.object() == reborrowed_object_after,
        !owner_before.is_borrowed(),
    ensures
        reborrowed.spec_drop_action() == DropAction::Nothing,
        owner_after.spec_drop_action() == (DropAction::Destroy { call_destructor: true, deallocate: true }),
        destroys(owner_after.spec_drop_action()) + destroys(reborrowed.spec_drop_action()) == 1,
        owner_after.vtable().interface == reborrowed.vtable().interface,
        owner_after.object() == reborrowed_object_after,
{
}

/// Between containers of pairwise incompatible types, `cmp` orders by table
/// address, which is a total order: antisymmetric and transitive.
pub proof fn lemma_cross_type_order<
    'a,
    'b,
    'c,
    P: ErasedPointer,
    Q: ErasedPointer<Target = P::Target>,
    R: ErasedPointer<Target = P::Target>,
    E,
    F,
    G,
    EV,
    FV,
    GV,
>(x: &DynTrait<'a, P, E, EV>, y: &DynTrait<'b, Q, F, FV>, z: &DynTrait<'c, R, G, GV>)
    where P::Target: ErasedOrd
    requires
        !same_type(x.vtable(), y.vtable()),
        !same_type(y.vtable(), z.vtable()),
        !same_type(x.vtable(), z.vtable()),
    ensures
        x.spec_cmp(y) == address_order(x.vtable().address, y.vtable().address),
        x.spec_cmp(y) == Ordering::Less <==> y.spec_cmp(x) == Ordering::Greater,
        x.spec_cmp(y) != Ordering::Equal,
        x.spec_cmp(y) == Ordering::Less && y.spec_cmp(z) == Ordering::Less ==> x.spec_cmp(z)
            == Ordering::Less,
        x.spec_cmp(y) == Ordering::Greater && y.spec_cmp(z) == Ordering::Greater ==> x.spec_cmp(z)
            == Ordering::Greater,
{
}

} // verus!
