//! The dispatch table of an erased type: its identity token, the capability
//! descriptor it was built against, and its capability slots, laid out as a
//! prefix type so that later versions may append slots.

use vstd::prelude::*;
use crate::type_layout::{TLData, TLField, TLFieldView, TypeInfo, TypeLayout, TypeLayoutView, VersionNumber};
use crate::prefix_type::{
    lemma_missing_field_view, missing_field_view, MissingFieldError, PrefixInstance, PrefixTypeMetadata,
    PrefixTypeTrait,
};

verus! {

/// A capability descriptor: for each capability, whether a concrete type
/// must provide it to be erased, and so whether the erased container offers
/// it.
#[derive(Clone, Copy, Debug, PartialEq, Eq, Structural)]
pub struct Interface {
    pub send: bool,
    pub sync: bool,
    pub iterator: bool,
    pub double_ended_iterator: bool,
    pub display: bool,
    pub debug: bool,
    pub clone: bool,
    pub default: bool,
    pub eq: bool,
    pub partial_eq: bool,
    pub ord: bool,
    pub partial_ord: bool,
    pub hash: bool,
    pub fmt_write: bool,
    pub io_write: bool,
    pub io_read: bool,
    pub io_bufread: bool,
    pub io_seek: bool,
    pub serialize: bool,
    pub deserialize_owned: bool,
    pub deserialize_borrowed: bool,
}

/// The capability slots of a dispatch table, in declaration order.
#[derive(Clone, Copy, Debug, PartialEq, Eq, Structural)]
pub enum Capability {
    Drop,
    Clone,
    Default,
    Display,
    Debug,
    Serialize,
    PartialEq,
    Cmp,
    PartialCmp,
    Hash,
    Iter,
    BackIter,
    FmtWrite,
    IoWrite,
    IoRead,
    IoBufRead,
    IoSeek,
}

/// The number of slots the current layout of the dispatch table declares.
pub const VTABLE_FIELD_COUNT: usize = 17;

/// The number of slots in the stable prefix of the dispatch table: every
/// version of the table holds these.
pub const VTABLE_PREFIX_FIELD_COUNT: usize = 10;

/// The position of a capability's slot in the dispatch table.
pub open spec fn slot_of(c: Capability) -> nat {
    match c {
        Capability::Drop => 0,
        Capability::Clone => 1,
        Capability::Default => 2,
        Capability::Display => 3,
        Capability::Debug => 4,
        Capability::Serialize => 5,
        Capability::PartialEq => 6,
        Capability::Cmp => 7,
        Capability::PartialCmp => 8,
        Capability::Hash => 9,
        Capability::Iter => 10,
        Capability::BackIter => 11,
        Capability::FmtWrite => 12,
        Capability::IoWrite => 13,
        Capability::IoRead => 14,
        Capability::IoBufRead => 15,
        Capability::IoSeek => 16,
    }
}

impl Capability {
    /// The position of this capability's slot in the dispatch table.
    pub fn slot(self) -> (r: usize)
        ensures
            r == slot_of(self),
            r < VTABLE_FIELD_COUNT,
    {
        match self {
            Capability::Drop => 0,
            Capability::Clone => 1,
            Capability::Default => 2,
            Capability::Display => 3,
            Capability::Debug => 4,
            Capability::Serialize => 5,
            Capability::PartialEq => 6,
            Capability::Cmp => 7,
            Capability::PartialCmp => 8,
            Capability::Hash => 9,
            Capability::Iter => 10,
            Capability::BackIter => 11,
            Capability::FmtWrite => 12,
            Capability::IoWrite => 13,
            Capability::IoRead => 14,
            Capability::IoBufRead => 15,
            Capability::IoSeek => 16,
        }
    }
}

impl Interface {
    /// Whether the descriptor asks for the capability of slot `c`; the
    /// destructor is always there.
    pub open spec fn enables(&self, c: Capability) -> bool {
        match c {
            Capability::Drop => true,
            Capability::Clone => self.clone,
            Capability::Default => self.default,
            Capability::Display => self.display,
            Capability::Debug => self.debug,
            Capability::Serialize => self.serialize,
            Capability::PartialEq => self.partial_eq,
            Capability::Cmp => self.ord,
            Capability::PartialCmp => self.partial_ord,
            Capability::Hash => self.hash,
            Capability::Iter => self.iterator,
            Capability::BackIter => self.double_ended_iterator,
            Capability::FmtWrite => self.fmt_write,
            Capability::IoWrite => self.io_write,
            Capability::IoRead => self.io_read,
            Capability::IoBufRead => self.io_bufread,
            Capability::IoSeek => self.io_seek,
        }
    }

    /// Whether the descriptor asks for the capability of slot `c`.
    pub fn has(&self, c: Capability) -> (r: bool)
        ensures
            r == self.enables(c),
    {
        match c {
            Capability::Drop => true,
            Capability::Clone => self.clone,
            Capability::Default => self.default,
            Capability::Display => self.display,
            Capability::Debug => self.debug,
            Capability::Serialize => self.serialize,
            Capability::PartialEq => self.partial_eq,
            Capability::Cmp => self.ord,
            Capability::PartialCmp => self.partial_ord,
            Capability::Hash => self.hash,
            Capability::Iter => self.iterator,
            Capability::BackIter => self.double_ended_iterator,
            Capability::FmtWrite => self.fmt_write,
            Capability::IoWrite => self.io_write,
            Capability::IoRead => self.io_read,
            Capability::IoBufRead => self.io_bufread,
            Capability::IoSeek => self.io_seek,
        }
    }
}

/// Every capability, in slot order.
pub open spec fn all_slots() -> Seq<Capability> {
    seq![
        Capability::Drop,
        Capability::Clone,
        Capability::Default,
        Capability::Display,
        Capability::Debug,
        Capability::Serialize,
        Capability::PartialEq,
        Capability::Cmp,
        Capability::PartialCmp,
        Capability::Hash,
        Capability::Iter,
        Capability::BackIter,
        Capability::FmtWrite,
        Capability::IoWrite,
        Capability::IoRead,
        Capability::IoBufRead,
        Capability::IoSeek,
    ]
}

/// The slot descriptions of the current layout of the dispatch table.
pub open spec fn vtable_slot_fields() -> Seq<TLFieldView> {
    seq![
        TLFieldView { name: "drop_ptr"@, field_type: "unsafe extern fn(&mut ErasedPtr,CallReferentDrop,Deallocate)"@ },
        TLFieldView { name: "clone_ptr"@, field_type: "extern fn(&ErasedPtr)->ErasedPtr"@ },
        TLFieldView { name: "default_ptr"@, field_type: "extern fn()->ErasedPtr"@ },
        TLFieldView { name: "display"@, field_type: "extern fn(&ErasedObject,FormattingMode,&mut RString)->RResult<(),()>"@ },
        TLFieldView { name: "debug"@, field_type: "extern fn(&ErasedObject,FormattingMode,&mut RString)->RResult<(),()>"@ },
        TLFieldView { name: "serialize"@, field_type: "extern fn(&ErasedObject)->RResult<RCow<str>,RBoxError>"@ },
        TLFieldView { name: "partial_eq"@, field_type: "extern fn(&ErasedObject,&ErasedObject)->bool"@ },
        TLFieldView { name: "cmp"@, field_type: "extern fn(&ErasedObject,&ErasedObject)->RCmpOrdering"@ },
        TLFieldView { name: "partial_cmp"@, field_type: "extern fn(&ErasedObject,&ErasedObject)->ROption<RCmpOrdering>"@ },
        TLFieldView { name: "hash"@, field_type: "extern fn(&ErasedObject,trait_objects::HasherObject)"@ },
        TLFieldView { name: "iter"@, field_type: "IteratorFns"@ },
        TLFieldView { name: "back_iter"@, field_type: "DoubleEndedIteratorFns"@ },
        TLFieldView { name: "fmt_write_str"@, field_type: "extern fn(&mut ErasedObject,RStr)->RResult<(),()>"@ },
        TLFieldView { name: "io_write"@, field_type: "IoWriteFns"@ },
        TLFieldView { name: "io_read"@, field_type: "IoReadFns"@ },
        TLFieldView { name: "io_bufread"@, field_type: "IoBufReadFns"@ },
        TLFieldView { name: "io_seek"@, field_type: "extern fn(&mut ErasedObject,RSeekFrom)->RResult<u64,RIoError>"@ },
    ]
}

/// The layout of the dispatch table as declared by a version that had its
/// first `field_count` slots.
pub open spec fn vtable_layout_view(field_count: nat) -> TypeLayoutView {
    TypeLayoutView {
        full_type: "VTable"@,
        package: "abi_stable"@,
        package_version: VersionNumber { major: 0, minor: 6, patch: 0 },
        data: TLData::PrefixType { first_suffix_field: VTABLE_PREFIX_FIELD_COUNT },
        fields: vtable_slot_fields().take(field_count as int),
    }
}

/// The dispatch table of one concrete type, built against one capability
/// descriptor by one component.
///
/// `address` is where the component keeps its one instance for that key, so
/// equal addresses mean the same table.  `slots` holds one entry for each
/// slot of the layout that the building component was compiled with: an
/// older component stores fewer trailing slots.
pub struct VTable {
    pub address: usize,
    pub type_info: TypeInfo,
    pub interface: Interface,
    /// Whether containers built with this table may be turned back into
    /// their concrete type.
    pub unerasable: bool,
    pub slots: PrefixInstance<Capability>,
}

impl PrefixTypeTrait for VTable {
    open spec fn spec_layout() -> TypeLayoutView {
        vtable_layout_view(VTABLE_FIELD_COUNT as nat)
    }

    fn layout() -> (r: TypeLayout) {
        VTable::layout_with_slots(VTABLE_FIELD_COUNT)
    }
}

impl VTable {
    pub open spec fn wf(&self) -> bool {
        &&& self.slots.wf()
        &&& self.slots.layout.first_suffix() == VTABLE_PREFIX_FIELD_COUNT
        &&& VTABLE_PREFIX_FIELD_COUNT <= self.slots.values@.len() <= VTABLE_FIELD_COUNT
        &&& self.slots.values@ == all_slots().take(self.slots.values@.len() as int)
    }

    /// The number of slots this table holds.
    pub open spec fn spec_field_count(&self) -> nat {
        self.slots.spec_field_count()
    }

    /// The table can forward capability `c`: its descriptor asks for it and
    /// the table holds its slot.
    pub open spec fn spec_provides(&self, c: Capability) -> bool {
        self.interface.enables(c) && slot_of(c) < self.spec_field_count()
    }

    /// The layout of the dispatch table as declared by a version that had
    /// its first `field_count` slots.
    pub fn layout_with_slots(field_count: usize) -> (r: TypeLayout)
        requires
            VTABLE_PREFIX_FIELD_COUNT <= field_count <= VTABLE_FIELD_COUNT,
        ensures
            r.is_prefix_layout(),
            r.fields@.len() == field_count,
            r.first_suffix() == VTABLE_PREFIX_FIELD_COUNT,
            r@ == vtable_layout_view(field_count as nat),
    {
        let mut fields: Vec<TLField> = Vec::new();
        fields.push(TLField::new("drop_ptr", "unsafe extern fn(&mut ErasedPtr,CallReferentDrop,Deallocate)"));
        fields.push(TLField::new("clone_ptr", "extern fn(&ErasedPtr)->ErasedPtr"));
        fields.push(TLField::new("default_ptr", "extern fn()->ErasedPtr"));
        fields.push(TLField::new("display", "extern fn(&ErasedObject,FormattingMode,&mut RString)->RResult<(),()>"));
        fields.push(TLField::new("debug", "extern fn(&ErasedObject,FormattingMode,&mut RString)->RResult<(),()>"));
        fields.push(TLField::new("serialize", "extern fn(&ErasedObject)->RResult<RCow<str>,RBoxError>"));
        fields.push(TLField::new("partial_eq", "extern fn(&ErasedObject,&ErasedObject)->bool"));
        fields.push(TLField::new("cmp", "extern fn(&ErasedObject,&ErasedObject)->RCmpOrdering"));
        fields.push(TLField::new("partial_cmp", "extern fn(&ErasedObject,&ErasedObject)->ROption<RCmpOrdering>"));
        fields.push(TLField::new("hash", "extern fn(&ErasedObject,trait_objects::HasherObject)"));
        fields.push(TLField::new("iter", "IteratorFns"));
        fields.push(TLField::new("back_iter", "DoubleEndedIteratorFns"));
        fields.push(TLField::new("fmt_write_str", "extern fn(&mut ErasedObject,RStr)->RResult<(),()>"));
        fields.push(TLField::new("io_write", "IoWriteFns"));
        fields.push(TLField::new("io_read", "IoReadFns"));
        fields.push(TLField::new("io_bufread", "IoBufReadFns"));
        fields.push(TLField::new("io_seek", "extern fn(&mut ErasedObject,RSeekFrom)->RResult<u64,RIoError>"));
        assert(fields@.map_values(|f: TLField| f@) =~= vtable_slot_fields());
        let ghost all = fields@;
        fields.truncate(field_count);
        assert(fields@.map_values(|f: TLField| f@) =~= vtable_slot_fields().take(field_count as int));
        TypeLayout {
            full_type: "VTable".to_owned(),
            package: "abi_stable".to_owned(),
            package_version: VersionNumber { major: 0, minor: 6, patch: 0 },
            data: TLData::PrefixType { first_suffix_field: VTABLE_PREFIX_FIELD_COUNT },
            fields,
        }
    }

    /// Builds the table of a type for a component compiled with the first
    /// `field_count` slots of the layout; `field_count` is below the full
    /// count where that component is older than this one.
    pub fn with_slot_count(
        address: usize,
        type_info: TypeInfo,
        interface: Interface,
        unerasable: bool,
        field_count: usize,
    ) -> (r: VTable)
        requires
            VTABLE_PREFIX_FIELD_COUNT <= field_count <= VTABLE_FIELD_COUNT,
        ensures
            r.wf(),
            r.address == address,
            r.type_info == type_info,
            r.interface == interface,
            r.unerasable == unerasable,
            r.spec_field_count() == field_count,
    {
        let mut values: Vec<Capability> = vec![
            Capability::Drop,
            Capability::Clone,
            Capability::Default,
            Capability::Display,
            Capability::Debug,
            Capability::Serialize,
            Capability::PartialEq,
            Capability::Cmp,
            Capability::PartialCmp,
            Capability::Hash,
            Capability::Iter,
            Capability::BackIter,
            Capability::FmtWrite,
            Capability::IoWrite,
            Capability::IoRead,
            Capability::IoBufRead,
            Capability::IoSeek,
        ];
        assert(values@ == all_slots());
        values.truncate(field_count);
        let layout = VTable::layout_with_slots(field_count);
        let slots = PrefixInstance::new(layout, values);
        VTable { address, type_info, interface, unerasable, slots }
    }

    /// Builds the table of a type with every slot of the current layout.
    pub fn new(address: usize, type_info: TypeInfo, interface: Interface, unerasable: bool) -> (r:
        VTable)
        ensures
            r.wf(),
            r.address == address,
            r.type_info == type_info,
            r.interface == interface,
            r.unerasable == unerasable,
            r.spec_field_count() == VTABLE_FIELD_COUNT,
    {
        VTable::with_slot_count(address, type_info, interface, unerasable, VTABLE_FIELD_COUNT)
    }

    /// The number of slots this table holds.
    pub fn field_count(&self) -> (r: usize)
        ensures
            r == self.spec_field_count(),
    {
        self.slots.field_count()
    }

    /// Whether the table can forward capability `c`.
    pub fn provides(&self, c: Capability) -> (r: bool)
        ensures
            r == self.spec_provides(c),
    {
        self.interface.has(c) && c.slot() < self.slots.field_count()
    }

    /// The slot of capability `c`, read through the layout this component
    /// was compiled with: the diagnostic where the table, built by an older
    /// component, does not hold it.
    pub fn slot(&self, c: Capability) -> (r: Result<Capability, MissingFieldError>)
        requires
            self.wf(),
        ensures
            r is Ok <==> slot_of(c) < self.spec_field_count(),
            r matches Ok(v) ==> v == c,
            r matches Err(e) ==> e@ == missing_field_view(
                slot_of(c) as int,
                vtable_layout_view(VTABLE_FIELD_COUNT as nat),
                self.slots.layout@,
            ),
    {
        let expected = VTable::metadata();
        let i = c.slot();
        assert(vtable_slot_fields().len() == VTABLE_FIELD_COUNT);
        assert(expected.layout@.fields.len() == expected.layout.fields@.len());
        match self.slots.get_field(&expected, i) {
            Ok(v) => Ok(*v),
            Err(e) => {
                proof {
                    lemma_missing_field_view(i as int, expected.layout, self.slots.layout);
                }
                Err(e)
            },
        }
    }
}

/// Whatever version built a table, every capability of its stable prefix
/// can be read from it, and it reports the number of slots it holds.
pub proof fn lemma_prefix_slots_present(table: VTable, c: Capability)
    requires
        table.wf(),
        slot_of(c) < VTABLE_PREFIX_FIELD_COUNT,
    ensures
        slot_of(c) < table.spec_field_count(),
        table.spec_field_count() <= VTABLE_FIELD_COUNT,
        table.interface.enables(c) ==> table.spec_provides(c),
{
}

/// What identifies a dispatch table within one component: the minted type,
/// the capability descriptor, and whether recovery is allowed.
#[derive(Clone, Copy, Debug, PartialEq, Eq, Structural)]
pub struct VTableKey {
    pub type_uid: u64,
    pub interface: Interface,
    pub unerasable: bool,
}

/// The key a table was built for.
pub open spec fn key_of(t: VTable) -> VTableKey {
    VTableKey { type_uid: t.type_info.uid, interface: t.interface, unerasable: t.unerasable }
}

/// The dispatch tables of one component: at most one for each key, each at
/// its own address.
pub struct VTableRegistry {
    tables: Vec<VTable>,
}

impl VTableRegistry {
    /// The address of the table at position `i`.
    pub open spec fn address_at(i: int) -> int {
        i + 1
    }

    /// The tables built so far, in the order they were built.
    pub closed spec fn spec_tables(&self) -> Seq<VTable> {
        self.tables@
    }

    pub open spec fn wf(&self) -> bool {
        &&& self.spec_tables().len() < usize::MAX
        &&& forall|i: int|
            0 <= i < self.spec_tables().len() ==> {
                &&& #[trigger] self.spec_tables()[i].wf()
                &&& self.spec_tables()[i].address == Self::address_at(i)
            }
        &&& forall|i: int, j: int|
            0 <= i < j < self.spec_tables().len() ==> key_of(#[trigger] self.spec_tables()[i])
                != key_of(#[trigger] self.spec_tables()[j])
    }

    /// A registry that has built no table.
    pub fn new() -> (r: Self)
        ensures
            r.wf(),
            r.spec_tables().len() == 0,
    {
        VTableRegistry { tables: Vec::new() }
    }

    /// The number of tables built.
    pub fn len(&self) -> (r: usize)
        ensures
            r == self.spec_tables().len(),
    {
        self.tables.len()
    }

    /// The table at position `index`.
    pub fn table(&self, index: usize) -> (r: &VTable)
        requires
            index < self.spec_tables().len(),
        ensures
            *r == self.spec_tables()[index as int],
    {
        &self.tables[index]
    }

    /// The position of the table built for `key`, if there is one.
    pub fn find(&self, key: &VTableKey) -> (r: Option<usize>)
        requires
            self.wf(),
        ensures
            r matches Some(i) ==> i < self.spec_tables().len() && key_of(self.spec_tables()[i as int])
                == *key,
            r is None ==> forall|i: int|
                0 <= i < self.spec_tables().len() ==> key_of(#[trigger] self.spec_tables()[i])
                    != *key,
    {
        let mut i: usize = 0;
        while i < self.tables.len()
            invariant
                i <= self.tables@.len(),
                forall|j: int| 0 <= j < i ==> key_of(#[trigger] self.tables@[j]) != *key,
            decreases self.tables@.len() - i,
        {
            let t = &self.tables[i];
            if t.type_info.uid == key.type_uid && t.interface == key.interface && t.unerasable
                == key.unerasable {
                return Some(i);
            }
            i = i + 1;
        }
        None
    }

    /// The position of the one table for the key of `type_info`,
    /// `interface` and `unerasable`, building it with every slot of the
    /// current layout where none exists yet.  `None` where the registry
    /// is full.
    pub fn get_or_build(&mut self, type_info: TypeInfo, interface: Interface, unerasable: bool) -> (r:
        Option<usize>)
        requires
            old(self).wf(),
        ensures
            final(self).wf(),
            ({
                let key = VTableKey { type_uid: type_info.uid, interface, unerasable };
                let tables = old(self).spec_tables();
                let n = tables.len();
                if exists|i: int| 0 <= i < n && key_of(#[trigger] tables[i]) == key {
                    &&& r matches Some(i) && i < n && key_of(tables[i as int]) == key
                    &&& final(self).spec_tables() == tables
                } else if n < usize::MAX - 1 {
                    &&& r == Some(n as usize)
                    &&& final(self).spec_tables().len() == n + 1
                    &&& final(self).spec_tables().subrange(0, n as int) == tables
                    &&& final(self).spec_tables()[n as int].address == n + 1
                    &&& final(self).spec_tables()[n as int].type_info == type_info
                    &&& final(self).spec_tables()[n as int].interface == interface
                    &&& final(self).spec_tables()[n as int].unerasable == unerasable
                    &&& final(self).spec_tables()[n as int].spec_field_count() == VTABLE_FIELD_COUNT
                } else {
                    &&& r is None
                    &&& final(self).spec_tables() == tables
                }
            }),
    {
        let key = VTableKey { type_uid: type_info.uid, interface, unerasable };
        match self.find(&key) {
            Some(i) => Some(i),
            None => {
                let n = self.tables.len();
                if n >= usize::MAX - 1 {
                    return None;
                }
                let t = VTable::new(n + 1, type_info, interface, unerasable);
                self.tables.push(t);
                assert(self.spec_tables().subrange(0, n as int) =~= old(self).spec_tables());
                Some(n)
            },
        }
    }
}

/// A registry holds one table for each key: two tables at distinct
/// positions have distinct keys and distinct addresses, and so equal
/// addresses mean the same table.
pub proof fn lemma_one_table_per_key(registry: &VTableRegistry, i: int, j: int)
    requires
        registry.wf(),
        0 <= i < registry.spec_tables().len(),
        0 <= j < registry.spec_tables().len(),
    ensures
        key_of(registry.spec_tables()[i]) == key_of(registry.spec_tables()[j]) <==> i == j,
        registry.spec_tables()[i].address == registry.spec_tables()[j].address <==> i == j,
{
    assert(registry.spec_tables()[i].wf());
    assert(registry.spec_tables()[j].wf());
    if i < j {
        assert(key_of(registry.spec_tables()[i]) != key_of(registry.spec_tables()[j]));
    } else if j < i {
        assert(key_of(registry.spec_tables()[j]) != key_of(registry.spec_tables()[i]));
    }
}

} // verus!
