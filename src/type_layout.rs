//! Descriptions of types that cross a boundary: the identity token of an
//! erased type, and the field layout of a struct.

use vstd::prelude::*;

verus! {

/// A package version, as three numbers.
#[derive(Clone, Copy, Debug, PartialEq, Eq, Structural)]
pub struct VersionNumber {
    pub major: u32,
    pub minor: u32,
    pub patch: u32,
}

/// The identity token of a concrete type, as minted by the component that
/// compiled it.
///
/// `uid` is the minted identity proper; the remaining fields are the
/// structural description used when two tokens come from different
/// components.
#[derive(Clone, Debug)]
pub struct TypeInfo {
    pub size: usize,
    pub alignment: usize,
    pub uid: u64,
    pub name: String,
    pub module: String,
    pub package: String,
    pub package_version: VersionNumber,
}

impl TypeInfo {
    /// Two tokens describe the same structure: name, module, package, size
    /// and alignment all agree.
    pub open spec fn same_structure(&self, other: &TypeInfo) -> bool {
        &&& self.size == other.size
        &&& self.alignment == other.alignment
        &&& self.name@ == other.name@
        &&& self.module@ == other.module@
        &&& self.package@ == other.package@
    }

    /// Two tokens name exactly the same minted type: the same minted
    /// identity, with full structural agreement.
    pub open spec fn same_token(&self, other: &TypeInfo) -> bool {
        self.uid == other.uid && self.same_structure(other)
    }

    /// Whether the two tokens describe structurally identical types.
    pub fn is_compatible(&self, other: &TypeInfo) -> (r: bool)
        ensures
            r == self.same_structure(other),
    {
        self.size == other.size && self.alignment == other.alignment && self.name == other.name
            && self.module == other.module && self.package == other.package
    }

    /// A copy of this token.
    pub fn copied(&self) -> (r: TypeInfo)
        ensures
            r == *self,
    {
        TypeInfo {
            size: self.size,
            alignment: self.alignment,
            uid: self.uid,
            name: self.name.clone(),
            module: self.module.clone(),
            package: self.package.clone(),
            package_version: self.package_version,
        }
    }

    /// Whether the two tokens name exactly the same minted type.
    pub fn is_same_token(&self, other: &TypeInfo) -> (r: bool)
        ensures
            r == self.same_token(other),
    {
        self.uid == other.uid && self.is_compatible(other)
    }
}

/// One field of a struct: its name and the full name of its type.
#[derive(Clone, Debug)]
pub struct TLField {
    pub name: String,
    pub field_type: String,
}

/// The text of a field's description.
pub struct TLFieldView {
    pub name: Seq<char>,
    pub field_type: Seq<char>,
}

impl View for TLField {
    type V = TLFieldView;

    open spec fn view(&self) -> TLFieldView {
        TLFieldView { name: self.name@, field_type: self.field_type@ }
    }
}

impl TLField {
    /// A field description with the given texts.
    pub fn new(name: &str, field_type: &str) -> (r: TLField)
        ensures
            r@ == (TLFieldView { name: name@, field_type: field_type@ }),
    {
        TLField { name: name.to_owned(), field_type: field_type.to_owned() }
    }
}

/// The shape of a type's data.
#[derive(Clone, Copy, Debug, PartialEq, Eq, Structural)]
pub enum TLData {
    /// A type without fields that matter to the layout.
    Primitive,
    /// A struct whose fields are all fixed.
    Struct,
    /// A struct whose fields from `first_suffix_field` on may be missing in
    /// instances built against an older version.
    PrefixType { first_suffix_field: usize },
}

/// The layout of a type, with the package that declared it, for structural
/// comparison and for diagnostics.
#[derive(Clone, Debug)]
pub struct TypeLayout {
    pub full_type: String,
    pub package: String,
    pub package_version: VersionNumber,
    pub data: TLData,
    /// The declared fields, in order.
    pub fields: Vec<TLField>,
}

/// The content of a layout, with its texts as character sequences.
pub struct TypeLayoutView {
    pub full_type: Seq<char>,
    pub package: Seq<char>,
    pub package_version: VersionNumber,
    pub data: TLData,
    pub fields: Seq<TLFieldView>,
}

impl View for TypeLayout {
    type V = TypeLayoutView;

    open spec fn view(&self) -> TypeLayoutView {
        TypeLayoutView {
            full_type: self.full_type@,
            package: self.package@,
            package_version: self.package_version,
            data: self.data,
            fields: self.fields@.map_values(|f: TLField| f@),
        }
    }
}

impl TypeLayout {
    /// A layout of a prefix type, whose prefix ends within its fields.
    pub open spec fn is_prefix_layout(&self) -> bool {
        match self.data {
            TLData::PrefixType { first_suffix_field } => first_suffix_field <= self.fields@.len(),
            _ => false,
        }
    }

    /// Where the stable prefix of a prefix-type layout ends.
    pub open spec fn first_suffix(&self) -> nat {
        match self.data {
            TLData::PrefixType { first_suffix_field } => first_suffix_field as nat,
            _ => 0,
        }
    }
}

} // verus!
