//! Prefix types: structs split into a stable prefix and an append-only
//! suffix, whose instances may hold fewer fields than the newest layout
//! declares.

use vstd::prelude::*;
use crate::type_layout::{TLData, TLField, TypeLayout, TypeLayoutView, VersionNumber};

verus! {

/// Implemented by every prefix type, giving the layout it was compiled with.
pub trait PrefixTypeTrait {
    /// The layout of the type, as this component declares it.
    spec fn spec_layout() -> TypeLayoutView;

    fn layout() -> (r: TypeLayout)
        ensures
            r@ == Self::spec_layout(),
            r.is_prefix_layout(),
    ;

    fn metadata() -> (r: PrefixTypeMetadata)
        ensures
            r.wf(),
            r.layout@ == Self::spec_layout(),
    {
        PrefixTypeMetadata::new(Self::layout())
    }
}

/// What a prefix-type layout says about its fields.
#[derive(Clone, Debug)]
pub struct PrefixTypeMetadata {
    /// The number of fields in the prefix of the struct, which is the same
    /// for the same type whichever component it comes from.
    pub prefix_field_count: usize,
    /// The layout of the struct, which holds its declared fields.
    pub layout: TypeLayout,
}

impl PrefixTypeMetadata {
    pub open spec fn wf(&self) -> bool {
        &&& self.layout.is_prefix_layout()
        &&& self.prefix_field_count == self.layout.first_suffix()
    }

    /// The declared fields, in order.
    pub open spec fn spec_fields(&self) -> Seq<TLField> {
        self.layout.fields@
    }

    /// This metadata was read from `layout`.
    pub open spec fn describes(&self, layout: TypeLayout) -> bool {
        &&& self.wf()
        &&& self.layout == layout
    }

    /// Reads the metadata of a prefix-type layout.
    pub fn new(layout: TypeLayout) -> (r: Self)
        requires
            layout.is_prefix_layout(),
        ensures
            r.describes(layout),
    {
        let first_suffix_field = match layout.data {
            TLData::PrefixType { first_suffix_field } => first_suffix_field,
            _ => 0,
        };
        PrefixTypeMetadata { prefix_field_count: first_suffix_field, layout }
    }

    /// The declared fields, in order.
    pub fn fields(&self) -> (r: &Vec<TLField>)
        ensures
            r@ == self.spec_fields(),
    {
        &self.layout.fields
    }

    /// Returns the metadata with more declared fields; `self` when both have
    /// as many.  Does not check that the two are compatible: callers must
    /// have done so already.
    pub fn max(self, other: Self) -> (r: Self)
        ensures
            r == (if self.spec_fields().len() < other.spec_fields().len() {
                other
            } else {
                self
            }),
    {
        if self.layout.fields.len() < other.layout.fields.len() {
            other
        } else {
            self
        }
    }

    /// Returns the metadata with fewer declared fields and the one with
    /// more, in that order; `(other, self)` when both have as many.  Does
    /// not check that the two are compatible.
    pub fn min_max(self, other: Self) -> (r: (Self, Self))
        ensures
            r == (if self.spec_fields().len() < other.spec_fields().len() {
                (self, other)
            } else {
                (other, self)
            }),
    {
        if self.layout.fields.len() < other.layout.fields.len() {
            (self, other)
        } else {
            (other, self)
        }
    }
}

/// The diagnostic for an access to a field that an instance does not hold:
/// the field asked for, and the layout expected against the layout found.
#[derive(Clone, Debug)]
pub struct MissingFieldError {
    pub index: usize,
    pub field_name: String,
    pub field_type: String,
    pub struct_type: String,
    pub package: String,
    pub expected_package_version: VersionNumber,
    pub expected_field_count: usize,
    pub actual_package_version: VersionNumber,
    pub actual_field_count: usize,
}

/// The content of a missing-field diagnostic, with its texts as character
/// sequences.
pub struct MissingFieldView {
    pub index: usize,
    pub field_name: Seq<char>,
    pub field_type: Seq<char>,
    pub struct_type: Seq<char>,
    pub package: Seq<char>,
    pub expected_package_version: VersionNumber,
    pub expected_field_count: usize,
    pub actual_package_version: VersionNumber,
    pub actual_field_count: usize,
}

impl View for MissingFieldError {
    type V = MissingFieldView;

    open spec fn view(&self) -> MissingFieldView {
        MissingFieldView {
            index: self.index,
            field_name: self.field_name@,
            field_type: self.field_type@,
            struct_type: self.struct_type@,
            package: self.package@,
            expected_package_version: self.expected_package_version,
            expected_field_count: self.expected_field_count,
            actual_package_version: self.actual_package_version,
            actual_field_count: self.actual_field_count,
        }
    }
}

/// The content of the diagnostic for field `index` of a layout with content
/// `expected`, missing from an instance whose layout has content `actual`.
pub open spec fn missing_field_view(
    index: int,
    expected: TypeLayoutView,
    actual: TypeLayoutView,
) -> MissingFieldView {
    MissingFieldView {
        index: index as usize,
        field_name: expected.fields[index].name,
        field_type: expected.fields[index].field_type,
        struct_type: expected.full_type,
        package: expected.package,
        expected_package_version: expected.package_version,
        expected_field_count: expected.fields.len() as usize,
        actual_package_version: actual.package_version,
        actual_field_count: actual.fields.len() as usize,
    }
}

/// The diagnostic for field `index` of `expected`, missing from an instance
/// laid out as `actual`.
pub open spec fn missing_field(index: int, expected: TypeLayout, actual: TypeLayout) -> MissingFieldError {
    MissingFieldError {
        index: index as usize,
        field_name: expected.fields@[index].name,
        field_type: expected.fields@[index].field_type,
        struct_type: expected.full_type,
        package: expected.package,
        expected_package_version: expected.package_version,
        expected_field_count: expected.fields@.len() as usize,
        actual_package_version: actual.package_version,
        actual_field_count: actual.fields@.len() as usize,
    }
}

/// The diagnostic for a field, read through the content of its layouts.
pub proof fn lemma_missing_field_view(index: int, expected: TypeLayout, actual: TypeLayout)
    requires
        0 <= index < expected.fields@.len(),
    ensures
        missing_field(index, expected, actual)@ == missing_field_view(index, expected@, actual@),
{
}

/// Builds the diagnostic for an access to field `field_index` of the `T`
/// type, missing from an instance laid out as `actual`.
pub fn panic_on_missing_field_ty<T: PrefixTypeTrait>(field_index: usize, actual: &TypeLayout) -> (r:
    MissingFieldError)
    requires
        field_index < T::spec_layout().fields.len(),
        actual.is_prefix_layout(),
    ensures
        r@ == missing_field_view(field_index as int, T::spec_layout(), actual@),
{
    let expected = T::layout();
    let r = panic_on_missing_field_val(field_index, &expected, actual);
    proof {
        lemma_missing_field_view(field_index as int, expected, *actual);
    }
    r
}

/// Builds the diagnostic for an access to field `field_index` of `expected`,
/// missing from an instance laid out as `actual`.
pub fn panic_on_missing_field_val(field_index: usize, expected: &TypeLayout, actual: &TypeLayout) -> (r:
    MissingFieldError)
    requires
        expected.is_prefix_layout(),
        actual.is_prefix_layout(),
        field_index < expected.fields@.len(),
    ensures
        r == missing_field(field_index as int, *expected, *actual),
        r@ == missing_field_view(field_index as int, expected@, actual@),
{
    let field = &expected.fields[field_index];
    MissingFieldError {
        index: field_index,
        field_name: field.name.clone(),
        field_type: field.field_type.clone(),
        struct_type: expected.full_type.clone(),
        package: expected.package.clone(),
        expected_package_version: expected.package_version,
        expected_field_count: expected.fields.len(),
        actual_package_version: actual.package_version,
        actual_field_count: actual.fields.len(),
    }
}

/// An instance of a prefix type: the field values that the component which
/// built it stored, one for each field of the layout it was compiled with.
pub struct PrefixInstance<F> {
    /// The layout the building component was compiled with.
    pub layout: TypeLayout,
    /// The stored field values, in declaration order.
    pub values: Vec<F>,
}

impl<F> PrefixInstance<F> {
    pub open spec fn wf(&self) -> bool {
        &&& self.layout.is_prefix_layout()
        &&& self.values@.len() == self.layout.fields@.len()
    }

    /// The number of fields this instance holds.
    pub open spec fn spec_field_count(&self) -> nat {
        self.values@.len()
    }

    /// Builds an instance from the values of every field of `layout`.
    pub fn new(layout: TypeLayout, values: Vec<F>) -> (r: Self)
        requires
            layout.is_prefix_layout(),
            values@.len() == layout.fields@.len(),
        ensures
            r.wf(),
            r.layout == layout,
            r.values@ == values@,
    {
        PrefixInstance { layout, values }
    }

    /// The number of fields this instance holds, which is smaller than the
    /// number that a newer layout declares when an older component built it.
    pub fn field_count(&self) -> (r: usize)
        ensures
            r == self.spec_field_count(),
    {
        self.values.len()
    }

    /// Field `index` of the caller's view `expected`: the stored value where
    /// this instance holds the field, the missing-field diagnostic where it
    /// does not.
    pub fn get_field(&self, expected: &PrefixTypeMetadata, index: usize) -> (r: Result<&F, MissingFieldError>)
        requires
            self.wf(),
            expected.wf(),
            index < expected.spec_fields().len(),
        ensures
            r is Ok <==> index < self.spec_field_count(),
            r matches Ok(v) ==> *v == self.values@[index as int],
            r matches Err(e) ==> e == missing_field(index as int, expected.layout, self.layout),
    {
        if index < self.values.len() {
            Ok(&self.values[index])
        } else {
            Err(panic_on_missing_field_val(index, &expected.layout, &self.layout))
        }
    }
}

/// An instance built by any version of a prefix type holds every prefix field
/// of the newer layout its caller was compiled with, and reports as its field
/// count the number its own, possibly older, layout declares.
pub proof fn lemma_prefix_fields_present<F>(instance: PrefixInstance<F>, expected: PrefixTypeMetadata)
    requires
        instance.wf(),
        expected.wf(),
        instance.layout.first_suffix() == expected.prefix_field_count,
        instance.layout.fields@.len() <= expected.spec_fields().len(),
    ensures
        instance.spec_field_count() == instance.layout.fields@.len(),
        instance.spec_field_count() <= expected.spec_fields().len(),
        expected.prefix_field_count <= instance.spec_field_count(),
{
}

} // verus!
