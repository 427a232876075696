//! The columnar engine, as far as statistics use it.
//!
//! No executable function of this module is proved. Each makes one call
//! into the engine, and its contract records what the engine's source
//! shows of that call, over the models named here.

use datafusion::arrow::array::{
    Array, ArrayBuilder, StructArray, StructBuilder, UInt64Array, UInt64Builder,
};
use datafusion::arrow::datatypes::{DataType, Field};
use vstd::prelude::*;

verus! {

/// One slot of a column of unsigned 64-bit integers: the number stored in
/// it, and whether the slot is marked as null. A null slot still stores a
/// number.
pub ghost struct Slot {
    pub value: u64,
    pub is_null: bool,
}

/// One column of a struct: the field that describes it, and its slots
/// where it holds unsigned 64-bit integers. A column of any other kind has
/// no slots here.
pub ghost struct Column {
    pub field: FieldView,
    pub slots: Option<Seq<Slot>>,
}

/// What kind of data a field describes.
pub ghost enum FieldKind {
    /// Unsigned 64-bit integers.
    UInt64,
    /// Structs with these fields, in this order.
    Struct(Seq<FieldView>),
    /// Any other kind of data.
    Other,
}

/// What a field of a schema says: the name of a column, the kind of its
/// data, and whether it may hold nulls.
pub ghost struct FieldView {
    pub name: Seq<char>,
    pub kind: FieldKind,
    pub nullable: bool,
}

#[verifier::external_type_specification]
#[verifier::external_body]
pub struct ExDataType(DataType);

#[verifier::external_type_specification]
#[verifier::external_body]
pub struct ExField(Field);

#[verifier::external_type_specification]
#[verifier::external_body]
pub struct ExStructBuilder(StructBuilder);

#[verifier::external_type_specification]
#[verifier::external_body]
pub struct ExStructArray(StructArray);

/// A builder of one column of unsigned 64-bit integers: the engine's
/// `UInt64Builder`.
#[verifier::external_body]
pub struct UInt64ColumnBuilder {
    inner: UInt64Builder,
}

/// A column of unsigned 64-bit integers inside a struct array: the
/// engine's `UInt64Array`, borrowed.
#[verifier::external_body]
pub struct UInt64Column<'a> {
    inner: &'a UInt64Array,
}

/// The kind of data that a data type stands for.
pub uninterp spec fn data_type_kind(data_type: DataType) -> FieldKind;

/// What a field says.
pub uninterp spec fn field_view(field: Field) -> FieldView;

/// The slots appended to a column builder so far, oldest first.
pub uninterp spec fn builder_slots(builder: UInt64ColumnBuilder) -> Seq<Slot>;

/// The slots of a column, by row.
pub uninterp spec fn column_slots(column: UInt64Column) -> Seq<Slot>;

/// The fields that a struct builder was made with, in order.
pub uninterp spec fn struct_builder_fields(builder: StructBuilder) -> Seq<FieldView>;

/// What the child builders of a struct builder hold, in order: the slots
/// of each that builds unsigned 64-bit integers, and nothing for a child of
/// any other kind.
pub uninterp spec fn struct_builder_children(builder: StructBuilder) -> Seq<Option<Seq<Slot>>>;

/// The rows appended to a struct builder so far: for each, whether it is
/// valid.
pub uninterp spec fn struct_builder_rows(builder: StructBuilder) -> Seq<bool>;

/// The fields of the data type of a struct array, in order. There are
/// none where its data type is not that of a struct, which the engine
/// leaves unchecked when an array is made from raw data.
pub uninterp spec fn struct_array_fields(array: StructArray) -> Option<Seq<FieldView>>;

/// What the child arrays of a struct array hold, in order: the slots of
/// each that holds unsigned 64-bit integers, and nothing for a child of any
/// other kind.
pub uninterp spec fn struct_array_children(array: StructArray) -> Seq<Option<Seq<Slot>>>;

/// The rows of a struct array: for each, whether it is valid.
pub uninterp spec fn struct_array_rows(array: StructArray) -> Seq<bool>;

/// The views of a list of fields, in order.
pub open spec fn field_views(fields: Seq<Field>) -> Seq<FieldView> {
    fields.map_values(|f: Field| field_view(f))
}

/// What a list of column builders holds, builder by builder.
pub open spec fn slots_of_builders(builders: Seq<UInt64ColumnBuilder>) -> Seq<Option<Seq<Slot>>> {
    builders.map_values(|b: UInt64ColumnBuilder| Some(builder_slots(b)))
}

/// The same children with no slots in them.
pub open spec fn emptied(children: Seq<Option<Seq<Slot>>>) -> Seq<Option<Seq<Slot>>> {
    children.map_values(
        |c: Option<Seq<Slot>>|
            match c {
                Some(_) => Some(Seq::<Slot>::empty()),
                None => None,
            },
    )
}

/// Each field with the child at the same place. A field beyond the last
/// child has no slots.
pub open spec fn columns_of(fields: Seq<FieldView>, children: Seq<Option<Seq<Slot>>>) -> Seq<Column> {
    Seq::new(
        fields.len(),
        |i: int|
            Column {
                field: fields[i],
                slots: if i < children.len() {
                    children[i]
                } else {
                    None
                },
            },
    )
}

/// Whether a struct array has the shape that reading it by name relies on:
/// its data type is that of a struct, and each field has a child.
pub open spec fn struct_array_well_formed(array: StructArray) -> bool {
    match struct_array_fields(array) {
        Some(fields) => fields.len() <= struct_array_children(array).len(),
        None => false,
    }
}

/// The columns of a struct array, in the order of its fields.
pub open spec fn struct_array_columns(array: StructArray) -> Seq<Column> {
    match struct_array_fields(array) {
        Some(fields) => columns_of(fields, struct_array_children(array)),
        None => Seq::empty(),
    }
}

/// The slots of the first column called `name`. There are none where no
/// column has that name, or where the first that has it is not of unsigned
/// 64-bit integers.
pub open spec fn find_u64_column(columns: Seq<Column>, name: Seq<char>) -> Option<Seq<Slot>>
    decreases columns.len(),
{
    if columns.len() == 0 {
        None
    } else if columns[0].field.name == name {
        columns[0].slots
    } else {
        find_u64_column(columns.drop_first(), name)
    }
}

/// `DataType::UInt64`: the type of unsigned 64-bit integers.
#[verifier::external_body]
pub(crate) fn uint64_type() -> (data_type: DataType)
    ensures
        data_type_kind(data_type) == FieldKind::UInt64,
{
    DataType::UInt64
}

/// `DataType::Struct`: the type of structs with the given fields, in their
/// order.
#[verifier::external_body]
pub(crate) fn struct_type(fields: Vec<Field>) -> (data_type: DataType)
    ensures
        data_type_kind(data_type) == FieldKind::Struct(field_views(fields@)),
{
    DataType::Struct(fields)
}

/// `Field::new`: a field that says what it was made with.
#[verifier::external_body]
pub(crate) fn new_field(name: &str, data_type: DataType, nullable: bool) -> (field: Field)
    ensures
        field_view(field) == (FieldView { name: name@, kind: data_type_kind(data_type), nullable }),
{
    Field::new(name, data_type, nullable)
}

/// `UInt64Builder::new`: a builder with no slots and room for `capacity` of
/// them. The engine computes the room in bytes, eight to a slot, and
/// rounds it up to a multiple of 64: that must not overflow.
#[verifier::external_body]
pub(crate) fn new_column_builder(capacity: usize) -> (builder: UInt64ColumnBuilder)
    requires
        capacity * 8 + 63 <= isize::MAX,
    ensures
        builder_slots(builder) == Seq::<Slot>::empty(),
{
    UInt64ColumnBuilder { inner: UInt64Builder::new(capacity) }
}

/// `UInt64Builder::append_value`: adds one slot that holds `value`.
#[verifier::external_body]
pub(crate) fn append_value(builder: &mut UInt64ColumnBuilder, value: u64)
    ensures
        builder_slots(*final(builder)) == builder_slots(*old(builder)).push(
            Slot { value, is_null: false },
        ),
{
    builder.inner.append_value(value)
}

/// `UInt64Builder::append_null`: adds one slot marked as null. The engine
/// fills the slot with zero.
#[verifier::external_body]
pub(crate) fn append_null(builder: &mut UInt64ColumnBuilder)
    ensures
        builder_slots(*final(builder)) == builder_slots(*old(builder)).push(
            Slot { value: 0, is_null: true },
        ),
{
    builder.inner.append_null()
}

/// `StructBuilder::new`: a struct builder with no rows, which keeps the
/// given fields and the given builders as they are. The engine does not
/// ask that there be as many of the one as of the other.
#[verifier::external_body]
pub(crate) fn new_struct_builder(fields: Vec<Field>, builders: Vec<UInt64ColumnBuilder>) -> (builder:
    StructBuilder)
    ensures
        struct_builder_fields(builder) == field_views(fields@),
        struct_builder_children(builder) == slots_of_builders(builders@),
        struct_builder_rows(builder) == Seq::<bool>::empty(),
{
    let boxed = builders.into_iter().map(|b| Box::new(b.inner) as Box<dyn ArrayBuilder>).collect();
    StructBuilder::new(fields, boxed)
}

/// `StructBuilder::append`: adds one row, valid or not, and leaves the
/// fields and the children as they are.
#[verifier::external_body]
pub(crate) fn append_row(builder: &mut StructBuilder, is_valid: bool)
    ensures
        struct_builder_rows(*final(builder)) == struct_builder_rows(*old(builder)).push(is_valid),
        struct_builder_fields(*final(builder)) == struct_builder_fields(*old(builder)),
        struct_builder_children(*final(builder)) == struct_builder_children(*old(builder)),
{
    builder.append(is_valid)
}

/// `StructBuilder::finish`: the array of the rows built so far. Its data
/// type is that of a struct with the builder's fields, and it has one child
/// for each child builder, holding what that builder held. The builder
/// keeps its fields and starts over with no rows and no slots.
#[verifier::external_body]
pub(crate) fn finish_struct(builder: &mut StructBuilder) -> (array: StructArray)
    ensures
        struct_array_fields(array) == Some(struct_builder_fields(*old(builder))),
        struct_array_children(array) == struct_builder_children(*old(builder)),
        struct_array_rows(array) == struct_builder_rows(*old(builder)),
        struct_builder_fields(*final(builder)) == struct_builder_fields(*old(builder)),
        struct_builder_children(*final(builder)) == emptied(struct_builder_children(*old(builder))),
        struct_builder_rows(*final(builder)) == Seq::<bool>::empty(),
{
    builder.finish()
}

/// `Array::data_type` of a struct array: the fields of its data type, if
/// that is the type of a struct.
#[verifier::external_body]
pub(crate) fn struct_fields<'a>(array: &'a StructArray) -> (fields: Option<&'a Vec<Field>>)
    ensures
        match fields {
            Some(fields) => struct_array_fields(*array) == Some(field_views(fields@)),
            None => struct_array_fields(*array) is None,
        },
{
    match array.data_type() {
        DataType::Struct(fields) => Some(fields),
        _ => None,
    }
}

/// `StructArray::num_columns`: the number of child arrays.
#[verifier::external_body]
pub(crate) fn child_count(array: &StructArray) -> (count: usize)
    ensures
        count == struct_array_children(*array).len(),
{
    array.num_columns()
}

/// `StructArray::column_by_name`, narrowed to unsigned 64-bit integers:
/// the first column called `name`, if there is one and it is of that kind.
/// The engine looks the name up among the fields of the data type, which
/// must be that of a struct, and takes the child at the place of the field
/// it finds, which must be there.
#[verifier::external_body]
pub(crate) fn u64_column<'a>(array: &'a StructArray, name: &str) -> (column: Option<
    UInt64Column<'a>,
>)
    requires
        struct_array_well_formed(*array),
    ensures
        match column {
            Some(c) => find_u64_column(struct_array_columns(*array), name@) == Some(
                column_slots(c),
            ),
            None => find_u64_column(struct_array_columns(*array), name@) is None,
        },
{
    let found = array.column_by_name(name)?;
    found.as_any().downcast_ref::<UInt64Array>().map(|inner| UInt64Column { inner })
}

/// `UInt64Array::len`: the number of slots of a column.
#[verifier::external_body]
pub(crate) fn column_len(column: &UInt64Column) -> (len: usize)
    ensures
        len == column_slots(*column).len(),
{
    column.inner.len()
}

/// `UInt64Array::value`: the number stored in slot `i`, null or not.
#[verifier::external_body]
pub(crate) fn column_value(column: &UInt64Column, i: usize) -> (value: u64)
    requires
        i < column_slots(*column).len(),
    ensures
        value == column_slots(*column)[i as int].value,
{
    column.inner.value(i)
}

} // verus!
