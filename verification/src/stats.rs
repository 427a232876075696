//! Statistics of an executed partition, as a record and as columns.

use datafusion::arrow::array::StructArray;
use datafusion::arrow::datatypes::Field;
use std::sync::Arc;
use vstd::prelude::*;
use vstd::string::StringExecFns;
use crate::columnar::{
    append_null, append_row, append_value, child_count, column_len, column_value, field_view,
    field_views, find_u64_column, finish_struct, new_column_builder, new_field,
    new_struct_builder, struct_array_columns, struct_array_rows, struct_array_well_formed,
    struct_fields, struct_type, u64_column, uint64_type, Column, FieldKind, FieldView, Slot,
    UInt64ColumnBuilder,
};
use crate::error::BallistaError;
use crate::text::{debug_option, push_debug_option};

verus! {

/// Summary of an executed partition. Each count may be unknown, which is
/// not the same as zero.
#[derive(Debug, Copy, Clone, PartialEq, Eq, Structural)]
pub struct PartitionStats {
    pub(crate) num_rows: Option<u64>,
    pub(crate) num_batches: Option<u64>,
    pub(crate) num_bytes: Option<u64>,
}

/// What a [`PartitionStats`] holds.
pub ghost struct PartitionStatsView {
    pub num_rows: Option<u64>,
    pub num_batches: Option<u64>,
    pub num_bytes: Option<u64>,
}

impl View for PartitionStats {
    type V = PartitionStatsView;

    closed spec fn view(&self) -> PartitionStatsView {
        PartitionStatsView {
            num_rows: self.num_rows,
            num_batches: self.num_batches,
            num_bytes: self.num_bytes,
        }
    }
}

impl Default for PartitionStats {
    fn default() -> (stats: PartitionStats)
        ensures
            stats@ == (PartitionStatsView { num_rows: None, num_batches: None, num_bytes: None }),
    {
        PartitionStats { num_rows: None, num_batches: None, num_bytes: None }
    }
}

/// The slot that stands for one count in a column: the count itself, or a
/// null over a zero where the count is unknown.
pub open spec fn slot_of(count: Option<u64>) -> Slot {
    match count {
        Some(n) => Slot { value: n, is_null: false },
        None => Slot { value: 0, is_null: true },
    }
}

/// The field of one count: unsigned 64-bit integers, never null.
pub open spec fn count_field(name: Seq<char>) -> FieldView {
    FieldView { name, kind: FieldKind::UInt64, nullable: false }
}

/// The column of one count: a single slot under the count's field.
pub open spec fn count_column(name: Seq<char>, count: Option<u64>) -> Column {
    Column { field: count_field(name), slots: Some(seq![slot_of(count)]) }
}

/// Whether a count can be read from the column called `name`: the column
/// is there, holds unsigned 64-bit integers, and has a first row.
pub open spec fn has_count(columns: Seq<Column>, name: Seq<char>) -> bool {
    match find_u64_column(columns, name) {
        Some(slots) => slots.len() > 0,
        None => false,
    }
}

/// The count in the first row of the column called `name`. The number
/// stored there counts as known, whether or not the slot is marked null.
pub open spec fn read_count(columns: Seq<Column>, name: Seq<char>) -> Option<u64> {
    Some(find_u64_column(columns, name).unwrap()[0].value)
}

impl PartitionStatsView {
    /// The summary as text: batches, rows, bytes, in this order.
    pub open spec fn display(self) -> Seq<char> {
        "numBatches="@ + debug_option(self.num_batches) + ", numRows="@ + debug_option(
            self.num_rows,
        ) + ", numBytes="@ + debug_option(self.num_bytes)
    }

    /// The fields of the columnar form, in their fixed order.
    pub open spec fn schema() -> Seq<FieldView> {
        seq![count_field("num_rows"@), count_field("num_batches"@), count_field("num_bytes"@)]
    }

    /// The columns that hold these statistics: one single-row column for
    /// each count, in the order of the schema.
    pub open spec fn columns(self) -> Seq<Column> {
        seq![
            count_column("num_rows"@, self.num_rows),
            count_column("num_batches"@, self.num_batches),
            count_column("num_bytes"@, self.num_bytes),
        ]
    }

    /// Whether statistics can be read from `columns`.
    pub open spec fn readable(columns: Seq<Column>) -> bool {
        &&& has_count(columns, "num_rows"@)
        &&& has_count(columns, "num_batches"@)
        &&& has_count(columns, "num_bytes"@)
    }

    /// The statistics that `columns` hold in their first row.
    pub open spec fn read(columns: Seq<Column>) -> PartitionStatsView {
        PartitionStatsView {
            num_rows: read_count(columns, "num_rows"@),
            num_batches: read_count(columns, "num_batches"@),
            num_bytes: read_count(columns, "num_bytes"@),
        }
    }

    /// The statistics with every unknown count taken for zero: what is
    /// left of them after a passage through columns.
    pub open spec fn with_unknown_as_zero(self) -> PartitionStatsView {
        PartitionStatsView {
            num_rows: Some(slot_of(self.num_rows).value),
            num_batches: Some(slot_of(self.num_batches).value),
            num_bytes: Some(slot_of(self.num_bytes).value),
        }
    }

    /// What each column name finds in the columns of these statistics.
    proof fn lemma_find_in_columns(self)
        ensures
            find_u64_column(self.columns(), "num_rows"@) == Some(seq![slot_of(self.num_rows)]),
            find_u64_column(self.columns(), "num_batches"@) == Some(
                seq![slot_of(self.num_batches)],
            ),
            find_u64_column(self.columns(), "num_bytes"@) == Some(seq![slot_of(self.num_bytes)]),
    {
        reveal_strlit("num_rows");
        reveal_strlit("num_batches");
        reveal_strlit("num_bytes");
        assert("num_batches"@.len() != "num_bytes"@.len());
        reveal_with_fuel(find_u64_column, 4);
    }

    /// Statistics can always be read back from their own columns, and
    /// come back with each unknown count as zero.
    pub proof fn lemma_read_columns(self)
        ensures
            Self::readable(self.columns()),
            Self::read(self.columns()) == self.with_unknown_as_zero(),
    {
        self.lemma_find_in_columns();
    }

    /// Statistics of which every count is known survive the passage
    /// through columns unchanged.
    pub proof fn lemma_columnar_round_trip(self)
        requires
            self.num_rows is Some,
            self.num_batches is Some,
            self.num_bytes is Some,
        ensures
            Self::readable(self.columns()),
            Self::read(self.columns()) == self,
    {
        self.lemma_read_columns();
    }

    /// In the columns of statistics, a count is null in its first row
    /// exactly where it is unknown.
    pub proof fn lemma_unknown_is_null(self)
        ensures
            find_u64_column(self.columns(), "num_rows"@).unwrap()[0].is_null
                == self.num_rows is None,
            find_u64_column(self.columns(), "num_batches"@).unwrap()[0].is_null
                == self.num_batches is None,
            find_u64_column(self.columns(), "num_bytes"@).unwrap()[0].is_null
                == self.num_bytes is None,
    {
        self.lemma_find_in_columns();
    }
}

impl PartitionStats {
    pub fn new(num_rows: Option<u64>, num_batches: Option<u64>, num_bytes: Option<u64>) -> (stats:
        PartitionStats)
        ensures
            stats@ == (PartitionStatsView { num_rows, num_batches, num_bytes }),
    {
        PartitionStats { num_rows, num_batches, num_bytes }
    }

    /// Renders the summary for a human reader.
    pub fn to_string(&self) -> (text: String)
        ensures
            text@ == self@.display(),
    {
        let mut text = String::new();
        text.append("numBatches=");
        push_debug_option(&mut text, self.num_batches);
        text.append(", numRows=");
        push_debug_option(&mut text, self.num_rows);
        text.append(", numBytes=");
        push_debug_option(&mut text, self.num_bytes);
        text
    }

    /// The field under which statistics are embedded in a larger schema:
    /// a struct of the three counts, never null.
    pub fn arrow_struct_repr(self) -> (field: Field)
        ensures
            field_view(field) == (FieldView {
                name: "partition_stats"@,
                kind: FieldKind::Struct(PartitionStatsView::schema()),
                nullable: false,
            }),
    {
        new_field("partition_stats", struct_type(self.arrow_struct_fields()), false)
    }

    /// The fields of the three counts, in their fixed order.
    pub fn arrow_struct_fields(self) -> (fields: Vec<Field>)
        ensures
            field_views(fields@) == PartitionStatsView::schema(),
    {
        let mut fields = Vec::new();
        fields.push(new_field("num_rows", uint64_type(), false));
        fields.push(new_field("num_batches", uint64_type(), false));
        fields.push(new_field("num_bytes", uint64_type(), false));
        fields
    }

    /// Builds the columnar form: one valid row over three columns, with a
    /// null in the column of each unknown count. This never fails.
    pub fn to_arrow_arrayref(self) -> (res: Result<Arc<StructArray>, BallistaError>)
        ensures
            res is Ok,
            struct_array_well_formed(*res.unwrap()),
            struct_array_columns(*res.unwrap()) == self@.columns(),
            struct_array_rows(*res.unwrap()) == seq![true],
    {
        let mut field_builders: Vec<UInt64ColumnBuilder> = Vec::new();

        let mut num_rows_builder = new_column_builder(1);
        match self.num_rows {
            Some(n) => append_value(&mut num_rows_builder, n),
            None => append_null(&mut num_rows_builder),
        }
        field_builders.push(num_rows_builder);

        let mut num_batches_builder = new_column_builder(1);
        match self.num_batches {
            Some(n) => append_value(&mut num_batches_builder, n),
            None => append_null(&mut num_batches_builder),
        }
        field_builders.push(num_batches_builder);

        let mut num_bytes_builder = new_column_builder(1);
        match self.num_bytes {
            Some(n) => append_value(&mut num_bytes_builder, n),
            None => append_null(&mut num_bytes_builder),
        }
        field_builders.push(num_bytes_builder);

        let fields = self.arrow_struct_fields();
        let mut struct_builder = new_struct_builder(fields, field_builders);
        append_row(&mut struct_builder, true);
        let array = finish_struct(&mut struct_builder);
        Ok(Arc::new(array))
    }

    /// Reads statistics from the first row of a struct array. Every count
    /// comes back as known: a null is read as the number stored under it.
    pub fn from_arrow_struct_array(struct_array: &StructArray) -> (stats: PartitionStats)
        requires
            struct_array_well_formed(*struct_array),
            PartitionStatsView::readable(struct_array_columns(*struct_array)),
        ensures
            stats@ == PartitionStatsView::read(struct_array_columns(*struct_array)),
    {
        let num_rows = u64_column(struct_array, "num_rows").unwrap();
        let num_batches = u64_column(struct_array, "num_batches").unwrap();
        let num_bytes = u64_column(struct_array, "num_bytes").unwrap();
        PartitionStats {
            num_rows: Some(column_value(&num_rows, 0)),
            num_batches: Some(column_value(&num_batches, 0)),
            num_bytes: Some(column_value(&num_bytes, 0)),
        }
    }

    /// Reads statistics from the first row of a struct array, if it is well
    /// formed and has the three columns of counts and a row in each.
    pub fn try_from_arrow_struct_array(struct_array: &StructArray) -> (stats: Option<
        PartitionStats,
    >)
        ensures
            stats is Some <==> struct_array_well_formed(*struct_array)
                && PartitionStatsView::readable(struct_array_columns(*struct_array)),
            stats is Some ==> stats.unwrap()@ == PartitionStatsView::read(
                struct_array_columns(*struct_array),
            ),
    {
        if is_well_formed(struct_array) && has_first_row(struct_array, "num_rows")
            && has_first_row(struct_array, "num_batches") && has_first_row(
            struct_array,
            "num_bytes",
        ) {
            Some(Self::from_arrow_struct_array(struct_array))
        } else {
            None
        }
    }
}

/// Whether a struct array is one of a struct type with a child for each
/// field.
fn is_well_formed(struct_array: &StructArray) -> (well_formed: bool)
    ensures
        well_formed == struct_array_well_formed(*struct_array),
{
    match struct_fields(struct_array) {
        Some(fields) => fields.len() <= child_count(struct_array),
        None => false,
    }
}

/// Whether a count can be read from the column called `name`.
fn has_first_row(struct_array: &StructArray, name: &str) -> (found: bool)
    requires
        struct_array_well_formed(*struct_array),
    ensures
        found == has_count(struct_array_columns(*struct_array), name@),
{
    match u64_column(struct_array, name) {
        Some(column) => column_len(&column) > 0,
        None => false,
    }
}

} // verus!
