use std::sync::Arc;

use ballista_core::PartitionStats;
use datafusion::arrow::array::{
    Array, ArrayBuilder, ArrayRef, Int64Array, StringArray, StructArray, StructBuilder,
    UInt64Array, UInt64Builder,
};
use datafusion::arrow::datatypes::{DataType, Field};

fn u64_column(array: &StructArray, name: &str) -> UInt64Array {
    let column = array.column_by_name(name).unwrap();
    let column = column.as_any().downcast_ref::<UInt64Array>().unwrap();
    UInt64Array::from(column.data().clone())
}

fn struct_of(columns: Vec<(&str, ArrayRef)>) -> StructArray {
    StructArray::from(
        columns
            .into_iter()
            .map(|(name, column)| (Field::new(name, column.data_type().clone(), true), column))
            .collect::<Vec<(Field, ArrayRef)>>(),
    )
}

fn counts(values: Vec<Option<u64>>) -> ArrayRef {
    Arc::new(UInt64Array::from(values))
}

#[test]
fn displays_batches_rows_and_bytes() {
    let stats = PartitionStats::new(Some(10), Some(2), Some(1024));
    assert_eq!(stats.to_string(), "numBatches=Some(2), numRows=Some(10), numBytes=Some(1024)");
}

#[test]
fn displays_unknown_counts_as_none() {
    let stats = PartitionStats::new(None, None, None);
    assert_eq!(stats.to_string(), "numBatches=None, numRows=None, numBytes=None");
    let stats = PartitionStats::new(None, Some(0), None);
    assert_eq!(stats.to_string(), "numBatches=Some(0), numRows=None, numBytes=None");
}

#[test]
fn displays_numbers_as_the_formatter_does() {
    for n in [0u64, 7, 9, 10, 11, 99, 100, 101, 1234567890, u64::MAX - 1, u64::MAX] {
        let stats = PartitionStats::new(Some(n), Some(n / 3), Some(n / 7));
        let expected = format!(
            "numBatches={:?}, numRows={:?}, numBytes={:?}",
            Some(n / 3),
            Some(n),
            Some(n / 7)
        );
        assert_eq!(stats.to_string(), expected);
    }
}

#[test]
fn default_knows_nothing() {
    assert_eq!(PartitionStats::default(), PartitionStats::new(None, None, None));
}

#[test]
fn schema_has_three_counts_in_order() {
    let fields = PartitionStats::default().arrow_struct_fields();
    assert_eq!(
        fields,
        vec![
            Field::new("num_rows", DataType::UInt64, false),
            Field::new("num_batches", DataType::UInt64, false),
            Field::new("num_bytes", DataType::UInt64, false),
        ]
    );
    for field in &fields {
        assert!(!field.is_nullable());
        assert_eq!(field.data_type(), &DataType::UInt64);
    }
}

#[test]
fn schema_is_wrapped_in_one_struct_field() {
    let field = PartitionStats::default().arrow_struct_repr();
    assert_eq!(field.name(), "partition_stats");
    assert!(!field.is_nullable());
    assert_eq!(
        field.data_type(),
        &DataType::Struct(PartitionStats::default().arrow_struct_fields())
    );
}

#[test]
fn columns_hold_one_row_of_counts() {
    let array = PartitionStats::new(Some(10), Some(2), Some(1024)).to_arrow_arrayref().unwrap();
    assert_eq!(array.len(), 1);
    assert!(array.is_valid(0));
    assert_eq!(array.num_columns(), 3);
    assert_eq!(array.column_names(), vec!["num_rows", "num_batches", "num_bytes"]);
    assert_eq!(array.data_type(), &DataType::Struct(PartitionStats::default().arrow_struct_fields()));
    for (name, expected) in [("num_rows", 10u64), ("num_batches", 2), ("num_bytes", 1024)] {
        let column = u64_column(&array, name);
        assert_eq!(column.len(), 1);
        assert!(column.is_valid(0));
        assert_eq!(column.value(0), expected);
    }
}

#[test]
fn unknown_counts_are_null_in_their_columns() {
    let array = PartitionStats::new(None, None, None).to_arrow_arrayref().unwrap();
    assert_eq!(array.len(), 1);
    assert!(array.is_valid(0));
    for name in ["num_rows", "num_batches", "num_bytes"] {
        let column = u64_column(&array, name);
        assert_eq!(column.len(), 1);
        assert!(column.is_null(0));
        assert_eq!(column.value(0), 0);
    }
}

#[test]
fn each_count_is_null_on_its_own() {
    let array = PartitionStats::new(Some(5), None, Some(0)).to_arrow_arrayref().unwrap();
    assert!(u64_column(&array, "num_rows").is_valid(0));
    assert_eq!(u64_column(&array, "num_rows").value(0), 5);
    assert!(u64_column(&array, "num_batches").is_null(0));
    assert!(u64_column(&array, "num_bytes").is_valid(0));
    assert_eq!(u64_column(&array, "num_bytes").value(0), 0);
}

#[test]
fn known_counts_survive_the_columns() {
    for (rows, batches, bytes) in [(10u64, 2u64, 1024u64), (0, 0, 0), (u64::MAX, 1, u64::MAX - 1)] {
        let stats = PartitionStats::new(Some(rows), Some(batches), Some(bytes));
        let array = stats.to_arrow_arrayref().unwrap();
        assert_eq!(PartitionStats::from_arrow_struct_array(&array), stats);
        assert_eq!(PartitionStats::try_from_arrow_struct_array(&array), Some(stats));
    }
}

#[test]
fn unknown_counts_come_back_as_zero() {
    let array = PartitionStats::new(None, None, None).to_arrow_arrayref().unwrap();
    assert_eq!(
        PartitionStats::from_arrow_struct_array(&array),
        PartitionStats::new(Some(0), Some(0), Some(0))
    );
    let array = PartitionStats::new(Some(3), None, Some(9)).to_arrow_arrayref().unwrap();
    assert_eq!(
        PartitionStats::from_arrow_struct_array(&array),
        PartitionStats::new(Some(3), Some(0), Some(9))
    );
}

#[test]
fn reads_the_first_row_by_column_name() {
    let array = struct_of(vec![
        ("num_bytes", counts(vec![Some(300), Some(301)])),
        ("other", Arc::new(StringArray::from(vec!["x", "y"])) as ArrayRef),
        ("num_rows", counts(vec![Some(100), Some(101)])),
        ("num_batches", counts(vec![Some(200), Some(201)])),
    ]);
    let expected = PartitionStats::new(Some(100), Some(200), Some(300));
    assert_eq!(PartitionStats::from_arrow_struct_array(&array), expected);
    assert_eq!(PartitionStats::try_from_arrow_struct_array(&array), Some(expected));
}

#[test]
fn reads_the_first_of_two_columns_with_one_name() {
    let array = struct_of(vec![
        ("num_rows", counts(vec![Some(1)])),
        ("num_rows", counts(vec![Some(2)])),
        ("num_batches", counts(vec![Some(3)])),
        ("num_bytes", counts(vec![Some(4)])),
    ]);
    assert_eq!(
        PartitionStats::try_from_arrow_struct_array(&array),
        Some(PartitionStats::new(Some(1), Some(3), Some(4)))
    );
}

#[test]
fn a_missing_column_gives_nothing() {
    let array = struct_of(vec![
        ("num_rows", counts(vec![Some(1)])),
        ("num_bytes", counts(vec![Some(4)])),
    ]);
    assert_eq!(PartitionStats::try_from_arrow_struct_array(&array), None);
    let array = struct_of(vec![
        ("num_rows", counts(vec![Some(1)])),
        ("num_batches", counts(vec![Some(3)])),
        ("numbytes", counts(vec![Some(4)])),
    ]);
    assert_eq!(PartitionStats::try_from_arrow_struct_array(&array), None);
}

#[test]
fn a_column_of_another_kind_gives_nothing() {
    let array = struct_of(vec![
        ("num_rows", counts(vec![Some(1)])),
        ("num_batches", Arc::new(Int64Array::from(vec![3i64])) as ArrayRef),
        ("num_bytes", counts(vec![Some(4)])),
    ]);
    assert_eq!(PartitionStats::try_from_arrow_struct_array(&array), None);
    let array = struct_of(vec![
        ("num_rows", Arc::new(StringArray::from(vec!["1"])) as ArrayRef),
        ("num_rows", counts(vec![Some(1)])),
        ("num_batches", counts(vec![Some(3)])),
        ("num_bytes", counts(vec![Some(4)])),
    ]);
    assert_eq!(PartitionStats::try_from_arrow_struct_array(&array), None);
}

#[test]
fn columns_without_rows_give_nothing() {
    let array = struct_of(vec![
        ("num_rows", counts(vec![])),
        ("num_batches", counts(vec![])),
        ("num_bytes", counts(vec![])),
    ]);
    assert_eq!(PartitionStats::try_from_arrow_struct_array(&array), None);
}

fn count_fields() -> Vec<Field> {
    PartitionStats::default().arrow_struct_fields()
}

fn built(fields: Vec<Field>, values: Vec<u64>) -> StructArray {
    let builders = values
        .into_iter()
        .map(|value| {
            let mut builder = UInt64Builder::new(1);
            builder.append_value(value);
            Box::new(builder) as Box<dyn ArrayBuilder>
        })
        .collect();
    let mut builder = StructBuilder::new(fields, builders);
    builder.append(true);
    builder.finish()
}

#[test]
fn an_array_with_a_field_but_no_child_for_it_gives_nothing() {
    let array = built(count_fields(), vec![1, 2]);
    assert_eq!(array.num_columns(), 2);
    assert_eq!(array.column_names().len(), 3);
    assert_eq!(PartitionStats::try_from_arrow_struct_array(&array), None);
    let array = built(count_fields(), vec![]);
    assert_eq!(PartitionStats::try_from_arrow_struct_array(&array), None);
}

#[test]
fn an_array_that_is_of_no_struct_type_gives_nothing() {
    let plain = UInt64Array::from(vec![1u64, 2, 3]);
    let array = StructArray::from(plain.data().clone());
    assert_eq!(array.data_type(), &DataType::UInt64);
    assert_eq!(PartitionStats::try_from_arrow_struct_array(&array), None);
}

#[test]
fn a_child_beyond_the_fields_does_no_harm() {
    let array = built(count_fields(), vec![1, 2, 3, 4]);
    assert_eq!(array.num_columns(), 4);
    let expected = PartitionStats::new(Some(1), Some(2), Some(3));
    assert_eq!(PartitionStats::try_from_arrow_struct_array(&array), Some(expected));
    assert_eq!(PartitionStats::from_arrow_struct_array(&array), expected);
}

#[test]
fn built_columns_read_back_by_their_fields() {
    let mut fields = count_fields();
    fields.reverse();
    let array = built(fields, vec![30, 20, 10]);
    let expected = PartitionStats::new(Some(10), Some(20), Some(30));
    assert_eq!(PartitionStats::try_from_arrow_struct_array(&array), Some(expected));
}
