use std::sync::Arc;

use datafusion::arrow::array::{
    Array, ArrayRef, FixedSizeListArray, Float64Array, Int32Array, ListArray, StringArray,
    TimestampNanosecondArray,
};
use datafusion::arrow::compute::{cast, concat_batches};
use datafusion::arrow::datatypes::{DataType, Field, Int32Type, Schema, TimeUnit};
use datafusion::arrow::record_batch::RecordBatch;
use datafusion::dataframe::DataFrame;
use datafusion::prelude::SessionContext;

use datadescribe::{DataFrameDescriber, DescribeError, DescribeMethod, statistic_row};

fn block_on<F: std::future::Future>(f: F) -> F::Output {
    tokio::runtime::Builder::new_current_thread()
        .enable_all()
        .build()
        .unwrap()
        .block_on(f)
}

fn create_test_dataframe() -> DataFrame {
    // Create a simple RecordBatch
    let schema = Arc::new(Schema::new(vec![
        Field::new("float_col", DataType::Float64, false),
        Field::new("int_col", DataType::Int32, false),
        Field::new("string_col", DataType::Utf8, false),
    ]));

    let batch = RecordBatch::try_new(
        schema.clone(),
        vec![
            Arc::new(Float64Array::from(vec![1.0, 2.0, 3.0, 4.0])) as ArrayRef,
            Arc::new(Int32Array::from(vec![4, 5, 6, 7])) as ArrayRef,
            Arc::new(StringArray::from(vec!["a", "b", "c", "d"])) as ArrayRef,
        ],
    )
    .unwrap();

    // Convert the RecordBatch to a DataFrame
    let ctx = SessionContext::new();
    ctx.read_batch(batch).unwrap()
}

/// Collects a described report into a single batch.
fn report_batch(df: DataFrame) -> RecordBatch {
    let batches = block_on(df.collect()).unwrap();
    let schema = batches[0].schema();
    concat_batches(&schema, &batches).unwrap()
}

/// The row index carrying the given statistic label.
fn row_of(batch: &RecordBatch, label: &str) -> usize {
    let labels = batch
        .column(0)
        .as_any()
        .downcast_ref::<StringArray>()
        .unwrap();
    (0..labels.len()).find(|i| labels.value(*i) == label).unwrap()
}

/// Reads a cell as a 64-bit float, whatever numeric type the column has.
fn cell_f64(batch: &RecordBatch, col: usize, row: usize) -> f64 {
    let as_f64 = cast(batch.column(col), &DataType::Float64).unwrap();
    as_f64
        .as_any()
        .downcast_ref::<Float64Array>()
        .unwrap()
        .value(row)
}

#[test]
fn test_try_new() {
    let df = create_test_dataframe();
    let describer = DataFrameDescriber::try_new(df);
    assert!(describer.is_ok());
}

#[test]
fn test_describe_total() {
    let df = create_test_dataframe();
    let describer = DataFrameDescriber::try_new(df).unwrap();

    let described_df = describer.describe();
    assert!(described_df.is_ok());

    let result = block_on(described_df.unwrap().collect()).unwrap();
    assert_eq!(result.len(), 1); // should have one row for each statistic
    assert_eq!(result[0].num_columns(), 4); // describe + three columns
}

#[test]
fn test_percentile() {
    let df = create_test_dataframe();
    let percentile_df = statistic_row(&df, &DescribeMethod::Percentile(50)).unwrap();

    let result = block_on(percentile_df.collect()).unwrap();

    // Verify the percentile values
    assert_eq!(result.len(), 1); // should have one row for the percentile
    assert_eq!(result[0].num_columns(), 2); // percentile + one column

    let float_col = result[0]
        .column(0)
        .as_any()
        .downcast_ref::<Float64Array>()
        .unwrap();
    assert_eq!(float_col.value(0), 2.5); // median of [1.0, 2.0, 3.0, 4.0] is 2.5

    // the engine computes the sketch over a float coercion of [4, 5, 6, 7];
    // its median is 5.5 exactly, but the sketch may also round toward the
    // nearby sample 5
    let int_col = result[0]
        .column(1)
        .as_any()
        .downcast_ref::<Float64Array>()
        .unwrap();
    let v = int_col.value(0);
    assert!((v - 5.5).abs() <= 0.5, "approximate percentile too far off: {v}");
}

#[test]
fn report_has_one_row_per_method_and_original_columns() {
    let df = create_test_dataframe();
    let describer = DataFrameDescriber::try_new(df).unwrap();
    let batch = report_batch(describer.describe().unwrap());
    // one row per configured statistic, never a partial report
    assert_eq!(batch.num_rows(), 10);
    // the label column followed by the original field names, in order
    let names: Vec<&str> = batch
        .schema_ref()
        .fields()
        .iter()
        .map(|f| f.name().as_str())
        .collect();
    assert_eq!(names, vec!["describe", "float_col", "int_col", "string_col"]);
}

#[test]
fn total_counts_non_null_rows() {
    let df = create_test_dataframe();
    let describer = DataFrameDescriber::try_new(df).unwrap();
    let batch = report_batch(describer.describe().unwrap());
    let total = row_of(&batch, "total");
    // no column has nulls, so every Total is the row count
    assert_eq!(cell_f64(&batch, 1, total), 4.0);
    assert_eq!(cell_f64(&batch, 2, total), 4.0);
    assert_eq!(cell_f64(&batch, 3, total), 4.0);
}

#[test]
fn null_total_counts_null_rows() {
    let schema = Arc::new(Schema::new(vec![
        Field::new("float_col", DataType::Float64, false),
        Field::new("int_col", DataType::Int32, true),
    ]));
    let batch = RecordBatch::try_new(
        schema.clone(),
        vec![
            Arc::new(Float64Array::from(vec![1.0, 2.0, 3.0, 4.0])) as ArrayRef,
            Arc::new(Int32Array::from(vec![Some(4), None, Some(6), None])) as ArrayRef,
        ],
    )
    .unwrap();
    let ctx = SessionContext::new();
    let df = ctx.read_batch(batch).unwrap();
    let describer = DataFrameDescriber::try_new(df).unwrap();
    let report = report_batch(describer.describe().unwrap());
    let null_total = row_of(&report, "null_total");
    assert_eq!(cell_f64(&report, 1, null_total), 0.0);
    assert_eq!(cell_f64(&report, 2, null_total), 2.0);
    let total = row_of(&report, "total");
    assert_eq!(cell_f64(&report, 2, total), 2.0);
}

#[test]
fn median_of_floats_is_close_to_exact() {
    let df = create_test_dataframe();
    let describer = DataFrameDescriber::try_new(df).unwrap();
    let batch = report_batch(describer.describe().unwrap());
    // the exact median of [1.0, 2.0, 3.0, 4.0]
    let median = row_of(&batch, "median");
    assert_eq!(cell_f64(&batch, 1, median), 2.5);
    // the sketch may report a nearby value rather than the interpolation
    let p50 = row_of(&batch, "percentile_50");
    let v = cell_f64(&batch, 1, p50);
    assert!((v - 2.5).abs() <= 0.51, "approximate median too far off: {v}");
}

#[test]
fn int_percentile_may_round_to_a_sample() {
    let df = create_test_dataframe();
    let describer = DataFrameDescriber::try_new(df).unwrap();
    let batch = report_batch(describer.describe().unwrap());
    // the approximate 50th percentile of [4, 5, 6, 7] may report a nearby
    // sample such as 5 instead of the exact 5.5
    let p50 = row_of(&batch, "percentile_50");
    let v = cell_f64(&batch, 2, p50);
    assert!((v - 5.5).abs() <= 1.0, "approximate percentile too far off: {v}");
}

#[test]
fn temporal_statistics_keep_the_original_type() {
    let schema = Arc::new(Schema::new(vec![Field::new(
        "ts_col",
        DataType::Timestamp(TimeUnit::Nanosecond, None),
        false,
    )]));
    let batch = RecordBatch::try_new(
        schema.clone(),
        vec![Arc::new(TimestampNanosecondArray::from(vec![
            1_000_000_000i64,
            2_000_000_000,
            3_000_000_000,
            4_000_000_000,
        ])) as ArrayRef],
    )
    .unwrap();
    let ctx = SessionContext::new();
    let df = ctx.read_batch(batch).unwrap();
    let describer = DataFrameDescriber::try_new(df).unwrap();
    let report = report_batch(describer.describe().unwrap());
    // after the reverse cast the column carries the original temporal type,
    // not the intermediate numeric one
    assert_eq!(
        report.schema_ref().field(1).data_type(),
        &DataType::Timestamp(TimeUnit::Nanosecond, None)
    );
}

#[test]
fn list_statistics_are_integer_lengths() {
    let list = ListArray::from_iter_primitive::<Int32Type, _, _>(vec![
        Some(vec![Some(1), Some(2)]),
        Some(vec![Some(3)]),
        Some(vec![]),
        Some(vec![Some(4), Some(5), Some(6)]),
    ]);
    let schema = Arc::new(Schema::new(vec![Field::new(
        "list_col",
        list.data_type().clone(),
        false,
    )]));
    let batch = RecordBatch::try_new(schema.clone(), vec![Arc::new(list) as ArrayRef]).unwrap();
    let ctx = SessionContext::new();
    let df = ctx.read_batch(batch).unwrap();
    let describer = DataFrameDescriber::try_new(df).unwrap();
    let report = report_batch(describer.describe().unwrap());
    // a list column's statistics are plain 32-bit counts, never list values
    assert_eq!(report.schema_ref().field(1).data_type(), &DataType::Int32);
    let max = row_of(&report, "max");
    assert_eq!(cell_f64(&report, 1, max), 3.0);
    let min = row_of(&report, "min");
    assert_eq!(cell_f64(&report, 1, min), 0.0);
}

#[test]
fn empty_method_list_is_an_error_not_an_empty_report() {
    let df = create_test_dataframe();
    let describer = DataFrameDescriber::try_with_methods(df, vec![]).unwrap();
    let r = describer.describe();
    assert!(matches!(r, Err(DescribeError::EmptyMethodList)));
}

#[test]
fn rows_are_sorted_by_label_deterministically() {
    let df = create_test_dataframe();
    let describer = DataFrameDescriber::try_new(df).unwrap();
    let expected = vec![
        "max",
        "mean",
        "median",
        "min",
        "null_total",
        "percentile_25",
        "percentile_50",
        "percentile_75",
        "stddev",
        "total",
    ];
    let first = report_batch(describer.describe().unwrap());
    let labels = first
        .column(0)
        .as_any()
        .downcast_ref::<StringArray>()
        .unwrap();
    let got: Vec<&str> = (0..labels.len()).map(|i| labels.value(i)).collect();
    assert_eq!(got, expected);
    // describe recomputes deterministically: a second call agrees
    let second = report_batch(describer.describe().unwrap());
    let labels2 = second
        .column(0)
        .as_any()
        .downcast_ref::<StringArray>()
        .unwrap();
    let got2: Vec<&str> = (0..labels2.len()).map(|i| labels2.value(i)).collect();
    assert_eq!(got2, expected);
}

#[test]
fn total_row_covers_every_column() {
    let df = create_test_dataframe();
    let row = statistic_row(&df, &DescribeMethod::Total).unwrap();
    let batch = report_batch(row);
    assert_eq!(batch.num_rows(), 1);
    let names: Vec<&str> = batch
        .schema_ref()
        .fields()
        .iter()
        .map(|f| f.name().as_str())
        .collect();
    assert_eq!(names, vec!["float_col", "int_col", "string_col"]);
}

#[test]
fn mean_stddev_min_max_rows() {
    let df = create_test_dataframe();
    let describer = DataFrameDescriber::try_new(df).unwrap();
    let batch = report_batch(describer.describe().unwrap());
    let mean = row_of(&batch, "mean");
    assert_eq!(cell_f64(&batch, 1, mean), 2.5);
    assert_eq!(cell_f64(&batch, 2, mean), 5.5);
    // the textual column is normalized to its character count: all "a".."d"
    // have length one
    assert_eq!(cell_f64(&batch, 3, mean), 1.0);
    let min = row_of(&batch, "min");
    assert_eq!(cell_f64(&batch, 1, min), 1.0);
    assert_eq!(cell_f64(&batch, 2, min), 4.0);
    let max = row_of(&batch, "max");
    assert_eq!(cell_f64(&batch, 1, max), 4.0);
    assert_eq!(cell_f64(&batch, 2, max), 7.0);
    // the sample standard deviation of [1, 2, 3, 4]
    let stddev = row_of(&batch, "stddev");
    let v = cell_f64(&batch, 1, stddev);
    assert!((v - (5.0f64 / 3.0).sqrt()).abs() < 1e-9, "stddev off: {v}");
}

#[test]
fn fixed_size_list_statistics_are_integer_lengths() {
    let list = FixedSizeListArray::from_iter_primitive::<Int32Type, _, _>(
        vec![
            Some(vec![Some(1), Some(2)]),
            Some(vec![Some(3), Some(4)]),
            Some(vec![Some(5), Some(6)]),
        ],
        2,
    );
    let schema = Arc::new(Schema::new(vec![Field::new(
        "fixed_col",
        list.data_type().clone(),
        false,
    )]));
    let batch = RecordBatch::try_new(schema.clone(), vec![Arc::new(list) as ArrayRef]).unwrap();
    let ctx = SessionContext::new();
    let df = ctx.read_batch(batch).unwrap();
    let describer = DataFrameDescriber::try_new(df).unwrap();
    let report = report_batch(describer.describe().unwrap());
    // a fixed-size list column is a list column: its statistics are counts
    assert_eq!(report.schema_ref().field(1).data_type(), &DataType::Int32);
    let max = row_of(&report, "max");
    assert_eq!(cell_f64(&report, 1, max), 2.0);
}
