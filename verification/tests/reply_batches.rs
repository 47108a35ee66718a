use std::sync::Arc;

use arrow::array::{ArrayRef, BooleanArray, Int32Array, RecordBatch};
use arrow::datatypes::Schema;
use spark_catalog::{arrow_to_bool, record_to_bool, ReplyBatch, SparkError};

fn reply(columns: Vec<(&str, ArrayRef)>) -> ReplyBatch {
    ReplyBatch { batch: RecordBatch::try_from_iter(columns).unwrap() }
}

fn flags(values: Vec<bool>) -> ArrayRef {
    Arc::new(BooleanArray::from(values))
}

#[test]
fn arrow_to_bool_reads_first_row_of_first_column() {
    assert_eq!(arrow_to_bool(reply(vec![("exists", flags(vec![true]))])), Ok(true));
    assert_eq!(arrow_to_bool(reply(vec![("exists", flags(vec![false]))])), Ok(false));
    assert_eq!(
        arrow_to_bool(reply(vec![("a", flags(vec![false, true])), ("b", flags(vec![true, true]))])),
        Ok(false)
    );
}

#[test]
fn record_to_bool_agrees_on_flags() {
    assert_eq!(record_to_bool(reply(vec![("exists", flags(vec![true, false]))])), Ok(true));
    assert_eq!(record_to_bool(reply(vec![("exists", flags(vec![false, true]))])), Ok(false));
}

#[test]
fn record_to_bool_without_columns() {
    let empty = ReplyBatch { batch: RecordBatch::new_empty(Arc::new(Schema::empty())) };
    assert_eq!(record_to_bool(empty), Err(SparkError::NoColumns));
}

#[test]
fn record_to_bool_on_other_types() {
    let ints: ArrayRef = Arc::new(Int32Array::from(vec![1]));
    assert_eq!(record_to_bool(reply(vec![("n", ints)])), Err(SparkError::NotBoolean));
}

#[test]
fn record_to_bool_without_rows() {
    assert_eq!(record_to_bool(reply(vec![("exists", flags(vec![]))])), Err(SparkError::NoRows));
}
