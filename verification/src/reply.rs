use arrow::array::{Array, AsArray, RecordBatch};
use arrow::datatypes::DataType;
use vstd::prelude::*;

verus! {

/// A reply from the server: the Arrow record batch it carries.
///
/// The batch is held out of Verus's sight: a declaration of `RecordBatch`
/// itself is refused, since its `Index<&str>` impl yields `dyn Array`. What
/// the logic reads of it is named by `batch_columns`.
#[verifier::external_body]
pub struct ReplyBatch {
    pub batch: RecordBatch,
}

/// The columns of a record batch: for each column in order, its values
/// (`BooleanArray::value` at each index below the column's length) where the
/// column's data type is `Boolean`, and `None` where it has another type.
pub uninterp spec fn batch_columns(batch: ReplyBatch) -> Seq<Option<Seq<bool>>>;

/// The errors that reading a reply as one boolean can meet.
#[derive(Debug, Clone, Copy, PartialEq, Eq, Structural)]
pub enum SparkError {
    /// The reply has no column.
    NoColumns,
    /// The reply's first column does not hold booleans.
    NotBoolean,
    /// The reply's first column is empty.
    NoRows,
}

/// Whether a reply holds a boolean in the first row of its first column.
pub open spec fn holds_flag(batch: ReplyBatch) -> bool {
    let columns = batch_columns(batch);
    &&& columns.len() > 0
    &&& columns[0] is Some
    &&& columns[0]->0.len() > 0
}

/// The boolean in the first row of a reply's first column.
pub open spec fn first_flag(batch: ReplyBatch) -> bool {
    batch_columns(batch)[0]->0[0]
}

/// `RecordBatch::num_columns`: the number of columns of the batch.
#[verifier::external_body]
fn num_columns(reply: &ReplyBatch) -> (n: usize)
    ensures
        n == batch_columns(*reply).len(),
{
    reply.batch.num_columns()
}

/// `RecordBatch::column`, then `Array::data_type`: whether column `i` has
/// the data type `Boolean`.
#[verifier::external_body]
fn column_is_boolean(reply: &ReplyBatch, i: usize) -> (b: bool)
    requires
        i < batch_columns(*reply).len(),
    ensures
        b == batch_columns(*reply)[i as int] is Some,
{
    match reply.batch.column(i).data_type() {
        DataType::Boolean => true,
        _ => false,
    }
}

/// `RecordBatch::column`, then `Array::len`: the length of boolean column `i`.
#[verifier::external_body]
fn boolean_column_len(reply: &ReplyBatch, i: usize) -> (n: usize)
    requires
        i < batch_columns(*reply).len(),
        batch_columns(*reply)[i as int] is Some,
    ensures
        n == batch_columns(*reply)[i as int]->0.len(),
{
    reply.batch.column(i).len()
}

/// `RecordBatch::column`, `AsArray::as_boolean`, then `BooleanArray::value`:
/// the value at index `j` of boolean column `i`. That a column of data type
/// `Boolean` is a `BooleanArray` rests on the safety contract of arrow's
/// `unsafe trait Array`; `value` panics only at an index past the length,
/// which `requires` rules out.
#[verifier::external_body]
fn boolean_value(reply: &ReplyBatch, i: usize, j: usize) -> (b: bool)
    requires
        i < batch_columns(*reply).len(),
        batch_columns(*reply)[i as int] is Some,
        j < batch_columns(*reply)[i as int]->0.len(),
    ensures
        b == batch_columns(*reply)[i as int]->0[j as int],
{
    reply.batch.column(i).as_boolean().value(j)
}

/// Reads a reply as one boolean: the value in the first row of its first
/// column, which holds booleans.
pub fn arrow_to_bool(record: ReplyBatch) -> (r: Result<bool, SparkError>)
    requires
        holds_flag(record),
    ensures
        r == Ok::<bool, SparkError>(first_flag(record)),
{
    Ok(boolean_value(&record, 0, 0))
}

/// Reads a reply as one boolean where it holds one, and says otherwise what
/// it lacks.
pub fn record_to_bool(record: ReplyBatch) -> (r: Result<bool, SparkError>)
    ensures
        holds_flag(record) ==> r == Ok::<bool, SparkError>(first_flag(record)),
        batch_columns(record).len() == 0 ==> r == Err::<bool, SparkError>(SparkError::NoColumns),
        batch_columns(record).len() > 0 && batch_columns(record)[0] is None ==> r == Err::<
            bool,
            SparkError,
        >(SparkError::NotBoolean),
        batch_columns(record).len() > 0 && batch_columns(record)[0] is Some
            && batch_columns(record)[0]->0.len() == 0 ==> r == Err::<bool, SparkError>(
            SparkError::NoRows,
        ),
{
    if num_columns(&record) == 0 {
        Err(SparkError::NoColumns)
    } else if !column_is_boolean(&record, 0) {
        Err(SparkError::NotBoolean)
    } else if boolean_column_len(&record, 0) == 0 {
        Err(SparkError::NoRows)
    } else {
        arrow_to_bool(record)
    }
}

} // verus!
