//! Columnar batches: named arrays of one common length.

use crate::array::{array_cells, ColumnArray};
use arrow_array::RecordBatch;
use arrow_schema::ArrowError;
use vstd::prelude::*;

verus! {

/// An Arrow record batch (`arrow_array::RecordBatch`).
///
/// The verifier sees nothing inside; contracts speak of [`batch_rows`] and
/// [`batch_columns`].
#[verifier::external_body]
#[derive(Debug)]
pub struct ColumnarBatch {
    pub batch: RecordBatch,
}

/// The number of rows of a batch.
pub uninterp spec fn batch_rows(batch: ColumnarBatch) -> nat;

/// The columns of a batch by name. Where several columns share a name, the
/// first of them in schema order stands for it.
pub uninterp spec fn batch_columns(batch: ColumnarBatch) -> Map<Seq<char>, ColumnArray>;

/// Whether the field of a column is declared nullable, by name as in
/// [`batch_columns`].
pub uninterp spec fn batch_nullable(batch: ColumnarBatch) -> Map<Seq<char>, bool>;

/// The column that `name` stands for, if there is one.
pub open spec fn column_of(batch: ColumnarBatch, name: Seq<char>) -> Option<ColumnArray> {
    if batch_columns(batch).contains_key(name) {
        Some(batch_columns(batch)[name])
    } else {
        None
    }
}

/// The columns of a batch that holds `column` under `name` and nothing else.
pub open spec fn only_column(name: Seq<char>, column: ColumnArray) -> Map<Seq<char>, ColumnArray> {
    Map::<Seq<char>, ColumnArray>::empty().insert(name, column)
}

/// The declarations of a batch with the one field `name`.
pub open spec fn only_field(name: Seq<char>, nullable: bool) -> Map<Seq<char>, bool> {
    Map::<Seq<char>, bool>::empty().insert(name, nullable)
}

/// `RecordBatch::num_rows`.
#[verifier::external_body]
pub(crate) fn row_count(batch: &ColumnarBatch) -> (rows: usize)
    ensures
        rows == batch_rows(*batch),
{
    batch.batch.num_rows()
}

/// `RecordBatch::column_by_name`, which finds the first field of that name
/// in the schema and hands out its array; the handle is cloned, the data
/// is shared. Every column of a record batch has the batch's row count.
#[verifier::external_body]
pub(crate) fn column_by_name(batch: &ColumnarBatch, name: &str) -> (found: Option<ColumnArray>)
    ensures
        found is Some <==> batch_columns(*batch).contains_key(name@),
        found matches Some(array) ==> array == batch_columns(*batch)[name@],
        found matches Some(array) ==> array_cells(array).len() == batch_rows(*batch),
{
    batch.batch.column_by_name(name).map(|array| ColumnArray { array: array.clone() })
}

/// `RecordBatch::try_from_iter_with_nullable` on a single column, with the
/// array's own data type. Of its checks (one field per column, a common
/// length, matching types, no null in a field that is not nullable) only
/// the last can fail for such input, so a column declared nullable always
/// gives a batch. The batch has the array's rows and that one column, its
/// field declared as asked.
#[verifier::external_body]
pub(crate) fn single_column(name: &str, column: ColumnArray, nullable: bool) -> (made: Result<
    ColumnarBatch,
    ArrowError,
>)
    ensures
        nullable ==> made is Ok,
        made matches Ok(batch) ==> batch_rows(batch) == array_cells(column).len(),
        made matches Ok(batch) ==> batch_columns(batch) == only_column(name@, column),
        made matches Ok(batch) ==> batch_nullable(batch) == only_field(name@, nullable),
{
    RecordBatch::try_from_iter_with_nullable([(name, column.array, nullable)]).map(
        |batch| ColumnarBatch { batch },
    )
}

} // verus!
