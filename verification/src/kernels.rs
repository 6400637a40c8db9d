//! The Arrow compute kernels the evaluator hands its operators to, and what
//! each of them returns.

use crate::array::{typed_array, ArrayKind, ArrayModel, Cell, ColumnArray};
use crate::expressions::{BinaryOperator, ComparisonOperator};
use crate::relations::compared_cell;
use crate::schema::{DataType, MAX_DECIMAL_PRECISION};
use arrow_array::cast::AsArray;
use arrow_schema::ArrowError;
use std::sync::Arc;
use vstd::prelude::*;

verus! {

/// A boolean connective.
#[derive(Debug, Clone, Copy, PartialEq, Eq, Structural)]
pub enum LogicalOperator {
    And,
    Or,
}

/// What a kernel made: an array, or the error it failed with.
pub type Made = Result<ArrayModel, ArrowError>;

/// What a kernel call made, the array by its view.
pub open spec fn kernel_view(result: Result<ColumnArray, ArrowError>) -> Made {
    match result {
        Ok(array) => Ok(array@),
        Err(cause) => Err(cause),
    }
}

/// The rows that a kernel is known to make, with the error of `named`
/// where it is known to fail.
pub open spec fn rows_or(rows: Option<ArrayModel>, named: Made) -> Made {
    match rows {
        Some(array) => Ok(array),
        None => Err(named->Err_0),
    }
}

/// The quotient of `a` by `b` rounded toward zero, for `b != 0`.
pub open spec fn truncated_quotient(a: int, b: int) -> int {
    if a >= 0 && b > 0 {
        a / b
    } else if a < 0 && b > 0 {
        -((-a) / b)
    } else if a >= 0 && b < 0 {
        -(a / (-b))
    } else {
        (-a) / (-b)
    }
}

/// Checked arithmetic on integers from `low` to `high`: the exact result
/// where it lies in that range, nothing on overflow or on division by zero.
pub open spec fn checked_value(op: BinaryOperator, a: int, b: int, low: int, high: int) -> Option<
    int,
> {
    let exact = match op {
        BinaryOperator::Plus => a + b,
        BinaryOperator::Minus => a - b,
        BinaryOperator::Multiply => a * b,
        BinaryOperator::Divide => truncated_quotient(a, b),
    };
    if (op is Divide && b == 0) || exact < low || exact > high {
        None
    } else {
        Some(exact)
    }
}

/// Whether checked arithmetic fails in `row`: both sides are there and
/// the operation has no result.
pub open spec fn fails_at(
    op: BinaryOperator,
    lhs: Seq<Cell>,
    rhs: Seq<Cell>,
    low: int,
    high: int,
    row: int,
) -> bool {
    &&& lhs[row] !is Null
    &&& rhs[row] !is Null
    &&& checked_value(op, lhs[row].int_value(), rhs[row].int_value(), low, high) is None
}

/// The outcome of checked arithmetic in one row: null where either side
/// is null, else the result.
pub open spec fn checked_cell(op: BinaryOperator, a: Cell, b: Cell, low: int, high: int) -> Cell {
    if a is Null || b is Null {
        Cell::Null
    } else {
        match checked_value(op, a.int_value(), b.int_value(), low, high) {
            Some(value) => Cell::Int(value),
            None => Cell::Null,
        }
    }
}

/// Checked arithmetic row by row: it fails where the lengths differ or
/// some row fails, and else gives the array of type `data_type` that holds
/// the row results.
pub open spec fn checked_outcome(
    op: BinaryOperator,
    lhs: Seq<Cell>,
    rhs: Seq<Cell>,
    low: int,
    high: int,
    data_type: DataType,
) -> Option<ArrayModel> {
    if lhs.len() != rhs.len() || (exists|row: int|
        0 <= row < lhs.len() && #[trigger] fails_at(op, lhs, rhs, low, high, row)) {
        None
    } else {
        Some(
            typed_array(
                data_type,
                Seq::new(lhs.len(), |row: int| checked_cell(op, lhs[row], rhs[row], low, high)),
            ),
        )
    }
}

/// Arithmetic on two integer arrays: checked 32-bit arithmetic row by row.
pub open spec fn integer_outcome(op: BinaryOperator, lhs: Seq<Cell>, rhs: Seq<Cell>) -> Option<
    ArrayModel,
> {
    checked_outcome(op, lhs, rhs, i32::MIN as int, i32::MAX as int, DataType::Integer)
}

/// The type of the product of two decimal types: the scales add up, and
/// the precision is the sum of the two precisions and one, at most 38.
/// There is none where the scale would exceed 38, nor where a positive
/// scale would exceed the precision.
pub open spec fn product_type(lhs: DataType, rhs: DataType) -> Option<DataType> {
    let sum = lhs->Decimal_0 + rhs->Decimal_0 + 1;
    let precision = if sum > MAX_DECIMAL_PRECISION {
        MAX_DECIMAL_PRECISION as int
    } else {
        sum
    };
    let scale = lhs->Decimal_1 + rhs->Decimal_1;
    if scale > MAX_DECIMAL_PRECISION || (scale > 0 && scale > precision) {
        None
    } else {
        Some(DataType::Decimal(precision as u8, scale as i8))
    }
}

/// The product of two decimal arrays: it fails where the product has no
/// type, and else is the checked 128-bit product of the unscaled values
/// row by row.
pub open spec fn decimal_product(lhs: ArrayModel, rhs: ArrayModel) -> Option<ArrayModel> {
    match product_type(lhs.data_type()->Some_0, rhs.data_type()->Some_0) {
        Some(data_type) => checked_outcome(
            BinaryOperator::Multiply,
            lhs.cells,
            rhs.cells,
            i128::MIN as int,
            i128::MAX as int,
            data_type,
        ),
        None => None,
    }
}

/// Whether the array is a `Decimal128` array.
pub open spec fn is_decimal(array: ArrayModel) -> bool {
    array.kind matches ArrayKind::Typed(DataType::Decimal(_, _))
}

/// Whether the array is an `Int32` array.
pub open spec fn is_integer(array: ArrayModel) -> bool {
    array.kind == ArrayKind::Typed(DataType::Integer)
}

/// Whether what an arithmetic kernel makes of two arrays is settled by
/// the two. It is not for two float arrays of one width: where float
/// arithmetic gives a NaN, the sign and the payload of the NaN are the
/// machine's choice.
pub open spec fn settled(lhs: ArrayModel, rhs: ArrayModel) -> bool {
    !(lhs.kind.is_float() && lhs.kind == rhs.kind)
}

/// What holds of whatever an arithmetic kernel makes of two float arrays
/// of one width: it fails where the lengths differ and only there, and
/// else gives a float array of that width and length, null in the rows
/// where either side is null and in no other.
pub open spec fn float_outcome_fits(made: Made, lhs: ArrayModel, rhs: ArrayModel) -> bool {
    match made {
        Err(_) => lhs.len() != rhs.len(),
        Ok(array) => {
            &&& lhs.len() == rhs.len()
            &&& array.kind == lhs.kind
            &&& array.len() == lhs.len()
            &&& forall|row: int|
                0 <= row < array.len() ==> (#[trigger] array.cells[row] is Null <==> lhs.cells[row] is Null
                    || rhs.cells[row] is Null)
        },
    }
}

/// What an arithmetic kernel makes of two arrays that it is given and
/// that are [`settled`]: checked 32-bit arithmetic row by row where both
/// are `Int32` arrays, the decimal product where two `Decimal128` arrays
/// are multiplied, and `named`, the kernel's named result, for every other
/// pair. Where the rows are written out and fail, the error is that of
/// `named`.
pub open spec fn arithmetic_result(
    op: BinaryOperator,
    lhs: ArrayModel,
    rhs: ArrayModel,
    named: Made,
) -> Made {
    if is_integer(lhs) && is_integer(rhs) {
        rows_or(integer_outcome(op, lhs.cells, rhs.cells), named)
    } else if op is Multiply && is_decimal(lhs) && is_decimal(rhs) {
        rows_or(decimal_product(lhs, rhs), named)
    } else {
        named
    }
}

/// What a comparison kernel makes of two arrays of the library's types:
/// it fails where the types or the lengths differ, and else gives the
/// boolean array of the row outcomes.
pub open spec fn comparison_outcome(
    op: ComparisonOperator,
    lhs: ArrayModel,
    rhs: ArrayModel,
) -> Option<ArrayModel> {
    if lhs.kind != rhs.kind || lhs.len() != rhs.len() {
        None
    } else {
        Some(
            typed_array(
                DataType::Boolean,
                Seq::new(
                    lhs.len(),
                    |row: int| compared_cell(op, lhs.data_type()->Some_0, lhs.cells[row], rhs.cells[row]),
                ),
            ),
        )
    }
}

/// What a comparison kernel makes of two arrays that it is given: the
/// written-out outcome where both have one of the library's types, and
/// `named`, the kernel's named result, for every other pair.
pub open spec fn comparison_result(
    op: ComparisonOperator,
    lhs: ArrayModel,
    rhs: ArrayModel,
    named: Made,
) -> Made {
    if lhs.kind is Typed && rhs.kind is Typed {
        rows_or(comparison_outcome(op, lhs, rhs), named)
    } else {
        named
    }
}

/// The outcome of a connective in one row: null where either side is null,
/// else the conjunction or disjunction of the two truth values.
pub open spec fn logical_cell(op: LogicalOperator, a: Cell, b: Cell) -> Cell {
    if a is Null || b is Null {
        Cell::Null
    } else {
        match op {
            LogicalOperator::And => Cell::Bool(a.truth() && b.truth()),
            LogicalOperator::Or => Cell::Bool(a.truth() || b.truth()),
        }
    }
}

/// What a boolean kernel makes of two boolean arrays: it fails where the
/// lengths differ, and else gives the boolean array of the row outcomes.
pub open spec fn logical_outcome(op: LogicalOperator, lhs: ArrayModel, rhs: ArrayModel) -> Option<
    ArrayModel,
> {
    if lhs.len() != rhs.len() {
        None
    } else {
        Some(
            typed_array(
                DataType::Boolean,
                Seq::new(lhs.len(), |row: int| logical_cell(op, lhs.cells[row], rhs.cells[row])),
            ),
        )
    }
}

/// What a boolean kernel makes of two boolean arrays: the written-out
/// outcome, with the error of `named`, the kernel's named result, where it
/// fails.
pub open spec fn logical_result(
    op: LogicalOperator,
    lhs: ArrayModel,
    rhs: ArrayModel,
    named: Made,
) -> Made {
    rows_or(logical_outcome(op, lhs, rhs), named)
}

/// What `arrow_arith::numeric::add` returns for two arrays, by their views. Nothing is said of it for two float
/// arrays of one width.
pub uninterp spec fn add_result(lhs: ArrayModel, rhs: ArrayModel) -> Made;

/// What `arrow_arith::numeric::sub` returns for two arrays, by their views. Nothing is said of it for two float
/// arrays of one width.
pub uninterp spec fn sub_result(lhs: ArrayModel, rhs: ArrayModel) -> Made;

/// What `arrow_arith::numeric::mul` returns for two arrays, by their views. Nothing is said of it for two float
/// arrays of one width.
pub uninterp spec fn mul_result(lhs: ArrayModel, rhs: ArrayModel) -> Made;

/// What `arrow_arith::numeric::div` returns for two arrays, by their views. Nothing is said of it for two float
/// arrays of one width.
pub uninterp spec fn div_result(lhs: ArrayModel, rhs: ArrayModel) -> Made;

/// What `arrow_ord::cmp::lt` returns for two arrays, by their views.
pub uninterp spec fn lt_result(lhs: ArrayModel, rhs: ArrayModel) -> Made;

/// What `arrow_ord::cmp::lt_eq` returns for two arrays, by their views.
pub uninterp spec fn lt_eq_result(lhs: ArrayModel, rhs: ArrayModel) -> Made;

/// What `arrow_ord::cmp::gt` returns for two arrays, by their views.
pub uninterp spec fn gt_result(lhs: ArrayModel, rhs: ArrayModel) -> Made;

/// What `arrow_ord::cmp::gt_eq` returns for two arrays, by their views.
pub uninterp spec fn gt_eq_result(lhs: ArrayModel, rhs: ArrayModel) -> Made;

/// What `arrow_ord::cmp::eq` returns for two arrays, by their views.
pub uninterp spec fn eq_result(lhs: ArrayModel, rhs: ArrayModel) -> Made;

/// What `arrow_ord::cmp::neq` returns for two arrays, by their views.
pub uninterp spec fn neq_result(lhs: ArrayModel, rhs: ArrayModel) -> Made;

/// What `arrow_arith::boolean::and` returns for two arrays, by their views.
pub uninterp spec fn and_result(lhs: ArrayModel, rhs: ArrayModel) -> Made;

/// What `arrow_arith::boolean::or` returns for two arrays, by their views.
pub uninterp spec fn or_result(lhs: ArrayModel, rhs: ArrayModel) -> Made;

/// `arrow_arith::numeric::add` on two arrays. On `Int32` arrays it adds
/// row by row where both rows are valid, with `i32::checked_add`, fails on
/// the first overflow and on unequal lengths, and marks a row null where
/// either side is null. On two float arrays of one width it fails on
/// unequal lengths only, gives an array of that width, and marks a row
/// null where either side is null. Whatever the types, an array that it
/// returns has the length of its operands. It is not given intervals, nor
/// decimals whose precision or scale its 8-bit arithmetic on them cannot
/// hold.
#[verifier::external_body]
pub(crate) fn kernel_add(lhs: &ColumnArray, rhs: &ColumnArray) -> (result: Result<
    ColumnArray,
    ArrowError,
>)
    requires
        lhs@.kind.computable(),
        rhs@.kind.computable(),
    ensures
        settled(lhs@, rhs@) ==> kernel_view(result) == arithmetic_result(BinaryOperator::Plus, lhs@, rhs@, add_result(lhs@, rhs@)),
        !settled(lhs@, rhs@) ==> float_outcome_fits(kernel_view(result), lhs@, rhs@),
        result matches Ok(array) ==> array@.len() == lhs@.len(),
{
    arrow_arith::numeric::add(&lhs.array, &rhs.array).map(|array| ColumnArray { array })
}

/// `arrow_arith::numeric::sub` on two arrays: as [`kernel_add`], with
/// `i32::checked_sub` on `Int32` arrays.
#[verifier::external_body]
pub(crate) fn kernel_sub(lhs: &ColumnArray, rhs: &ColumnArray) -> (result: Result<
    ColumnArray,
    ArrowError,
>)
    requires
        lhs@.kind.computable(),
        rhs@.kind.computable(),
    ensures
        settled(lhs@, rhs@) ==> kernel_view(result) == arithmetic_result(BinaryOperator::Minus, lhs@, rhs@, sub_result(lhs@, rhs@)),
        !settled(lhs@, rhs@) ==> float_outcome_fits(kernel_view(result), lhs@, rhs@),
        result matches Ok(array) ==> array@.len() == lhs@.len(),
{
    arrow_arith::numeric::sub(&lhs.array, &rhs.array).map(|array| ColumnArray { array })
}

/// `arrow_arith::numeric::mul` on two arrays: as [`kernel_add`], with
/// `i32::checked_mul` on `Int32` arrays. On `Decimal128` arrays it
/// multiplies the unscaled values with `i128::checked_mul`; the result has
/// the sum of the scales, and the sum of the precisions and one, capped at
/// 38, as its precision, and it fails where that scale exceeds 38 or, being
/// positive, the precision.
#[verifier::external_body]
pub(crate) fn kernel_mul(lhs: &ColumnArray, rhs: &ColumnArray) -> (result: Result<
    ColumnArray,
    ArrowError,
>)
    requires
        lhs@.kind.computable(),
        rhs@.kind.computable(),
    ensures
        settled(lhs@, rhs@) ==> kernel_view(result) == arithmetic_result(BinaryOperator::Multiply, lhs@, rhs@, mul_result(lhs@, rhs@)),
        !settled(lhs@, rhs@) ==> float_outcome_fits(kernel_view(result), lhs@, rhs@),
        result matches Ok(array) ==> array@.len() == lhs@.len(),
{
    arrow_arith::numeric::mul(&lhs.array, &rhs.array).map(|array| ColumnArray { array })
}

/// `arrow_arith::numeric::div` on two arrays: as [`kernel_add`], with
/// `i32::checked_div` on `Int32` arrays, which rounds toward zero and
/// fails on a zero divisor; a float division by zero gives an infinity or
/// a NaN.
#[verifier::external_body]
pub(crate) fn kernel_div(lhs: &ColumnArray, rhs: &ColumnArray) -> (result: Result<
    ColumnArray,
    ArrowError,
>)
    requires
        lhs@.kind.computable(),
        rhs@.kind.computable(),
    ensures
        settled(lhs@, rhs@) ==> kernel_view(result) == arithmetic_result(BinaryOperator::Divide, lhs@, rhs@, div_result(lhs@, rhs@)),
        !settled(lhs@, rhs@) ==> float_outcome_fits(kernel_view(result), lhs@, rhs@),
        result matches Ok(array) ==> array@.len() == lhs@.len(),
{
    arrow_arith::numeric::div(&lhs.array, &rhs.array).map(|array| ColumnArray { array })
}

/// `arrow_ord::cmp::lt` on two arrays: it fails where the data types or
/// the lengths differ, and else gives a boolean array of that length,
/// null in a row where either side is null, that tells row by row whether
/// the left value is less than the right. It is not given dictionaries or
/// run-end encoded arrays: a dictionary of dictionaries makes it panic.
#[verifier::external_body]
pub(crate) fn kernel_lt(lhs: &ColumnArray, rhs: &ColumnArray) -> (result: Result<
    ColumnArray,
    ArrowError,
>)
    requires
        lhs@.kind.comparable(),
        rhs@.kind.comparable(),
    ensures
        kernel_view(result) == comparison_result(ComparisonOperator::LessThan, lhs@, rhs@, lt_result(lhs@, rhs@)),
        result matches Ok(array) ==> array@.is_boolean() && array@.len() == lhs@.len(),
{
    arrow_ord::cmp::lt(&lhs.array, &rhs.array).map(|made| ColumnArray { array: Arc::new(made) })
}

/// `arrow_ord::cmp::lt_eq` on two arrays: as [`kernel_lt`], for "less than
/// or equal", which it decides as "the right value is not less than the
/// left".
#[verifier::external_body]
pub(crate) fn kernel_lt_eq(lhs: &ColumnArray, rhs: &ColumnArray) -> (result: Result<
    ColumnArray,
    ArrowError,
>)
    requires
        lhs@.kind.comparable(),
        rhs@.kind.comparable(),
    ensures
        kernel_view(result) == comparison_result(ComparisonOperator::LessThanOrEqual, lhs@, rhs@, lt_eq_result(lhs@, rhs@)),
        result matches Ok(array) ==> array@.is_boolean() && array@.len() == lhs@.len(),
{
    arrow_ord::cmp::lt_eq(&lhs.array, &rhs.array).map(|made| ColumnArray { array: Arc::new(made) })
}

/// `arrow_ord::cmp::gt` on two arrays: as [`kernel_lt`], for "greater
/// than", which it decides as "the right value is less than the left".
#[verifier::external_body]
pub(crate) fn kernel_gt(lhs: &ColumnArray, rhs: &ColumnArray) -> (result: Result<
    ColumnArray,
    ArrowError,
>)
    requires
        lhs@.kind.comparable(),
        rhs@.kind.comparable(),
    ensures
        kernel_view(result) == comparison_result(ComparisonOperator::GreaterThan, lhs@, rhs@, gt_result(lhs@, rhs@)),
        result matches Ok(array) ==> array@.is_boolean() && array@.len() == lhs@.len(),
{
    arrow_ord::cmp::gt(&lhs.array, &rhs.array).map(|made| ColumnArray { array: Arc::new(made) })
}

/// `arrow_ord::cmp::gt_eq` on two arrays: as [`kernel_lt`], for "greater
/// than or equal", which it decides as "the left value is not less than
/// the right".
#[verifier::external_body]
pub(crate) fn kernel_gt_eq(lhs: &ColumnArray, rhs: &ColumnArray) -> (result: Result<
    ColumnArray,
    ArrowError,
>)
    requires
        lhs@.kind.comparable(),
        rhs@.kind.comparable(),
    ensures
        kernel_view(result) == comparison_result(ComparisonOperator::GreaterThanOrEqual, lhs@, rhs@, gt_eq_result(lhs@, rhs@)),
        result matches Ok(array) ==> array@.is_boolean() && array@.len() == lhs@.len(),
{
    arrow_ord::cmp::gt_eq(&lhs.array, &rhs.array).map(|made| ColumnArray { array: Arc::new(made) })
}

/// `arrow_ord::cmp::eq` on two arrays: as [`kernel_lt`], for "equal".
#[verifier::external_body]
pub(crate) fn kernel_eq(lhs: &ColumnArray, rhs: &ColumnArray) -> (result: Result<
    ColumnArray,
    ArrowError,
>)
    requires
        lhs@.kind.comparable(),
        rhs@.kind.comparable(),
    ensures
        kernel_view(result) == comparison_result(ComparisonOperator::Equal, lhs@, rhs@, eq_result(lhs@, rhs@)),
        result matches Ok(array) ==> array@.is_boolean() && array@.len() == lhs@.len(),
{
    arrow_ord::cmp::eq(&lhs.array, &rhs.array).map(|made| ColumnArray { array: Arc::new(made) })
}

/// `arrow_ord::cmp::neq` on two arrays: as [`kernel_lt`], for "not equal".
#[verifier::external_body]
pub(crate) fn kernel_neq(lhs: &ColumnArray, rhs: &ColumnArray) -> (result: Result<
    ColumnArray,
    ArrowError,
>)
    requires
        lhs@.kind.comparable(),
        rhs@.kind.comparable(),
    ensures
        kernel_view(result) == comparison_result(ComparisonOperator::NotEqual, lhs@, rhs@, neq_result(lhs@, rhs@)),
        result matches Ok(array) ==> array@.is_boolean() && array@.len() == lhs@.len(),
{
    arrow_ord::cmp::neq(&lhs.array, &rhs.array).map(|made| ColumnArray { array: Arc::new(made) })
}

/// `arrow_arith::boolean::and` on two boolean arrays: it fails where the
/// lengths differ, and else gives the boolean array of the row-wise
/// conjunctions, null in a row where either side is null. The operands
/// are downcast with `AsArray::as_boolean`, which an array of data type
/// `Boolean` allows.
#[verifier::external_body]
pub(crate) fn kernel_and(lhs: &ColumnArray, rhs: &ColumnArray) -> (result: Result<
    ColumnArray,
    ArrowError,
>)
    requires
        lhs@.is_boolean(),
        rhs@.is_boolean(),
    ensures
        kernel_view(result) == logical_result(LogicalOperator::And, lhs@, rhs@, and_result(lhs@, rhs@)),
{
    arrow_arith::boolean::and(lhs.array.as_boolean(), rhs.array.as_boolean()).map(
        |made| ColumnArray { array: Arc::new(made) },
    )
}

/// `arrow_arith::boolean::or` on two boolean arrays: it fails where the
/// lengths differ, and else gives the boolean array of the row-wise
/// disjunctions, null in a row where either side is null. The operands
/// are downcast with `AsArray::as_boolean`, which an array of data type
/// `Boolean` allows.
#[verifier::external_body]
pub(crate) fn kernel_or(lhs: &ColumnArray, rhs: &ColumnArray) -> (result: Result<
    ColumnArray,
    ArrowError,
>)
    requires
        lhs@.is_boolean(),
        rhs@.is_boolean(),
    ensures
        kernel_view(result) == logical_result(LogicalOperator::Or, lhs@, rhs@, or_result(lhs@, rhs@)),
{
    arrow_arith::boolean::or(lhs.array.as_boolean(), rhs.array.as_boolean()).map(
        |made| ColumnArray { array: Arc::new(made) },
    )
}

} // verus!
