//! What holds of every evaluation.

use crate::array::{ArrayKind, ArrayModel, Cell};
use crate::batch::{batch_columns, batch_rows, ColumnarBatch};
use crate::error::{Error, Expectation, Failure};
use crate::evaluate::{
    arithmetic, comparison, comparison_node, determined, evaluates, evaluation,
    lemma_determined_evaluation, logical_node, mismatch, operands, Evaluated,
};
use crate::expressions::{
    arithmetic_of, comparison_of, conjunction_of, disjunction_of, BinaryOperator,
    ComparisonOperator, Expression,
};
use crate::handler::packaged;
use crate::kernels::{
    checked_outcome, checked_value, fails_at, is_decimal, is_integer, product_type,
    LogicalOperator,
};
use crate::relations::lemma_value_trichotomy;
use crate::scalars::Scalar;
use crate::schema::DataType;
use vstd::prelude::*;

verus! {

/// The broadcast of a scalar to `rows` rows has `rows` rows and the
/// scalar's type, a decimal's precision and scale included, and every row
/// holds the scalar's value.
pub proof fn lemma_broadcast_is_constant(scalar: Scalar, rows: nat)
    ensures
        scalar.broadcast(rows).len() == rows,
        scalar.broadcast(rows).data_type() == Some(scalar.data_type()),
        forall|row: int| 0 <= row < rows ==> scalar.broadcast(rows).cells[row] == scalar.cell(),
{
}

/// The reference to the column `name`.
pub open spec fn column_of_name(name: String, data_type: DataType) -> Expression {
    Expression::Column { name, data_type }
}

/// The evaluation that gives `array`.
pub open spec fn present(array: ArrayModel) -> Evaluated {
    Ok(array)
}

/// The evaluation that fails for want of the column `name`.
pub open spec fn missing(name: Seq<char>) -> Evaluated {
    Err(Failure::MissingColumn(name))
}

/// A reference to a column that the batch has evaluates to that column,
/// row for row, and to nothing else.
pub proof fn lemma_column_present(
    name: String,
    data_type: DataType,
    batch: ColumnarBatch,
    result: Evaluated,
)
    requires
        batch_columns(batch).contains_key(name@),
    ensures
        evaluation(column_of_name(name, data_type), batch) == present(batch_columns(batch)[name@]@),
        evaluates(column_of_name(name, data_type), batch, result) <==> result == present(
            batch_columns(batch)[name@]@,
        ),
{
}

/// A reference to a column that the batch lacks fails with
/// `MissingColumn` and the name, and in no other way.
pub proof fn lemma_column_missing(
    name: String,
    data_type: DataType,
    batch: ColumnarBatch,
    result: Evaluated,
)
    requires
        !batch_columns(batch).contains_key(name@),
    ensures
        evaluation(column_of_name(name, data_type), batch) == missing(name@),
        evaluates(column_of_name(name, data_type), batch, result) <==> result == missing(name@),
{
}

/// Checked multiplication row by row does not depend on the order of the
/// factors: both orders fail, or both give the same array.
pub proof fn lemma_checked_product_commutes(
    lhs: Seq<Cell>,
    rhs: Seq<Cell>,
    low: int,
    high: int,
    data_type: DataType,
)
    ensures
        checked_outcome(BinaryOperator::Multiply, lhs, rhs, low, high, data_type)
            == checked_outcome(BinaryOperator::Multiply, rhs, lhs, low, high, data_type),
{
    let op = BinaryOperator::Multiply;
    assert forall|a: int, b: int|
        checked_value(op, a, b, low, high) == checked_value(op, b, a, low, high) by {
        assert(a * b == b * a) by (nonlinear_arith);
    }
    if lhs.len() == rhs.len() {
        let forward = checked_outcome(op, lhs, rhs, low, high, data_type);
        let backward = checked_outcome(op, rhs, lhs, low, high, data_type);
        if forward is None {
            let row = choose|row: int| 0 <= row < lhs.len() && fails_at(op, lhs, rhs, low, high, row);
            assert(fails_at(op, rhs, lhs, low, high, row));
        } else if backward is None {
            let row = choose|row: int| 0 <= row < rhs.len() && fails_at(op, rhs, lhs, low, high, row);
            assert(fails_at(op, lhs, rhs, low, high, row));
        } else {
            assert(forward->Some_0.cells =~= backward->Some_0.cells);
        }
    }
}

/// Whether both arrays are `Int32` arrays, or both `Decimal128` arrays.
pub open spec fn integers_or_decimals(lhs: ArrayModel, rhs: ArrayModel) -> bool {
    ||| is_integer(lhs) && is_integer(rhs)
    ||| is_decimal(lhs) && is_decimal(rhs)
}

/// Whether two evaluations give the same array, or fail alike: with the
/// same failure, or both in the kernel, whatever the kernel's words.
pub open spec fn same_rows(first: Evaluated, second: Evaluated) -> bool {
    match first {
        Ok(array) => second == Ok::<ArrayModel, Failure>(array),
        Err(Failure::Kernel(_)) => second matches Err(Failure::Kernel(_)),
        Err(failure) => second == Err::<ArrayModel, Failure>(failure),
    }
}

/// The product of two integer arrays, and of two decimal arrays, does
/// not depend on the order of the factors: both orders fail, or both give
/// the same array.
pub proof fn lemma_array_product_commutes(lhs: ArrayModel, rhs: ArrayModel)
    requires
        integers_or_decimals(lhs, rhs),
    ensures
        same_rows(
            arithmetic(BinaryOperator::Multiply, lhs, rhs),
            arithmetic(BinaryOperator::Multiply, rhs, lhs),
        ),
{
    if is_decimal(lhs) {
        let made = product_type(lhs.data_type()->Some_0, rhs.data_type()->Some_0);
        assert(made == product_type(rhs.data_type()->Some_0, lhs.data_type()->Some_0));
        if made is Some {
            lemma_checked_product_commutes(
                lhs.cells,
                rhs.cells,
                i128::MIN as int,
                i128::MAX as int,
                made->Some_0,
            );
        }
    } else {
        lemma_checked_product_commutes(
            lhs.cells,
            rhs.cells,
            i32::MIN as int,
            i32::MAX as int,
            DataType::Integer,
        );
    }
}

/// Where two expressions evaluate to integer arrays, or to decimal arrays,
/// their product evaluates to the same in either order, and the operands
/// settle it.
pub proof fn lemma_product_commutes(a: Expression, b: Expression, batch: ColumnarBatch)
    requires
        determined(a, batch),
        determined(b, batch),
        evaluation(a, batch) is Ok,
        evaluation(b, batch) is Ok,
        integers_or_decimals(evaluation(a, batch)->Ok_0, evaluation(b, batch)->Ok_0),
    ensures
        determined(arithmetic_of(BinaryOperator::Multiply, a, b), batch),
        determined(arithmetic_of(BinaryOperator::Multiply, b, a), batch),
        same_rows(
            evaluation(arithmetic_of(BinaryOperator::Multiply, a, b), batch),
            evaluation(arithmetic_of(BinaryOperator::Multiply, b, a), batch),
        ),
{
    lemma_array_product_commutes(evaluation(a, batch)->Ok_0, evaluation(b, batch)->Ok_0);
}

/// Whether the three evaluations succeed and exactly one of them is true
/// in `row`, the other two false.
pub open spec fn exactly_one_holds(
    less: Evaluated,
    equal: Evaluated,
    greater: Evaluated,
    row: int,
) -> bool {
    &&& less is Ok
    &&& equal is Ok
    &&& greater is Ok
    &&& exactly_one_true(less->Ok_0.cells[row], equal->Ok_0.cells[row], greater->Ok_0.cells[row])
}

/// Whether the three cells are boolean and exactly one of them is true.
pub open spec fn exactly_one_true(first: Cell, second: Cell, third: Cell) -> bool {
    ||| first == Cell::Bool(true) && second == Cell::Bool(false) && third == Cell::Bool(false)
    ||| first == Cell::Bool(false) && second == Cell::Bool(true) && third == Cell::Bool(false)
    ||| first == Cell::Bool(false) && second == Cell::Bool(false) && third == Cell::Bool(true)
}

/// Of two arrays of one of the library's types and of one length, in a
/// row where neither is null, exactly one of "less than", "equal" and
/// "greater than" holds.
pub proof fn lemma_exactly_one_relation(lhs: ArrayModel, rhs: ArrayModel, row: int)
    requires
        lhs.kind is Typed,
        lhs.kind == rhs.kind,
        lhs.len() == rhs.len(),
        0 <= row < lhs.len(),
        lhs.cells[row] !is Null,
        rhs.cells[row] !is Null,
    ensures
        exactly_one_holds(
            comparison(ComparisonOperator::LessThan, lhs, rhs),
            comparison(ComparisonOperator::Equal, lhs, rhs),
            comparison(ComparisonOperator::GreaterThan, lhs, rhs),
            row,
        ),
{
    lemma_value_trichotomy(lhs.data_type()->Some_0, lhs.cells[row], rhs.cells[row]);
}

/// Where two expressions evaluate to arrays of one of the library's types
/// and of one length, then in a row where neither is null exactly one of
/// `a < b`, `a = b` and `a > b` evaluates to true.
pub proof fn lemma_comparisons_exclude(a: Expression, b: Expression, batch: ColumnarBatch, row: int)
    requires
        evaluation(a, batch) is Ok,
        evaluation(b, batch) is Ok,
        evaluation(a, batch)->Ok_0.kind is Typed,
        evaluation(a, batch)->Ok_0.kind == evaluation(b, batch)->Ok_0.kind,
        evaluation(a, batch)->Ok_0.len() == evaluation(b, batch)->Ok_0.len(),
        0 <= row < evaluation(a, batch)->Ok_0.len(),
        evaluation(a, batch)->Ok_0.cells[row] !is Null,
        evaluation(b, batch)->Ok_0.cells[row] !is Null,
    ensures
        exactly_one_holds(
            evaluation(comparison_of(ComparisonOperator::LessThan, a, b), batch),
            evaluation(comparison_of(ComparisonOperator::Equal, a, b), batch),
            evaluation(comparison_of(ComparisonOperator::GreaterThan, a, b), batch),
            row,
        ),
{
    lemma_exactly_one_relation(evaluation(a, batch)->Ok_0, evaluation(b, batch)->Ok_0, row);
}

/// Whether every result that may come of `expression` is an array.
pub open spec fn always_an_array(expression: Expression, batch: ColumnarBatch) -> bool {
    forall|result: Evaluated| #[trigger] evaluates(expression, batch, result) ==> result is Ok
}

/// Whether no result that may come of `expression` is a boolean array.
pub open spec fn never_boolean(expression: Expression, batch: ColumnarBatch) -> bool {
    forall|result: Evaluated| #[trigger]
        evaluates(expression, batch, result) ==> !(result matches Ok(array) && array.is_boolean())
}

/// An `And` or `Or` node fails with a type mismatch where both operands
/// give arrays and one of the two is not a boolean array, whatever else
/// the operands give.
pub proof fn lemma_connective_needs_booleans(
    op: LogicalOperator,
    left: Evaluated,
    right: Evaluated,
)
    requires
        left is Ok,
        right is Ok,
        !left->Ok_0.is_boolean() || !right->Ok_0.is_boolean(),
    ensures
        logical_node(op, left, right) == mismatch(Expectation::BooleanArray),
{
}

/// `a AND b` and `a OR b` fail with a type mismatch, and in no other way,
/// where `a` and `b` always give arrays and one of the two never gives a
/// boolean array.
pub proof fn lemma_connectives_need_booleans(
    a: Expression,
    b: Expression,
    batch: ColumnarBatch,
    result: Evaluated,
)
    requires
        always_an_array(a, batch),
        always_an_array(b, batch),
        never_boolean(a, batch) || never_boolean(b, batch),
        evaluates(conjunction_of(a, b), batch, result) || evaluates(
            disjunction_of(a, b),
            batch,
            result,
        ),
    ensures
        result == mismatch(Expectation::BooleanArray),
{
    if evaluates(conjunction_of(a, b), batch, result) {
        let (l, r) = choose|l: Evaluated, r: Evaluated|
            #![trigger operands(l, r)]
            operands(l, r) && evaluates(a, batch, l) && evaluates(b, batch, r) && result
                == logical_node(LogicalOperator::And, l, r);
        assert(evaluates(a, batch, l));
        assert(evaluates(b, batch, r));
    } else {
        let (l, r) = choose|l: Evaluated, r: Evaluated|
            #![trigger operands(l, r)]
            operands(l, r) && evaluates(a, batch, l) && evaluates(b, batch, r) && result
                == logical_node(LogicalOperator::Or, l, r);
        assert(evaluates(a, batch, l));
        assert(evaluates(b, batch, r));
    }
}

/// Two expressions that are the same tree evaluate to the same against
/// every batch.
pub proof fn lemma_alike_evaluate_alike(a: Expression, b: Expression, batch: ColumnarBatch)
    requires
        a.alike(b),
    ensures
        evaluation(a, batch) == evaluation(b, batch),
        determined(a, batch) == determined(b, batch),
    decreases a,
{
    match a {
        Expression::Literal(scalar) => {
            let twin = b->Literal_0;
            assert(scalar.broadcast(batch_rows(batch)) == twin.broadcast(batch_rows(batch)));
        },
        Expression::Column { .. } => {},
        Expression::BinaryOperator { left, right, .. } => {
            lemma_alike_evaluate_alike(*left, *b->BinaryOperator_left, batch);
            lemma_alike_evaluate_alike(*right, *b->BinaryOperator_right, batch);
        },
        Expression::BinaryComparison { left, right, .. } => {
            lemma_alike_evaluate_alike(*left, *b->BinaryComparison_left, batch);
            lemma_alike_evaluate_alike(*right, *b->BinaryComparison_right, batch);
        },
        Expression::And { left, right } => {
            lemma_alike_evaluate_alike(*left, *b->And_left, batch);
            lemma_alike_evaluate_alike(*right, *b->And_right, batch);
        },
        Expression::Or { left, right } => {
            lemma_alike_evaluate_alike(*left, *b->Or_left, batch);
            lemma_alike_evaluate_alike(*right, *b->Or_right, batch);
        },
    }
}

/// Two evaluations of one expression against one batch give the same,
/// the same rows of the same type or the same failure, where the operands
/// settle the result: where no arithmetic operator in the expression is
/// applied to two float arrays of one width.
pub proof fn lemma_evaluation_repeats(
    expression: Expression,
    batch: ColumnarBatch,
    first: Evaluated,
    second: Evaluated,
)
    requires
        determined(expression, batch),
        evaluates(expression, batch, first),
        evaluates(expression, batch, second),
    ensures
        first == second,
{
    lemma_determined_evaluation(expression, batch, first);
    lemma_determined_evaluation(expression, batch, second);
}

/// Two runs of a bound evaluator against one batch give the same where
/// the operands settle the result: both fail with the same error, or
/// both give a batch of the same rows with the same single column.
pub proof fn lemma_bound_evaluation_repeats(
    expression: Expression,
    batch: ColumnarBatch,
    first: Result<ColumnarBatch, Error>,
    second: Result<ColumnarBatch, Error>,
)
    requires
        packaged(first, evaluation(expression, batch)),
        packaged(second, evaluation(expression, batch)),
    ensures
        first is Ok <==> second is Ok,
        first matches Err(error) ==> second matches Err(again) && error@ == again@,
        first matches Ok(output) ==> second matches Ok(again) && batch_rows(output) == batch_rows(
            again,
        ) && batch_columns(output).dom() == batch_columns(again).dom() && forall|name: Seq<char>|
            #[trigger] batch_columns(output).contains_key(name) ==> batch_columns(output)[name]@
                == batch_columns(again)[name]@,
{
}

} // verus!
