//! The recursive evaluator.

use crate::array::{kind_of, typed_array, ArrayKind, ArrayModel, Cell, ColumnArray};
use crate::batch::{batch_rows, column_by_name, column_of, row_count, ColumnarBatch};
use crate::error::{Error, Expectation, Failure};
use crate::expressions::{BinaryOperator, ComparisonOperator, Expression};
use crate::kernels::{
    add_result, and_result, arithmetic_result, comparison_result, div_result, eq_result,
    float_outcome_fits, gt_eq_result, gt_result, kernel_add, kernel_and, kernel_div, kernel_eq,
    kernel_gt, kernel_gt_eq, kernel_lt, kernel_lt_eq, kernel_mul, kernel_neq, kernel_or,
    kernel_sub, kernel_view, logical_result, lt_eq_result, lt_result, mul_result, neq_result,
    or_result, settled, sub_result, LogicalOperator, Made,
};
use crate::scalars::Scalar;
use crate::schema::DataType;
use arrow_schema::ArrowError;
use vstd::prelude::*;

verus! {

/// The result of an evaluation as contracts speak of it.
pub type Evaluated = Result<ArrayModel, Failure>;

/// An evaluation's result by its view.
pub open spec fn outcome(result: Result<ColumnArray, Error>) -> Evaluated {
    match result {
        Ok(array) => Ok(array@),
        Err(error) => Err(error@),
    }
}

/// The failure of a type check.
pub open spec fn mismatch(expected: Expectation) -> Evaluated {
    Err(Failure::TypeMismatch(expected))
}

/// What a kernel made as an evaluation's result: the array, or a kernel
/// failure with the kernel's error as its cause.
pub open spec fn computed(made: Made) -> Evaluated {
    match made {
        Ok(array) => Ok(array),
        Err(cause) => Err(Failure::Kernel(cause)),
    }
}

/// The named result of the arithmetic kernel for `op`.
pub open spec fn named_arithmetic(op: BinaryOperator, lhs: ArrayModel, rhs: ArrayModel) -> Made {
    match op {
        BinaryOperator::Plus => add_result(lhs, rhs),
        BinaryOperator::Minus => sub_result(lhs, rhs),
        BinaryOperator::Multiply => mul_result(lhs, rhs),
        BinaryOperator::Divide => div_result(lhs, rhs),
    }
}

/// The named result of the comparison kernel for `op`.
pub open spec fn named_comparison(op: ComparisonOperator, lhs: ArrayModel, rhs: ArrayModel) -> Made {
    match op {
        ComparisonOperator::LessThan => lt_result(lhs, rhs),
        ComparisonOperator::LessThanOrEqual => lt_eq_result(lhs, rhs),
        ComparisonOperator::GreaterThan => gt_result(lhs, rhs),
        ComparisonOperator::GreaterThanOrEqual => gt_eq_result(lhs, rhs),
        ComparisonOperator::Equal => eq_result(lhs, rhs),
        ComparisonOperator::NotEqual => neq_result(lhs, rhs),
    }
}

/// The named result of the boolean kernel for `op`.
pub open spec fn named_logical(op: LogicalOperator, lhs: ArrayModel, rhs: ArrayModel) -> Made {
    match op {
        LogicalOperator::And => and_result(lhs, rhs),
        LogicalOperator::Or => or_result(lhs, rhs),
    }
}

/// A literal: a type mismatch where the scalar is not well formed or its
/// rows do not fit one array, else the broadcast of the scalar to `rows`
/// rows.
pub open spec fn literal(scalar: Scalar, rows: nat) -> Evaluated {
    if !scalar.well_formed() {
        mismatch(Expectation::WellFormedLiteral)
    } else if !scalar.fits(rows) {
        mismatch(Expectation::LiteralWithinLimit)
    } else {
        Ok(scalar.broadcast(rows))
    }
}

/// A column reference: the batch's column of that name, or a failure for
/// want of it.
pub open spec fn lookup(name: Seq<char>, batch: ColumnarBatch) -> Evaluated {
    match column_of(batch, name) {
        Some(array) => Ok(array@),
        None => Err(Failure::MissingColumn(name)),
    }
}

/// Arithmetic on two arrays: a type mismatch where the kernel could panic
/// on one of them, else what the kernel for `op` makes of them. Of two
/// float arrays of one width this is what comes out only in so far as
/// they are [`settled`].
pub open spec fn arithmetic(op: BinaryOperator, lhs: ArrayModel, rhs: ArrayModel) -> Evaluated {
    if lhs.kind.computable() && rhs.kind.computable() {
        computed(arithmetic_result(op, lhs, rhs, named_arithmetic(op, lhs, rhs)))
    } else {
        mismatch(Expectation::SupportedArray)
    }
}

/// A comparison of two arrays: a type mismatch where the kernel could
/// panic on one of them, else what the kernel for `op` makes of them.
pub open spec fn comparison(op: ComparisonOperator, lhs: ArrayModel, rhs: ArrayModel) -> Evaluated {
    if lhs.kind.comparable() && rhs.kind.comparable() {
        computed(comparison_result(op, lhs, rhs, named_comparison(op, lhs, rhs)))
    } else {
        mismatch(Expectation::SupportedArray)
    }
}

/// What holds of whatever arithmetic on two float arrays of one width
/// results in: a failure is the kernel's, and comes with unequal lengths
/// only; an array is a float array of that width and of the operands'
/// length, null where either is.
pub open spec fn float_arithmetic_fits(result: Evaluated, lhs: ArrayModel, rhs: ArrayModel) -> bool {
    match result {
        Ok(array) => float_outcome_fits(Ok(array), lhs, rhs),
        Err(failure) => failure is Kernel && lhs.len() != rhs.len(),
    }
}

/// Whether `result` may come of arithmetic on two arrays: it is
/// [`arithmetic`] where the two are settled, and fits two float arrays
/// where they are not.
pub open spec fn arithmetic_allows(
    op: BinaryOperator,
    lhs: ArrayModel,
    rhs: ArrayModel,
    result: Evaluated,
) -> bool {
    if settled(lhs, rhs) {
        result == arithmetic(op, lhs, rhs)
    } else {
        float_arithmetic_fits(result, lhs, rhs)
    }
}

/// Whether `result` may come of an arithmetic node, given what its
/// operands evaluate to: the first failure of the two, left before right,
/// else what arithmetic on the arrays allows.
pub open spec fn arithmetic_node_allows(
    op: BinaryOperator,
    left: Evaluated,
    right: Evaluated,
    result: Evaluated,
) -> bool {
    match left {
        Err(failure) => result == Err::<ArrayModel, Failure>(failure),
        Ok(lhs) => match right {
            Err(failure) => result == Err::<ArrayModel, Failure>(failure),
            Ok(rhs) => arithmetic_allows(op, lhs, rhs, result),
        },
    }
}

/// An arithmetic node, given what its operands evaluate to: the first
/// failure of the two, left before right, else the arithmetic on the arrays.
pub open spec fn arithmetic_node(op: BinaryOperator, left: Evaluated, right: Evaluated) -> Evaluated {
    match left {
        Err(failure) => Err(failure),
        Ok(lhs) => match right {
            Err(failure) => Err(failure),
            Ok(rhs) => arithmetic(op, lhs, rhs),
        },
    }
}

/// A comparison node, given what its operands evaluate to: the first
/// failure of the two, left before right, else the comparison of the arrays.
pub open spec fn comparison_node(
    op: ComparisonOperator,
    left: Evaluated,
    right: Evaluated,
) -> Evaluated {
    match left {
        Err(failure) => Err(failure),
        Ok(lhs) => match right {
            Err(failure) => Err(failure),
            Ok(rhs) => comparison(op, lhs, rhs),
        },
    }
}

/// An `And` or `Or` node, given what its operands evaluate to. The left
/// operand is looked at first: its failure, or a type mismatch where it is
/// no boolean array, ends the evaluation whatever the right operand gives.
/// Then the same holds of the right operand. Two boolean arrays go to the
/// kernel.
pub open spec fn logical_node(op: LogicalOperator, left: Evaluated, right: Evaluated) -> Evaluated {
    match left {
        Err(failure) => Err(failure),
        Ok(lhs) => if !lhs.is_boolean() {
            mismatch(Expectation::BooleanArray)
        } else {
            match right {
                Err(failure) => Err(failure),
                Ok(rhs) => if !rhs.is_boolean() {
                    mismatch(Expectation::BooleanArray)
                } else {
                    computed(logical_result(op, lhs, rhs, named_logical(op, lhs, rhs)))
                },
            }
        },
    }
}

/// The results of the two operands of a node, taken together.
pub open spec fn operands(left: Evaluated, right: Evaluated) -> bool {
    true
}

/// Whether `result` may come of evaluating `expression` against `batch`.
///
/// Every node but one has a single result, given the results of its
/// operands. Arithmetic on two float arrays of one width has several: any
/// that [`float_arithmetic_fits`].
pub open spec fn evaluates(expression: Expression, batch: ColumnarBatch, result: Evaluated) -> bool
    decreases expression,
{
    match expression {
        Expression::Literal(scalar) => result == literal(scalar, batch_rows(batch)),
        Expression::Column { name, .. } => result == lookup(name@, batch),
        Expression::BinaryOperator { op, left, right } => exists|l: Evaluated, r: Evaluated|
            #![trigger operands(l, r)]
            operands(l, r) && evaluates(*left, batch, l) && evaluates(*right, batch, r) && arithmetic_node_allows(
                op,
                l,
                r,
                result,
            ),
        Expression::BinaryComparison { op, left, right } => exists|l: Evaluated, r: Evaluated|
            #![trigger operands(l, r)]
            operands(l, r) && evaluates(*left, batch, l) && evaluates(*right, batch, r) && result == comparison_node(
                op,
                l,
                r,
            ),
        Expression::And { left, right } => exists|l: Evaluated, r: Evaluated|
            #![trigger operands(l, r)]
            operands(l, r) && evaluates(*left, batch, l) && evaluates(*right, batch, r) && result == logical_node(
                LogicalOperator::And,
                l,
                r,
            ),
        Expression::Or { left, right } => exists|l: Evaluated, r: Evaluated|
            #![trigger operands(l, r)]
            operands(l, r) && evaluates(*left, batch, l) && evaluates(*right, batch, r) && result == logical_node(
                LogicalOperator::Or,
                l,
                r,
            ),
    }
}

/// What `expression` evaluates to against `batch`, where the operands
/// settle it.
pub open spec fn evaluation(expression: Expression, batch: ColumnarBatch) -> Evaluated
    decreases expression,
{
    match expression {
        Expression::Literal(scalar) => literal(scalar, batch_rows(batch)),
        Expression::Column { name, .. } => lookup(name@, batch),
        Expression::BinaryOperator { op, left, right } => arithmetic_node(
            op,
            evaluation(*left, batch),
            evaluation(*right, batch),
        ),
        Expression::BinaryComparison { op, left, right } => comparison_node(
            op,
            evaluation(*left, batch),
            evaluation(*right, batch),
        ),
        Expression::And { left, right } => logical_node(
            LogicalOperator::And,
            evaluation(*left, batch),
            evaluation(*right, batch),
        ),
        Expression::Or { left, right } => logical_node(
            LogicalOperator::Or,
            evaluation(*left, batch),
            evaluation(*right, batch),
        ),
    }
}

/// Whether the operands settle what `expression` evaluates to against
/// `batch`: no arithmetic operator in it is applied to two float arrays
/// of one width.
pub open spec fn determined(expression: Expression, batch: ColumnarBatch) -> bool
    decreases expression,
{
    match expression {
        Expression::Literal(_) => true,
        Expression::Column { .. } => true,
        Expression::BinaryOperator { left, right, .. } => {
            &&& determined(*left, batch)
            &&& determined(*right, batch)
            &&& evaluation(*left, batch) is Ok && evaluation(*right, batch) is Ok ==> settled(
                evaluation(*left, batch)->Ok_0,
                evaluation(*right, batch)->Ok_0,
            )
        },
        Expression::BinaryComparison { left, right, .. } => determined(*left, batch) && determined(
            *right,
            batch,
        ),
        Expression::And { left, right } => determined(*left, batch) && determined(*right, batch),
        Expression::Or { left, right } => determined(*left, batch) && determined(*right, batch),
    }
}

/// A float array that fits two float arrays of one width and one length.
pub open spec fn some_float_array(lhs: ArrayModel, rhs: ArrayModel) -> ArrayModel {
    ArrayModel {
        kind: lhs.kind,
        cells: Seq::new(
            lhs.len(),
            |row: int|
                if lhs.cells[row] is Null || rhs.cells[row] is Null {
                    Cell::Null
                } else {
                    Cell::Float(0)
                },
        ),
        array: None,
    }
}

/// Every expression has a result that may come of it.
pub proof fn lemma_evaluates_some(expression: Expression, batch: ColumnarBatch) -> (result:
    Evaluated)
    ensures
        evaluates(expression, batch, result),
    decreases expression,
{
    match expression {
        Expression::Literal(scalar) => literal(scalar, batch_rows(batch)),
        Expression::Column { name, .. } => lookup(name@, batch),
        Expression::BinaryOperator { op, left, right } => {
            let l = lemma_evaluates_some(*left, batch);
            let r = lemma_evaluates_some(*right, batch);
            let result = if l is Ok && r is Ok && !settled(l->Ok_0, r->Ok_0) {
                if l->Ok_0.len() == r->Ok_0.len() {
                    Ok(some_float_array(l->Ok_0, r->Ok_0))
                } else {
                    Err(Failure::Kernel(arbitrary()))
                }
            } else {
                arithmetic_node(op, l, r)
            };
            assert(operands(l, r) && evaluates(*left, batch, l) && evaluates(*right, batch, r)
                && arithmetic_node_allows(op, l, r, result));
            result
        },
        Expression::BinaryComparison { op, left, right } => {
            let l = lemma_evaluates_some(*left, batch);
            let r = lemma_evaluates_some(*right, batch);
            assert(operands(l, r) && evaluates(*left, batch, l) && evaluates(*right, batch, r));
            comparison_node(op, l, r)
        },
        Expression::And { left, right } => {
            let l = lemma_evaluates_some(*left, batch);
            let r = lemma_evaluates_some(*right, batch);
            assert(operands(l, r) && evaluates(*left, batch, l) && evaluates(*right, batch, r));
            logical_node(LogicalOperator::And, l, r)
        },
        Expression::Or { left, right } => {
            let l = lemma_evaluates_some(*left, batch);
            let r = lemma_evaluates_some(*right, batch);
            assert(operands(l, r) && evaluates(*left, batch, l) && evaluates(*right, batch, r));
            logical_node(LogicalOperator::Or, l, r)
        },
    }
}

/// Where the operands settle it, the one result that may come of an
/// expression is its [`evaluation`].
pub proof fn lemma_determined_evaluation(
    expression: Expression,
    batch: ColumnarBatch,
    result: Evaluated,
)
    requires
        determined(expression, batch),
        evaluates(expression, batch, result),
    ensures
        result == evaluation(expression, batch),
    decreases expression,
{
    match expression {
        Expression::Literal(_) => {},
        Expression::Column { .. } => {},
        Expression::BinaryOperator { op, left, right } => {
            let (l, r) = choose|l: Evaluated, r: Evaluated|
                #![trigger operands(l, r)]
                operands(l, r) && evaluates(*left, batch, l) && evaluates(*right, batch, r)
                    && arithmetic_node_allows(op, l, r, result);
            lemma_determined_evaluation(*left, batch, l);
            lemma_determined_evaluation(*right, batch, r);
        },
        Expression::BinaryComparison { op, left, right } => {
            let (l, r) = choose|l: Evaluated, r: Evaluated|
                #![trigger operands(l, r)]
                operands(l, r) && evaluates(*left, batch, l) && evaluates(*right, batch, r) && result
                    == comparison_node(op, l, r);
            lemma_determined_evaluation(*left, batch, l);
            lemma_determined_evaluation(*right, batch, r);
        },
        Expression::And { left, right } => {
            let (l, r) = choose|l: Evaluated, r: Evaluated|
                #![trigger operands(l, r)]
                operands(l, r) && evaluates(*left, batch, l) && evaluates(*right, batch, r) && result
                    == logical_node(LogicalOperator::And, l, r);
            lemma_determined_evaluation(*left, batch, l);
            lemma_determined_evaluation(*right, batch, r);
        },
        Expression::Or { left, right } => {
            let (l, r) = choose|l: Evaluated, r: Evaluated|
                #![trigger operands(l, r)]
                operands(l, r) && evaluates(*left, batch, l) && evaluates(*right, batch, r) && result
                    == logical_node(LogicalOperator::Or, l, r);
            lemma_determined_evaluation(*left, batch, l);
            lemma_determined_evaluation(*right, batch, r);
        },
    }
}

/// Decides whether the arithmetic kernels take `array` without panic.
pub fn is_computable(array: &ColumnArray) -> (ok: bool)
    ensures
        ok == array@.kind.computable(),
{
    kind_of(array).is_computable()
}

/// Decides whether the comparison kernels take `array` without panic.
pub fn is_comparable(array: &ColumnArray) -> (ok: bool)
    ensures
        ok == array@.kind.comparable(),
{
    kind_of(array).is_comparable()
}

/// Hands `array` on where it is a boolean array, and reports a type
/// mismatch where it is not.
pub fn expect_boolean(array: ColumnArray) -> (result: Result<ColumnArray, Error>)
    ensures
        array@.is_boolean() ==> result == Ok::<ColumnArray, Error>(array),
        !array@.is_boolean() ==> result matches Err(Error::TypeMismatch(Expectation::BooleanArray)),
{
    match kind_of(&array) {
        ArrayKind::Typed(DataType::Boolean) => Ok(array),
        _ => Err(Error::TypeMismatch(Expectation::BooleanArray)),
    }
}

/// Turns what a kernel returned into an evaluation's result: the array as
/// it is, a failure wrapped as [`Error::KernelError`] with the kernel's
/// error as its cause.
pub fn kernel_result(made: Result<ColumnArray, ArrowError>) -> (result: Result<ColumnArray, Error>)
    ensures
        result == match made {
            Ok(array) => Ok::<ColumnArray, Error>(array),
            Err(cause) => Err(Error::KernelError(cause)),
        },
{
    match made {
        Ok(array) => Ok(array),
        Err(cause) => Err(Error::KernelError(cause)),
    }
}

/// Broadcasts a literal to `rows` rows, or reports a type mismatch where
/// the scalar is not well formed or its rows do not fit one array.
pub fn evaluate_literal(scalar: &Scalar, rows: usize) -> (result: Result<ColumnArray, Error>)
    ensures
        outcome(result) == literal(*scalar, rows as nat),
{
    if !scalar.is_well_formed() {
        Err(Error::TypeMismatch(Expectation::WellFormedLiteral))
    } else if !scalar.fits_rows(rows) {
        Err(Error::TypeMismatch(Expectation::LiteralWithinLimit))
    } else {
        Ok(scalar.to_array(rows))
    }
}

/// Applies the arithmetic kernel for `op` to two arrays, or reports a type
/// mismatch where the kernel could panic on one of them.
pub fn evaluate_arithmetic(op: BinaryOperator, lhs: &ColumnArray, rhs: &ColumnArray) -> (result:
    Result<ColumnArray, Error>)
    ensures
        arithmetic_allows(op, lhs@, rhs@, outcome(result)),
        result matches Ok(array) ==> array@.len() == lhs@.len(),
{
    if !is_computable(lhs) || !is_computable(rhs) {
        return Err(Error::TypeMismatch(Expectation::SupportedArray));
    }
    let made = match op {
        BinaryOperator::Plus => kernel_add(lhs, rhs),
        BinaryOperator::Minus => kernel_sub(lhs, rhs),
        BinaryOperator::Multiply => kernel_mul(lhs, rhs),
        BinaryOperator::Divide => kernel_div(lhs, rhs),
    };
    kernel_result(made)
}

/// Applies the comparison kernel for `op` to two arrays, or reports a type
/// mismatch where the kernel could panic on one of them.
pub fn evaluate_comparison(op: ComparisonOperator, lhs: &ColumnArray, rhs: &ColumnArray) -> (result:
    Result<ColumnArray, Error>)
    ensures
        outcome(result) == comparison(op, lhs@, rhs@),
        result matches Ok(array) ==> array@.is_boolean() && array@.len() == lhs@.len(),
{
    if !is_comparable(lhs) || !is_comparable(rhs) {
        return Err(Error::TypeMismatch(Expectation::SupportedArray));
    }
    let made = match op {
        ComparisonOperator::LessThan => kernel_lt(lhs, rhs),
        ComparisonOperator::LessThanOrEqual => kernel_lt_eq(lhs, rhs),
        ComparisonOperator::GreaterThan => kernel_gt(lhs, rhs),
        ComparisonOperator::GreaterThanOrEqual => kernel_gt_eq(lhs, rhs),
        ComparisonOperator::Equal => kernel_eq(lhs, rhs),
        ComparisonOperator::NotEqual => kernel_neq(lhs, rhs),
    };
    kernel_result(made)
}

/// Applies the boolean kernel for `op` to two boolean arrays.
pub fn evaluate_logical(op: LogicalOperator, lhs: &ColumnArray, rhs: &ColumnArray) -> (result:
    Result<ColumnArray, Error>)
    requires
        lhs@.is_boolean(),
        rhs@.is_boolean(),
    ensures
        outcome(result) == computed(logical_result(op, lhs@, rhs@, named_logical(op, lhs@, rhs@))),
        result matches Ok(array) ==> array@.is_boolean() && array@.len() == lhs@.len(),
{
    let made = match op {
        LogicalOperator::And => kernel_and(lhs, rhs),
        LogicalOperator::Or => kernel_or(lhs, rhs),
    };
    kernel_result(made)
}

/// Whether `result` may come of an `And` or `Or` node with the operands
/// `left` and `right`.
pub open spec fn connective_evaluates(
    op: LogicalOperator,
    left: Expression,
    right: Expression,
    batch: ColumnarBatch,
    result: Evaluated,
) -> bool {
    exists|l: Evaluated, r: Evaluated|
        #![trigger operands(l, r)]
        operands(l, r) && evaluates(left, batch, l) && evaluates(right, batch, r) && result == logical_node(op, l, r)
}

/// Finishes an `And` or `Or` node whose left operand gave `first`: the
/// type check of the left operand, then the right operand and its type
/// check, then the kernel.
fn evaluate_connective(
    op: LogicalOperator,
    first: Result<ColumnArray, Error>,
    right: &Expression,
    batch: &ColumnarBatch,
    Ghost(left): Ghost<Expression>,
) -> (result: Result<ColumnArray, Error>)
    requires
        evaluates(left, *batch, outcome(first)),
        first matches Ok(array) ==> array@.len() == batch_rows(*batch),
    ensures
        connective_evaluates(op, left, *right, *batch, outcome(result)),
        result matches Ok(array) ==> array@.len() == batch_rows(*batch),
    decreases right, 1nat,
{
    let ghost l = outcome(first);
    let checked = match first {
        Err(error) => Err(error),
        Ok(array) => expect_boolean(array),
    };
    match checked {
        Err(error) => {
            proof {
                let r = lemma_evaluates_some(*right, *batch);
                assert(operands(l, r) && evaluates(left, *batch, l) && evaluates(*right, *batch, r));
            }
            Err(error)
        },
        Ok(lhs) => {
            let second = evaluate_expression(right, batch);
            let ghost r = outcome(second);
            assert(operands(l, r) && evaluates(left, *batch, l) && evaluates(*right, *batch, r));
            match second {
                Err(error) => Err(error),
                Ok(array) => match expect_boolean(array) {
                    Err(error) => Err(error),
                    Ok(rhs) => evaluate_logical(op, &lhs, &rhs),
                },
            }
        },
    }
}

/// Evaluates `expression` against `batch` in post-order and returns the
/// resulting array, or the first failure met.
///
/// A literal is broadcast to the batch's row count. A column is looked up
/// by name and handed out as the batch holds it. The operands of an
/// operator are evaluated left before right, and the operator is then
/// handed to its kernel. Every array that comes out has the batch's row
/// count. The result is one that [`evaluates`] allows, and it is
/// [`evaluation`] wherever that is [`determined`].
pub fn evaluate_expression(expression: &Expression, batch: &ColumnarBatch) -> (result: Result<
    ColumnArray,
    Error,
>)
    ensures
        evaluates(*expression, *batch, outcome(result)),
        determined(*expression, *batch) ==> outcome(result) == evaluation(*expression, *batch),
        result matches Ok(array) ==> array@.len() == batch_rows(*batch),
        expression is Column && result is Ok ==> Some(result->Ok_0) == column_of(*batch, expression->name@),
    decreases expression, 0nat,
{
    let result = match expression {
        Expression::Literal(scalar) => evaluate_literal(scalar, row_count(batch)),
        Expression::Column { name, .. } => match column_by_name(batch, name.as_str()) {
            Some(array) => Ok(array),
            None => Err(Error::MissingColumn(name.clone())),
        },
        Expression::BinaryOperator { op, left, right } => {
            let first = evaluate_expression(left, batch);
            let ghost l = outcome(first);
            match first {
                Err(error) => {
                    proof {
                        let r = lemma_evaluates_some(**right, *batch);
                        assert(operands(l, r) && evaluates(**left, *batch, l) && evaluates(**right, *batch, r));
                    }
                    Err(error)
                },
                Ok(lhs) => {
                    let second = evaluate_expression(right, batch);
                    let ghost r = outcome(second);
                    assert(operands(l, r) && evaluates(**left, *batch, l) && evaluates(**right, *batch, r));
                    match second {
                        Err(error) => Err(error),
                        Ok(rhs) => evaluate_arithmetic(*op, &lhs, &rhs),
                    }
                },
            }
        },
        Expression::BinaryComparison { op, left, right } => {
            let first = evaluate_expression(left, batch);
            let ghost l = outcome(first);
            match first {
                Err(error) => {
                    proof {
                        let r = lemma_evaluates_some(**right, *batch);
                        assert(operands(l, r) && evaluates(**left, *batch, l) && evaluates(**right, *batch, r));
                    }
                    Err(error)
                },
                Ok(lhs) => {
                    let second = evaluate_expression(right, batch);
                    let ghost r = outcome(second);
                    assert(operands(l, r) && evaluates(**left, *batch, l) && evaluates(**right, *batch, r));
                    match second {
                        Err(error) => Err(error),
                        Ok(rhs) => evaluate_comparison(*op, &lhs, &rhs),
                    }
                },
            }
        },
        Expression::And { left, right } => {
            let first = evaluate_expression(left, batch);
            evaluate_connective(LogicalOperator::And, first, right, batch, Ghost(**left))
        },
        Expression::Or { left, right } => {
            let first = evaluate_expression(left, batch);
            evaluate_connective(LogicalOperator::Or, first, right, batch, Ghost(**left))
        },
    };
    proof {
        if determined(*expression, *batch) {
            lemma_determined_evaluation(*expression, *batch, outcome(result));
        }
    }
    result
}

} // verus!
