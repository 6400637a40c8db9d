//! Binding an expression to a schema for repeated evaluation.

use crate::array::ArrayModel;
use crate::batch::{
    batch_columns, batch_nullable, batch_rows, only_field, single_column, ColumnarBatch,
};
use crate::error::Error;
use crate::evaluate::{determined, evaluate_expression, evaluates, evaluation, outcome, Evaluated};
use crate::expressions::Expression;
use crate::schema::Schema;
use vstd::prelude::*;

verus! {

/// The name of the one column of an evaluator's output batch.
pub const OUTPUT_COLUMN: &'static str = "output";

/// Makes evaluators that run on the Arrow compute kernels.
#[derive(Debug)]
pub struct DefaultExpressionHandler {}

/// An expression bound to the schema of the batches it will be run against.
///
/// The evaluator keeps no state between calls.
#[derive(Debug)]
pub struct DefaultExpressionEvaluator {
    input_schema: Schema,
    expression: Box<Expression>,
}

/// Whether `output` is the packaging of `array`: a batch with the rows of
/// `array` and a single column, named [`OUTPUT_COLUMN`] and declared
/// nullable, that holds it.
pub open spec fn packages(output: ColumnarBatch, array: ArrayModel) -> bool {
    &&& batch_rows(output) == array.len()
    &&& batch_columns(output).dom() == set![OUTPUT_COLUMN@]
    &&& batch_columns(output)[OUTPUT_COLUMN@]@ == array
    &&& batch_nullable(output) == only_field(OUTPUT_COLUMN@, true)
}

/// Whether `result` hands on what the evaluation gave: the packaging of
/// its array, or its failure.
pub open spec fn packaged(result: Result<ColumnarBatch, Error>, evaluated: Evaluated) -> bool {
    match evaluated {
        Ok(array) => result matches Ok(output) && packages(output, array),
        Err(failure) => result matches Err(error) && error@ == failure,
    }
}

impl DefaultExpressionHandler {
    /// Binds `expression` to `schema`. Nothing is checked or computed
    /// here: a column that the schema lacks, or an operand of the wrong
    /// type, shows when a batch is evaluated.
    pub fn get_evaluator(&self, schema: Schema, expression: Expression) -> (evaluator:
        DefaultExpressionEvaluator)
        ensures
            evaluator.expression() == expression,
            evaluator.input_schema() == schema,
    {
        DefaultExpressionEvaluator { input_schema: schema, expression: Box::new(expression) }
    }
}

impl DefaultExpressionEvaluator {
    /// The bound expression.
    pub closed spec fn expression(&self) -> Expression {
        *self.expression
    }

    /// The schema the expression was bound to.
    pub closed spec fn input_schema(&self) -> Schema {
        self.input_schema
    }

    /// Evaluates the bound expression against `batch` and packages the
    /// resulting array as a batch of its own.
    ///
    /// The output batch has one column. Its name is [`OUTPUT_COLUMN`], its
    /// type is the Arrow data type of the array, and it is declared
    /// nullable. A failure of the evaluation is handed on as it is.
    pub fn evaluate(&self, batch: &ColumnarBatch) -> (result: Result<ColumnarBatch, Error>)
        ensures
            exists|evaluated: Evaluated| #[trigger]
                evaluates(self.expression(), *batch, evaluated) && packaged(result, evaluated),
            determined(self.expression(), *batch) ==> packaged(result, evaluation(self.expression(), *batch)),
            result matches Ok(output) ==> batch_rows(output) == batch_rows(*batch),
    {
        let evaluated = evaluate_expression(&self.expression, batch);
        let result = match evaluated {
            Err(error) => Err(error),
            Ok(array) => match single_column(OUTPUT_COLUMN, array, true) {
                Ok(output) => Ok(output),
                Err(cause) => Err(Error::KernelError(cause)),
            },
        };
        assert(evaluates(self.expression(), *batch, outcome(evaluated)) && packaged(
            result,
            outcome(evaluated),
        ));
        result
    }
}

} // verus!
