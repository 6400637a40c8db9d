//! Evaluation of typed expression trees over columnar batches.
//!
//! An [`Expression`] is a tree of literals, column references, arithmetic,
//! comparisons and boolean connectives. [`evaluate_expression`] walks the tree
//! in post-order against a [`ColumnarBatch`] and hands every operator to the
//! matching Arrow compute kernel, yielding one array per call.

pub mod array;
pub mod batch;
pub mod error;
pub mod evaluate;
pub mod expressions;
pub mod handler;
pub mod kernels;
pub mod laws;
pub mod relations;
pub mod scalars;
pub mod schema;

pub use array::{ArrayKind, ArrayModel, Cell, ColumnArray};
pub use batch::ColumnarBatch;
pub use error::{Error, Expectation};
pub use evaluate::evaluate_expression;
pub use expressions::{BinaryOperator, ComparisonOperator, Expression};
pub use handler::{DefaultExpressionEvaluator, DefaultExpressionHandler, OUTPUT_COLUMN};
pub use scalars::Scalar;
pub use schema::{DataType, Schema, StructField};
