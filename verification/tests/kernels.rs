use std::sync::Arc;

use arrow_array::{BooleanArray, Int32Array, RecordBatch};
use arrow_schema::{Field, Schema};
use expr_kernel::{evaluate_expression, ColumnarBatch, DataType, Expression, Scalar};

#[test]
fn test_binary_op_scalar() {
    let schema = Schema::new(vec![Field::new("a", arrow_schema::DataType::Int32, false)]);
    let values = Int32Array::from(vec![1, 2, 3]);
    let batch = RecordBatch::try_new(Arc::new(schema.clone()), vec![Arc::new(values)]).unwrap();
    let batch = ColumnarBatch { batch };
    let column = Expression::Column { name: "a".to_string(), data_type: DataType::Integer };

    let expression = Box::new(column.clone().add(Expression::Literal(Scalar::Integer(1))));
    let results = evaluate_expression(&expression, &batch).unwrap();
    let expected = Arc::new(Int32Array::from(vec![2, 3, 4]));
    assert_eq!(results.array.as_ref(), expected.as_ref());

    let expression = Box::new(column.clone().sub(Expression::Literal(Scalar::Integer(1))));
    let results = evaluate_expression(&expression, &batch).unwrap();
    let expected = Arc::new(Int32Array::from(vec![0, 1, 2]));
    assert_eq!(results.array.as_ref(), expected.as_ref());

    let expression = Box::new(column.clone().mul(Expression::Literal(Scalar::Integer(2))));
    let results = evaluate_expression(&expression, &batch).unwrap();
    let expected = Arc::new(Int32Array::from(vec![2, 4, 6]));
    assert_eq!(results.array.as_ref(), expected.as_ref());

    let expression = Box::new(column.div(Expression::Literal(Scalar::Integer(1))));
    let results = evaluate_expression(&expression, &batch).unwrap();
    let expected = Arc::new(Int32Array::from(vec![1, 2, 3]));
    assert_eq!(results.array.as_ref(), expected.as_ref())
}

#[test]
fn test_binary_op() {
    let schema = Schema::new(vec![
        Field::new("a", arrow_schema::DataType::Int32, false),
        Field::new("b", arrow_schema::DataType::Int32, false),
    ]);
    let values = Int32Array::from(vec![1, 2, 3]);
    let batch = RecordBatch::try_new(
        Arc::new(schema.clone()),
        vec![Arc::new(values.clone()), Arc::new(values)],
    )
    .unwrap();
    let batch = ColumnarBatch { batch };
    let column_a = Expression::Column { name: "a".to_string(), data_type: DataType::Integer };
    let column_b = Expression::Column { name: "b".to_string(), data_type: DataType::Integer };

    let expression = Box::new(column_a.clone().add(column_b.clone()));
    let results = evaluate_expression(&expression, &batch).unwrap();
    let expected = Arc::new(Int32Array::from(vec![2, 4, 6]));
    assert_eq!(results.array.as_ref(), expected.as_ref());

    let expression = Box::new(column_a.clone().sub(column_b.clone()));
    let results = evaluate_expression(&expression, &batch).unwrap();
    let expected = Arc::new(Int32Array::from(vec![0, 0, 0]));
    assert_eq!(results.array.as_ref(), expected.as_ref());

    let expression = Box::new(column_a.clone().mul(column_b));
    let results = evaluate_expression(&expression, &batch).unwrap();
    let expected = Arc::new(Int32Array::from(vec![1, 4, 9]));
    assert_eq!(results.array.as_ref(), expected.as_ref());
}

#[test]
fn test_binary_cmp() {
    let schema = Schema::new(vec![Field::new("a", arrow_schema::DataType::Int32, false)]);
    let values = Int32Array::from(vec![1, 2, 3]);
    let batch = RecordBatch::try_new(Arc::new(schema.clone()), vec![Arc::new(values)]).unwrap();
    let batch = ColumnarBatch { batch };
    let column = Expression::Column { name: "a".to_string(), data_type: DataType::Integer };
    let lit = Expression::Literal(Scalar::Integer(2));

    let expression = Box::new(column.clone().lt(lit.clone()));
    let results = evaluate_expression(&expression, &batch).unwrap();
    let expected = Arc::new(BooleanArray::from(vec![true, false, false]));
    assert_eq!(results.array.as_ref(), expected.as_ref());

    let expression = Box::new(column.clone().lt_eq(lit.clone()));
    let results = evaluate_expression(&expression, &batch).unwrap();
    let expected = Arc::new(BooleanArray::from(vec![true, true, false]));
    assert_eq!(results.array.as_ref(), expected.as_ref());

    let expression = Box::new(column.clone().gt(lit.clone()));
    let results = evaluate_expression(&expression, &batch).unwrap();
    let expected = Arc::new(BooleanArray::from(vec![false, false, true]));
    assert_eq!(results.array.as_ref(), expected.as_ref());

    let expression = Box::new(column.clone().gt_eq(lit.clone()));
    let results = evaluate_expression(&expression, &batch).unwrap();
    let expected = Arc::new(BooleanArray::from(vec![false, true, true]));
    assert_eq!(results.array.as_ref(), expected.as_ref());

    let expression = Box::new(column.clone().eq(lit.clone()));
    let results = evaluate_expression(&expression, &batch).unwrap();
    let expected = Arc::new(BooleanArray::from(vec![false, true, false]));
    assert_eq!(results.array.as_ref(), expected.as_ref());

    let expression = Box::new(column.clone().ne(lit.clone()));
    let results = evaluate_expression(&expression, &batch).unwrap();
    let expected = Arc::new(BooleanArray::from(vec![true, false, true]));
    assert_eq!(results.array.as_ref(), expected.as_ref());
}

#[test]
fn test_logical() {
    let schema = Schema::new(vec![
        Field::new("a", arrow_schema::DataType::Boolean, false),
        Field::new("b", arrow_schema::DataType::Boolean, false),
    ]);
    let batch = RecordBatch::try_new(
        Arc::new(schema.clone()),
        vec![
            Arc::new(BooleanArray::from(vec![true, false])),
            Arc::new(BooleanArray::from(vec![false, true])),
        ],
    )
    .unwrap();
    let batch = ColumnarBatch { batch };
    let column_a = Expression::Column { name: "a".to_string(), data_type: DataType::Boolean };
    let column_b = Expression::Column { name: "b".to_string(), data_type: DataType::Boolean };

    let expression = Box::new(column_a.clone().and(column_b.clone()));
    let results = evaluate_expression(&expression, &batch).unwrap();
    let expected = Arc::new(BooleanArray::from(vec![false, false]));
    assert_eq!(results.array.as_ref(), expected.as_ref());

    let expression =
        Box::new(column_a.clone().and(Expression::literal(Scalar::Boolean(true))));
    let results = evaluate_expression(&expression, &batch).unwrap();
    let expected = Arc::new(BooleanArray::from(vec![true, false]));
    assert_eq!(results.array.as_ref(), expected.as_ref());

    let expression = Box::new(column_a.clone().or(column_b.clone()));
    let results = evaluate_expression(&expression, &batch).unwrap();
    let expected = Arc::new(BooleanArray::from(vec![true, true]));
    assert_eq!(results.array.as_ref(), expected.as_ref());

    let expression =
        Box::new(column_a.clone().or(Expression::literal(Scalar::Boolean(false))));
    let results = evaluate_expression(&expression, &batch).unwrap();
    let expected = Arc::new(BooleanArray::from(vec![true, false]));
    assert_eq!(results.array.as_ref(), expected.as_ref());
}
