use std::sync::Arc;

use arrow_array::builder::StringDictionaryBuilder;
use arrow_array::types::Int32Type;
use arrow_array::{
    Array, ArrayRef, BooleanArray, Date32Array, Decimal128Array, Float32Array, Float64Array,
    Int16Array, Int32Array, Int64Array, IntervalYearMonthArray, RecordBatch, StringArray,
    TimestampMicrosecondArray,
};
use expr_kernel::evaluate::{
    evaluate_arithmetic, evaluate_comparison, evaluate_literal, evaluate_logical, expect_boolean,
    is_comparable, is_computable, kernel_result,
};
use expr_kernel::kernels::LogicalOperator;
use expr_kernel::{
    evaluate_expression, ArrayKind, BinaryOperator, ColumnArray, ColumnarBatch, ComparisonOperator,
    DataType, DefaultExpressionHandler, Error, Expectation, Expression, Scalar, Schema,
    StructField, OUTPUT_COLUMN,
};

fn batch_of(columns: Vec<(&str, ArrayRef)>) -> ColumnarBatch {
    let batch = RecordBatch::try_from_iter_with_nullable(
        columns.into_iter().map(|(name, array)| (name, array, true)),
    )
    .unwrap();
    ColumnarBatch { batch }
}

fn column(name: &str, data_type: DataType) -> Expression {
    Expression::column(name.to_string(), data_type)
}

fn integers(values: Vec<Option<i32>>) -> ArrayRef {
    Arc::new(Int32Array::from(values))
}

fn booleans(values: Vec<Option<bool>>) -> ArrayRef {
    Arc::new(BooleanArray::from(values))
}

fn integer_batch() -> ColumnarBatch {
    batch_of(vec![
        ("a", integers(vec![Some(1), Some(2), Some(3)])),
        ("b", integers(vec![Some(3), Some(2), Some(1)])),
    ])
}

#[test]
fn column_reference_hands_out_the_batch_array() {
    let array = integers(vec![Some(4), None, Some(6)]);
    let batch = batch_of(vec![("a", array.clone())]);
    let result = evaluate_expression(&column("a", DataType::Integer), &batch).unwrap();
    assert!(Arc::ptr_eq(&result.array, &array));
    assert_eq!(result.array.as_ref(), array.as_ref());
}

#[test]
fn column_reference_takes_the_first_of_a_shared_name() {
    let schema = arrow_schema::Schema::new(vec![
        arrow_schema::Field::new("a", arrow_schema::DataType::Int32, false),
        arrow_schema::Field::new("a", arrow_schema::DataType::Int32, false),
    ]);
    let batch = RecordBatch::try_new(
        Arc::new(schema),
        vec![integers(vec![Some(1)]), integers(vec![Some(2)])],
    )
    .unwrap();
    let batch = ColumnarBatch { batch };
    let result = evaluate_expression(&column("a", DataType::Integer), &batch).unwrap();
    assert_eq!(result.array.as_ref(), &Int32Array::from(vec![1]));
}

#[test]
fn missing_column_is_reported_by_name() {
    let batch = integer_batch();
    let result = evaluate_expression(&column("x", DataType::Integer), &batch);
    match result {
        Err(Error::MissingColumn(name)) => assert_eq!(name, "x"),
        _ => panic!("expected a missing column"),
    }
}

#[test]
fn missing_column_inside_an_operator_aborts_the_evaluation() {
    let batch = integer_batch();
    let expression = column("a", DataType::Integer).add(column("x", DataType::Integer));
    assert!(matches!(
        evaluate_expression(&expression, &batch),
        Err(Error::MissingColumn(name)) if name == "x"
    ));
    let expression = column("y", DataType::Integer).lt(column("x", DataType::Integer));
    assert!(matches!(
        evaluate_expression(&expression, &batch),
        Err(Error::MissingColumn(name)) if name == "y"
    ));
}

#[test]
fn literal_has_the_row_count_of_the_batch() {
    let batch = integer_batch();
    let result = evaluate_expression(&Expression::literal(Scalar::Integer(9)), &batch).unwrap();
    assert_eq!(result.array.as_ref(), &Int32Array::from(vec![9, 9, 9]));
    let empty = batch_of(vec![("a", integers(vec![]))]);
    let result = evaluate_expression(&Expression::literal(Scalar::Integer(9)), &empty).unwrap();
    assert_eq!(result.array.len(), 0);
}

#[test]
fn ill_formed_literal_is_a_type_mismatch() {
    let batch = integer_batch();
    let result = evaluate_expression(&Expression::literal(Scalar::Decimal(1, 0, 0)), &batch);
    assert!(matches!(result, Err(Error::TypeMismatch(Expectation::WellFormedLiteral))));
    let result = evaluate_literal(&Scalar::Null(DataType::Decimal(5, 6)), 2);
    assert!(matches!(result, Err(Error::TypeMismatch(Expectation::WellFormedLiteral))));
    let result = evaluate_literal(&Scalar::Decimal(1, 5, 2), 2).unwrap();
    assert_eq!(result.array.data_type(), &arrow_schema::DataType::Decimal128(5, 2));
}

#[test]
fn literal_too_large_for_one_array_is_a_type_mismatch() {
    let rows = 32_768usize;
    let batch = batch_of(vec![("a", integers(vec![Some(0); rows]))]);
    let wide = "x".repeat(65_536);
    let result = evaluate_expression(&Expression::literal(Scalar::String(wide.clone())), &batch);
    assert!(matches!(result, Err(Error::TypeMismatch(Expectation::LiteralWithinLimit))));
    let result =
        evaluate_expression(&Expression::literal(Scalar::Binary(wide.into_bytes())), &batch);
    assert!(matches!(result, Err(Error::TypeMismatch(Expectation::LiteralWithinLimit))));
    let narrow = "x".repeat(16);
    let result =
        evaluate_expression(&Expression::literal(Scalar::String(narrow)), &batch).unwrap();
    assert_eq!(result.array.len(), rows);
    let ill_formed = Scalar::Null(DataType::Decimal(0, 0));
    assert!(matches!(
        evaluate_literal(&ill_formed, rows),
        Err(Error::TypeMismatch(Expectation::WellFormedLiteral))
    ));
}

#[test]
fn product_does_not_depend_on_the_order() {
    let batch = batch_of(vec![
        ("a", integers(vec![Some(2), None, Some(-4), Some(0)])),
        ("b", integers(vec![Some(5), Some(3), Some(7), None])),
    ]);
    let a = column("a", DataType::Integer);
    let b = column("b", DataType::Integer);
    let forward = evaluate_expression(&a.clone().mul(b.clone()), &batch).unwrap();
    let backward = evaluate_expression(&b.mul(a), &batch).unwrap();
    assert_eq!(forward.array.as_ref(), backward.array.as_ref());
    let expected = Int32Array::from(vec![Some(10), None, Some(-28), None]);
    assert_eq!(forward.array.as_ref(), &expected);
}

#[test]
fn exactly_one_of_less_equal_greater_holds() {
    let batch = integer_batch();
    let a = column("a", DataType::Integer);
    let b = column("b", DataType::Integer);
    let less = evaluate_expression(&a.clone().lt(b.clone()), &batch).unwrap();
    let equal = evaluate_expression(&a.clone().eq(b.clone()), &batch).unwrap();
    let greater = evaluate_expression(&a.gt(b), &batch).unwrap();
    assert_eq!(less.array.as_ref(), &BooleanArray::from(vec![true, false, false]));
    assert_eq!(equal.array.as_ref(), &BooleanArray::from(vec![false, true, false]));
    assert_eq!(greater.array.as_ref(), &BooleanArray::from(vec![false, false, true]));
}

#[test]
fn comparison_of_a_null_row_is_null() {
    let batch = batch_of(vec![
        ("a", integers(vec![Some(1), None, Some(3)])),
        ("b", integers(vec![Some(1), Some(2), None])),
    ]);
    let a = column("a", DataType::Integer);
    let b = column("b", DataType::Integer);
    let result = evaluate_expression(&a.clone().lt_eq(b.clone()), &batch).unwrap();
    assert_eq!(result.array.as_ref(), &BooleanArray::from(vec![Some(true), None, None]));
    let result = evaluate_expression(&a.ne(b), &batch).unwrap();
    assert_eq!(result.array.as_ref(), &BooleanArray::from(vec![Some(false), None, None]));
}

#[test]
fn strings_are_compared_byte_by_byte() {
    let left: ArrayRef = Arc::new(StringArray::from(vec!["a", "ab", "b", "", "é"]));
    let right: ArrayRef = Arc::new(StringArray::from(vec!["b", "a", "b", "a", "z"]));
    let batch = batch_of(vec![("l", left), ("r", right)]);
    let l = column("l", DataType::String);
    let r = column("r", DataType::String);
    let result = evaluate_expression(&l.clone().lt(r.clone()), &batch).unwrap();
    assert_eq!(
        result.array.as_ref(),
        &BooleanArray::from(vec![true, false, false, true, false])
    );
    let result = evaluate_expression(&l.clone().gt_eq(r.clone()), &batch).unwrap();
    assert_eq!(
        result.array.as_ref(),
        &BooleanArray::from(vec![false, true, true, false, true])
    );
    let result = evaluate_expression(
        &l.eq(Expression::literal(Scalar::String("b".to_string()))),
        &batch,
    )
    .unwrap();
    assert_eq!(
        result.array.as_ref(),
        &BooleanArray::from(vec![false, false, true, false, false])
    );
}

#[test]
fn floats_are_compared_in_the_total_order() {
    let left: ArrayRef =
        Arc::new(Float32Array::from(vec![-0.0f32, 1.0, f32::NAN, f32::NEG_INFINITY, 2.5]));
    let right: ArrayRef =
        Arc::new(Float32Array::from(vec![0.0f32, 1.0, f32::INFINITY, -1.0e30, 2.25]));
    let batch = batch_of(vec![("l", left), ("r", right)]);
    let l = column("l", DataType::Float);
    let r = column("r", DataType::Float);
    let result = evaluate_expression(&l.clone().lt(r.clone()), &batch).unwrap();
    assert_eq!(
        result.array.as_ref(),
        &BooleanArray::from(vec![true, false, false, true, false])
    );
    let result = evaluate_expression(&l.clone().eq(r.clone()), &batch).unwrap();
    assert_eq!(
        result.array.as_ref(),
        &BooleanArray::from(vec![false, true, false, false, false])
    );
    let result = evaluate_expression(&l.gt(r), &batch).unwrap();
    assert_eq!(
        result.array.as_ref(),
        &BooleanArray::from(vec![false, false, true, false, true])
    );
}

#[test]
fn booleans_timestamps_dates_and_decimals_are_compared() {
    let batch = batch_of(vec![
        ("flag", booleans(vec![Some(false), Some(true)])),
        ("at", Arc::new(TimestampMicrosecondArray::from(vec![10i64, 30]))),
        ("day", Arc::new(Date32Array::from(vec![5, 7]))),
        (
            "price",
            Arc::new(
                Decimal128Array::from(vec![150i128, 250])
                    .with_precision_and_scale(10, 2)
                    .unwrap(),
            ),
        ),
    ]);
    let result = evaluate_expression(
        &column("flag", DataType::Boolean).lt(Expression::literal(Scalar::Boolean(true))),
        &batch,
    )
    .unwrap();
    assert_eq!(result.array.as_ref(), &BooleanArray::from(vec![true, false]));
    let result = evaluate_expression(
        &column("at", DataType::Timestamp).gt(Expression::literal(Scalar::Timestamp(20))),
        &batch,
    )
    .unwrap();
    assert_eq!(result.array.as_ref(), &BooleanArray::from(vec![false, true]));
    let result = evaluate_expression(
        &column("day", DataType::Date).lt_eq(Expression::literal(Scalar::Date(5))),
        &batch,
    )
    .unwrap();
    assert_eq!(result.array.as_ref(), &BooleanArray::from(vec![true, false]));
    let result = evaluate_expression(
        &column("price", DataType::Decimal(10, 2))
            .eq(Expression::literal(Scalar::Decimal(250, 10, 2))),
        &batch,
    )
    .unwrap();
    assert_eq!(result.array.as_ref(), &BooleanArray::from(vec![false, true]));
}

#[test]
fn comparison_of_different_types_is_a_kernel_error() {
    let batch = integer_batch();
    let expression =
        column("a", DataType::Integer).lt(Expression::literal(Scalar::String("1".to_string())));
    assert!(matches!(evaluate_expression(&expression, &batch), Err(Error::KernelError(_))));
    let batch = batch_of(vec![(
        "price",
        Arc::new(
            Decimal128Array::from(vec![150i128]).with_precision_and_scale(10, 2).unwrap(),
        ),
    )]);
    let expression = column("price", DataType::Decimal(10, 2))
        .eq(Expression::literal(Scalar::Decimal(150, 12, 2)));
    assert!(matches!(evaluate_expression(&expression, &batch), Err(Error::KernelError(_))));
}

#[test]
fn integer_arithmetic_is_checked() {
    let batch = batch_of(vec![
        ("a", integers(vec![Some(i32::MAX), Some(1)])),
        ("z", integers(vec![Some(0), Some(1)])),
        ("m", integers(vec![Some(i32::MIN), Some(1)])),
    ]);
    let a = column("a", DataType::Integer);
    let one = Expression::literal(Scalar::Integer(1));
    assert!(matches!(
        evaluate_expression(&a.clone().add(one.clone()), &batch),
        Err(Error::KernelError(_))
    ));
    assert!(matches!(
        evaluate_expression(&column("m", DataType::Integer).sub(one.clone()), &batch),
        Err(Error::KernelError(_))
    ));
    assert!(matches!(
        evaluate_expression(
            &a.clone().mul(Expression::literal(Scalar::Integer(2))),
            &batch
        ),
        Err(Error::KernelError(_))
    ));
    assert!(matches!(
        evaluate_expression(&a.clone().div(column("z", DataType::Integer)), &batch),
        Err(Error::KernelError(_))
    ));
    assert!(matches!(
        evaluate_expression(
            &column("m", DataType::Integer).div(Expression::literal(Scalar::Integer(-1))),
            &batch
        ),
        Err(Error::KernelError(_))
    ));
    let result = evaluate_expression(&a.sub(one), &batch).unwrap();
    assert_eq!(result.array.as_ref(), &Int32Array::from(vec![i32::MAX - 1, 0]));
}

#[test]
fn integer_division_rounds_toward_zero() {
    let batch = batch_of(vec![
        ("n", integers(vec![Some(7), Some(-7), Some(7), Some(-7), Some(0), None])),
        ("d", integers(vec![Some(2), Some(2), Some(-2), Some(-2), Some(5), Some(0)])),
    ]);
    let expression = column("n", DataType::Integer).div(column("d", DataType::Integer));
    let result = evaluate_expression(&expression, &batch).unwrap();
    let expected = Int32Array::from(vec![Some(3), Some(-3), Some(-3), Some(3), Some(0), None]);
    assert_eq!(result.array.as_ref(), &expected);
}

#[test]
fn arithmetic_skips_null_rows() {
    let batch = batch_of(vec![
        ("a", integers(vec![Some(i32::MAX), None, Some(5)])),
        ("b", integers(vec![None, Some(i32::MAX), Some(6)])),
    ]);
    let expression = column("a", DataType::Integer).add(column("b", DataType::Integer));
    let result = evaluate_expression(&expression, &batch).unwrap();
    assert_eq!(result.array.as_ref(), &Int32Array::from(vec![None, None, Some(11)]));
}

#[test]
fn arithmetic_on_other_supported_types_goes_to_the_kernel() {
    let batch = batch_of(vec![
        ("x", Arc::new(Float32Array::from(vec![1.5f32, -2.0]))),
        ("day", Arc::new(Date32Array::from(vec![10, 20]))),
        ("name", Arc::new(StringArray::from(vec!["a", "b"]))),
        (
            "price",
            Arc::new(
                Decimal128Array::from(vec![150i128, 250])
                    .with_precision_and_scale(10, 2)
                    .unwrap(),
            ),
        ),
    ]);
    let x = column("x", DataType::Float);
    let result = evaluate_expression(
        &x.clone().mul(Expression::literal(Scalar::Float(2.0f32.to_bits()))),
        &batch,
    )
    .unwrap();
    assert_eq!(result.array.as_ref(), &Float32Array::from(vec![3.0f32, -4.0]));
    let result = evaluate_expression(
        &column("price", DataType::Decimal(10, 2))
            .add(Expression::literal(Scalar::Decimal(100, 10, 2))),
        &batch,
    )
    .unwrap();
    assert_eq!(result.array.data_type(), &arrow_schema::DataType::Decimal128(11, 2));
    let sums = result.array.as_any().downcast_ref::<Decimal128Array>().unwrap();
    assert_eq!(sums.value(0), 250);
    assert_eq!(sums.value(1), 350);
    let day = column("day", DataType::Date);
    let result = evaluate_expression(&day.clone().sub(day), &batch).unwrap();
    assert_eq!(result.array.len(), 2);
    assert_eq!(
        result.array.data_type(),
        &arrow_schema::DataType::Duration(arrow_schema::TimeUnit::Second)
    );
    let result = evaluate_expression(
        &column("name", DataType::String).add(Expression::literal(Scalar::Integer(1))),
        &batch,
    );
    assert!(matches!(result, Err(Error::KernelError(_))));
    let result = evaluate_expression(&x.add(Expression::literal(Scalar::Integer(1))), &batch);
    assert!(matches!(result, Err(Error::KernelError(_))));
}

fn decimals(values: Vec<Option<i128>>, precision: u8, scale: i8) -> ArrayRef {
    Arc::new(Decimal128Array::from(values).with_precision_and_scale(precision, scale).unwrap())
}

#[test]
fn decimal_product_adds_scales_and_precisions() {
    let batch = batch_of(vec![
        ("p", decimals(vec![Some(150), Some(250), None], 10, 2)),
        ("q", decimals(vec![Some(20), Some(-3), Some(7)], 5, 1)),
        ("w", decimals(vec![Some(1), Some(2), Some(3)], 38, 2)),
    ]);
    let p = column("p", DataType::Decimal(10, 2));
    let q = column("q", DataType::Decimal(5, 1));
    let w = column("w", DataType::Decimal(38, 2));
    let forward = evaluate_expression(&p.clone().mul(q.clone()), &batch).unwrap();
    let backward = evaluate_expression(&q.mul(p), &batch).unwrap();
    let expected = decimals(vec![Some(3000), Some(-750), None], 16, 3);
    assert_eq!(forward.array.as_ref(), expected.as_ref());
    assert_eq!(backward.array.as_ref(), expected.as_ref());
    let capped = evaluate_expression(&w.clone().mul(w), &batch).unwrap();
    assert_eq!(capped.array.as_ref(), decimals(vec![Some(1), Some(4), Some(9)], 38, 4).as_ref());
}

#[test]
fn decimal_product_fails_on_overflow() {
    let batch = batch_of(vec![
        ("fine", decimals(vec![Some(1)], 38, 30)),
        ("deep", decimals(vec![Some(1)], 38, 20)),
        ("huge", decimals(vec![Some(i128::MAX)], 38, 0)),
        ("two", decimals(vec![Some(2)], 1, 0)),
    ]);
    let expression =
        column("fine", DataType::Decimal(38, 30)).mul(column("deep", DataType::Decimal(38, 20)));
    assert!(matches!(evaluate_expression(&expression, &batch), Err(Error::KernelError(_))));
    let expression =
        column("huge", DataType::Decimal(38, 0)).mul(column("two", DataType::Decimal(1, 0)));
    assert!(matches!(evaluate_expression(&expression, &batch), Err(Error::KernelError(_))));
}

#[test]
fn arrays_of_other_types_go_to_the_kernels() {
    let longs: ArrayRef = Arc::new(Int64Array::from(vec![1i64, 2]));
    let doubles: ArrayRef = Arc::new(Float64Array::from(vec![1.5f64, -2.0]));
    let shorts: ArrayRef = Arc::new(Int16Array::from(vec![3i16, 4]));
    let zoned: ArrayRef =
        Arc::new(TimestampMicrosecondArray::from(vec![10i64, 30]).with_timezone("UTC"));
    let batch = batch_of(vec![
        ("n", longs.clone()),
        ("x", doubles),
        ("s", shorts),
        ("at", zoned),
        ("a", integers(vec![Some(1), Some(2)])),
        ("day", Arc::new(Date32Array::from(vec![10, 20]))),
    ]);
    let n = column("n", DataType::Integer);
    let a = column("a", DataType::Integer);
    let x = column("x", DataType::Float);
    let s = column("s", DataType::Integer);
    let at = column("at", DataType::Timestamp);
    let day = column("day", DataType::Date);
    let alone = evaluate_expression(&n, &batch).unwrap();
    assert!(Arc::ptr_eq(&alone.array, &longs));
    let sum = evaluate_expression(&n.clone().add(n.clone()), &batch).unwrap();
    assert_eq!(sum.array.as_ref(), &Int64Array::from(vec![2i64, 4]));
    let product = evaluate_expression(&s.clone().mul(s.clone()), &batch).unwrap();
    assert_eq!(product.array.as_ref(), &Int16Array::from(vec![9i16, 16]));
    let halves = evaluate_expression(&x.clone().div(x.clone()), &batch).unwrap();
    assert_eq!(halves.array.as_ref(), &Float64Array::from(vec![1.0f64, 1.0]));
    let less = evaluate_expression(&n.clone().lt(n.clone().add(n.clone())), &batch).unwrap();
    assert_eq!(less.array.as_ref(), &BooleanArray::from(vec![true, true]));
    let same = evaluate_expression(&at.clone().eq(at.clone()), &batch).unwrap();
    assert_eq!(same.array.as_ref(), &BooleanArray::from(vec![true, true]));
    let greater = evaluate_expression(&x.clone().gt(x.clone()), &batch).unwrap();
    assert_eq!(greater.array.as_ref(), &BooleanArray::from(vec![false, false]));
    let spans = day.clone().sub(day.clone());
    let doubled = evaluate_expression(&spans.clone().add(spans), &batch).unwrap();
    assert_eq!(doubled.array.len(), 2);
    assert_eq!(
        doubled.array.data_type(),
        &arrow_schema::DataType::Duration(arrow_schema::TimeUnit::Second)
    );
    assert!(matches!(
        evaluate_expression(&a.clone().lt(n.clone()), &batch),
        Err(Error::KernelError(_))
    ));
    assert!(matches!(
        evaluate_expression(&a.clone().add(n.clone()), &batch),
        Err(Error::KernelError(_))
    ));
    assert!(matches!(
        evaluate_expression(&at.clone().lt(Expression::literal(Scalar::Timestamp(20))), &batch),
        Err(Error::KernelError(_))
    ));
    assert!(matches!(
        evaluate_expression(&n.clone().and(a.clone()), &batch),
        Err(Error::TypeMismatch(Expectation::BooleanArray))
    ));
}

#[test]
fn decimals_of_negative_scale_are_computed() {
    let batch = batch_of(vec![("d", decimals(vec![Some(1), Some(2)], 10, -2))]);
    let d = column("d", DataType::Decimal(10, -2));
    let sum = evaluate_expression(&d.clone().add(d.clone()), &batch).unwrap();
    let sums = sum.array.as_any().downcast_ref::<Decimal128Array>().unwrap();
    assert_eq!(sums.value(0), 2);
    assert_eq!(sums.value(1), 4);
    assert_eq!(sums.scale(), -2);
    let product = evaluate_expression(&d.clone().mul(d.clone()), &batch).unwrap();
    assert_eq!(product.array.as_ref(), decimals(vec![Some(1), Some(4)], 21, -4).as_ref());
    let literal = Expression::literal(Scalar::Decimal(2, 10, -2));
    let equal = evaluate_expression(&d.eq(literal), &batch).unwrap();
    assert_eq!(equal.array.as_ref(), &BooleanArray::from(vec![false, true]));
}

#[test]
fn arrays_that_a_kernel_could_panic_on_are_no_operands() {
    let months: ArrayRef = Arc::new(IntervalYearMonthArray::from(vec![1, 2]));
    let mut builder = StringDictionaryBuilder::<Int32Type>::new();
    builder.append_value("a");
    builder.append_value("b");
    let encoded: ArrayRef = Arc::new(builder.finish());
    let deep: ArrayRef = decimals(vec![Some(1), Some(2)], 10, -100);
    let batch = batch_of(vec![
        ("m", months),
        ("e", encoded),
        ("deep", deep),
        ("day", Arc::new(Date32Array::from(vec![10, 20]))),
    ]);
    let m = column("m", DataType::Integer);
    let e = column("e", DataType::String);
    let deep = column("deep", DataType::Decimal(10, -100));
    let day = column("day", DataType::Date);
    assert!(matches!(
        evaluate_expression(&day.add(m.clone()), &batch),
        Err(Error::TypeMismatch(Expectation::SupportedArray))
    ));
    assert!(matches!(
        evaluate_expression(&deep.clone().add(deep.clone()), &batch),
        Err(Error::TypeMismatch(Expectation::SupportedArray))
    ));
    assert!(matches!(
        evaluate_expression(&e.clone().eq(e.clone()), &batch),
        Err(Error::TypeMismatch(Expectation::SupportedArray))
    ));
    let same = evaluate_expression(&m.clone().eq(m), &batch).unwrap();
    assert_eq!(same.array.as_ref(), &BooleanArray::from(vec![true, true]));
    let same = evaluate_expression(&deep.clone().lt_eq(deep), &batch).unwrap();
    assert_eq!(same.array.as_ref(), &BooleanArray::from(vec![true, true]));
    assert!(matches!(
        evaluate_expression(&e.clone().add(e), &batch),
        Err(Error::KernelError(_))
    ));
}

#[test]
fn connectives_need_boolean_operands() {
    let batch = batch_of(vec![
        ("n", integers(vec![Some(1), Some(0)])),
        ("p", booleans(vec![Some(true), Some(false)])),
    ]);
    let n = column("n", DataType::Integer);
    let p = column("p", DataType::Boolean);
    for expression in vec![
        n.clone().and(p.clone()),
        p.clone().and(n.clone()),
        n.clone().or(p.clone()),
        p.clone().or(n.clone()),
        n.clone().and(n.clone()),
    ] {
        assert!(matches!(
            evaluate_expression(&expression, &batch),
            Err(Error::TypeMismatch(Expectation::BooleanArray))
        ));
    }
}

#[test]
fn left_operand_of_a_connective_is_judged_first() {
    let batch = batch_of(vec![
        ("n", integers(vec![Some(1)])),
        ("p", booleans(vec![Some(true)])),
    ]);
    let n = column("n", DataType::Integer);
    let p = column("p", DataType::Boolean);
    let x = column("x", DataType::Boolean);
    assert!(matches!(
        evaluate_expression(&n.clone().and(x.clone()), &batch),
        Err(Error::TypeMismatch(Expectation::BooleanArray))
    ));
    assert!(matches!(
        evaluate_expression(&x.clone().or(n.clone()), &batch),
        Err(Error::MissingColumn(name)) if name == "x"
    ));
    assert!(matches!(
        evaluate_expression(&p.and(x), &batch),
        Err(Error::MissingColumn(name)) if name == "x"
    ));
}

#[test]
fn connectives_give_null_where_an_operand_is_null() {
    let batch = batch_of(vec![
        ("p", booleans(vec![Some(true), Some(false), None, None, Some(true)])),
        ("q", booleans(vec![None, None, Some(true), Some(false), Some(true)])),
    ]);
    let p = column("p", DataType::Boolean);
    let q = column("q", DataType::Boolean);
    let result = evaluate_expression(&p.clone().and(q.clone()), &batch).unwrap();
    assert_eq!(
        result.array.as_ref(),
        &BooleanArray::from(vec![None, None, None, None, Some(true)])
    );
    let result = evaluate_expression(&p.or(q), &batch).unwrap();
    assert_eq!(
        result.array.as_ref(),
        &BooleanArray::from(vec![None, None, None, None, Some(true)])
    );
}

#[test]
fn nested_expressions_are_evaluated_bottom_up() {
    let batch = integer_batch();
    let a = column("a", DataType::Integer);
    let b = column("b", DataType::Integer);
    let two = Expression::literal(Scalar::Integer(2));
    let expression = a
        .clone()
        .add(b.clone())
        .mul(two.clone())
        .gt(Expression::literal(Scalar::Integer(7)))
        .and(a.clone().lt(b.clone()).or(a.eq(two)));
    let result = evaluate_expression(&expression, &batch).unwrap();
    assert_eq!(result.array.as_ref(), &BooleanArray::from(vec![true, true, false]));
    assert_eq!(result.array.len(), 3);
}

#[test]
fn evaluating_twice_gives_the_same() {
    let batch = integer_batch();
    let expression = column("a", DataType::Integer)
        .mul(column("b", DataType::Integer))
        .lt_eq(Expression::literal(Scalar::Integer(3)));
    let first = evaluate_expression(&expression, &batch).unwrap();
    let second = evaluate_expression(&expression, &batch).unwrap();
    assert_eq!(first.array.as_ref(), second.array.as_ref());
    assert_eq!(first.array.to_data(), second.array.to_data());
    let failing = column("x", DataType::Integer);
    assert!(matches!(evaluate_expression(&failing, &batch), Err(Error::MissingColumn(_))));
    assert!(matches!(evaluate_expression(&failing, &batch), Err(Error::MissingColumn(_))));
}

#[test]
fn cloned_expression_evaluates_alike() {
    let batch = integer_batch();
    let expression = column("a", DataType::Integer)
        .sub(Expression::literal(Scalar::Integer(1)))
        .ne(column("b", DataType::Integer));
    let copy = expression.clone();
    let first = evaluate_expression(&expression, &batch).unwrap();
    let second = evaluate_expression(&copy, &batch).unwrap();
    assert_eq!(first.array.as_ref(), second.array.as_ref());
    assert_eq!(first.array.as_ref(), &BooleanArray::from(vec![true, true, true]));
}

#[test]
fn operators_apply_to_arrays_directly() {
    let left = ColumnArray { array: integers(vec![Some(6), Some(8)]) };
    let right = ColumnArray { array: integers(vec![Some(3), Some(-2)]) };
    let sum = evaluate_arithmetic(BinaryOperator::Plus, &left, &right).unwrap();
    assert_eq!(sum.array.as_ref(), &Int32Array::from(vec![9, 6]));
    let difference = evaluate_arithmetic(BinaryOperator::Minus, &left, &right).unwrap();
    assert_eq!(difference.array.as_ref(), &Int32Array::from(vec![3, 10]));
    let product = evaluate_arithmetic(BinaryOperator::Multiply, &left, &right).unwrap();
    assert_eq!(product.array.as_ref(), &Int32Array::from(vec![18, -16]));
    let quotient = evaluate_arithmetic(BinaryOperator::Divide, &left, &right).unwrap();
    assert_eq!(quotient.array.as_ref(), &Int32Array::from(vec![2, -4]));
    let greater =
        evaluate_comparison(ComparisonOperator::GreaterThanOrEqual, &left, &right).unwrap();
    assert_eq!(greater.array.as_ref(), &BooleanArray::from(vec![true, true]));
    let short = ColumnArray { array: integers(vec![Some(1)]) };
    assert!(matches!(
        evaluate_arithmetic(BinaryOperator::Plus, &left, &short),
        Err(Error::KernelError(_))
    ));
    assert!(matches!(
        evaluate_comparison(ComparisonOperator::Equal, &left, &short),
        Err(Error::KernelError(_))
    ));
    let p = ColumnArray { array: booleans(vec![Some(true), Some(false)]) };
    let q = ColumnArray { array: booleans(vec![Some(true), Some(true)]) };
    let both = evaluate_logical(LogicalOperator::And, &p, &q).unwrap();
    assert_eq!(both.array.as_ref(), &BooleanArray::from(vec![true, false]));
    let either = evaluate_logical(LogicalOperator::Or, &p, &q).unwrap();
    assert_eq!(either.array.as_ref(), &BooleanArray::from(vec![true, true]));
    let one = ColumnArray { array: booleans(vec![Some(true)]) };
    assert!(matches!(
        evaluate_logical(LogicalOperator::And, &p, &one),
        Err(Error::KernelError(_))
    ));
}

#[test]
fn boolean_check_hands_the_array_on() {
    let array = booleans(vec![Some(true)]);
    let checked = expect_boolean(ColumnArray { array: array.clone() }).unwrap();
    assert!(Arc::ptr_eq(&checked.array, &array));
    let result = expect_boolean(ColumnArray { array: integers(vec![Some(1)]) });
    assert!(matches!(result, Err(Error::TypeMismatch(Expectation::BooleanArray))));
}

#[test]
fn operands_are_told_apart() {
    let whole = ColumnArray { array: integers(vec![]) };
    assert!(is_computable(&whole) && is_comparable(&whole));
    let longs = ColumnArray { array: Arc::new(Int64Array::from(vec![1i64])) };
    assert!(is_computable(&longs) && is_comparable(&longs));
    let widest = ColumnArray { array: decimals(vec![Some(1)], 38, -38) };
    assert!(is_computable(&widest) && is_comparable(&widest));
    let deep = ColumnArray { array: decimals(vec![Some(1)], 38, -39) };
    assert!(!is_computable(&deep) && is_comparable(&deep));
    let months = ColumnArray { array: Arc::new(IntervalYearMonthArray::from(vec![1])) };
    assert!(!is_computable(&months) && is_comparable(&months));
    let mut builder = StringDictionaryBuilder::<Int32Type>::new();
    builder.append_value("a");
    let encoded = ColumnArray { array: Arc::new(builder.finish()) };
    assert!(is_computable(&encoded) && !is_comparable(&encoded));
    assert!(ArrayKind::Typed(DataType::Decimal(76, 76)).is_computable());
    assert!(!ArrayKind::OtherDecimal(77, 0).is_computable());
    assert!(!ArrayKind::OtherDecimal(10, 77).is_computable());
    assert!(ArrayKind::OtherDecimal(10, -38).is_computable());
    assert!(ArrayKind::HalfFloat.is_computable() && ArrayKind::DoubleFloat.is_comparable());
    assert!(ArrayKind::Other.is_computable() && ArrayKind::Other.is_comparable());
    assert!(!ArrayKind::Interval.is_computable() && !ArrayKind::Encoded.is_comparable());
}

#[test]
fn kernel_failure_keeps_its_cause() {
    let cause = arrow_schema::ArrowError::DivideByZero;
    match kernel_result(Err(cause)) {
        Err(Error::KernelError(arrow_schema::ArrowError::DivideByZero)) => {}
        _ => panic!("expected the kernel's own error"),
    }
    let array = integers(vec![Some(1)]);
    let kept = kernel_result(Ok(ColumnArray { array: array.clone() })).unwrap();
    assert!(Arc::ptr_eq(&kept.array, &array));
}

#[test]
fn expectations_have_a_message() {
    assert_eq!(Expectation::BooleanArray.message(), "expected boolean array");
    assert_eq!(Expectation::SupportedArray.message(), "expected array that the kernel takes");
    assert_eq!(Expectation::WellFormedLiteral.message(), "expected well-formed literal");
    assert_eq!(Expectation::LiteralWithinLimit.message(), "expected literal that fits an array");
}

#[test]
fn bound_evaluator_packages_one_output_column() {
    let schema = Schema::new(vec![
        StructField::new("a".to_string(), DataType::Integer, true),
        StructField::new("b".to_string(), DataType::Integer, true),
    ]);
    let expression = column("a", DataType::Integer).add(column("b", DataType::Integer));
    let evaluator = DefaultExpressionHandler {}.get_evaluator(schema, expression);
    let output = evaluator.evaluate(&integer_batch()).unwrap();
    assert_eq!(output.batch.num_columns(), 1);
    assert_eq!(output.batch.num_rows(), 3);
    assert_eq!(OUTPUT_COLUMN, "output");
    let field = output.batch.schema().field(0).clone();
    assert_eq!(field.name(), "output");
    assert_eq!(field.data_type(), &arrow_schema::DataType::Int32);
    assert!(field.is_nullable());
    let made = output.batch.column_by_name("output").unwrap();
    assert_eq!(made.as_ref(), &Int32Array::from(vec![4, 4, 4]));
    let other = batch_of(vec![
        ("a", integers(vec![Some(10), None])),
        ("b", integers(vec![Some(1), Some(2)])),
    ]);
    let output = evaluator.evaluate(&other).unwrap();
    assert_eq!(output.batch.num_rows(), 2);
    assert_eq!(
        output.batch.column(0).as_ref(),
        &Int32Array::from(vec![Some(11), None])
    );
}

#[test]
fn bound_evaluator_hands_failures_on() {
    let schema = Schema::new(vec![]);
    let handler = DefaultExpressionHandler {};
    let evaluator = handler.get_evaluator(schema.clone(), column("x", DataType::Boolean));
    assert!(matches!(
        evaluator.evaluate(&integer_batch()),
        Err(Error::MissingColumn(name)) if name == "x"
    ));
    let evaluator = handler.get_evaluator(
        schema,
        column("a", DataType::Integer).or(column("b", DataType::Integer)),
    );
    assert!(matches!(
        evaluator.evaluate(&integer_batch()),
        Err(Error::TypeMismatch(Expectation::BooleanArray))
    ));
}
