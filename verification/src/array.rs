//! Arrow arrays as the evaluator sees them: an opaque handle, the logical
//! type and cells that stand for its contents, and the constructors that
//! build an array from plain values.

use crate::schema::DataType;
use arrow_array::types::{ArrowPrimitiveType, Float32Type};
use arrow_array::{
    Array, ArrayRef, BinaryArray, BooleanArray, Date32Array, Decimal128Array, Float32Array,
    Int32Array, StringArray, TimestampMicrosecondArray,
};
use arrow_schema::DataType::{
    Binary, Boolean, Date32, Decimal128, Decimal256, Decimal32, Decimal64, Dictionary, Float16,
    Float32, Float64, Int32, Interval, RunEndEncoded, Timestamp, Utf8,
};
use arrow_schema::{ArrowError, TimeUnit};
use std::sync::Arc;
use vstd::prelude::*;
use vstd::utf8::encode_utf8;

verus! {

/// `arrow_schema::ArrowError`, carried through as the cause of a kernel failure.
#[verifier::external_type_specification]
#[verifier::external_body]
pub struct ExArrowError(ArrowError);

/// A shared, immutable Arrow array (`arrow_array::ArrayRef`).
///
/// The verifier sees nothing inside; contracts speak of [`array_kind`] and
/// [`array_cells`].
#[verifier::external_body]
#[derive(Debug)]
pub struct ColumnArray {
    pub array: ArrayRef,
}

/// One row of an array.
///
/// Integers, timestamps (microseconds since the epoch), dates (days since the
/// epoch) and decimals (unscaled value) are `Int`; a float is its IEEE 754
/// binary32 bit pattern; a string is its UTF-8 encoding.
pub enum Cell {
    Null,
    Int(int),
    Float(u32),
    Bool(bool),
    Bytes(Seq<u8>),
}

impl Cell {
    /// The integer of an `Int` cell.
    pub open spec fn int_value(self) -> int {
        match self {
            Cell::Int(value) => value,
            _ => 0,
        }
    }

    /// The bit pattern of a `Float` cell.
    pub open spec fn bits(self) -> u32 {
        match self {
            Cell::Float(bits) => bits,
            _ => 0,
        }
    }

    /// The truth value of a `Bool` cell.
    pub open spec fn truth(self) -> bool {
        match self {
            Cell::Bool(value) => value,
            _ => false,
        }
    }

    /// The bytes of a `Bytes` cell.
    pub open spec fn bytes(self) -> Seq<u8> {
        match self {
            Cell::Bytes(bytes) => bytes,
            _ => Seq::empty(),
        }
    }
}

/// What the Arrow data type of an array is to the library.
#[derive(Debug, Clone, Copy, PartialEq, Eq, Structural)]
pub enum ArrayKind {
    /// One of the Arrow types that stand for the library's types: `Int32`
    /// for `Integer`, `Float32` for `Float`, `Utf8` for `String`,
    /// `Boolean` for `Boolean`, `Timestamp(Microsecond, None)` for
    /// `Timestamp`, `Date32` for `Date`, `Binary` for `Binary`, and
    /// `Decimal128(p, s)` for `Decimal(p, s)`.
    Typed(DataType),
    /// `Float16`.
    HalfFloat,
    /// `Float64`.
    DoubleFloat,
    /// `Decimal32`, `Decimal64` or `Decimal256`, with precision and scale.
    OtherDecimal(u8, i8),
    /// An interval of any unit.
    Interval,
    /// `Dictionary` or `RunEndEncoded`.
    Encoded,
    /// Any other Arrow type.
    Other,
}

/// The widest precision that Arrow has for a decimal.
pub const WIDEST_DECIMAL_PRECISION: u8 = 76;

/// The least scale of a decimal that the arithmetic kernels are given.
pub const LEAST_DECIMAL_SCALE: i8 = -38;

/// Whether the arithmetic kernels work out the result type of a decimal
/// of this precision and scale within their 8-bit integers.
pub open spec fn decimal_within_reach(precision: u8, scale: i8) -> bool {
    precision <= WIDEST_DECIMAL_PRECISION && LEAST_DECIMAL_SCALE <= scale
        <= WIDEST_DECIMAL_PRECISION
}

impl ArrayKind {
    /// The library type that the kind stands for, if it stands for one.
    pub open spec fn data_type(self) -> Option<DataType> {
        match self {
            ArrayKind::Typed(data_type) => Some(data_type),
            _ => None,
        }
    }

    /// Whether arrays of this kind hold floats.
    pub open spec fn is_float(self) -> bool {
        self == ArrayKind::Typed(DataType::Float) || self is HalfFloat || self is DoubleFloat
    }

    /// Whether the arithmetic kernels take arrays of this kind without
    /// panic: no interval, and no decimal out of reach.
    pub open spec fn computable(self) -> bool {
        match self {
            ArrayKind::Interval => false,
            ArrayKind::Typed(DataType::Decimal(precision, scale)) => decimal_within_reach(
                precision,
                scale,
            ),
            ArrayKind::OtherDecimal(precision, scale) => decimal_within_reach(precision, scale),
            _ => true,
        }
    }

    /// Whether the comparison kernels take arrays of this kind without
    /// panic: no dictionary and no run-end encoded array.
    pub open spec fn comparable(self) -> bool {
        !(self is Encoded)
    }

    /// Decides [`ArrayKind::computable`].
    pub fn is_computable(&self) -> (ok: bool)
        ensures
            ok == self.computable(),
    {
        match self {
            ArrayKind::Interval => false,
            ArrayKind::Typed(DataType::Decimal(precision, scale)) => within_reach(
                *precision,
                *scale,
            ),
            ArrayKind::OtherDecimal(precision, scale) => within_reach(*precision, *scale),
            _ => true,
        }
    }

    /// Decides [`ArrayKind::comparable`].
    pub fn is_comparable(&self) -> (ok: bool)
        ensures
            ok == self.comparable(),
    {
        match self {
            ArrayKind::Encoded => false,
            _ => true,
        }
    }
}

/// Decides [`decimal_within_reach`].
pub fn within_reach(precision: u8, scale: i8) -> (ok: bool)
    ensures
        ok == decimal_within_reach(precision, scale),
{
    precision <= WIDEST_DECIMAL_PRECISION && LEAST_DECIMAL_SCALE <= scale && scale <= 76
}

/// What the library knows of an array: its kind, one cell per row, and
/// the array itself where its kind is none of the library's types.
pub struct ArrayModel {
    pub kind: ArrayKind,
    pub cells: Seq<Cell>,
    pub array: Option<ColumnArray>,
}

impl ArrayModel {
    /// The number of rows.
    pub open spec fn len(self) -> nat {
        self.cells.len()
    }

    /// The library type of the array, if it has one.
    pub open spec fn data_type(self) -> Option<DataType> {
        self.kind.data_type()
    }

    /// Whether the array is a boolean array.
    pub open spec fn is_boolean(self) -> bool {
        self.kind == ArrayKind::Typed(DataType::Boolean)
    }
}

/// The array of type `data_type` that holds `cells`.
pub open spec fn typed_array(data_type: DataType, cells: Seq<Cell>) -> ArrayModel {
    ArrayModel { kind: ArrayKind::Typed(data_type), cells, array: None }
}

/// The kind of an array, decided by its Arrow data type as [`ArrayKind`]
/// says.
pub uninterp spec fn array_kind(array: ColumnArray) -> ArrayKind;

/// The rows of an array in order, one cell each. For an array whose kind
/// is none of the library's types only the number of cells has a meaning.
pub uninterp spec fn array_cells(array: ColumnArray) -> Seq<Cell>;

impl View for ColumnArray {
    type V = ArrayModel;

    open spec fn view(&self) -> ArrayModel {
        ArrayModel {
            kind: array_kind(*self),
            cells: array_cells(*self),
            array: if array_kind(*self) is Typed {
                None
            } else {
                Some(*self)
            },
        }
    }
}

/// The cell of an optional 32-bit integer.
pub open spec fn int32_cell(value: Option<i32>) -> Cell {
    match value {
        Some(v) => Cell::Int(v as int),
        None => Cell::Null,
    }
}

/// The cell of an optional 64-bit integer.
pub open spec fn int64_cell(value: Option<i64>) -> Cell {
    match value {
        Some(v) => Cell::Int(v as int),
        None => Cell::Null,
    }
}

/// The cell of an optional 128-bit integer.
pub open spec fn int128_cell(value: Option<i128>) -> Cell {
    match value {
        Some(v) => Cell::Int(v as int),
        None => Cell::Null,
    }
}

/// The cell of an optional float, given by its bit pattern.
pub open spec fn float_cell(value: Option<u32>) -> Cell {
    match value {
        Some(bits) => Cell::Float(bits),
        None => Cell::Null,
    }
}

/// The cell of an optional boolean.
pub open spec fn bool_cell(value: Option<bool>) -> Cell {
    match value {
        Some(b) => Cell::Bool(b),
        None => Cell::Null,
    }
}

/// The cell of an optional string: its UTF-8 encoding.
pub open spec fn string_cell(value: Option<String>) -> Cell {
    match value {
        Some(s) => Cell::Bytes(encode_utf8(s@)),
        None => Cell::Null,
    }
}

/// The cell of an optional byte string.
pub open spec fn binary_cell(value: Option<Vec<u8>>) -> Cell {
    match value {
        Some(bytes) => Cell::Bytes(bytes@),
        None => Cell::Null,
    }
}

/// The number of bytes that the cells hold, all rows together.
pub open spec fn total_bytes(cells: Seq<Cell>) -> nat
    decreases cells.len(),
{
    if cells.len() == 0 {
        0
    } else {
        total_bytes(cells.drop_last()) + cells.last().bytes().len()
    }
}

/// The most bytes that a string or binary array can hold: its offsets
/// are 32-bit signed integers.
pub const MAX_ARRAY_BYTES: usize = 0x7fff_ffff;

/// `rows` copies of one cell hold `rows` times the bytes of the cell.
pub proof fn lemma_total_bytes_of_constant(cell: Cell, rows: nat)
    ensures
        total_bytes(Seq::new(rows, |row: int| cell)) == rows * cell.bytes().len(),
    decreases rows,
{
    let cells = Seq::new(rows, |row: int| cell);
    let width = cell.bytes().len();
    if rows > 0 {
        let fewer = (rows - 1) as nat;
        assert(cells.drop_last() =~= Seq::new(fewer, |row: int| cell));
        assert(cells.last() == cell);
        lemma_total_bytes_of_constant(cell, fewer);
        assert(rows * width == fewer * width + width) by (nonlinear_arith)
            requires
                fewer == rows - 1,
        ;
    } else {
        assert(rows * width == 0) by (nonlinear_arith)
            requires
                rows == 0,
        ;
    }
}

/// Reads `Array::data_type` and tells the library type that it stands
/// for, if it stands for one.
///
/// The contract restates the first variant of [`ArrayKind`].
#[verifier::external_body]
pub(crate) fn library_type_of(array: &ColumnArray) -> (data_type: Option<DataType>)
    ensures
        data_type == array_kind(*array).data_type(),
{
    match array.array.data_type() {
        Int32 => Some(DataType::Integer),
        Float32 => Some(DataType::Float),
        Utf8 => Some(DataType::String),
        Boolean => Some(DataType::Boolean),
        Timestamp(TimeUnit::Microsecond, None) => Some(DataType::Timestamp),
        Date32 => Some(DataType::Date),
        Binary => Some(DataType::Binary),
        Decimal128(p, s) => Some(DataType::Decimal(*p, *s)),
        _ => None,
    }
}

/// Reads `Array::data_type` of an array that has none of the library's
/// types and tells its kind.
///
/// The contract restates the other variants of [`ArrayKind`].
#[verifier::external_body]
pub(crate) fn other_kind_of(array: &ColumnArray) -> (kind: ArrayKind)
    requires
        !(array_kind(*array) is Typed),
    ensures
        kind == array_kind(*array),
{
    match array.array.data_type() {
        Float16 => ArrayKind::HalfFloat,
        Float64 => ArrayKind::DoubleFloat,
        Decimal32(p, s) | Decimal64(p, s) | Decimal256(p, s) => ArrayKind::OtherDecimal(*p, *s),
        Interval(_) => ArrayKind::Interval,
        Dictionary(_, _) | RunEndEncoded(_, _) => ArrayKind::Encoded,
        _ => ArrayKind::Other,
    }
}

/// The kind of an array.
pub(crate) fn kind_of(array: &ColumnArray) -> (kind: ArrayKind)
    ensures
        kind == array_kind(*array),
{
    match library_type_of(array) {
        Some(data_type) => ArrayKind::Typed(data_type),
        None => other_kind_of(array),
    }
}

/// `Int32Array::from(Vec<Option<i32>>)`: an `Int32` array with one row per
/// element, null where the element is `None`.
#[verifier::external_body]
pub(crate) fn int32_array(values: Vec<Option<i32>>) -> (array: ColumnArray)
    ensures
        array_kind(array) == ArrayKind::Typed(DataType::Integer),
        array_cells(array) == values@.map_values(|v: Option<i32>| int32_cell(v)),
{
    ColumnArray { array: Arc::new(Int32Array::from(values)) }
}

/// `Float32Array::from_iter` over the floats with the given bit patterns
/// (`f32::from_bits`): a `Float32` array with one row per element, null
/// where the element is `None`.
#[verifier::external_body]
pub(crate) fn float32_array(values: Vec<Option<u32>>) -> (array: ColumnArray)
    ensures
        array_kind(array) == ArrayKind::Typed(DataType::Float),
        array_cells(array) == values@.map_values(|v: Option<u32>| float_cell(v)),
{
    let floats = values.into_iter().map(
        |v| v.map(<<Float32Type as ArrowPrimitiveType>::Native>::from_bits),
    );
    ColumnArray { array: Arc::new(Float32Array::from_iter(floats)) }
}

/// `StringArray::from(Vec<Option<String>>)`: a `Utf8` array with one row per
/// element, null where the element is `None`. It panics where the strings
/// hold more than `i32::MAX` bytes together.
#[verifier::external_body]
pub(crate) fn string_array(values: Vec<Option<String>>) -> (array: ColumnArray)
    requires
        total_bytes(values@.map_values(|v: Option<String>| string_cell(v))) <= MAX_ARRAY_BYTES,
    ensures
        array_kind(array) == ArrayKind::Typed(DataType::String),
        array_cells(array) == values@.map_values(|v: Option<String>| string_cell(v)),
{
    ColumnArray { array: Arc::new(StringArray::from(values)) }
}

/// `BooleanArray::from(Vec<Option<bool>>)`: a `Boolean` array with one row
/// per element, null where the element is `None`.
#[verifier::external_body]
pub(crate) fn boolean_array(values: Vec<Option<bool>>) -> (array: ColumnArray)
    ensures
        array_kind(array) == ArrayKind::Typed(DataType::Boolean),
        array_cells(array) == values@.map_values(|v: Option<bool>| bool_cell(v)),
{
    ColumnArray { array: Arc::new(BooleanArray::from(values)) }
}

/// `TimestampMicrosecondArray::from(Vec<Option<i64>>)`: a microsecond
/// timestamp array without a time zone, one row per element, null where the
/// element is `None`.
#[verifier::external_body]
pub(crate) fn timestamp_array(values: Vec<Option<i64>>) -> (array: ColumnArray)
    ensures
        array_kind(array) == ArrayKind::Typed(DataType::Timestamp),
        array_cells(array) == values@.map_values(|v: Option<i64>| int64_cell(v)),
{
    ColumnArray { array: Arc::new(TimestampMicrosecondArray::from(values)) }
}

/// `Date32Array::from(Vec<Option<i32>>)`: a `Date32` array with one row per
/// element, null where the element is `None`.
#[verifier::external_body]
pub(crate) fn date32_array(values: Vec<Option<i32>>) -> (array: ColumnArray)
    ensures
        array_kind(array) == ArrayKind::Typed(DataType::Date),
        array_cells(array) == values@.map_values(|v: Option<i32>| int32_cell(v)),
{
    ColumnArray { array: Arc::new(Date32Array::from(values)) }
}

/// `BinaryArray::from_iter` over optional byte strings: a `Binary` array
/// with one row per element, null where the element is `None`. It panics
/// where the byte strings hold more than `i32::MAX` bytes together.
#[verifier::external_body]
pub(crate) fn binary_array(values: Vec<Option<Vec<u8>>>) -> (array: ColumnArray)
    requires
        total_bytes(values@.map_values(|v: Option<Vec<u8>>| binary_cell(v))) <= MAX_ARRAY_BYTES,
    ensures
        array_kind(array) == ArrayKind::Typed(DataType::Binary),
        array_cells(array) == values@.map_values(|v: Option<Vec<u8>>| binary_cell(v)),
{
    ColumnArray { array: Arc::new(BinaryArray::from_iter(values)) }
}

/// `Decimal128Array::from(Vec<Option<i128>>)` followed by
/// `with_precision_and_scale`, which fails only when the precision is zero
/// or above 38, the scale is above 38, or a positive scale is above the
/// precision. On success
/// the array is a `Decimal128(precision, scale)` array with one row per
/// element, null where the element is `None`.
#[verifier::external_body]
pub(crate) fn decimal128_array(values: Vec<Option<i128>>, precision: u8, scale: i8) -> (made:
    Result<ColumnArray, ArrowError>)
    ensures
        DataType::Decimal(precision, scale).well_formed() ==> made is Ok,
        made matches Ok(array) ==> array_kind(array) == ArrayKind::Typed(DataType::Decimal(precision, scale)),
        made matches Ok(array) ==> array_cells(array) == values@.map_values(|v: Option<i128>| int128_cell(v)),
{
    let array = Decimal128Array::from(values).with_precision_and_scale(precision, scale)?;
    Ok(ColumnArray { array: Arc::new(array) })
}

} // verus!
