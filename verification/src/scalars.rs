//! Literal values and their broadcast to constant arrays.

use crate::array::{
    binary_array, binary_cell, boolean_array, date32_array, decimal128_array, float32_array,
    int32_array, lemma_total_bytes_of_constant, string_array, string_cell, timestamp_array,
    typed_array, ArrayModel, Cell, ColumnArray, MAX_ARRAY_BYTES,
};
use crate::schema::DataType;
use vstd::pervasive::unreached;
use vstd::prelude::*;
use vstd::utf8::encode_utf8;

verus! {

/// A single typed value.
///
/// `Float` holds the IEEE 754 binary32 bit pattern of the value. `Decimal`
/// holds the unscaled value, then the precision and the scale. `Null` is the
/// absent value of the given type.
#[derive(Debug, PartialEq, Eq)]
pub enum Scalar {
    Integer(i32),
    Float(u32),
    String(String),
    Boolean(bool),
    Timestamp(i64),
    Date(i32),
    Binary(Vec<u8>),
    Decimal(i128, u8, i8),
    Null(DataType),
}

/// `count` copies of `value`.
fn repeated<T: Copy>(value: Option<T>, count: usize) -> (values: Vec<Option<T>>)
    ensures
        values@ == Seq::new(count as nat, |i: int| value),
{
    let mut values: Vec<Option<T>> = Vec::new();
    let mut filled: usize = 0;
    while filled < count
        invariant
            filled <= count,
            values@ == Seq::new(filled as nat, |i: int| value),
        decreases count - filled,
    {
        values.push(value);
        filled = filled + 1;
        assert(values@ =~= Seq::new(filled as nat, |i: int| value));
    }
    values
}

/// `count` absent values.
fn absent<T>(count: usize) -> (values: Vec<Option<T>>)
    ensures
        values@ == Seq::new(count as nat, |i: int| None::<T>),
{
    let mut values: Vec<Option<T>> = Vec::new();
    let mut filled: usize = 0;
    while filled < count
        invariant
            filled <= count,
            values@ == Seq::new(filled as nat, |i: int| None::<T>),
        decreases count - filled,
    {
        values.push(None);
        filled = filled + 1;
        assert(values@ =~= Seq::new(filled as nat, |i: int| None::<T>));
    }
    values
}

/// `count` copies of the string `value`.
fn repeated_string(value: &String, count: usize) -> (values: Vec<Option<String>>)
    ensures
        values@ == Seq::new(count as nat, |i: int| Some(*value)),
{
    let mut values: Vec<Option<String>> = Vec::new();
    let mut filled: usize = 0;
    while filled < count
        invariant
            filled <= count,
            values@ == Seq::new(filled as nat, |i: int| Some(*value)),
        decreases count - filled,
    {
        values.push(Some(value.clone()));
        filled = filled + 1;
        assert(values@ =~= Seq::new(filled as nat, |i: int| Some(*value)));
    }
    values
}

/// `count` copies of the byte string `value`.
fn repeated_bytes(value: &Vec<u8>, count: usize) -> (values: Vec<Option<Vec<u8>>>)
    ensures
        values@.len() == count,
        forall|i: int| 0 <= i < count ==> (#[trigger] values@[i] matches Some(bytes) && bytes@ == value@),
{
    let mut values: Vec<Option<Vec<u8>>> = Vec::new();
    let mut filled: usize = 0;
    while filled < count
        invariant
            filled <= count,
            values@.len() == filled,
            forall|i: int|
                0 <= i < filled ==> (#[trigger] values@[i] matches Some(bytes) && bytes@ == value@),
        decreases count - filled,
    {
        let copy = value.clone();
        assert(copy@ =~= value@);
        values.push(Some(copy));
        filled = filled + 1;
    }
    values
}

impl Scalar {
    /// The logical type of the value.
    pub open spec fn data_type(self) -> DataType {
        match self {
            Scalar::Integer(_) => DataType::Integer,
            Scalar::Float(_) => DataType::Float,
            Scalar::String(_) => DataType::String,
            Scalar::Boolean(_) => DataType::Boolean,
            Scalar::Timestamp(_) => DataType::Timestamp,
            Scalar::Date(_) => DataType::Date,
            Scalar::Binary(_) => DataType::Binary,
            Scalar::Decimal(_, precision, scale) => DataType::Decimal(precision, scale),
            Scalar::Null(data_type) => data_type,
        }
    }

    /// The cell that holds the value.
    pub open spec fn cell(self) -> Cell {
        match self {
            Scalar::Integer(value) => Cell::Int(value as int),
            Scalar::Float(bits) => Cell::Float(bits),
            Scalar::String(value) => Cell::Bytes(encode_utf8(value@)),
            Scalar::Boolean(value) => Cell::Bool(value),
            Scalar::Timestamp(value) => Cell::Int(value as int),
            Scalar::Date(value) => Cell::Int(value as int),
            Scalar::Binary(value) => Cell::Bytes(value@),
            Scalar::Decimal(value, _, _) => Cell::Int(value as int),
            Scalar::Null(_) => Cell::Null,
        }
    }

    /// A scalar is well formed when its type is: a decimal has a precision
    /// from 1 to 38 and a scale from 0 to its precision.
    pub open spec fn well_formed(self) -> bool {
        self.data_type().well_formed()
    }

    /// Whether two scalars have the same type and hold the same value.
    pub open spec fn alike(self, other: Scalar) -> bool {
        self.data_type() == other.data_type() && self.cell() == other.cell()
    }

    /// The number of bytes of a string or binary value; zero for every
    /// other value.
    pub open spec fn byte_len(self) -> nat {
        self.cell().bytes().len()
    }

    /// Whether `rows` copies of the value fit one array: the rows of a
    /// string or binary value hold no more than `i32::MAX` bytes together.
    pub open spec fn fits(self, rows: nat) -> bool {
        self.byte_len() == 0 || self.byte_len() * rows <= MAX_ARRAY_BYTES
    }

    /// Whether the value can be broadcast to `rows` rows: it is well
    /// formed, and that many copies of it fit one array.
    pub open spec fn broadcastable(self, rows: nat) -> bool {
        self.well_formed() && self.fits(rows)
    }

    /// The constant array of `rows` rows that each hold this value.
    pub open spec fn broadcast(self, rows: nat) -> ArrayModel {
        typed_array(self.data_type(), Seq::new(rows, |i: int| self.cell()))
    }

    /// Decides [`Scalar::well_formed`].
    pub fn is_well_formed(&self) -> (ok: bool)
        ensures
            ok == self.well_formed(),
    {
        match self {
            Scalar::Decimal(_, precision, scale) => DataType::Decimal(
                *precision,
                *scale,
            ).is_well_formed(),
            Scalar::Null(data_type) => data_type.is_well_formed(),
            _ => true,
        }
    }

    /// Decides [`Scalar::fits`].
    pub fn fits_rows(&self, rows: usize) -> (ok: bool)
        ensures
            ok == self.fits(rows as nat),
    {
        let len = match self {
            Scalar::String(value) => value.as_str().as_bytes().len(),
            Scalar::Binary(value) => value.len(),
            _ => 0,
        };
        assert(len == self.byte_len());
        if len == 0 {
            true
        } else {
            let most = MAX_ARRAY_BYTES / len;
            assert((rows <= most) == (len * rows <= MAX_ARRAY_BYTES)) by (nonlinear_arith)
                requires
                    len > 0,
                    most == MAX_ARRAY_BYTES as int / len as int,
            ;
            rows <= most
        }
    }

    /// Decides [`Scalar::broadcastable`].
    pub fn is_broadcastable(&self, rows: usize) -> (ok: bool)
        ensures
            ok == self.broadcastable(rows as nat),
    {
        self.is_well_formed() && self.fits_rows(rows)
    }

    /// Broadcasts the value to an array of `num_rows` rows: every row holds
    /// the value, and the array has the value's type, a decimal's precision
    /// and scale included. A `Null` gives the all-null array of its type.
    pub fn to_array(&self, num_rows: usize) -> (array: ColumnArray)
        requires
            self.broadcastable(num_rows as nat),
        ensures
            array@ == self.broadcast(num_rows as nat),
    {
        proof {
            lemma_total_bytes_of_constant(self.cell(), num_rows as nat);
            assert(self.byte_len() * num_rows == num_rows * self.byte_len()) by (nonlinear_arith);
            assert(self.byte_len() == 0 ==> num_rows * self.byte_len() == 0) by (nonlinear_arith);
        }
        let array = match self {
            Scalar::Integer(value) => int32_array(repeated(Some(*value), num_rows)),
            Scalar::Float(bits) => float32_array(repeated(Some(*bits), num_rows)),
            Scalar::String(value) => {
                let values = repeated_string(value, num_rows);
                assert(values@.map_values(|v: Option<String>| string_cell(v)) =~= Seq::new(
                    num_rows as nat,
                    |row: int| self.cell(),
                ));
                string_array(values)
            },
            Scalar::Boolean(value) => boolean_array(repeated(Some(*value), num_rows)),
            Scalar::Timestamp(value) => timestamp_array(repeated(Some(*value), num_rows)),
            Scalar::Date(value) => date32_array(repeated(Some(*value), num_rows)),
            Scalar::Binary(value) => {
                let values = repeated_bytes(value, num_rows);
                assert(values@.map_values(|v: Option<Vec<u8>>| binary_cell(v)) =~= Seq::new(
                    num_rows as nat,
                    |row: int| self.cell(),
                ));
                binary_array(values)
            },
            Scalar::Decimal(value, precision, scale) => decimal_array(
                repeated(Some(*value), num_rows),
                *precision,
                *scale,
            ),
            Scalar::Null(data_type) => null_array(*data_type, num_rows),
        };
        assert(array@.cells =~= self.broadcast(num_rows as nat).cells);
        array
    }
}

impl Clone for Scalar {
    /// The copy has the type and the value of the scalar.
    fn clone(&self) -> (copy: Self)
        ensures
            self.alike(copy),
    {
        match self {
            Scalar::Integer(value) => Scalar::Integer(*value),
            Scalar::Float(bits) => Scalar::Float(*bits),
            Scalar::String(value) => Scalar::String(value.clone()),
            Scalar::Boolean(value) => Scalar::Boolean(*value),
            Scalar::Timestamp(value) => Scalar::Timestamp(*value),
            Scalar::Date(value) => Scalar::Date(*value),
            Scalar::Binary(value) => {
                let copy = value.clone();
                assert(copy@ =~= value@);
                Scalar::Binary(copy)
            },
            Scalar::Decimal(value, precision, scale) => Scalar::Decimal(*value, *precision, *scale),
            Scalar::Null(data_type) => Scalar::Null(*data_type),
        }
    }
}

/// The decimal array of the given values, precision and scale.
fn decimal_array(values: Vec<Option<i128>>, precision: u8, scale: i8) -> (array: ColumnArray)
    requires
        DataType::Decimal(precision, scale).well_formed(),
    ensures
        array@ == typed_array(
            DataType::Decimal(precision, scale),
            values@.map_values(|v: Option<i128>| crate::array::int128_cell(v)),
        ),
{
    match decimal128_array(values, precision, scale) {
        Ok(array) => array,
        Err(_) => unreached(),
    }
}

/// The array of `num_rows` nulls of the given type.
fn null_array(data_type: DataType, num_rows: usize) -> (array: ColumnArray)
    requires
        data_type.well_formed(),
    ensures
        array@ == typed_array(data_type, Seq::new(num_rows as nat, |i: int| Cell::Null)),
{
    proof {
        lemma_total_bytes_of_constant(Cell::Null, num_rows as nat);
    }
    let array = match data_type {
        DataType::Integer => int32_array(absent(num_rows)),
        DataType::Float => float32_array(absent(num_rows)),
        DataType::String => {
            let values = absent(num_rows);
            assert(values@.map_values(|v: Option<String>| string_cell(v)) =~= Seq::new(
                num_rows as nat,
                |row: int| Cell::Null,
            ));
            string_array(values)
        },
        DataType::Boolean => boolean_array(absent(num_rows)),
        DataType::Timestamp => timestamp_array(absent(num_rows)),
        DataType::Date => date32_array(absent(num_rows)),
        DataType::Binary => {
            let values = absent(num_rows);
            assert(values@.map_values(|v: Option<Vec<u8>>| binary_cell(v)) =~= Seq::new(
                num_rows as nat,
                |row: int| Cell::Null,
            ));
            binary_array(values)
        },
        DataType::Decimal(precision, scale) => decimal_array(
            absent(num_rows),
            precision,
            scale,
        ),
    };
    assert(array@.cells =~= Seq::new(num_rows as nat, |i: int| Cell::Null));
    array
}

} // verus!
