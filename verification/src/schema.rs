//! Logical types of columns and literals, and the schema an evaluator is bound to.

use vstd::prelude::*;

verus! {

/// Largest precision a decimal column can carry.
pub const MAX_DECIMAL_PRECISION: u8 = 38;

/// The logical type of a column or of a literal.
///
/// `Decimal` carries its precision (number of significant digits) and its
/// scale (number of digits after the decimal point).
#[derive(Debug, Clone, Copy, PartialEq, Eq, Structural)]
pub enum DataType {
    Integer,
    Float,
    String,
    Boolean,
    Timestamp,
    Date,
    Binary,
    Decimal(u8, i8),
}

impl DataType {
    /// A decimal type is well formed when Arrow has such a type: the
    /// precision is from 1 to 38, the scale is at most 38, and a positive
    /// scale is at most the precision. Every other type is well formed.
    pub open spec fn well_formed(self) -> bool {
        self matches DataType::Decimal(precision, scale) ==> 1 <= precision
            <= MAX_DECIMAL_PRECISION && scale <= MAX_DECIMAL_PRECISION && (scale <= 0 || scale
            <= precision)
    }

    /// Decides [`DataType::well_formed`].
    pub fn is_well_formed(&self) -> (ok: bool)
        ensures
            ok == self.well_formed(),
    {
        match self {
            DataType::Decimal(precision, scale) => {
                1 <= *precision && *precision <= MAX_DECIMAL_PRECISION && *scale <= 38 && (*scale
                    <= 0 || (*scale as u8) <= *precision)
            },
            _ => true,
        }
    }
}

/// One named, typed column of a schema.
#[derive(Debug, Clone)]
pub struct StructField {
    pub name: String,
    pub data_type: DataType,
    pub nullable: bool,
}

/// The ordered fields a batch is expected to provide.
#[derive(Debug, Clone)]
pub struct Schema {
    pub fields: Vec<StructField>,
}

impl Schema {
    /// A schema with the given fields, in the given order.
    pub fn new(fields: Vec<StructField>) -> (schema: Schema)
        ensures
            schema.fields == fields,
    {
        Schema { fields }
    }
}

impl StructField {
    /// A field with the given name, type and nullability.
    pub fn new(name: String, data_type: DataType, nullable: bool) -> (field: StructField)
        ensures
            field.name == name,
            field.data_type == data_type,
            field.nullable == nullable,
    {
        StructField { name, data_type, nullable }
    }
}

} // verus!
