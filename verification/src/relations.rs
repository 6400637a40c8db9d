//! How two cells of one type stand to each other.

use crate::array::Cell;
use crate::expressions::ComparisonOperator;
use crate::schema::DataType;
use vstd::prelude::*;

verus! {

/// The place of a float in the IEEE 754 total order, by its bit pattern:
/// negative floats come first, those of larger magnitude before those of
/// smaller, then the positive floats by magnitude; so negative zero comes
/// just before positive zero, and the NaNs lie at both ends.
pub open spec fn float_rank(bits: u32) -> int {
    if bits < 0x8000_0000u32 {
        bits as int
    } else {
        0x7fff_ffff - bits
    }
}

/// Whether `a` comes before `b` in the lexicographic order of byte strings.
pub open spec fn bytes_before(a: Seq<u8>, b: Seq<u8>) -> bool
    decreases a.len(),
{
    if b.len() == 0 {
        false
    } else if a.len() == 0 {
        true
    } else if a[0] != b[0] {
        a[0] < b[0]
    } else {
        bytes_before(a.skip(1), b.skip(1))
    }
}

/// Whether the value of `a` is less than that of `b`, both cells of type
/// `data_type` and neither null: integers by value, floats by the IEEE 754
/// total order, `false` before `true`, byte strings lexicographically.
pub open spec fn value_before(data_type: DataType, a: Cell, b: Cell) -> bool {
    match data_type {
        DataType::Float => float_rank(a.bits()) < float_rank(b.bits()),
        DataType::Boolean => !a.truth() && b.truth(),
        DataType::String | DataType::Binary => bytes_before(a.bytes(), b.bytes()),
        _ => a.int_value() < b.int_value(),
    }
}

/// Whether `a` and `b` hold the same value, both cells of type `data_type`
/// and neither null. Floats are the same when their bit patterns are.
pub open spec fn value_equal(data_type: DataType, a: Cell, b: Cell) -> bool {
    match data_type {
        DataType::Float => a.bits() == b.bits(),
        DataType::Boolean => a.truth() == b.truth(),
        DataType::String | DataType::Binary => a.bytes() == b.bytes(),
        _ => a.int_value() == b.int_value(),
    }
}

/// Whether `a op b` holds of two cells of type `data_type`, neither null.
pub open spec fn relation_holds(
    op: ComparisonOperator,
    data_type: DataType,
    a: Cell,
    b: Cell,
) -> bool {
    match op {
        ComparisonOperator::LessThan => value_before(data_type, a, b),
        ComparisonOperator::LessThanOrEqual => !value_before(data_type, b, a),
        ComparisonOperator::GreaterThan => value_before(data_type, b, a),
        ComparisonOperator::GreaterThanOrEqual => !value_before(data_type, a, b),
        ComparisonOperator::Equal => value_equal(data_type, a, b),
        ComparisonOperator::NotEqual => !value_equal(data_type, a, b),
    }
}

/// The outcome of `a op b` in one row: null where either side is null,
/// else whether the relation holds.
pub open spec fn compared_cell(
    op: ComparisonOperator,
    data_type: DataType,
    a: Cell,
    b: Cell,
) -> Cell {
    if a is Null || b is Null {
        Cell::Null
    } else {
        Cell::Bool(relation_holds(op, data_type, a, b))
    }
}

/// Of two byte strings exactly one of these holds: the first comes before
/// the second, they are equal, the second comes before the first.
pub proof fn lemma_bytes_trichotomy(a: Seq<u8>, b: Seq<u8>)
    ensures
        bytes_before(a, b) || a == b || bytes_before(b, a),
        !(bytes_before(a, b) && a == b),
        !(bytes_before(b, a) && a == b),
        !(bytes_before(a, b) && bytes_before(b, a)),
    decreases a.len(),
{
    if a.len() == 0 || b.len() == 0 {
        if a.len() == 0 && b.len() == 0 {
            assert(a =~= b);
        }
    } else if a[0] != b[0] {
    } else {
        lemma_bytes_trichotomy(a.skip(1), b.skip(1));
        if a.skip(1) == b.skip(1) {
            assert(a =~= seq![a[0]] + a.skip(1));
            assert(b =~= seq![b[0]] + b.skip(1));
        }
        if a == b {
            assert(a.skip(1) == b.skip(1));
        }
    }
}

/// Of two values of one type exactly one of these holds: the first is less
/// than the second, they are equal, the second is less than the first.
pub proof fn lemma_value_trichotomy(data_type: DataType, a: Cell, b: Cell)
    ensures
        value_before(data_type, a, b) || value_equal(data_type, a, b)
            || value_before(data_type, b, a),
        !(value_before(data_type, a, b) && value_equal(data_type, a, b)),
        !(value_before(data_type, b, a) && value_equal(data_type, a, b)),
        !(value_before(data_type, a, b) && value_before(data_type, b, a)),
{
    lemma_bytes_trichotomy(a.bytes(), b.bytes());
}

} // verus!
