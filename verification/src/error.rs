//! Why an evaluation failed.

use arrow_schema::ArrowError;
use vstd::prelude::*;

verus! {

/// What a type check before a kernel call asked for.
#[derive(Debug, Clone, Copy, PartialEq, Eq, Structural)]
pub enum Expectation {
    /// An operand of `And` or `Or` must be a boolean array.
    BooleanArray,
    /// An operand of an arithmetic or comparison operator must be an array
    /// that the kernel takes without panic.
    SupportedArray,
    /// A literal must be well formed.
    WellFormedLiteral,
    /// The rows of a string or binary literal must fit one array: no more
    /// than `i32::MAX` bytes together.
    LiteralWithinLimit,
}

/// Why an evaluation failed.
#[derive(Debug)]
pub enum Error {
    /// A `Column` node names a column that the batch does not have.
    MissingColumn(String),
    /// An array or a literal is not of the kind that its place asks for.
    TypeMismatch(Expectation),
    /// A compute kernel failed; the kernel's own error is kept as the cause.
    KernelError(ArrowError),
}

/// An [`Error`] as contracts speak of it: the missing column's name as a
/// sequence of characters, the rest as it is.
pub enum Failure {
    MissingColumn(Seq<char>),
    TypeMismatch(Expectation),
    Kernel(ArrowError),
}

impl View for Error {
    type V = Failure;

    open spec fn view(&self) -> Failure {
        match self {
            Error::MissingColumn(name) => Failure::MissingColumn(name@),
            Error::TypeMismatch(expected) => Failure::TypeMismatch(*expected),
            Error::KernelError(cause) => Failure::Kernel(*cause),
        }
    }
}

impl Expectation {
    /// What was expected, in words.
    pub fn message(&self) -> (text: &'static str)
        ensures
            text@ == match self {
                Expectation::BooleanArray => "expected boolean array"@,
                Expectation::SupportedArray => "expected array that the kernel takes"@,
                Expectation::WellFormedLiteral => "expected well-formed literal"@,
                Expectation::LiteralWithinLimit => "expected literal that fits an array"@,
            },
    {
        match self {
            Expectation::BooleanArray => "expected boolean array",
            Expectation::SupportedArray => "expected array that the kernel takes",
            Expectation::WellFormedLiteral => "expected well-formed literal",
            Expectation::LiteralWithinLimit => "expected literal that fits an array",
        }
    }
}

} // verus!
