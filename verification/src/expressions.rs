//! Expression trees.

use crate::scalars::Scalar;
use crate::schema::DataType;
use vstd::prelude::*;

verus! {

/// An arithmetic operator.
#[derive(Debug, Clone, Copy, PartialEq, Eq, Structural)]
pub enum BinaryOperator {
    Plus,
    Minus,
    Multiply,
    Divide,
}

/// A comparison operator.
#[derive(Debug, Clone, Copy, PartialEq, Eq, Structural)]
pub enum ComparisonOperator {
    LessThan,
    LessThanOrEqual,
    GreaterThan,
    GreaterThanOrEqual,
    Equal,
    NotEqual,
}

/// A scalar- or boolean-valued computation over the columns of a batch.
///
/// Operands are owned subtrees, so an expression is a finite tree.
#[derive(Debug)]
#[allow(inconsistent_fields)]
pub enum Expression {
    /// A constant.
    Literal(Scalar),
    /// A reference to a column of the batch, with the type it is declared to have.
    Column { name: String, data_type: DataType },
    /// Arithmetic on two operands.
    BinaryOperator { op: BinaryOperator, left: Box<Expression>, right: Box<Expression> },
    /// A comparison of two operands.
    BinaryComparison { op: ComparisonOperator, left: Box<Expression>, right: Box<Expression> },
    /// The conjunction of two boolean operands.
    And { left: Box<Expression>, right: Box<Expression> },
    /// The disjunction of two boolean operands.
    Or { left: Box<Expression>, right: Box<Expression> },
}

/// The arithmetic node `left op right`.
pub open spec fn arithmetic_of(op: BinaryOperator, left: Expression, right: Expression) -> Expression {
    Expression::BinaryOperator { op, left: Box::new(left), right: Box::new(right) }
}

/// The comparison node `left op right`.
pub open spec fn comparison_of(
    op: ComparisonOperator,
    left: Expression,
    right: Expression,
) -> Expression {
    Expression::BinaryComparison { op, left: Box::new(left), right: Box::new(right) }
}

/// The node `left AND right`.
pub open spec fn conjunction_of(left: Expression, right: Expression) -> Expression {
    Expression::And { left: Box::new(left), right: Box::new(right) }
}

/// The node `left OR right`.
pub open spec fn disjunction_of(left: Expression, right: Expression) -> Expression {
    Expression::Or { left: Box::new(left), right: Box::new(right) }
}

impl Expression {
    /// Whether two expressions are the same tree: the same nodes in the
    /// same places, with the same operators, the same column names and
    /// declared types, and literals of the same type and value.
    pub open spec fn alike(self, other: Expression) -> bool
        decreases self,
    {
        match self {
            Expression::Literal(scalar) => other matches Expression::Literal(twin)
                && scalar.alike(twin),
            Expression::Column { name, data_type } => other matches Expression::Column {
                name: twin,
                data_type: declared,
            } && name@ == twin@ && data_type == declared,
            Expression::BinaryOperator { op, left, right } => other matches Expression::BinaryOperator {
                op: twin,
                left: first,
                right: second,
            } && op == twin && left.alike(*first) && right.alike(*second),
            Expression::BinaryComparison { op, left, right } => other matches Expression::BinaryComparison {
                op: twin,
                left: first,
                right: second,
            } && op == twin && left.alike(*first) && right.alike(*second),
            Expression::And { left, right } => other matches Expression::And {
                left: first,
                right: second,
            } && left.alike(*first) && right.alike(*second),
            Expression::Or { left, right } => other matches Expression::Or {
                left: first,
                right: second,
            } && left.alike(*first) && right.alike(*second),
        }
    }

    /// The literal `value`.
    pub fn literal(value: Scalar) -> (expression: Expression)
        ensures
            expression == Expression::Literal(value),
    {
        Expression::Literal(value)
    }

    /// The reference to the column `name`, declared to have type `data_type`.
    pub fn column(name: String, data_type: DataType) -> (expression: Expression)
        ensures
            expression == (Expression::Column { name, data_type }),
    {
        Expression::Column { name, data_type }
    }

    /// `self + other`.
    pub fn add(self, other: Expression) -> (expression: Expression)
        ensures
            expression == arithmetic_of(BinaryOperator::Plus, self, other),
    {
        Expression::BinaryOperator {
            op: BinaryOperator::Plus,
            left: Box::new(self),
            right: Box::new(other),
        }
    }

    /// `self - other`.
    pub fn sub(self, other: Expression) -> (expression: Expression)
        ensures
            expression == arithmetic_of(BinaryOperator::Minus, self, other),
    {
        Expression::BinaryOperator {
            op: BinaryOperator::Minus,
            left: Box::new(self),
            right: Box::new(other),
        }
    }

    /// `self * other`.
    pub fn mul(self, other: Expression) -> (expression: Expression)
        ensures
            expression == arithmetic_of(BinaryOperator::Multiply, self, other),
    {
        Expression::BinaryOperator {
            op: BinaryOperator::Multiply,
            left: Box::new(self),
            right: Box::new(other),
        }
    }

    /// `self / other`.
    pub fn div(self, other: Expression) -> (expression: Expression)
        ensures
            expression == arithmetic_of(BinaryOperator::Divide, self, other),
    {
        Expression::BinaryOperator {
            op: BinaryOperator::Divide,
            left: Box::new(self),
            right: Box::new(other),
        }
    }

    /// `self < other`.
    pub fn lt(self, other: Expression) -> (expression: Expression)
        ensures
            expression == comparison_of(ComparisonOperator::LessThan, self, other),
    {
        Expression::BinaryComparison {
            op: ComparisonOperator::LessThan,
            left: Box::new(self),
            right: Box::new(other),
        }
    }

    /// `self <= other`.
    pub fn lt_eq(self, other: Expression) -> (expression: Expression)
        ensures
            expression == comparison_of(ComparisonOperator::LessThanOrEqual, self, other),
    {
        Expression::BinaryComparison {
            op: ComparisonOperator::LessThanOrEqual,
            left: Box::new(self),
            right: Box::new(other),
        }
    }

    /// `self > other`.
    pub fn gt(self, other: Expression) -> (expression: Expression)
        ensures
            expression == comparison_of(ComparisonOperator::GreaterThan, self, other),
    {
        Expression::BinaryComparison {
            op: ComparisonOperator::GreaterThan,
            left: Box::new(self),
            right: Box::new(other),
        }
    }

    /// `self >= other`.
    pub fn gt_eq(self, other: Expression) -> (expression: Expression)
        ensures
            expression == comparison_of(ComparisonOperator::GreaterThanOrEqual, self, other),
    {
        Expression::BinaryComparison {
            op: ComparisonOperator::GreaterThanOrEqual,
            left: Box::new(self),
            right: Box::new(other),
        }
    }

    /// `self = other`.
    pub fn eq(self, other: Expression) -> (expression: Expression)
        ensures
            expression == comparison_of(ComparisonOperator::Equal, self, other),
    {
        Expression::BinaryComparison {
            op: ComparisonOperator::Equal,
            left: Box::new(self),
            right: Box::new(other),
        }
    }

    /// `self != other`.
    pub fn ne(self, other: Expression) -> (expression: Expression)
        ensures
            expression == comparison_of(ComparisonOperator::NotEqual, self, other),
    {
        Expression::BinaryComparison {
            op: ComparisonOperator::NotEqual,
            left: Box::new(self),
            right: Box::new(other),
        }
    }

    /// `self AND other`.
    pub fn and(self, other: Expression) -> (expression: Expression)
        ensures
            expression == conjunction_of(self, other),
    {
        Expression::And { left: Box::new(self), right: Box::new(other) }
    }

    /// `self OR other`.
    pub fn or(self, other: Expression) -> (expression: Expression)
        ensures
            expression == disjunction_of(self, other),
    {
        Expression::Or { left: Box::new(self), right: Box::new(other) }
    }
}

impl Clone for Expression {
    /// The copy is the same tree.
    fn clone(&self) -> (copy: Self)
        ensures
            self.alike(copy),
        decreases self,
    {
        match self {
            Expression::Literal(scalar) => Expression::Literal(scalar.clone()),
            Expression::Column { name, data_type } => Expression::Column {
                name: name.clone(),
                data_type: *data_type,
            },
            Expression::BinaryOperator { op, left, right } => Expression::BinaryOperator {
                op: *op,
                left: Box::new((&**left).clone()),
                right: Box::new((&**right).clone()),
            },
            Expression::BinaryComparison { op, left, right } => Expression::BinaryComparison {
                op: *op,
                left: Box::new((&**left).clone()),
                right: Box::new((&**right).clone()),
            },
            Expression::And { left, right } => Expression::And {
                left: Box::new((&**left).clone()),
                right: Box::new((&**right).clone()),
            },
            Expression::Or { left, right } => Expression::Or {
                left: Box::new((&**left).clone()),
                right: Box::new((&**right).clone()),
            },
        }
    }
}

} // verus!
