use vstd::prelude::*;

use crate::lexer::operator::OperatorToken;

verus! {

/// The binary operators.
#[derive(Debug, Clone, Copy, PartialEq, Eq, Structural)]
pub enum BinaryOperator {
    /// `+`
    Add,
    /// `-`
    Subtract,
    /// `*`
    Multiply,
    /// `/`
    Divide,
    /// `%`
    Modulo,
    /// `==`
    Equal,
    /// `!=`
    NotEqual,
    /// `<`
    LessThan,
    /// `<=`
    LessThanOrEqual,
    /// `>`
    GreaterThan,
    /// `>=`
    GreaterThanOrEqual,
    /// `&&`
    And,
    /// `||`
    Or,
}

/// The binary operator a token stands for, if any.
pub open spec fn spec_binary_operator(token: OperatorToken) -> Option<BinaryOperator> {
    match token {
        OperatorToken::Plus => Some(BinaryOperator::Add),
        OperatorToken::Minus => Some(BinaryOperator::Subtract),
        OperatorToken::Star => Some(BinaryOperator::Multiply),
        OperatorToken::Slash => Some(BinaryOperator::Divide),
        OperatorToken::Modulo => Some(BinaryOperator::Modulo),
        OperatorToken::Equal => Some(BinaryOperator::Equal),
        OperatorToken::NotEqual => Some(BinaryOperator::NotEqual),
        OperatorToken::LessThan => Some(BinaryOperator::LessThan),
        OperatorToken::LessThanOrEqual => Some(BinaryOperator::LessThanOrEqual),
        OperatorToken::GreaterThan => Some(BinaryOperator::GreaterThan),
        OperatorToken::GreaterThanOrEqual => Some(BinaryOperator::GreaterThanOrEqual),
        OperatorToken::And => Some(BinaryOperator::And),
        OperatorToken::Or => Some(BinaryOperator::Or),
        _ => None,
    }
}

impl BinaryOperator {
    /// The binary operator of a token; tokens that are no binary operator (`!`, `&`, `~`)
    /// are not accepted.
    pub fn from(token: OperatorToken) -> (op: Self)
        requires
            spec_binary_operator(token) is Some,
        ensures
            spec_binary_operator(token) == Some(op),
    {
        match token {
            OperatorToken::Plus => BinaryOperator::Add,
            OperatorToken::Minus => BinaryOperator::Subtract,
            OperatorToken::Star => BinaryOperator::Multiply,
            OperatorToken::Slash => BinaryOperator::Divide,
            OperatorToken::Modulo => BinaryOperator::Modulo,
            OperatorToken::Equal => BinaryOperator::Equal,
            OperatorToken::NotEqual => BinaryOperator::NotEqual,
            OperatorToken::LessThan => BinaryOperator::LessThan,
            OperatorToken::LessThanOrEqual => BinaryOperator::LessThanOrEqual,
            OperatorToken::GreaterThan => BinaryOperator::GreaterThan,
            OperatorToken::GreaterThanOrEqual => BinaryOperator::GreaterThanOrEqual,
            OperatorToken::And => BinaryOperator::And,
            _ => BinaryOperator::Or,
        }
    }
}

} // verus!
