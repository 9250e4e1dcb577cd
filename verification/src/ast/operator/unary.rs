use vstd::prelude::*;

use crate::lexer::operator::OperatorToken;

verus! {

/// The unary operators.
#[derive(Debug, Clone, Copy, PartialEq, Eq, Structural)]
pub enum UnaryOperator {
    /// `-`
    Negate,
    /// `!`
    Not,
    /// `+`
    Plus,
    /// `-`
    Minus,
    /// `*`
    Dereference,
    /// `&`
    Reference,
    /// `~`
    BitwiseNot,
}

/// The unary operator a token stands for, if any (`-` is negation).
pub open spec fn spec_unary_operator(token: OperatorToken) -> Option<UnaryOperator> {
    match token {
        OperatorToken::Minus => Some(UnaryOperator::Negate),
        OperatorToken::Not => Some(UnaryOperator::Not),
        OperatorToken::Plus => Some(UnaryOperator::Plus),
        OperatorToken::Star => Some(UnaryOperator::Dereference),
        OperatorToken::Ampersand => Some(UnaryOperator::Reference),
        OperatorToken::BitwiseNot => Some(UnaryOperator::BitwiseNot),
        _ => None,
    }
}

impl UnaryOperator {
    /// The unary operator of a token; tokens that are no unary operator are not accepted.
    pub fn from(operator: OperatorToken) -> (op: Self)
        requires
            spec_unary_operator(operator) is Some,
        ensures
            spec_unary_operator(operator) == Some(op),
    {
        match operator {
            OperatorToken::Minus => UnaryOperator::Negate,
            OperatorToken::Not => UnaryOperator::Not,
            OperatorToken::Plus => UnaryOperator::Plus,
            OperatorToken::Star => UnaryOperator::Dereference,
            OperatorToken::Ampersand => UnaryOperator::Reference,
            _ => UnaryOperator::BitwiseNot,
        }
    }
}

} // verus!
