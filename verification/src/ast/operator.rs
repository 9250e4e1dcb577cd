use vstd::prelude::*;

use crate::ast::operator::{binary::BinaryOperator, unary::UnaryOperator};

pub mod binary;
pub mod unary;

verus! {

/// An operator of an expression: unary or binary.
#[derive(Debug, Clone, Copy, PartialEq, Eq, Structural)]
pub enum Operator {
    Unary(UnaryOperator),
    Binary(BinaryOperator),
}

impl Operator {
    /// Whether the operator is unary.
    pub fn is_unary(&self) -> (b: bool)
        ensures
            b == (*self is Unary),
    {
        match self {
            Operator::Unary(_) => true,
            _ => false,
        }
    }

    /// Whether the operator is binary.
    pub fn is_binary(&self) -> (b: bool)
        ensures
            b == (*self is Binary),
    {
        match self {
            Operator::Binary(_) => true,
            _ => false,
        }
    }
}

} // verus!
