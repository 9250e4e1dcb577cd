use vstd::prelude::*;

use crate::ir::ast::global::{constant::ConstantDefinition, function::FunctionDefinition};

pub mod constant;
pub mod function;

verus! {

/// The global statements of a code unit.
#[derive(Debug)]
pub struct GlobalStatements {
    pub statements: Vec<GlobalStatement>,
}

/// A statement at the top level of a code unit.
#[derive(Debug)]
pub enum GlobalStatement {
    DefineFunction(FunctionDefinition),
    Constant(ConstantDefinition),
}

} // verus!
