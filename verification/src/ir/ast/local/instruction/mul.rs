use vstd::prelude::*;

use crate::ir::ast::common::Operand;

verus! {

/// A signed multiplication of two integer operands.
#[derive(Debug)]
pub struct MulInstruction {
    pub left: Operand,
    pub right: Operand,
}

} // verus!
