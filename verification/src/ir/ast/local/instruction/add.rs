use vstd::prelude::*;

use crate::ir::ast::common::Operand;

verus! {

/// An addition of two integer operands.
#[derive(Debug)]
pub struct AddInstruction {
    pub left: Operand,
    pub right: Operand,
}

} // verus!
