use vstd::prelude::*;

use crate::ir::ast::common::Operand;

verus! {

/// A subtraction of two integer operands.
#[derive(Debug)]
pub struct SubInstruction {
    pub left: Operand,
    pub right: Operand,
}

} // verus!
