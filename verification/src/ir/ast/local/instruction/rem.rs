use vstd::prelude::*;

use crate::ir::ast::common::Operand;

verus! {

/// The signed remainder of the division of two integer operands.
#[derive(Debug)]
pub struct RemInstruction {
    pub left: Operand,
    pub right: Operand,
}

} // verus!
