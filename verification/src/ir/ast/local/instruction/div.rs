use vstd::prelude::*;

use crate::ir::ast::common::Operand;

verus! {

/// A signed division of two integer operands.
#[derive(Debug)]
pub struct DivInstruction {
    pub left: Operand,
    pub right: Operand,
}

} // verus!
