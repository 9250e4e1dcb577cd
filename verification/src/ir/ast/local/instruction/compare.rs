use vstd::prelude::*;

use crate::ir::ast::common::Operand;

verus! {

/// An equality comparison of two integer operands (1 when equal, 0 otherwise).
#[derive(Debug)]
pub struct CompareInstruction {
    pub left: Operand,
    pub right: Operand,
}

} // verus!
