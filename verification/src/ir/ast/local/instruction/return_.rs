use vstd::prelude::*;

use crate::ir::ast::common::Operand;

verus! {

/// Returns from the function, with an optional value in RAX.
#[derive(Debug)]
pub struct ReturnInstruction {
    pub return_value: Option<Operand>,
}

} // verus!
