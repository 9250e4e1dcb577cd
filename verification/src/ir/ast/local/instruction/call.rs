use vstd::prelude::*;

use crate::ir::ast::common::{Identifier, Operand};

verus! {

/// A call of a function with up to six operands; the result is left in RAX.
#[derive(Debug)]
pub struct CallInstruction {
    pub function_name: Identifier,
    pub parameters: Vec<Operand>,
}

} // verus!
