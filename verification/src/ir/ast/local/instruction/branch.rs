use vstd::prelude::*;

use crate::ir::ast::common::{Label, Operand};

verus! {

/// Jumps to `true_label` when the condition is non-zero, to `false_label` otherwise.
#[derive(Debug)]
pub struct BranchInstruction {
    pub condition: Operand,
    pub true_label: Label,
    pub false_label: Label,
}

/// Jumps to a label unconditionally.
#[derive(Debug)]
pub struct JumpInstruction {
    pub label: Label,
}

} // verus!
