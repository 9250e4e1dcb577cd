use vstd::prelude::*;

use crate::ir::ast::{
    common::{literal::LiteralValue, Identifier},
    local::instruction::InstructionStatement,
};

verus! {

/// `name = value`: binds the result of an instruction (or a literal) to a local name.
#[derive(Debug)]
pub struct AssignmentStatement {
    pub name: Identifier,
    pub value: AssignmentStatementValue,
}

/// The right-hand side of an assignment.
#[derive(Debug)]
pub enum AssignmentStatementValue {
    Literal(LiteralValue),
    Instruction(InstructionStatement),
}

impl From<LiteralValue> for AssignmentStatementValue {
    fn from(lit: LiteralValue) -> (v: Self) {
        AssignmentStatementValue::Literal(lit)
    }
}

impl vstd::std_specs::convert::FromSpecImpl<LiteralValue> for AssignmentStatementValue {
    open spec fn obeys_from_spec() -> bool {
        true
    }

    open spec fn from_spec(lit: LiteralValue) -> Self {
        AssignmentStatementValue::Literal(lit)
    }
}

impl From<InstructionStatement> for AssignmentStatementValue {
    fn from(instr: InstructionStatement) -> (v: Self) {
        AssignmentStatementValue::Instruction(instr)
    }
}

impl vstd::std_specs::convert::FromSpecImpl<InstructionStatement> for AssignmentStatementValue {
    open spec fn obeys_from_spec() -> bool {
        true
    }

    open spec fn from_spec(instr: InstructionStatement) -> Self {
        AssignmentStatementValue::Instruction(instr)
    }
}

} // verus!
