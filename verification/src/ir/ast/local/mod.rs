use vstd::prelude::*;

use crate::ir::ast::local::{
    assignment::AssignmentStatement, instruction::InstructionStatement, label::LabelDefinition,
};

pub mod assignment;
pub mod instruction;
pub mod label;

verus! {

/// The body of a function: its statements in order.
#[derive(Debug)]
pub struct LocalStatements {
    pub statements: Vec<LocalStatement>,
}

/// A statement of a function body.
#[derive(Debug)]
pub enum LocalStatement {
    Assignment(AssignmentStatement),
    Instruction(InstructionStatement),
    Label(LabelDefinition),
}

impl From<AssignmentStatement> for LocalStatement {
    fn from(stmt: AssignmentStatement) -> (s: Self) {
        LocalStatement::Assignment(stmt)
    }
}

impl vstd::std_specs::convert::FromSpecImpl<AssignmentStatement> for LocalStatement {
    open spec fn obeys_from_spec() -> bool {
        true
    }

    open spec fn from_spec(stmt: AssignmentStatement) -> Self {
        LocalStatement::Assignment(stmt)
    }
}

impl From<InstructionStatement> for LocalStatement {
    fn from(stmt: InstructionStatement) -> (s: Self) {
        LocalStatement::Instruction(stmt)
    }
}

impl vstd::std_specs::convert::FromSpecImpl<InstructionStatement> for LocalStatement {
    open spec fn obeys_from_spec() -> bool {
        true
    }

    open spec fn from_spec(stmt: InstructionStatement) -> Self {
        LocalStatement::Instruction(stmt)
    }
}

impl From<LabelDefinition> for LocalStatement {
    fn from(label: LabelDefinition) -> (s: Self) {
        LocalStatement::Label(label)
    }
}

impl vstd::std_specs::convert::FromSpecImpl<LabelDefinition> for LocalStatement {
    open spec fn obeys_from_spec() -> bool {
        true
    }

    open spec fn from_spec(label: LabelDefinition) -> Self {
        LocalStatement::Label(label)
    }
}

} // verus!
