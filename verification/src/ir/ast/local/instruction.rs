use vstd::prelude::*;

pub mod add;
pub mod alloca;
pub mod branch;
pub mod call;
pub mod compare;
pub mod div;
pub mod mul;
pub mod rem;
pub mod return_;
pub mod sub;

verus! {

/// An instruction of a function body.
#[derive(Debug)]
pub enum InstructionStatement {
    Call(call::CallInstruction),
    Return(return_::ReturnInstruction),
    Add(add::AddInstruction),
    Sub(sub::SubInstruction),
    Mul(mul::MulInstruction),
    Div(div::DivInstruction),
    Rem(rem::RemInstruction),
    Branch(branch::BranchInstruction),
    Jump(branch::JumpInstruction),
    Compare(compare::CompareInstruction),
    Alloca(alloca::AllocaInstruction),
    Load(alloca::LoadInstruction),
    Store(alloca::StoreInstruction),
}

impl From<call::CallInstruction> for InstructionStatement {
    fn from(instr: call::CallInstruction) -> (s: Self) {
        InstructionStatement::Call(instr)
    }
}

impl vstd::std_specs::convert::FromSpecImpl<call::CallInstruction> for InstructionStatement {
    open spec fn obeys_from_spec() -> bool {
        true
    }

    open spec fn from_spec(instr: call::CallInstruction) -> Self {
        InstructionStatement::Call(instr)
    }
}

impl From<return_::ReturnInstruction> for InstructionStatement {
    fn from(instr: return_::ReturnInstruction) -> (s: Self) {
        InstructionStatement::Return(instr)
    }
}

impl vstd::std_specs::convert::FromSpecImpl<return_::ReturnInstruction> for InstructionStatement {
    open spec fn obeys_from_spec() -> bool {
        true
    }

    open spec fn from_spec(instr: return_::ReturnInstruction) -> Self {
        InstructionStatement::Return(instr)
    }
}

impl From<add::AddInstruction> for InstructionStatement {
    fn from(instr: add::AddInstruction) -> (s: Self) {
        InstructionStatement::Add(instr)
    }
}

impl vstd::std_specs::convert::FromSpecImpl<add::AddInstruction> for InstructionStatement {
    open spec fn obeys_from_spec() -> bool {
        true
    }

    open spec fn from_spec(instr: add::AddInstruction) -> Self {
        InstructionStatement::Add(instr)
    }
}

impl From<sub::SubInstruction> for InstructionStatement {
    fn from(instr: sub::SubInstruction) -> (s: Self) {
        InstructionStatement::Sub(instr)
    }
}

impl vstd::std_specs::convert::FromSpecImpl<sub::SubInstruction> for InstructionStatement {
    open spec fn obeys_from_spec() -> bool {
        true
    }

    open spec fn from_spec(instr: sub::SubInstruction) -> Self {
        InstructionStatement::Sub(instr)
    }
}

impl From<mul::MulInstruction> for InstructionStatement {
    fn from(instr: mul::MulInstruction) -> (s: Self) {
        InstructionStatement::Mul(instr)
    }
}

impl vstd::std_specs::convert::FromSpecImpl<mul::MulInstruction> for InstructionStatement {
    open spec fn obeys_from_spec() -> bool {
        true
    }

    open spec fn from_spec(instr: mul::MulInstruction) -> Self {
        InstructionStatement::Mul(instr)
    }
}

impl From<div::DivInstruction> for InstructionStatement {
    fn from(instr: div::DivInstruction) -> (s: Self) {
        InstructionStatement::Div(instr)
    }
}

impl vstd::std_specs::convert::FromSpecImpl<div::DivInstruction> for InstructionStatement {
    open spec fn obeys_from_spec() -> bool {
        true
    }

    open spec fn from_spec(instr: div::DivInstruction) -> Self {
        InstructionStatement::Div(instr)
    }
}

impl From<rem::RemInstruction> for InstructionStatement {
    fn from(instr: rem::RemInstruction) -> (s: Self) {
        InstructionStatement::Rem(instr)
    }
}

impl vstd::std_specs::convert::FromSpecImpl<rem::RemInstruction> for InstructionStatement {
    open spec fn obeys_from_spec() -> bool {
        true
    }

    open spec fn from_spec(instr: rem::RemInstruction) -> Self {
        InstructionStatement::Rem(instr)
    }
}

impl From<branch::BranchInstruction> for InstructionStatement {
    fn from(instr: branch::BranchInstruction) -> (s: Self) {
        InstructionStatement::Branch(instr)
    }
}

impl vstd::std_specs::convert::FromSpecImpl<branch::BranchInstruction> for InstructionStatement {
    open spec fn obeys_from_spec() -> bool {
        true
    }

    open spec fn from_spec(instr: branch::BranchInstruction) -> Self {
        InstructionStatement::Branch(instr)
    }
}

impl From<branch::JumpInstruction> for InstructionStatement {
    fn from(instr: branch::JumpInstruction) -> (s: Self) {
        InstructionStatement::Jump(instr)
    }
}

impl vstd::std_specs::convert::FromSpecImpl<branch::JumpInstruction> for InstructionStatement {
    open spec fn obeys_from_spec() -> bool {
        true
    }

    open spec fn from_spec(instr: branch::JumpInstruction) -> Self {
        InstructionStatement::Jump(instr)
    }
}

impl From<compare::CompareInstruction> for InstructionStatement {
    fn from(instr: compare::CompareInstruction) -> (s: Self) {
        InstructionStatement::Compare(instr)
    }
}

impl vstd::std_specs::convert::FromSpecImpl<compare::CompareInstruction> for InstructionStatement {
    open spec fn obeys_from_spec() -> bool {
        true
    }

    open spec fn from_spec(instr: compare::CompareInstruction) -> Self {
        InstructionStatement::Compare(instr)
    }
}

impl From<alloca::AllocaInstruction> for InstructionStatement {
    fn from(instr: alloca::AllocaInstruction) -> (s: Self) {
        InstructionStatement::Alloca(instr)
    }
}

impl vstd::std_specs::convert::FromSpecImpl<alloca::AllocaInstruction> for InstructionStatement {
    open spec fn obeys_from_spec() -> bool {
        true
    }

    open spec fn from_spec(instr: alloca::AllocaInstruction) -> Self {
        InstructionStatement::Alloca(instr)
    }
}

impl From<alloca::LoadInstruction> for InstructionStatement {
    fn from(instr: alloca::LoadInstruction) -> (s: Self) {
        InstructionStatement::Load(instr)
    }
}

impl vstd::std_specs::convert::FromSpecImpl<alloca::LoadInstruction> for InstructionStatement {
    open spec fn obeys_from_spec() -> bool {
        true
    }

    open spec fn from_spec(instr: alloca::LoadInstruction) -> Self {
        InstructionStatement::Load(instr)
    }
}

impl From<alloca::StoreInstruction> for InstructionStatement {
    fn from(instr: alloca::StoreInstruction) -> (s: Self) {
        InstructionStatement::Store(instr)
    }
}

impl vstd::std_specs::convert::FromSpecImpl<alloca::StoreInstruction> for InstructionStatement {
    open spec fn obeys_from_spec() -> bool {
        true
    }

    open spec fn from_spec(instr: alloca::StoreInstruction) -> Self {
        InstructionStatement::Store(instr)
    }
}

} // verus!
