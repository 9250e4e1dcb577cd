use vstd::prelude::*;

use crate::ir::ast::{
    common::{Identifier, Operand},
    types::IRPrimitiveType,
};

verus! {

/// Reserves stack memory for a value of the given type and yields its address.
#[derive(Debug)]
pub struct AllocaInstruction {
    pub type_: IRPrimitiveType,
}

/// Reads the 64-bit value that the pointer variable points to.
#[derive(Debug)]
pub struct LoadInstruction {
    pub ptr: Identifier,
}

/// Writes a 64-bit value where the pointer variable points.
#[derive(Debug)]
pub struct StoreInstruction {
    pub ptr: Identifier,
    pub value: Operand,
}

} // verus!
