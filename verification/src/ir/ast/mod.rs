use vstd::prelude::*;

use crate::ir::ast::global::GlobalStatement;

pub mod common;
pub mod global;
pub mod local;
pub mod types;

verus! {

/// One source file lowered to IR: its name and its global statements.
#[derive(Debug)]
pub struct CodeUnit {
    pub filename: String,
    pub statements: Vec<GlobalStatement>,
}

} // verus!
