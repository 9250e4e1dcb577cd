use vstd::prelude::*;

use crate::ir::ast::local::LocalStatements;

verus! {

/// A function of the code unit: its name, return type, arguments and body.
#[derive(Debug)]
pub struct FunctionDefinition {
    pub function_name: String,
    pub return_type: String,
    pub arguments: Vec<FunctionArgument>,
    pub function_body: LocalStatements,
}

/// A named, typed function argument.
#[derive(Debug)]
pub struct FunctionArgument {
    pub argument_name: String,
    pub argument_type: String,
}

} // verus!
