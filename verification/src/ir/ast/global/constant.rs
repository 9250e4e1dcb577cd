use vstd::prelude::*;

use crate::ir::ast::common::{literal::LiteralValue, Identifier};

verus! {

/// A named global constant with its value.
#[derive(Debug)]
pub struct ConstantDefinition {
    pub constant_name: Identifier,
    pub value: LiteralValue,
}

} // verus!
