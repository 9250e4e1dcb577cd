use vstd::prelude::*;

use crate::ir::ast::common::Identifier;

verus! {

/// The definition of a jump target at the current position of a function body.
#[derive(Debug)]
pub struct LabelDefinition {
    pub name: Identifier,
}

} // verus!
