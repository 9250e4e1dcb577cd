use vstd::prelude::*;

use crate::error::all_error::parser_error::ParserError;
use crate::ir::error::IRError;

pub mod all_error;

verus! {

/// The errors of the compiler's stages, with the IR compiler's error kept whole.
#[derive(Debug)]
pub enum Errors {
    LexerError(String),
    ParserError(ParserError),
    CodegenError(String),
    IOError(String),
    FileNotFound(String),
    IRError(IRError),
}

impl From<ParserError> for Errors {
    fn from(error: ParserError) -> (e: Self) {
        Errors::ParserError(error)
    }
}

impl vstd::std_specs::convert::FromSpecImpl<ParserError> for Errors {
    open spec fn obeys_from_spec() -> bool {
        true
    }

    open spec fn from_spec(error: ParserError) -> Self {
        Errors::ParserError(error)
    }
}

impl From<IRError> for Errors {
    fn from(error: IRError) -> (e: Self) {
        Errors::IRError(error)
    }
}

impl vstd::std_specs::convert::FromSpecImpl<IRError> for Errors {
    open spec fn obeys_from_spec() -> bool {
        true
    }

    open spec fn from_spec(error: IRError) -> Self {
        Errors::IRError(error)
    }
}

} // verus!
