use vstd::prelude::*;

use crate::error::all_error::parser_error::ParserError;
use crate::ir::error::IRError;

pub mod parser_error;

verus! {

/// The errors of the compiler's stages; an IR error is kept as its message.
#[derive(Debug, Clone, PartialEq, Eq, Hash)]
pub enum AllError {
    LexerError(String),
    ParserError(ParserError),
    CodegenError(String),
    IOError(String),
    FileNotFound(String),
    IRError(String),
}

impl From<ParserError> for AllError {
    fn from(error: ParserError) -> (e: Self) {
        AllError::ParserError(error)
    }
}

impl vstd::std_specs::convert::FromSpecImpl<ParserError> for AllError {
    open spec fn obeys_from_spec() -> bool {
        true
    }

    open spec fn from_spec(error: ParserError) -> Self {
        AllError::ParserError(error)
    }
}

impl From<IRError> for AllError {
    fn from(error: IRError) -> (e: Self) {
        AllError::IRError(error.message)
    }
}

impl vstd::std_specs::convert::FromSpecImpl<IRError> for AllError {
    open spec fn obeys_from_spec() -> bool {
        true
    }

    open spec fn from_spec(error: IRError) -> Self {
        AllError::IRError(error.message)
    }
}

} // verus!
