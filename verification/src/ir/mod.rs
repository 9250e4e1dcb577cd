pub mod ast;
pub mod compile;
pub mod error;
