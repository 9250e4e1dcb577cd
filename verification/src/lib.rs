//! foolang: an IR compiler for the foolang language that lowers the IR of a
//! code unit to x86-64 machine code inside a Linux ELF object model.
pub mod assoc;
pub mod ast;
pub mod builder;
pub mod error;
pub mod ir;
pub mod lexer;
pub mod platforms;
pub mod strings;
