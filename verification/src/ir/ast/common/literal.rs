use vstd::prelude::*;

verus! {

/// A literal value of the IR.
#[derive(Debug)]
pub enum LiteralValue {
    Int8(i8),
    Int16(i16),
    Int32(i32),
    Int64(i64),
    /// A 64-bit IEEE-754 value, held as its bit pattern.
    Float64(u64),
    Boolean(bool),
    String(String),
}

} // verus!
