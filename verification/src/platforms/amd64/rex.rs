use vstd::prelude::*;

verus! {

/// REX.W: 64-bit operand size.
pub const REX_W: u8 = 0x48;

/// REX.B alone: extends the r/m or opcode register field.
pub const REX_B: u8 = 0x41;

/// REX.W + REX.B.
pub const REX_WB: u8 = 0x49;

/// REX.W + REX.R.
pub const REX_WR: u8 = 0x4C;

/// REX.W + REX.R + REX.B.
pub const REX_WRB: u8 = 0x4D;

} // verus!
