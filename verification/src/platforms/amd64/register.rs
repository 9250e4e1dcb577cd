use vstd::prelude::*;

verus! {

/// The sixteen 64-bit general purpose registers of x86-64.
#[derive(Debug, Clone, Copy, PartialEq, Eq, Structural)]
pub enum Register {
    RAX,
    RCX,
    RDX,
    RBX,
    RSP,
    RBP,
    RSI,
    RDI,
    R8,
    R9,
    R10,
    R11,
    R12,
    R13,
    R14,
    R15,
}

impl Register {
    /// The hardware number of the register (0 to 15).
    pub open spec fn code(self) -> u8 {
        match self {
            Register::RAX => 0,
            Register::RCX => 1,
            Register::RDX => 2,
            Register::RBX => 3,
            Register::RSP => 4,
            Register::RBP => 5,
            Register::RSI => 6,
            Register::RDI => 7,
            Register::R8 => 8,
            Register::R9 => 9,
            Register::R10 => 10,
            Register::R11 => 11,
            Register::R12 => 12,
            Register::R13 => 13,
            Register::R14 => 14,
            Register::R15 => 15,
        }
    }

    /// The low three bits of the register number, as they appear in ModR/M, SIB and opcodes.
    pub open spec fn low3(self) -> u8 {
        (self.code() % 8) as u8
    }

    /// Registers R8 to R15 need an extension bit in the REX prefix.
    pub open spec fn needs_rex(self) -> bool {
        self.code() >= 8
    }

    /// Returns the hardware number of the register.
    pub fn number(&self) -> (n: u8)
        ensures
            n == self.code(),
            n < 16,
    {
        match self {
            Register::RAX => 0,
            Register::RCX => 1,
            Register::RDX => 2,
            Register::RBX => 3,
            Register::RSP => 4,
            Register::RBP => 5,
            Register::RSI => 6,
            Register::RDI => 7,
            Register::R8 => 8,
            Register::R9 => 9,
            Register::R10 => 10,
            Register::R11 => 11,
            Register::R12 => 12,
            Register::R13 => 13,
            Register::R14 => 14,
            Register::R15 => 15,
        }
    }

    /// Whether the register is one of R8 to R15, which need a REX extension bit.
    pub fn requires_rex(&self) -> (b: bool)
        ensures
            b == self.needs_rex(),
    {
        self.number() >= 8
    }
}

/// ModR/M byte for a register-direct operand pair: mod = 11, reg field, r/m field.
pub open spec fn spec_modrm_reg_reg(reg: Register, rm: Register) -> u8 {
    (0xC0 + reg.low3() * 8 + rm.low3()) as u8
}

/// ModR/M byte with an opcode extension digit in the reg field and a register in r/m.
pub open spec fn spec_modrm_digit_reg(digit: u8, rm: Register) -> u8 {
    (0xC0 + (digit % 8) * 8 + rm.low3()) as u8
}

/// Builds a register-direct ModR/M byte (mod = 11).
pub fn modrm_reg_reg(reg: Register, rm: Register) -> (b: u8)
    ensures
        b == spec_modrm_reg_reg(reg, rm),
{
    0xC0 + (reg.number() % 8) * 8 + rm.number() % 8
}

/// Builds a register-direct ModR/M byte whose reg field holds an opcode extension.
pub fn modrm_digit_reg(digit: u8, rm: Register) -> (b: u8)
    ensures
        b == spec_modrm_digit_reg(digit, rm),
{
    0xC0 + (digit % 8) * 8 + rm.number() % 8
}

/// ModR/M byte that selects RSP as r/m with an opcode extension digit.
pub fn modrm_digit_rsp(digit: u8) -> (b: u8)
    ensures
        b == spec_modrm_digit_reg(digit, Register::RSP),
{
    modrm_digit_reg(digit, Register::RSP)
}

/// ModR/M byte for `[base + disp8]` with `reg` in the reg field (mod = 01).
pub open spec fn spec_modrm_reg_base_disp8(reg: Register, base: Register) -> u8 {
    (0x40 + reg.low3() * 8 + base.low3()) as u8
}

/// ModR/M byte for `[base + disp32]` with `reg` in the reg field (mod = 10).
pub open spec fn spec_modrm_reg_base_disp32(reg: Register, base: Register) -> u8 {
    (0x80 + reg.low3() * 8 + base.low3()) as u8
}

/// Builds the ModR/M byte of `[base + disp8]`.
pub fn modrm_reg_base_disp8(reg: Register, base: Register) -> (b: u8)
    ensures
        b == spec_modrm_reg_base_disp8(reg, base),
{
    0x40 + (reg.number() % 8) * 8 + base.number() % 8
}

/// Builds the ModR/M byte of `[base + disp32]`.
pub fn modrm_reg_base_disp32(reg: Register, base: Register) -> (b: u8)
    ensures
        b == spec_modrm_reg_base_disp32(reg, base),
{
    0x80 + (reg.number() % 8) * 8 + base.number() % 8
}

} // verus!
