use vstd::prelude::*;

verus! {

/// `MOV r/m64, r64`.
pub const MOV: u8 = 0x89;

/// `MOV r64, r/m64`.
pub const MOV_LOAD: u8 = 0x8B;

/// `LEA r64, m`.
pub const LEA: u8 = 0x8D;

/// `ADD r/m64, r64`.
pub const ADD: u8 = 0x01;

/// `SUB r/m64, r64`.
pub const SUB: u8 = 0x29;

/// `CMP r/m64, r64`.
pub const CMP: u8 = 0x39;

/// `XOR r/m32, r32`.
pub const XOR: u8 = 0x31;

/// `TEST r/m64, r64`.
pub const TEST: u8 = 0x85;

/// `PUSH r64` base opcode (plus the low three bits of the register).
pub const PUSH: u8 = 0x50;

/// `POP r64` base opcode (plus the low three bits of the register).
pub const POP: u8 = 0x58;

/// `RET`.
pub const RET: u8 = 0xC3;

/// `JMP rel32`.
pub const JMP: u8 = 0xE9;

/// `CALL rel32`.
pub const CALL_NEAR: u8 = 0xE8;

/// Two-byte opcode escape.
pub const TWO_BYTE_ESCAPE: u8 = 0x0F;

/// Second byte of `JNZ rel32` (after the escape byte).
pub const JNZ_REL32: u8 = 0x85;

/// Second byte of `IMUL r64, r/m64`.
pub const IMUL: u8 = 0xAF;

/// `CQO`: sign-extends RAX into RDX:RAX (with REX.W).
pub const CQO: u8 = 0x99;

/// `IDIV r/m64` (group 3, extension /7).
pub const IDIV: u8 = 0xF7;

/// Opcode extension digit of `IDIV` in group 3.
pub const IDIV_EXTENSION: u8 = 7;

/// Second byte of `SETE r/m8`.
pub const SETE: u8 = 0x94;

/// Second byte of `MOVZX r64, r/m8`.
pub const MOVZX: u8 = 0xB6;

/// ModR/M byte that selects AL as a register-direct operand.
pub const MODRM_AL_REGISTER: u8 = 0xC0;

/// `MOV r64, imm64` base opcode (plus the low three bits of the register).
pub const MOV_IMM64_BASE: u8 = 0xB8;

/// Mask of the register bits that fit in an opcode or ModR/M field.
pub const REG_NUMBER_MASK: u8 = 0x07;

/// Group 1 `ALU r/m64, imm32`.
pub const ALU_RM64_IMM32: u8 = 0x81;

/// Group 1 extension digit of `ADD`.
pub const OPCODE_EXT_ADD: u8 = 0;

/// Group 1 extension digit of `SUB`.
pub const OPCODE_EXT_SUB: u8 = 5;

} // verus!
