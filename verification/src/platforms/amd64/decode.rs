//! A reading of x86-64 machine code, written from the instruction set manual and independent
//! of the encoders: it gives the meaning of the byte forms the compiler emits (REX prefixes,
//! ModR/M with SIB and displacements, immediates), so that properties of emitted code can be
//! stated as the instructions a processor would execute.
use vstd::bytes::{spec_u32_from_le_bytes, spec_u64_from_le_bytes};
use vstd::prelude::*;

use crate::platforms::amd64::register::Register;

verus! {

/// The register with hardware number `n` (0 to 15; R15 above that).
pub open spec fn register_number(n: int) -> Register {
    if n == 0 {
        Register::RAX
    } else if n == 1 {
        Register::RCX
    } else if n == 2 {
        Register::RDX
    } else if n == 3 {
        Register::RBX
    } else if n == 4 {
        Register::RSP
    } else if n == 5 {
        Register::RBP
    } else if n == 6 {
        Register::RSI
    } else if n == 7 {
        Register::RDI
    } else if n == 8 {
        Register::R8
    } else if n == 9 {
        Register::R9
    } else if n == 10 {
        Register::R10
    } else if n == 11 {
        Register::R11
    } else if n == 12 {
        Register::R12
    } else if n == 13 {
        Register::R13
    } else if n == 14 {
        Register::R14
    } else {
        Register::R15
    }
}

/// A memory operand: a base register plus a displacement, or the address of the next
/// instruction plus a displacement.
pub enum MemoryOperand {
    Based { base: Register, disp: int },
    RipRelative { disp: int },
}

/// The r/m operand of an instruction: a register or a memory location.
pub enum RegisterOrMemory {
    Direct(Register),
    Memory(MemoryOperand),
}

/// The instructions the reading knows.
pub enum MachineInstruction {
    /// `MOV dst, imm64`.
    MovImm64 { dst: Register, imm: i64 },
    /// `MOV dst, r/m64` (opcode 8B).
    MovLoad { dst: Register, from: RegisterOrMemory },
    /// `MOV r/m64, src` (opcode 89).
    MovStore { to: RegisterOrMemory, src: Register },
    /// `LEA dst, m` (opcode 8D): the address, not the contents.
    Lea { dst: Register, address: MemoryOperand },
    /// `ADD r/m64, imm32` (opcode 81 /0).
    AddImm32 { to: RegisterOrMemory, imm32: i32 },
    /// `SUB r/m64, imm32` (opcode 81 /5).
    SubImm32 { to: RegisterOrMemory, imm32: i32 },
    /// `ADD r/m64, src` (opcode 01).
    AddReg { to: RegisterOrMemory, src: Register },
    /// `SUB r/m64, src` (opcode 29).
    SubReg { to: RegisterOrMemory, src: Register },
    /// `IMUL dst, r/m64` (opcode 0F AF): signed product, truncated to 64 bits.
    Imul { dst: Register, from: RegisterOrMemory },
    /// `CQO` (opcode 99 with REX.W): sign-extends RAX into RDX.
    Cqo,
    /// `IDIV r/m64` (opcode F7 /7): signed division of RDX:RAX; quotient in RAX, remainder
    /// in RDX.
    Idiv { divisor: RegisterOrMemory },
    /// `CMP r/m64, r64` (opcode 39): flags of `left - right`.
    Cmp { left: RegisterOrMemory, right: Register },
    /// `TEST r/m64, r64` (opcode 85): flags of `left & right`.
    Test { left: RegisterOrMemory, right: Register },
    /// `SETcc r/m8` (opcode 0F 90+cc): the low byte of the operand becomes 1 when condition
    /// `cc` holds, else 0 (4 is "equal", 5 is "not equal").
    Setcc { cc: int, to: RegisterOrMemory },
    /// `MOVZX dst, r/m8` (opcode 0F B6 with REX.W): the byte, zero-extended to 64 bits.
    MovzxByte { dst: Register, from: RegisterOrMemory },
    /// `Jcc rel32` (opcode 0F 80+cc): jumps when condition `cc` holds.
    Jcc { cc: int, disp: i32 },
    /// `JMP rel32` (opcode E9).
    Jmp { disp: i32 },
    /// `PUSH r64`.
    Push(Register),
    /// `POP r64`.
    Pop(Register),
    /// `RET`.
    Ret,
    /// `CALL rel32`.
    CallRel32 { disp: i32 },
}

/// The signed 32-bit value of four little-endian bytes.
pub open spec fn le_i32(s: Seq<u8>) -> i32 {
    spec_u32_from_le_bytes(s) as i32
}

/// The signed 64-bit value of eight little-endian bytes.
pub open spec fn le_i64(s: Seq<u8>) -> i64 {
    spec_u64_from_le_bytes(s) as i64
}

/// The displacement that follows a ModR/M (and SIB) byte at `at`, by the mod field: none,
/// a sign-extended byte or four little-endian bytes; with the number of bytes it takes.
pub open spec fn read_displacement(md: int, s: Seq<u8>, at: int) -> Option<(int, int)> {
    if md == 0 {
        Some((0, 0))
    } else if md == 1 {
        if s.len() < at + 1 {
            None
        } else {
            Some(((s[at] as i8) as int, 1))
        }
    } else if s.len() < at + 4 {
        None
    } else {
        Some((le_i32(s.subrange(at, at + 4)) as int, 4))
    }
}

/// Reads a ModR/M operand at the start of `s` with the REX.R and REX.B bits given: the reg
/// field (0 to 15), the r/m operand, and the number of bytes read. A SIB byte with an index
/// register, and an absolute address without base, are not read.
pub open spec fn decode_modrm(rex_r: bool, rex_b: bool, s: Seq<u8>) -> Option<
    (int, RegisterOrMemory, int),
> {
    if s.len() < 1 {
        None
    } else {
        let m = s[0] as int;
        let md = m / 64;
        let reg = (m / 8) % 8 + if rex_r {
            8int
        } else {
            0
        };
        let rm = m % 8;
        let ext = if rex_b {
            8int
        } else {
            0
        };
        if md == 3 {
            Some((reg, RegisterOrMemory::Direct(register_number(rm + ext)), 1))
        } else if rm == 4 {
            if s.len() < 2 {
                None
            } else {
                let sib = s[1] as int;
                let base = sib % 8;
                let index = (sib / 8) % 8;
                if index != 4 || (md == 0 && base == 5) {
                    None
                } else {
                    match read_displacement(md, s, 2) {
                        None => None,
                        Some((disp, k)) => Some(
                            (
                                reg,
                                RegisterOrMemory::Memory(
                                    MemoryOperand::Based { base: register_number(base + ext), disp },
                                ),
                                2 + k,
                            ),
                        ),
                    }
                }
            }
        } else if md == 0 && rm == 5 {
            if s.len() < 5 {
                None
            } else {
                Some(
                    (
                        reg,
                        RegisterOrMemory::Memory(
                            MemoryOperand::RipRelative { disp: le_i32(s.subrange(1, 5)) as int },
                        ),
                        5,
                    ),
                )
            }
        } else {
            match read_displacement(md, s, 1) {
                None => None,
                Some((disp, k)) => Some(
                    (
                        reg,
                        RegisterOrMemory::Memory(
                            MemoryOperand::Based { base: register_number(rm + ext), disp },
                        ),
                        1 + k,
                    ),
                ),
            }
        }
    }
}

/// Opcodes of the 64-bit forms that take a ModR/M operand right after the opcode byte.
pub open spec fn takes_modrm(op: int) -> bool {
    op == 0x8B || op == 0x89 || op == 0x8D || op == 0x81 || op == 0x01 || op == 0x29 || op
        == 0x39 || op == 0x85 || op == 0xF7
}

/// Reads a one-byte-opcode instruction with a ModR/M operand (64-bit operand size), given
/// the opcode, the ModR/M reading and the bytes from the opcode on.
pub open spec fn decode_modrm_form(op: int, reg: int, operand: RegisterOrMemory, k: int, s: Seq<u8>) -> Option<
    (MachineInstruction, int),
> {
    if op == 0x8B {
        Some((MachineInstruction::MovLoad { dst: register_number(reg), from: operand }, 1 + k))
    } else if op == 0x89 {
        Some((MachineInstruction::MovStore { to: operand, src: register_number(reg) }, 1 + k))
    } else if op == 0x8D {
        match operand {
            RegisterOrMemory::Memory(mem) => Some(
                (MachineInstruction::Lea { dst: register_number(reg), address: mem }, 1 + k),
            ),
            RegisterOrMemory::Direct(_) => None,
        }
    } else if op == 0x01 {
        Some((MachineInstruction::AddReg { to: operand, src: register_number(reg) }, 1 + k))
    } else if op == 0x29 {
        Some((MachineInstruction::SubReg { to: operand, src: register_number(reg) }, 1 + k))
    } else if op == 0x39 {
        Some((MachineInstruction::Cmp { left: operand, right: register_number(reg) }, 1 + k))
    } else if op == 0x85 {
        Some((MachineInstruction::Test { left: operand, right: register_number(reg) }, 1 + k))
    } else if op == 0xF7 {
        if reg % 8 == 7 {
            Some((MachineInstruction::Idiv { divisor: operand }, 1 + k))
        } else {
            None
        }
    } else if s.len() < 1 + k + 4 {
        None
    } else {
        let imm = le_i32(s.subrange(1 + k, 1 + k + 4));
        if reg % 8 == 0 {
            Some((MachineInstruction::AddImm32 { to: operand, imm32: imm }, 1 + k + 4))
        } else if reg % 8 == 5 {
            Some((MachineInstruction::SubImm32 { to: operand, imm32: imm }, 1 + k + 4))
        } else {
            None
        }
    }
}

/// Reads a two-byte-opcode instruction (0F xx) at the start of `s`.
pub open spec fn decode_escape(rex: bool, w: bool, r: bool, b: bool, s: Seq<u8>) -> Option<
    (MachineInstruction, int),
> {
    if s.len() < 2 {
        None
    } else {
        let op2 = s[1] as int;
        let rest = s.subrange(2, s.len() as int);
        if !rex && 0x80 <= op2 < 0x90 {
            if s.len() < 6 {
                None
            } else {
                Some(
                    (
                        MachineInstruction::Jcc { cc: op2 - 0x80, disp: le_i32(s.subrange(2, 6)) },
                        6,
                    ),
                )
            }
        } else if (w && (op2 == 0xAF || op2 == 0xB6)) || (!w && 0x90 <= op2 < 0xA0) {
            match decode_modrm(r, b, rest) {
                None => None,
                Some((reg, operand, k)) => if op2 == 0xAF {
                    Some((MachineInstruction::Imul { dst: register_number(reg), from: operand }, 2 + k))
                } else if op2 == 0xB6 {
                    Some(
                        (
                            MachineInstruction::MovzxByte { dst: register_number(reg), from: operand },
                            2 + k,
                        ),
                    )
                } else if !rex && rest[0] >= 0xC0 && rest[0] % 8 >= 4 {
                    // Without REX these name AH, CH, DH and BH, which the reading leaves out.
                    None
                } else {
                    Some((MachineInstruction::Setcc { cc: op2 - 0x90, to: operand }, 2 + k))
                },
            }
        } else {
            None
        }
    }
}

/// Reads one instruction after its REX prefix (if any) at the start of `s`; with the number
/// of bytes read.
pub open spec fn decode_opcode(rex: bool, w: bool, r: bool, b: bool, s: Seq<u8>) -> Option<
    (MachineInstruction, int),
> {
    if s.len() < 1 {
        None
    } else {
        let op = s[0] as int;
        let ext = if b {
            8int
        } else {
            0
        };
        if w && takes_modrm(op) {
            match decode_modrm(r, b, s.subrange(1, s.len() as int)) {
                None => None,
                Some((reg, operand, k)) => decode_modrm_form(op, reg, operand, k, s),
            }
        } else if op == 0x0F {
            decode_escape(rex, w, r, b, s)
        } else if w && 0xB8 <= op < 0xC0 {
            if s.len() < 9 {
                None
            } else {
                Some(
                    (
                        MachineInstruction::MovImm64 {
                            dst: register_number(op - 0xB8 + ext),
                            imm: le_i64(s.subrange(1, 9)),
                        },
                        9,
                    ),
                )
            }
        } else if w && op == 0x99 {
            Some((MachineInstruction::Cqo, 1))
        } else if !w && 0x50 <= op < 0x58 {
            Some((MachineInstruction::Push(register_number(op - 0x50 + ext)), 1))
        } else if !w && 0x58 <= op < 0x60 {
            Some((MachineInstruction::Pop(register_number(op - 0x58 + ext)), 1))
        } else if !rex && op == 0xC3 {
            Some((MachineInstruction::Ret, 1))
        } else if !rex && (op == 0xE8 || op == 0xE9) {
            if s.len() < 5 {
                None
            } else if op == 0xE8 {
                Some((MachineInstruction::CallRel32 { disp: le_i32(s.subrange(1, 5)) }, 5))
            } else {
                Some((MachineInstruction::Jmp { disp: le_i32(s.subrange(1, 5)) }, 5))
            }
        } else {
            None
        }
    }
}

/// Reads one instruction at the start of `s`, with an optional REX prefix (40 to 4F, without
/// REX.X); with the number of bytes it takes.
#[verifier::opaque]
pub open spec fn decode_one(s: Seq<u8>) -> Option<(MachineInstruction, int)> {
    if s.len() < 1 {
        None
    } else if 0x40 <= s[0] < 0x50 {
        let p = s[0] as int;
        if (p / 2) % 2 == 1 {
            None
        } else {
            match decode_opcode(
                true,
                (p / 8) % 2 == 1,
                (p / 4) % 2 == 1,
                p % 2 == 1,
                s.subrange(1, s.len() as int),
            ) {
                None => None,
                Some((i, k)) => Some((i, 1 + k)),
            }
        }
    } else {
        decode_opcode(false, false, false, false, s)
    }
}

/// Reads `s` as a run of whole instructions, in order; `None` when some part of it cannot be
/// read.
pub open spec fn decode_all(s: Seq<u8>) -> Option<Seq<MachineInstruction>>
    decreases s.len(),
{
    if s.len() == 0 {
        Some(Seq::empty())
    } else {
        match decode_one(s) {
            None => None,
            Some((i, k)) => if 0 < k <= s.len() {
                match decode_all(s.subrange(k, s.len() as int)) {
                    None => None,
                    Some(rest) => Some(seq![i] + rest),
                }
            } else {
                None
            },
        }
    }
}

/// The reading of a displacement looks at no byte past the ones it takes.
pub proof fn lemma_displacement_prefix(md: int, s: Seq<u8>, t: Seq<u8>, at: int)
    requires
        0 <= at <= s.len(),
        read_displacement(md, s, at) is Some,
    ensures
        read_displacement(md, s + t, at) == read_displacement(md, s, at),
        at + read_displacement(md, s, at)->Some_0.1 <= s.len(),
        0 <= read_displacement(md, s, at)->Some_0.1,
{
    if md != 0 && md != 1 {
        assert((s + t).subrange(at, at + 4) =~= s.subrange(at, at + 4));
    }
}

/// The reading of a ModR/M operand looks at no byte past the ones it takes.
pub proof fn lemma_modrm_prefix(rex_r: bool, rex_b: bool, s: Seq<u8>, t: Seq<u8>)
    requires
        decode_modrm(rex_r, rex_b, s) is Some,
    ensures
        decode_modrm(rex_r, rex_b, s + t) == decode_modrm(rex_r, rex_b, s),
        1 <= decode_modrm(rex_r, rex_b, s)->Some_0.2 <= s.len(),
{
    let m = s[0] as int;
    let md = m / 64;
    let rm = m % 8;
    assert((s + t)[0] == s[0]);
    if md != 3 {
        if rm == 4 {
            assert((s + t)[1] == s[1]);
            lemma_displacement_prefix(md, s, t, 2);
        } else if md == 0 && rm == 5 {
            assert((s + t).subrange(1, 5) =~= s.subrange(1, 5));
        } else {
            lemma_displacement_prefix(md, s, t, 1);
        }
    }
}

/// The reading of a two-byte-opcode instruction looks at no byte past the ones it takes.
pub proof fn lemma_escape_prefix(rex: bool, w: bool, r: bool, b: bool, s: Seq<u8>, t: Seq<u8>)
    requires
        decode_escape(rex, w, r, b, s) is Some,
    ensures
        decode_escape(rex, w, r, b, s + t) == decode_escape(rex, w, r, b, s),
        1 <= decode_escape(rex, w, r, b, s)->Some_0.1 <= s.len(),
{
    let op2 = s[1] as int;
    assert((s + t)[1] == s[1]);
    let rest = s.subrange(2, s.len() as int);
    assert((s + t).subrange(2, (s + t).len() as int) =~= rest + t);
    if !rex && 0x80 <= op2 < 0x90 {
        assert((s + t).subrange(2, 6) =~= s.subrange(2, 6));
    } else {
        lemma_modrm_prefix(r, b, rest, t);
        assert((rest + t)[0] == rest[0]);
    }
}

/// The reading of one instruction after its prefix looks at no byte past the ones it takes.
pub proof fn lemma_opcode_prefix(rex: bool, w: bool, r: bool, b: bool, s: Seq<u8>, t: Seq<u8>)
    requires
        decode_opcode(rex, w, r, b, s) is Some,
    ensures
        decode_opcode(rex, w, r, b, s + t) == decode_opcode(rex, w, r, b, s),
        1 <= decode_opcode(rex, w, r, b, s)->Some_0.1 <= s.len(),
{
    let op = s[0] as int;
    assert((s + t)[0] == s[0]);
    let rest = s.subrange(1, s.len() as int);
    assert((s + t).subrange(1, (s + t).len() as int) =~= rest + t);
    if w && takes_modrm(op) {
        lemma_modrm_prefix(r, b, rest, t);
        let (reg, operand, k) = decode_modrm(r, b, rest)->Some_0;
        if op == 0x81 {
            assert((s + t).subrange(1 + k, 1 + k + 4) =~= s.subrange(1 + k, 1 + k + 4));
        }
    } else if op == 0x0F {
        lemma_escape_prefix(rex, w, r, b, s, t);
    } else if w && 0xB8 <= op < 0xC0 {
        assert((s + t).subrange(1, 9) =~= s.subrange(1, 9));
    } else if !rex && (op == 0xE8 || op == 0xE9) {
        assert((s + t).subrange(1, 5) =~= s.subrange(1, 5));
    }
}

/// The reading of one instruction looks at no byte past the ones it takes: whatever follows
/// an instruction does not change how it reads.
pub proof fn lemma_decode_one_prefix(s: Seq<u8>, t: Seq<u8>)
    requires
        decode_one(s) is Some,
    ensures
        decode_one(s + t) == decode_one(s),
        1 <= decode_one(s)->Some_0.1 <= s.len(),
{
    reveal(decode_one);
    assert((s + t)[0] == s[0]);
    let rest = s.subrange(1, s.len() as int);
    assert((s + t).subrange(1, (s + t).len() as int) =~= rest + t);
    if 0x40 <= s[0] < 0x50 {
        let p = s[0] as int;
        lemma_opcode_prefix(true, (p / 8) % 2 == 1, (p / 4) % 2 == 1, p % 2 == 1, rest, t);
    } else {
        lemma_opcode_prefix(false, false, false, false, s, t);
    }
}

/// Code read as whole instructions, followed by more code, reads as its instructions followed
/// by those of the rest.
pub proof fn lemma_decode_all_append(a: Seq<u8>, b: Seq<u8>)
    requires
        decode_all(a) is Some,
    ensures
        decode_all(a + b) == match decode_all(b) {
            None => None,
            Some(y) => Some(decode_all(a)->Some_0 + y),
        },
    decreases a.len(),
{
    if a.len() == 0 {
        assert(a + b =~= b);
        match decode_all(b) {
            None => {},
            Some(y) => {
                assert(decode_all(a)->Some_0 + y =~= y);
            },
        }
    } else {
        lemma_decode_one_prefix(a, b);
        let (i, k) = decode_one(a)->Some_0;
        let ra = a.subrange(k, a.len() as int);
        assert((a + b).subrange(k, (a + b).len() as int) =~= ra + b);
        lemma_decode_all_append(ra, b);
        match decode_all(b) {
            None => {},
            Some(y) => {
                let x = decode_all(ra)->Some_0;
                assert(seq![i] + (x + y) =~= (seq![i] + x) + y);
            },
        }
    }
}

/// Code that is one whole instruction reads as that instruction.
pub proof fn lemma_decode_all_single(s: Seq<u8>)
    requires
        decode_one(s) is Some,
        decode_one(s)->Some_0.1 == s.len(),
    ensures
        decode_all(s) == Some(seq![decode_one(s)->Some_0.0]),
{
    let k = s.len() as int;
    let i = decode_one(s)->Some_0.0;
    lemma_decode_one_prefix(s, Seq::empty());
    assert(s.subrange(k, k) =~= Seq::<u8>::empty());
    assert(decode_all(s.subrange(k, k)) == Some(Seq::<MachineInstruction>::empty()));
    assert(seq![i] + Seq::<MachineInstruction>::empty() =~= seq![i]);
    assert(decode_all(s) == Some(seq![i] + Seq::<MachineInstruction>::empty()));
}

} // verus!
