use vstd::prelude::*;

verus! {

/// Smallest displacement that fits in a signed byte.
pub const DISP8_MIN: i32 = -128;

/// Largest displacement that fits in a signed byte.
pub const DISP8_MAX: i32 = 127;

/// ModR/M byte of `[rbp + disp32]` through a SIB byte, with `reg` (0 to 15) in the reg field.
pub open spec fn spec_modrm_rbp_disp32(reg: u8) -> u8 {
    (0x84 + (reg % 8) * 8) as u8
}

/// ModR/M byte of `[rip + disp32]` with `reg` (0 to 15) in the reg field.
pub open spec fn spec_modrm_rip_relative(reg: u8) -> u8 {
    (0x05 + (reg % 8) * 8) as u8
}

/// ModR/M byte of `[rbp + disp32]` addressed through a SIB byte (mod = 10, r/m = 100).
pub fn modrm_rbp_disp32(reg: u8) -> (b: u8)
    ensures
        b == spec_modrm_rbp_disp32(reg),
{
    0x84 + (reg % 8) * 8
}

/// SIB byte with no index and RBP as base (scale 1, index 100, base 101).
pub fn sib_rbp_no_index() -> (b: u8)
    ensures
        b == 0x25,
{
    0x25
}

/// ModR/M byte of a RIP-relative operand (mod = 00, r/m = 101).
pub fn modrm_rip_relative(reg: u8) -> (b: u8)
    ensures
        b == spec_modrm_rip_relative(reg),
{
    0x05 + (reg % 8) * 8
}

/// Encoding of the memory operand `[rm]` with `reg` in the reg field.
/// RSP and R12 need a SIB byte; RBP and R13 need a zero 8-bit displacement.
pub open spec fn spec_modrm_indirect(reg: u8, rm: u8) -> Seq<u8> {
    let modrm = ((reg % 8) * 8 + rm % 8) as u8;
    if rm % 8 == 4 {
        seq![modrm, 0x24u8]
    } else if rm % 8 == 5 {
        seq![(modrm + 0x40) as u8, 0u8]
    } else {
        seq![modrm]
    }
}

/// Builds the ModR/M (and SIB or displacement) bytes of `[rm]` with `reg` in the reg field.
pub fn generate_modrm_indirect(reg: u8, rm: u8) -> (bytes: Vec<u8>)
    ensures
        bytes@ == spec_modrm_indirect(reg, rm),
{
    let modrm = (reg % 8) * 8 + rm % 8;
    let mut bytes = Vec::new();
    if rm % 8 == 4 {
        bytes.push(modrm);
        bytes.push(0x24);
    } else if rm % 8 == 5 {
        bytes.push(modrm + 0x40);
        bytes.push(0);
    } else {
        bytes.push(modrm);
    }
    proof {
        assert(bytes@ =~= spec_modrm_indirect(reg, rm));
    }
    bytes
}

} // verus!
