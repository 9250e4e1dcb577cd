//! What the emitted machine code means: the byte sequences the compiler writes, read back as
//! x86-64 instructions by the reading in `platforms::amd64::decode`.
use vstd::bytes::{
    lemma_auto_spec_u32_to_from_le_bytes, lemma_auto_spec_u64_to_from_le_bytes,
    spec_u32_to_le_bytes, spec_u64_to_le_bytes,
};
use vstd::prelude::*;

use crate::ir::ast::common::{literal::LiteralValue, Identifier, Operand};
use crate::ir::ast::local::assignment::AssignmentStatement;
use crate::ir::ast::local::instruction::add::AddInstruction;
use crate::ir::ast::local::instruction::alloca::{
    AllocaInstruction, LoadInstruction, StoreInstruction,
};
use crate::ir::ast::local::instruction::branch::BranchInstruction;
use crate::ir::ast::local::instruction::call::CallInstruction;
use crate::ir::ast::local::instruction::compare::CompareInstruction;
use crate::ir::ast::local::instruction::div::DivInstruction;
use crate::ir::ast::local::instruction::mul::MulInstruction;
use crate::ir::ast::local::instruction::rem::RemInstruction;
use crate::ir::ast::local::instruction::return_::ReturnInstruction;
use crate::ir::ast::local::instruction::sub::SubInstruction;
use crate::ir::compile::linux_amd64::add::{
    spec_add_load_identifier, spec_compile_add, spec_operand_size,
};
use crate::ir::compile::linux_amd64::alloca::{
    spec_compile_alloca, spec_compile_load, spec_compile_store, spec_indirect, spec_lea_stack,
};
use crate::ir::compile::linux_amd64::branch::{rel32, spec_compile_branch, spec_jump_to_label};
use crate::ir::compile::linux_amd64::call::{
    param_register, spec_compile_call, spec_load_params, spec_load_value, string_constant_name,
};
use crate::ir::compile::linux_amd64::common::{
    has_symbol, le32, le64, literal_int, spec_binary_operation, spec_load_identifier,
    spec_load_operand, spec_mov_imm64, spec_reg_move, spec_stack_load,
};
use crate::ir::compile::linux_amd64::compare::spec_compile_compare;
use crate::ir::compile::linux_amd64::div::spec_compile_div;
use crate::ir::compile::linux_amd64::function::{
    frame_adjust, pop_bytes, pop_seq, push_bytes, push_seq, reversed, spec_epilogue, spec_prologue,
    spec_allocate, ContextView, VariableLocation,
};
use crate::ir::compile::linux_amd64::mul::spec_compile_mul;
use crate::ir::compile::linux_amd64::rem::spec_compile_rem;
use crate::ir::compile::linux_amd64::return_::spec_compile_return;
use crate::ir::compile::linux_amd64::statements::{
    spec_assignment_value, spec_compile_assignment, spec_store_rax,
};
use crate::ir::compile::linux_amd64::sub::spec_compile_sub;
use crate::ir::error::IRErrorKind;
use crate::platforms::amd64::decode::{
    decode_all, decode_modrm, decode_one, le_i32, le_i64, lemma_decode_all_append, lemma_decode_all_single,
    register_number, MachineInstruction, MemoryOperand, RegisterOrMemory,
};
use crate::platforms::amd64::register::Register;
use crate::platforms::linux::elf::object::ObjectView;
use crate::platforms::linux::elf::relocation::{RelocationType, RelocationView};
use crate::platforms::linux::elf::section::SectionType;

verus! {

/// Reading a register back from its number in an instruction gives the register.
proof fn lemma_register_number(r: Register)
    ensures
        register_number(r.code() as int) == r,
        register_number(
            r.low3() as int + if r.needs_rex() {
                8int
            } else {
                0
            },
        ) == r,
{
    match r {
        _ => {},
    }
}

/// Four little-endian bytes of a 32-bit value read back as that value.
proof fn lemma_le32_reads(v: i32)
    ensures
        le32(v).len() == 4,
        le_i32(le32(v)) == v,
{
    lemma_auto_spec_u32_to_from_le_bytes();
    let u = v as u32;
    assert(spec_u32_to_le_bytes(u).len() == 4);
    assert((u as i32) == v) by (bit_vector)
        requires
            u == v as u32,
    ;
}

/// Eight little-endian bytes of a 64-bit value read back as that value.
proof fn lemma_le64_reads(v: i64)
    ensures
        le64(v).len() == 8,
        le_i64(le64(v)) == v,
{
    lemma_auto_spec_u64_to_from_le_bytes();
    let u = v as u64;
    assert(spec_u64_to_le_bytes(u).len() == 8);
    assert((u as i64) == v) by (bit_vector)
        requires
            u == v as u64,
    ;
}

/// `MOV reg, imm64` as emitted reads as a move of exactly that value into exactly that
/// register.
pub proof fn lemma_mov_imm64_reads(reg: Register, v: i64)
    ensures
        spec_mov_imm64(reg, v).len() == 10,
        decode_one(spec_mov_imm64(reg, v)) == Some(
            (MachineInstruction::MovImm64 { dst: reg, imm: v }, 10int),
        ),
{
    reveal(decode_one);
    lemma_le64_reads(v);
    lemma_register_number(reg);
    let s = spec_mov_imm64(reg, v);
    let rest = s.subrange(1, s.len() as int);
    assert(rest.subrange(1, 9) =~= le64(v));
}

/// The memory operand `[rbp + offset]` of a stack slot.
pub open spec fn stack_slot(offset: i32) -> MemoryOperand {
    MemoryOperand::Based { base: Register::RBP, disp: offset as int }
}

/// Stack-slot law: a variable in the stack slot at `offset` is read from the very memory
/// its assignment writes. The load `MOV dst, [rbp + offset]` reads as a 64-bit load of that
/// slot into `dst`, and the store of RAX to the variable reads as a 64-bit store of RAX to
/// the same slot.
#[verifier::spinoff_prover]
#[verifier::rlimit(40)]
pub proof fn lemma_stack_slot_load_reads_store(dst: Register, offset: i32)
    ensures
        decode_all(spec_stack_load(dst, offset)) == Some(
            seq![
                MachineInstruction::MovLoad {
                    dst,
                    from: RegisterOrMemory::Memory(stack_slot(offset)),
                },
            ],
        ),
        decode_all(spec_store_rax(VariableLocation::Stack(offset))) == Some(
            seq![
                MachineInstruction::MovStore {
                    to: RegisterOrMemory::Memory(stack_slot(offset)),
                    src: Register::RAX,
                },
            ],
        ),
{
    reveal(decode_one);
    lemma_le32_reads(offset);
    lemma_register_number(dst);
    let s = spec_stack_load(dst, offset);
    let rest = s.subrange(1, s.len() as int);
    let rm = rest.subrange(1, rest.len() as int);
    assert(rm.subrange(2, 6) =~= le32(offset));
    assert(decode_one(s) == Some(
        (
            MachineInstruction::MovLoad { dst, from: RegisterOrMemory::Memory(stack_slot(offset)) },
            8int,
        ),
    ));
    lemma_decode_all_single(s);
    let t = spec_store_rax(VariableLocation::Stack(offset));
    let trest = t.subrange(1, t.len() as int);
    let trm = trest.subrange(1, trest.len() as int);
    assert(trm.subrange(2, 6) =~= le32(offset));
    assert(register_number(0) == Register::RAX);
    assert(decode_one(t) == Some(
        (
            MachineInstruction::MovStore {
                to: RegisterOrMemory::Memory(stack_slot(offset)),
                src: Register::RAX,
            },
            8int,
        ),
    ));
    lemma_decode_all_single(t);
}

/// The bytes `o2` has appended to the text of `o`.
pub open spec fn appended_code(o: ObjectView, o2: ObjectView) -> Seq<u8> {
    o2.text.subrange(o.text.len() as int, o2.text.len() as int)
}

/// `o2` is `o` with code appended to its text and nothing else changed.
pub open spec fn only_code_appended(o: ObjectView, o2: ObjectView) -> bool {
    o.text.len() <= o2.text.len() && o2 == o.emit(appended_code(o, o2))
}

/// The memory operand `[ptr]` of a pointer held in a register: that register as base, no
/// displacement.
pub open spec fn pointee(ptr: Register) -> MemoryOperand {
    MemoryOperand::Based { base: ptr, disp: 0 }
}

/// `MOV RAX, [ptr]` and `MOV [ptr], RAX` as emitted read as accesses to exactly `[ptr]`, for
/// every pointer register (RSP and R12 through a SIB byte, RBP and R13 with a zero 8-bit
/// displacement, never as a RIP-relative address).
proof fn lemma_indirect_reads(ptr: Register)
    ensures
        decode_all(spec_indirect(0x8B, ptr)) == Some(
            seq![
                MachineInstruction::MovLoad {
                    dst: Register::RAX,
                    from: RegisterOrMemory::Memory(pointee(ptr)),
                },
            ],
        ),
        decode_all(spec_indirect(0x89, ptr)) == Some(
            seq![
                MachineInstruction::MovStore {
                    to: RegisterOrMemory::Memory(pointee(ptr)),
                    src: Register::RAX,
                },
            ],
        ),
{
    reveal(decode_one);
    lemma_register_number(ptr);
    assert(register_number(0) == Register::RAX);
    let l = spec_indirect(0x8B, ptr);
    let st = spec_indirect(0x89, ptr);
    let lm = l.subrange(2, l.len() as int);
    let sm = st.subrange(2, st.len() as int);
    assert(l.subrange(1, l.len() as int).subrange(1, l.len() - 1) =~= lm);
    assert(st.subrange(1, st.len() as int).subrange(1, st.len() - 1) =~= sm);
    match ptr {
        _ => {},
    }
    assert(decode_one(l) == Some(
        (
            MachineInstruction::MovLoad {
                dst: Register::RAX,
                from: RegisterOrMemory::Memory(pointee(ptr)),
            },
            l.len() as int,
        ),
    ));
    assert(decode_one(st) == Some(
        (
            MachineInstruction::MovStore {
                to: RegisterOrMemory::Memory(pointee(ptr)),
                src: Register::RAX,
            },
            st.len() as int,
        ),
    ));
    lemma_decode_all_single(l);
    lemma_decode_all_single(st);
}

/// Pointer-load law: a load through a pointer variable held in a register appends one
/// instruction, a 64-bit load into RAX from exactly the address in that register.
pub proof fn lemma_load_through_register_pointer(
    c: ContextView,
    o: ObjectView,
    instruction: LoadInstruction,
    ptr: Register,
)
    requires
        c.variables.contains_key(instruction.ptr.name@),
        c.variables[instruction.ptr.name@] == VariableLocation::Register(ptr),
    ensures
        spec_compile_load(c, o, instruction) is Ok,
        only_code_appended(o, spec_compile_load(c, o, instruction)->Ok_0),
        decode_all(appended_code(o, spec_compile_load(c, o, instruction)->Ok_0)) == Some(
            seq![
                MachineInstruction::MovLoad {
                    dst: Register::RAX,
                    from: RegisterOrMemory::Memory(pointee(ptr)),
                },
            ],
        ),
{
    reveal(spec_compile_load);
    lemma_indirect_reads(ptr);
    let o2 = o.emit(spec_indirect(0x8B, ptr));
    assert(appended_code(o, o2) =~= spec_indirect(0x8B, ptr));
}

/// Pointer-store law: storing a 64-bit integer through a pointer variable held in a register
/// appends two instructions: the value is moved into RAX, then RAX is stored to exactly the
/// address in that register.
pub proof fn lemma_store_through_register_pointer(
    c: ContextView,
    o: ObjectView,
    instruction: StoreInstruction,
    value: i64,
    ptr: Register,
)
    requires
        instruction.value == Operand::Literal(LiteralValue::Int64(value)),
        c.variables.contains_key(instruction.ptr.name@),
        c.variables[instruction.ptr.name@] == VariableLocation::Register(ptr),
    ensures
        spec_compile_store(c, o, instruction) is Ok,
        only_code_appended(o, spec_compile_store(c, o, instruction)->Ok_0),
        decode_all(appended_code(o, spec_compile_store(c, o, instruction)->Ok_0)) == Some(
            seq![
                MachineInstruction::MovImm64 { dst: Register::RAX, imm: value },
                MachineInstruction::MovStore {
                    to: RegisterOrMemory::Memory(pointee(ptr)),
                    src: Register::RAX,
                },
            ],
        ),
{
    reveal(spec_compile_store);
    lemma_indirect_reads(ptr);
    lemma_mov_imm64_reads(Register::RAX, value);
    let m = spec_mov_imm64(Register::RAX, value);
    let st = spec_indirect(0x89, ptr);
    lemma_decode_all_single(m);
    lemma_decode_all_append(m, st);
    let o2 = o.emit(m).emit(st);
    assert(appended_code(o, o2) =~= m + st);
    assert(o2 =~= o.emit(m + st));
}

/// Global-operand law: an operand (an arithmetic operand or a branch condition) that names a
/// global constant rather than a local variable is loaded by its value, not its address. The
/// code appended is one 7-byte instruction, a 64-bit load `MOV reg, [rip + disp32]` (not
/// `LEA`), whose displacement is its last four bytes; those bytes get a PC-relative relocation
/// against the constant with addend -4, so that the linker makes the load address the
/// constant itself; nothing else changes.
pub proof fn lemma_global_operand_loads_value(
    c: ContextView,
    o: ObjectView,
    name: Seq<char>,
    reg: Register,
)
    requires
        !c.variables.contains_key(name),
        has_symbol(o, name),
    ensures
        spec_load_identifier(c, o, name, reg) is Ok,
        ({
            let o2 = spec_load_identifier(c, o, name, reg)->Ok_0;
            &&& o.text.len() <= o2.text.len()
            &&& o2 == (ObjectView {
                text: o.text + appended_code(o, o2),
                relocations: o.relocations.push(
                    RelocationView {
                        section: SectionType::Text,
                        offset: o.text_offset(3),
                        symbol: name,
                        reloc_type: RelocationType::PcRel32,
                        addend: -4i64,
                    },
                ),
                ..o
            })
            &&& appended_code(o, o2).len() == 7
            &&& decode_all(appended_code(o, o2)) == Some(
                seq![
                    MachineInstruction::MovLoad {
                        dst: reg,
                        from: RegisterOrMemory::Memory(
                            MemoryOperand::RipRelative {
                                disp: le_i32(appended_code(o, o2).subrange(3, 7)) as int,
                            },
                        ),
                    },
                ],
            )
        }),
{
    reveal(decode_one);
    lemma_register_number(reg);
    let o2 = spec_load_identifier(c, o, name, reg)->Ok_0;
    let b = appended_code(o, o2);
    let rest = b.subrange(1, b.len() as int);
    let rm = rest.subrange(1, rest.len() as int);
    assert(rm.subrange(1, 5) =~= b.subrange(3, 7));
    assert(decode_one(b) == Some(
        (
            MachineInstruction::MovLoad {
                dst: reg,
                from: RegisterOrMemory::Memory(
                    MemoryOperand::RipRelative { disp: le_i32(b.subrange(3, 7)) as int },
                ),
            },
            7int,
        ),
    ));
    lemma_decode_all_single(b);
    assert(o.text + b =~= o2.text);
}

/// `PUSH` of each register, in order.
pub open spec fn pushes(regs: Seq<Register>) -> Seq<MachineInstruction> {
    regs.map_values(|r: Register| MachineInstruction::Push(r))
}

/// `POP` into each register, in order.
pub open spec fn pops(regs: Seq<Register>) -> Seq<MachineInstruction> {
    regs.map_values(|r: Register| MachineInstruction::Pop(r))
}

/// `SUB RSP, size` when the frame is positive, else nothing.
pub open spec fn frame_reserve(size: i32) -> Seq<MachineInstruction> {
    if size > 0 {
        seq![
            MachineInstruction::SubImm32 {
                to: RegisterOrMemory::Direct(Register::RSP),
                imm32: size,
            },
        ]
    } else {
        Seq::empty()
    }
}

/// `ADD RSP, size` when the frame is positive, else nothing.
pub open spec fn frame_release(size: i32) -> Seq<MachineInstruction> {
    if size > 0 {
        seq![
            MachineInstruction::AddImm32 {
                to: RegisterOrMemory::Direct(Register::RSP),
                imm32: size,
            },
        ]
    } else {
        Seq::empty()
    }
}

/// `PUSH reg` and `POP reg` as emitted read as a push and a pop of that register.
proof fn lemma_push_pop_read(r: Register)
    ensures
        decode_one(push_bytes(r)) == Some((MachineInstruction::Push(r), push_bytes(r).len() as int)),
        decode_one(pop_bytes(r)) == Some((MachineInstruction::Pop(r), pop_bytes(r).len() as int)),
{
    reveal(decode_one);
    lemma_register_number(r);
    let b = push_bytes(r);
    let p = pop_bytes(r);
    if r.needs_rex() {
        assert(b.subrange(1, b.len() as int) =~= seq![b[1]]);
        assert(p.subrange(1, p.len() as int) =~= seq![p[1]]);
    }
}

/// The fixed bytes of the prologue and epilogue: `PUSH RBP`, `MOV RBP, RSP`, `POP RBP`, `RET`.
proof fn lemma_frame_pointer_read()
    ensures
        decode_one(seq![0x55u8]) == Some((MachineInstruction::Push(Register::RBP), 1int)),
        decode_one(seq![0x48u8, 0x89u8, 0xE5u8]) == Some(
            (
                MachineInstruction::MovStore {
                    to: RegisterOrMemory::Direct(Register::RBP),
                    src: Register::RSP,
                },
                3int,
            ),
        ),
        decode_one(seq![0x5Du8]) == Some((MachineInstruction::Pop(Register::RBP), 1int)),
        decode_one(seq![0xC3u8]) == Some((MachineInstruction::Ret, 1int)),
{
    reveal(decode_one);
    assert(register_number(4) == Register::RSP);
    assert(register_number(5) == Register::RBP);
    let h2 = seq![0x48u8, 0x89u8, 0xE5u8];
    assert(h2.subrange(1, 3).subrange(1, 2) =~= seq![0xE5u8]);
}

/// `CALL rel32` with a zero displacement reads as a call.
proof fn lemma_call_read()
    ensures
        decode_one(seq![0xE8u8, 0u8, 0u8, 0u8, 0u8]) == Some(
            (
                MachineInstruction::CallRel32 {
                    disp: le_i32(seq![0xE8u8, 0u8, 0u8, 0u8, 0u8].subrange(1, 5)),
                },
                5int,
            ),
        ),
{
    reveal(decode_one);
}

/// The pushes as emitted read as one `PUSH` per register, in order.
proof fn lemma_push_seq_reads(regs: Seq<Register>)
    ensures
        decode_all(push_seq(regs)) == Some(pushes(regs)),
    decreases regs.len(),
{
    if regs.len() == 0 {
        assert(pushes(regs) =~= Seq::<MachineInstruction>::empty());
    } else {
        let front = regs.drop_last();
        let r = regs.last();
        lemma_push_seq_reads(front);
        let b = push_bytes(r);
        lemma_push_pop_read(r);
        lemma_decode_all_single(b);
        lemma_decode_all_append(push_seq(front), b);
        assert(pushes(regs) =~= pushes(front) + seq![MachineInstruction::Push(r)]);
    }
}

/// The pops as emitted read as one `POP` per register, in order.
proof fn lemma_pop_seq_reads(regs: Seq<Register>)
    ensures
        decode_all(pop_seq(regs)) == Some(pops(regs)),
    decreases regs.len(),
{
    if regs.len() == 0 {
        assert(pops(regs) =~= Seq::<MachineInstruction>::empty());
    } else {
        let front = regs.drop_last();
        let r = regs.last();
        lemma_pop_seq_reads(front);
        let b = pop_bytes(r);
        lemma_push_pop_read(r);
        lemma_decode_all_single(b);
        lemma_decode_all_append(pop_seq(front), b);
        assert(pops(regs) =~= pops(front) + seq![MachineInstruction::Pop(r)]);
    }
}

/// The frame adjustments as emitted read as `SUB RSP, size` and `ADD RSP, size`.
proof fn lemma_frame_adjust_reads(size: i32)
    ensures
        decode_all(frame_adjust(5, size)) == Some(frame_reserve(size)),
        decode_all(frame_adjust(0, size)) == Some(frame_release(size)),
{
    reveal(decode_one);
    if size > 0 {
        lemma_le32_reads(size);
        assert(register_number(4) == Register::RSP);
        let sub = frame_adjust(5, size);
        let add = frame_adjust(0, size);
        assert(sub.subrange(1, 7).subrange(2, 6) =~= le32(size));
        assert(sub.subrange(1, sub.len() as int) =~= sub.subrange(1, 7));
        assert(add.subrange(1, 7).subrange(2, 6) =~= le32(size));
        assert(add.subrange(1, add.len() as int) =~= add.subrange(1, 7));
        assert(decode_one(sub) == Some((frame_reserve(size)[0], 7int)));
        assert(decode_one(add) == Some((frame_release(size)[0], 7int)));
        lemma_decode_all_single(sub);
        lemma_decode_all_single(add);
        assert(seq![frame_reserve(size)[0]] =~= frame_reserve(size));
        assert(seq![frame_release(size)[0]] =~= frame_release(size));
    } else {
        assert(frame_reserve(size) =~= Seq::<MachineInstruction>::empty());
        assert(frame_release(size) =~= Seq::<MachineInstruction>::empty());
    }
}

/// Callee-saved-register law: the prologue saves RBP, sets up the frame pointer, pushes the
/// used callee-saved registers in order and reserves the frame; the epilogue releases the
/// frame, pops the same registers in the reverse order, restores RBP and returns. So the
/// k-th register popped is the (n-1-k)-th register pushed: each register gets back its own
/// saved value.
pub proof fn lemma_epilogue_restores_saved_registers(c: ContextView)
    ensures
        decode_all(spec_prologue(c)) == Some(
            seq![
                MachineInstruction::Push(Register::RBP),
                MachineInstruction::MovStore {
                    to: RegisterOrMemory::Direct(Register::RBP),
                    src: Register::RSP,
                },
            ] + pushes(c.used_callee_saved) + frame_reserve(c.allocated_stack_size),
        ),
        decode_all(spec_epilogue(c)) == Some(
            frame_release(c.allocated_stack_size) + pops(c.used_callee_saved.reverse()) + seq![
                MachineInstruction::Pop(Register::RBP),
                MachineInstruction::Ret,
            ],
        ),
        forall|k: int|
            0 <= k < c.used_callee_saved.len() ==> #[trigger] pops(c.used_callee_saved.reverse())[k]
                == MachineInstruction::Pop(c.used_callee_saved[c.used_callee_saved.len() - 1 - k]),
{
    let regs = c.used_callee_saved;
    let size = c.allocated_stack_size;
    // Prologue.
    let head = seq![0x55u8, 0x48u8, 0x89u8, 0xE5u8];
    let h1 = seq![0x55u8];
    let h2 = seq![0x48u8, 0x89u8, 0xE5u8];
    lemma_frame_pointer_read();
    lemma_decode_all_single(h1);
    lemma_decode_all_single(h2);
    lemma_decode_all_append(h1, h2);
    assert(h1 + h2 =~= head);
    lemma_push_seq_reads(regs);
    lemma_frame_adjust_reads(size);
    lemma_decode_all_append(head, push_seq(regs));
    lemma_decode_all_append(head + push_seq(regs), frame_adjust(5, size));
    // Epilogue.
    let t1 = seq![0x5Du8];
    let t2 = seq![0xC3u8];
    lemma_decode_all_single(t1);
    lemma_decode_all_single(t2);
    lemma_decode_all_append(t1, t2);
    assert(t1 + t2 =~= seq![0x5Du8, 0xC3u8]);
    assert(reversed(regs) =~= regs.reverse());
    lemma_pop_seq_reads(regs.reverse());
    lemma_decode_all_append(frame_adjust(0, size), pop_seq(regs.reverse()));
    lemma_decode_all_append(frame_adjust(0, size) + pop_seq(regs.reverse()), seq![0x5Du8, 0xC3u8]);
}

/// The System V AMD64 registers of the first six integer arguments, in order.
pub open spec fn sysv_integer_argument_registers() -> Seq<Register> {
    seq![Register::RDI, Register::RSI, Register::RDX, Register::RCX, Register::R8, Register::R9]
}

/// One `MOV reg, imm64` per value, into the System V register of its position.
pub open spec fn argument_moves(values: Seq<i64>) -> Seq<MachineInstruction> {
    Seq::new(
        values.len(),
        |i: int|
            MachineInstruction::MovImm64 {
                dst: sysv_integer_argument_registers()[i],
                imm: values[i],
            },
    )
}

/// Loading the first `n` of at most six integer arguments appends one move per argument,
/// into the System V registers in order.
proof fn lemma_integer_arguments_read(
    c: ContextView,
    o: ObjectView,
    params: Seq<Operand>,
    values: Seq<i64>,
    n: nat,
)
    requires
        params.len() == values.len(),
        values.len() <= 6,
        n <= values.len(),
        forall|i: int|
            0 <= i < values.len() ==> (#[trigger] params[i] matches Operand::Literal(lit)
                && literal_int(lit) == Some(values[i])),
    ensures
        spec_load_params(c, o, params, n) is Ok,
        only_code_appended(o, spec_load_params(c, o, params, n)->Ok_0),
        decode_all(appended_code(o, spec_load_params(c, o, params, n)->Ok_0)) == Some(
            argument_moves(values.take(n as int)),
        ),
    decreases n,
{
    if n == 0 {
        assert(appended_code(o, o) =~= Seq::<u8>::empty());
        assert(o.emit(Seq::<u8>::empty()) =~= o);
        assert(argument_moves(values.take(0)) =~= Seq::<MachineInstruction>::empty());
    } else {
        let k = (n - 1) as nat;
        lemma_integer_arguments_read(c, o, params, values, k);
        let o1 = spec_load_params(c, o, params, k)->Ok_0;
        let reg = param_register(k as int);
        let m = spec_mov_imm64(reg, values[k as int]);
        reveal(spec_load_value);
        assert(params[k as int] matches Operand::Literal(lit) && literal_int(lit) == Some(
            values[k as int],
        ));
        let o2 = o1.emit(m);
        assert(spec_load_params(c, o, params, n) == Ok::<ObjectView, IRErrorKind>(o2));
        lemma_mov_imm64_reads(reg, values[k as int]);
        lemma_decode_all_single(m);
        lemma_decode_all_append(appended_code(o, o1), m);
        assert(appended_code(o, o2) =~= appended_code(o, o1) + m);
        assert(o2 =~= o.emit(appended_code(o, o2)));
        assert(argument_moves(values.take(n as int)) =~= argument_moves(values.take(k as int))
            + seq![MachineInstruction::MovImm64 { dst: reg, imm: values[k as int] }]);
    }
}

/// Calling-convention law: a call with at most six integer literal arguments compiles, and the
/// code it appends reads as a move of argument i into the i-th System V argument register
/// (RDI, RSI, RDX, RCX, R8, R9), for each argument in order (its value sign-extended to 64
/// bits), then `CALL rel32` whose displacement gets a PLT relocation against the callee.
pub proof fn lemma_call_arguments_in_abi_registers(
    c: ContextView,
    o: ObjectView,
    instruction: CallInstruction,
    values: Seq<i64>,
)
    requires
        instruction.parameters@.len() == values.len(),
        values.len() <= 6,
        forall|i: int|
            0 <= i < values.len() ==> (#[trigger] instruction.parameters@[i] matches Operand::Literal(
                lit,
            ) && literal_int(lit) == Some(values[i])),
    ensures
        spec_compile_call(c, o, instruction) is Ok,
        ({
            let o2 = spec_compile_call(c, o, instruction)->Ok_0;
            &&& o.text.len() <= o2.text.len()
            &&& o2.text == o.text + appended_code(o, o2)
            &&& decode_all(appended_code(o, o2)) matches Some(code) && code.len() == values.len() + 1
                && code.take(values.len() as int) == argument_moves(values) && code.last() is CallRel32
            &&& o2.relocations.len() == o.relocations.len() + 1
            &&& o2.relocations.last().symbol == instruction.function_name.name@
            &&& o2.relocations.last().reloc_type == RelocationType::PltPcRel32
        }),
{
    reveal(spec_compile_call);
    let params = instruction.parameters@;
    let n = params.len();
    lemma_integer_arguments_read(c, o, params, values, n);
    let o1 = spec_load_params(c, o, params, n)->Ok_0;
    let call = seq![0xE8u8, 0u8, 0u8, 0u8, 0u8];
    lemma_call_read();
    lemma_decode_all_single(call);
    lemma_decode_all_append(appended_code(o, o1), call);
    assert(values.take(n as int) =~= values);
    let o2 = spec_compile_call(c, o, instruction)->Ok_0;
    assert(o2.text == o1.text + call);
    assert(appended_code(o, o2) =~= appended_code(o, o1) + call);
    assert(o2.text =~= o.text + appended_code(o, o2));
    let code = argument_moves(values) + seq![
        MachineInstruction::CallRel32 { disp: le_i32(call.subrange(1, 5)) },
    ];
    assert(code.take(n as int) =~= argument_moves(values));
}

/// The RAX register operand.
pub open spec fn rax() -> RegisterOrMemory {
    RegisterOrMemory::Direct(Register::RAX)
}

/// The RCX register operand.
pub open spec fn rcx() -> RegisterOrMemory {
    RegisterOrMemory::Direct(Register::RCX)
}

/// The fixed instructions of the operations read as what they are named.
proof fn lemma_operation_bytes_read()
    ensures
        decode_all(seq![0x48u8, 0x01u8, 0xC8u8]) == Some(
            seq![MachineInstruction::AddReg { to: rax(), src: Register::RCX }],
        ),
        decode_all(seq![0x48u8, 0x29u8, 0xC8u8]) == Some(
            seq![MachineInstruction::SubReg { to: rax(), src: Register::RCX }],
        ),
        decode_all(seq![0x48u8, 0x0Fu8, 0xAFu8, 0xC1u8]) == Some(
            seq![MachineInstruction::Imul { dst: Register::RAX, from: rcx() }],
        ),
        decode_all(seq![0x48u8, 0x99u8]) == Some(seq![MachineInstruction::Cqo]),
        decode_all(seq![0x48u8, 0xF7u8, 0xF9u8]) == Some(
            seq![MachineInstruction::Idiv { divisor: rcx() }],
        ),
        decode_all(seq![0x48u8, 0xF7u8, 0xF9u8, 0x48u8, 0x8Bu8, 0xC2u8]) == Some(
            seq![
                MachineInstruction::Idiv { divisor: rcx() },
                MachineInstruction::MovLoad {
                    dst: Register::RAX,
                    from: RegisterOrMemory::Direct(Register::RDX),
                },
            ],
        ),
        decode_all(
            seq![0x48u8, 0x39u8, 0xC8u8, 0x0Fu8, 0x94u8, 0xC0u8, 0x48u8, 0x0Fu8, 0xB6u8, 0xC0u8],
        ) == Some(
            seq![
                MachineInstruction::Cmp { left: rax(), right: Register::RCX },
                MachineInstruction::Setcc { cc: 4, to: rax() },
                MachineInstruction::MovzxByte { dst: Register::RAX, from: rax() },
            ],
        ),
{
    assert(register_number(0) == Register::RAX);
    assert(register_number(1) == Register::RCX);
    assert(register_number(2) == Register::RDX);
    let add = seq![0x48u8, 0x01u8, 0xC8u8];
    let sub = seq![0x48u8, 0x29u8, 0xC8u8];
    let mul = seq![0x48u8, 0x0Fu8, 0xAFu8, 0xC1u8];
    let cqo = seq![0x48u8, 0x99u8];
    let div = seq![0x48u8, 0xF7u8, 0xF9u8];
    let mov = seq![0x48u8, 0x8Bu8, 0xC2u8];
    let cmp = seq![0x48u8, 0x39u8, 0xC8u8];
    let sete = seq![0x0Fu8, 0x94u8, 0xC0u8];
    let movzx = seq![0x48u8, 0x0Fu8, 0xB6u8, 0xC0u8];
    assert(decode_one(add) == Some((MachineInstruction::AddReg { to: rax(), src: Register::RCX }, 3int))) by {
        reveal(decode_one);
        assert(add.subrange(1, 3).subrange(1, 2) =~= seq![0xC8u8]);
    }
    assert(decode_one(sub) == Some((MachineInstruction::SubReg { to: rax(), src: Register::RCX }, 3int))) by {
        reveal(decode_one);
        assert(sub.subrange(1, 3).subrange(1, 2) =~= seq![0xC8u8]);
    }
    assert(decode_one(mul) == Some((MachineInstruction::Imul { dst: Register::RAX, from: rcx() }, 4int))) by {
        reveal(decode_one);
        assert(mul.subrange(1, 4).subrange(2, 3) =~= seq![0xC1u8]);
    }
    assert(decode_one(cqo) == Some((MachineInstruction::Cqo, 2int))) by {
        reveal(decode_one);
    }
    assert(decode_one(div) == Some((MachineInstruction::Idiv { divisor: rcx() }, 3int))) by {
        reveal(decode_one);
        assert(div.subrange(1, 3).subrange(1, 2) =~= seq![0xF9u8]);
    }
    assert(decode_one(mov) == Some(
        (
            MachineInstruction::MovLoad { dst: Register::RAX, from: RegisterOrMemory::Direct(Register::RDX) },
            3int,
        ),
    )) by {
        reveal(decode_one);
        assert(mov.subrange(1, 3).subrange(1, 2) =~= seq![0xC2u8]);
    }
    assert(decode_one(cmp) == Some((MachineInstruction::Cmp { left: rax(), right: Register::RCX }, 3int))) by {
        reveal(decode_one);
        assert(cmp.subrange(1, 3).subrange(1, 2) =~= seq![0xC8u8]);
    }
    assert(decode_one(sete) == Some((MachineInstruction::Setcc { cc: 4, to: rax() }, 3int))) by {
        reveal(decode_one);
        assert(sete.subrange(2, 3) =~= seq![0xC0u8]);
    }
    assert(decode_one(movzx) == Some((MachineInstruction::MovzxByte { dst: Register::RAX, from: rax() }, 4int))) by {
        reveal(decode_one);
        assert(movzx.subrange(1, 4).subrange(2, 3) =~= seq![0xC0u8]);
    }
    lemma_decode_all_single(add);
    lemma_decode_all_single(sub);
    lemma_decode_all_single(mul);
    lemma_decode_all_single(cqo);
    lemma_decode_all_single(div);
    lemma_decode_all_single(mov);
    lemma_decode_all_single(cmp);
    lemma_decode_all_single(sete);
    lemma_decode_all_single(movzx);
    lemma_decode_all_append(div, mov);
    assert(div + mov =~= seq![0x48u8, 0xF7u8, 0xF9u8, 0x48u8, 0x8Bu8, 0xC2u8]);
    lemma_decode_all_append(cmp, sete);
    lemma_decode_all_append(cmp + sete, movzx);
    assert(cmp + sete + movzx =~= seq![
        0x48u8, 0x39u8, 0xC8u8, 0x0Fu8, 0x94u8, 0xC0u8, 0x48u8, 0x0Fu8, 0xB6u8, 0xC0u8,
    ]);
}

/// A two-operand operation on integer literals appends the load of the left value into RAX,
/// `between`, the load of the right value into RCX and `op`; read as instructions when
/// `between` and `op` read as `mid` and `ops`.
proof fn lemma_binary_literals_read(
    c: ContextView,
    o: ObjectView,
    left: Operand,
    right: Operand,
    l: i64,
    r: i64,
    between: Seq<u8>,
    op: Seq<u8>,
    mid: Seq<MachineInstruction>,
    ops: Seq<MachineInstruction>,
)
    requires
        left matches Operand::Literal(a) && literal_int(a) == Some(l),
        right matches Operand::Literal(b) && literal_int(b) == Some(r),
        decode_all(between) == Some(mid),
        decode_all(op) == Some(ops),
    ensures
        spec_binary_operation(c, o, left, right, between, op) is Ok,
        only_code_appended(o, spec_binary_operation(c, o, left, right, between, op)->Ok_0),
        decode_all(appended_code(o, spec_binary_operation(c, o, left, right, between, op)->Ok_0))
            == Some(
            seq![MachineInstruction::MovImm64 { dst: Register::RAX, imm: l }] + mid + seq![
                MachineInstruction::MovImm64 { dst: Register::RCX, imm: r },
            ] + ops,
        ),
{
    let ml = spec_mov_imm64(Register::RAX, l);
    let mr = spec_mov_imm64(Register::RCX, r);
    let code = ml + between + mr + op;
    lemma_binary_literals_emit(c, o, left, right, l, r, between, op);
    let o2 = o.emit(code);
    assert(appended_code(o, o2) =~= code);
    lemma_mov_imm64_reads(Register::RAX, l);
    lemma_mov_imm64_reads(Register::RCX, r);
    lemma_decode_all_single(ml);
    lemma_decode_all_single(mr);
    lemma_decode_all_append(ml, between);
    lemma_decode_all_append(ml + between, mr);
    lemma_decode_all_append(ml + between + mr, op);
}

/// A two-operand operation on integer literals appends the two loads around `between`, then
/// `op`.
#[verifier::spinoff_prover]
#[verifier::rlimit(40)]
proof fn lemma_binary_literals_emit(
    c: ContextView,
    o: ObjectView,
    left: Operand,
    right: Operand,
    l: i64,
    r: i64,
    between: Seq<u8>,
    op: Seq<u8>,
)
    requires
        left matches Operand::Literal(a) && literal_int(a) == Some(l),
        right matches Operand::Literal(b) && literal_int(b) == Some(r),
    ensures
        spec_binary_operation(c, o, left, right, between, op) == Ok::<ObjectView, IRErrorKind>(
            o.emit(spec_mov_imm64(Register::RAX, l) + between + spec_mov_imm64(Register::RCX, r) + op),
        ),
{
    reveal(spec_binary_operation);
    let ml = spec_mov_imm64(Register::RAX, l);
    let mr = spec_mov_imm64(Register::RCX, r);
    assert(o.emit(ml).emit(between).emit(mr).emit(op) =~= o.emit(ml + between + mr + op));
}

/// Subtraction law: `sub l, r` on integer literals reads as `MOV RAX, l; MOV RCX, r;
/// SUB RAX, RCX`, leaving `l - r` in RAX.
pub proof fn lemma_sub_literals_code(c: ContextView, o: ObjectView, instruction: SubInstruction, l: i64, r: i64)
    requires
        instruction.left matches Operand::Literal(a) && literal_int(a) == Some(l),
        instruction.right matches Operand::Literal(b) && literal_int(b) == Some(r),
    ensures
        spec_compile_sub(c, o, instruction) is Ok,
        only_code_appended(o, spec_compile_sub(c, o, instruction)->Ok_0),
        decode_all(appended_code(o, spec_compile_sub(c, o, instruction)->Ok_0)) == Some(
            seq![
                MachineInstruction::MovImm64 { dst: Register::RAX, imm: l },
                MachineInstruction::MovImm64 { dst: Register::RCX, imm: r },
                MachineInstruction::SubReg { to: rax(), src: Register::RCX },
            ],
        ),
{
    lemma_operation_bytes_read();
    assert(decode_all(Seq::<u8>::empty()) == Some(Seq::<MachineInstruction>::empty()));
    let ops = seq![MachineInstruction::SubReg { to: rax(), src: Register::RCX }];
    lemma_binary_literals_read(c, o, instruction.left, instruction.right, l, r, Seq::empty(), seq![0x48u8, 0x29u8, 0xC8u8], Seq::empty(), ops);
    assert(seq![MachineInstruction::MovImm64 { dst: Register::RAX, imm: l }] + Seq::<MachineInstruction>::empty() + seq![
        MachineInstruction::MovImm64 { dst: Register::RCX, imm: r },
    ] + ops =~= seq![
        MachineInstruction::MovImm64 { dst: Register::RAX, imm: l },
        MachineInstruction::MovImm64 { dst: Register::RCX, imm: r },
        MachineInstruction::SubReg { to: rax(), src: Register::RCX },
    ]);
}

/// Multiplication law: `mul l, r` on integer literals reads as `MOV RAX, l; MOV RCX, r;
/// IMUL RAX, RCX`, leaving the (truncated) product in RAX.
pub proof fn lemma_mul_literals_code(c: ContextView, o: ObjectView, instruction: MulInstruction, l: i64, r: i64)
    requires
        instruction.left matches Operand::Literal(a) && literal_int(a) == Some(l),
        instruction.right matches Operand::Literal(b) && literal_int(b) == Some(r),
    ensures
        spec_compile_mul(c, o, instruction) is Ok,
        only_code_appended(o, spec_compile_mul(c, o, instruction)->Ok_0),
        decode_all(appended_code(o, spec_compile_mul(c, o, instruction)->Ok_0)) == Some(
            seq![
                MachineInstruction::MovImm64 { dst: Register::RAX, imm: l },
                MachineInstruction::MovImm64 { dst: Register::RCX, imm: r },
                MachineInstruction::Imul { dst: Register::RAX, from: rcx() },
            ],
        ),
{
    lemma_operation_bytes_read();
    assert(decode_all(Seq::<u8>::empty()) == Some(Seq::<MachineInstruction>::empty()));
    let mid = Seq::<MachineInstruction>::empty();
    let ops = seq![MachineInstruction::Imul { dst: Register::RAX, from: rcx() }];
    lemma_binary_literals_read(c, o, instruction.left, instruction.right, l, r, Seq::empty(), seq![0x48u8, 0x0Fu8, 0xAFu8, 0xC1u8], mid, ops);
    assert(seq![MachineInstruction::MovImm64 { dst: Register::RAX, imm: l }] + mid + seq![
        MachineInstruction::MovImm64 { dst: Register::RCX, imm: r },
    ] + ops =~= seq![
                MachineInstruction::MovImm64 { dst: Register::RAX, imm: l },
                MachineInstruction::MovImm64 { dst: Register::RCX, imm: r },
                MachineInstruction::Imul { dst: Register::RAX, from: rcx() },
    ]);
}

/// Division law: `div l, r` on integer literals reads as `MOV RAX, l; CQO; MOV RCX, r;
/// IDIV RCX`: the dividend is sign-extended into RDX:RAX before RCX is loaded, and the
/// quotient is left in RAX.
pub proof fn lemma_div_literals_code(c: ContextView, o: ObjectView, instruction: DivInstruction, l: i64, r: i64)
    requires
        instruction.left matches Operand::Literal(a) && literal_int(a) == Some(l),
        instruction.right matches Operand::Literal(b) && literal_int(b) == Some(r),
    ensures
        spec_compile_div(c, o, instruction) is Ok,
        only_code_appended(o, spec_compile_div(c, o, instruction)->Ok_0),
        decode_all(appended_code(o, spec_compile_div(c, o, instruction)->Ok_0)) == Some(
            seq![
                MachineInstruction::MovImm64 { dst: Register::RAX, imm: l },
                MachineInstruction::Cqo,
                MachineInstruction::MovImm64 { dst: Register::RCX, imm: r },
                MachineInstruction::Idiv { divisor: rcx() },
            ],
        ),
{
    lemma_operation_bytes_read();
    assert(decode_all(Seq::<u8>::empty()) == Some(Seq::<MachineInstruction>::empty()));
    let mid = seq![MachineInstruction::Cqo];
    let ops = seq![MachineInstruction::Idiv { divisor: rcx() }];
    lemma_binary_literals_read(c, o, instruction.left, instruction.right, l, r, seq![0x48u8, 0x99u8], seq![0x48u8, 0xF7u8, 0xF9u8], mid, ops);
    assert(seq![MachineInstruction::MovImm64 { dst: Register::RAX, imm: l }] + mid + seq![
        MachineInstruction::MovImm64 { dst: Register::RCX, imm: r },
    ] + ops =~= seq![
                MachineInstruction::MovImm64 { dst: Register::RAX, imm: l },
                MachineInstruction::Cqo,
                MachineInstruction::MovImm64 { dst: Register::RCX, imm: r },
                MachineInstruction::Idiv { divisor: rcx() },
    ]);
}

/// Remainder law: `rem l, r` on integer literals reads as the division followed by
/// `MOV RAX, RDX`, leaving the remainder of the signed division in RAX.
pub proof fn lemma_rem_literals_code(c: ContextView, o: ObjectView, instruction: RemInstruction, l: i64, r: i64)
    requires
        instruction.left matches Operand::Literal(a) && literal_int(a) == Some(l),
        instruction.right matches Operand::Literal(b) && literal_int(b) == Some(r),
    ensures
        spec_compile_rem(c, o, instruction) is Ok,
        only_code_appended(o, spec_compile_rem(c, o, instruction)->Ok_0),
        decode_all(appended_code(o, spec_compile_rem(c, o, instruction)->Ok_0)) == Some(
            seq![
                MachineInstruction::MovImm64 { dst: Register::RAX, imm: l },
                MachineInstruction::Cqo,
                MachineInstruction::MovImm64 { dst: Register::RCX, imm: r },
                MachineInstruction::Idiv { divisor: rcx() },
                MachineInstruction::MovLoad {
                    dst: Register::RAX,
                    from: RegisterOrMemory::Direct(Register::RDX),
                },
            ],
        ),
{
    lemma_operation_bytes_read();
    assert(decode_all(Seq::<u8>::empty()) == Some(Seq::<MachineInstruction>::empty()));
    let mid = seq![MachineInstruction::Cqo];
    let ops = seq![
        MachineInstruction::Idiv { divisor: rcx() },
        MachineInstruction::MovLoad { dst: Register::RAX, from: RegisterOrMemory::Direct(Register::RDX) },
    ];
    lemma_binary_literals_read(c, o, instruction.left, instruction.right, l, r, seq![0x48u8, 0x99u8], seq![0x48u8, 0xF7u8, 0xF9u8, 0x48u8, 0x8Bu8, 0xC2u8], mid, ops);
    assert(seq![MachineInstruction::MovImm64 { dst: Register::RAX, imm: l }] + mid + seq![
        MachineInstruction::MovImm64 { dst: Register::RCX, imm: r },
    ] + ops =~= seq![
                MachineInstruction::MovImm64 { dst: Register::RAX, imm: l },
                MachineInstruction::Cqo,
                MachineInstruction::MovImm64 { dst: Register::RCX, imm: r },
                MachineInstruction::Idiv { divisor: rcx() },
                MachineInstruction::MovLoad {
                    dst: Register::RAX,
                    from: RegisterOrMemory::Direct(Register::RDX),
                },
    ]);
}

/// Comparison law: `compare l, r` on integer literals reads as `MOV RAX, l; MOV RCX, r;
/// CMP RAX, RCX; SETE AL; MOVZX RAX, AL`, leaving 1 in RAX when they are equal, else 0.
pub proof fn lemma_compare_literals_code(c: ContextView, o: ObjectView, instruction: CompareInstruction, l: i64, r: i64)
    requires
        instruction.left matches Operand::Literal(a) && literal_int(a) == Some(l),
        instruction.right matches Operand::Literal(b) && literal_int(b) == Some(r),
    ensures
        spec_compile_compare(c, o, instruction) is Ok,
        only_code_appended(o, spec_compile_compare(c, o, instruction)->Ok_0),
        decode_all(appended_code(o, spec_compile_compare(c, o, instruction)->Ok_0)) == Some(
            seq![
                MachineInstruction::MovImm64 { dst: Register::RAX, imm: l },
                MachineInstruction::MovImm64 { dst: Register::RCX, imm: r },
                MachineInstruction::Cmp { left: rax(), right: Register::RCX },
                MachineInstruction::Setcc { cc: 4, to: rax() },
                MachineInstruction::MovzxByte { dst: Register::RAX, from: rax() },
            ],
        ),
{
    lemma_operation_bytes_read();
    assert(decode_all(Seq::<u8>::empty()) == Some(Seq::<MachineInstruction>::empty()));
    let mid = Seq::<MachineInstruction>::empty();
    let ops = seq![
        MachineInstruction::Cmp { left: rax(), right: Register::RCX },
        MachineInstruction::Setcc { cc: 4, to: rax() },
        MachineInstruction::MovzxByte { dst: Register::RAX, from: rax() },
    ];
    lemma_binary_literals_read(c, o, instruction.left, instruction.right, l, r, Seq::empty(), seq![0x48u8, 0x39u8, 0xC8u8, 0x0Fu8, 0x94u8, 0xC0u8, 0x48u8, 0x0Fu8, 0xB6u8, 0xC0u8], mid, ops);
    assert(seq![MachineInstruction::MovImm64 { dst: Register::RAX, imm: l }] + mid + seq![
        MachineInstruction::MovImm64 { dst: Register::RCX, imm: r },
    ] + ops =~= seq![
                MachineInstruction::MovImm64 { dst: Register::RAX, imm: l },
                MachineInstruction::MovImm64 { dst: Register::RCX, imm: r },
                MachineInstruction::Cmp { left: rax(), right: Register::RCX },
                MachineInstruction::Setcc { cc: 4, to: rax() },
                MachineInstruction::MovzxByte { dst: Register::RAX, from: rax() },
    ]);
}

/// An addition of integer literals of one width appends the two loads and `ADD RAX, RCX`.
#[verifier::spinoff_prover]
#[verifier::rlimit(40)]
proof fn lemma_add_literals_emit(c: ContextView, o: ObjectView, instruction: AddInstruction, l: i64, r: i64)
    requires
        instruction.left matches Operand::Literal(a) && literal_int(a) == Some(l),
        instruction.right matches Operand::Literal(b) && literal_int(b) == Some(r),
        spec_operand_size(instruction.left) == spec_operand_size(instruction.right),
    ensures
        spec_compile_add(c, o, instruction) == Ok::<ObjectView, IRErrorKind>(
            o.emit(
                spec_mov_imm64(Register::RAX, l) + spec_mov_imm64(Register::RCX, r) + seq![
                    0x48u8,
                    0x01u8,
                    0xC8u8,
                ],
            ),
        ),
{
    reveal(spec_compile_add);
    let ml = spec_mov_imm64(Register::RAX, l);
    let mr = spec_mov_imm64(Register::RCX, r);
    let op = seq![0x48u8, 0x01u8, 0xC8u8];
    assert(o.emit(ml).emit(mr).emit(op) =~= o.emit(ml + mr + op));
}

/// Addition law: `add l, r` on integer literals of one width reads as `MOV RAX, l;
/// MOV RCX, r; ADD RAX, RCX`, leaving the (wrapped) sum in RAX.
pub proof fn lemma_add_literals_code(c: ContextView, o: ObjectView, instruction: AddInstruction, l: i64, r: i64)
    requires
        instruction.left matches Operand::Literal(a) && literal_int(a) == Some(l),
        instruction.right matches Operand::Literal(b) && literal_int(b) == Some(r),
        spec_operand_size(instruction.left) == spec_operand_size(instruction.right),
    ensures
        spec_compile_add(c, o, instruction) is Ok,
        only_code_appended(o, spec_compile_add(c, o, instruction)->Ok_0),
        decode_all(appended_code(o, spec_compile_add(c, o, instruction)->Ok_0)) == Some(
            seq![
                MachineInstruction::MovImm64 { dst: Register::RAX, imm: l },
                MachineInstruction::MovImm64 { dst: Register::RCX, imm: r },
                MachineInstruction::AddReg { to: rax(), src: Register::RCX },
            ],
        ),
{
    lemma_add_literals_emit(c, o, instruction, l, r);
    lemma_operation_bytes_read();
    let ml = spec_mov_imm64(Register::RAX, l);
    let mr = spec_mov_imm64(Register::RCX, r);
    let op = seq![0x48u8, 0x01u8, 0xC8u8];
    let code = ml + mr + op;
    assert(appended_code(o, o.emit(code)) =~= code);
    lemma_mov_imm64_reads(Register::RAX, l);
    lemma_mov_imm64_reads(Register::RCX, r);
    lemma_decode_all_single(ml);
    lemma_decode_all_single(mr);
    lemma_decode_all_append(ml, mr);
    lemma_decode_all_append(ml + mr, op);
    assert(seq![MachineInstruction::MovImm64 { dst: Register::RAX, imm: l }] + seq![
        MachineInstruction::MovImm64 { dst: Register::RCX, imm: r },
    ] + seq![MachineInstruction::AddReg { to: rax(), src: Register::RCX }] =~= seq![
        MachineInstruction::MovImm64 { dst: Register::RAX, imm: l },
        MachineInstruction::MovImm64 { dst: Register::RCX, imm: r },
        MachineInstruction::AddReg { to: rax(), src: Register::RCX },
    ]);
}

/// `TEST RAX, RAX`, `JNE rel32` and `JMP rel32` read as such, whatever the displacements.
proof fn lemma_branch_bytes_read(d1: Seq<u8>, d2: Seq<u8>)
    requires
        d1.len() == 4,
        d2.len() == 4,
    ensures
        decode_all(seq![0x48u8, 0x85u8, 0xC0u8] + (seq![0x0Fu8, 0x85u8] + d1) + (seq![0xE9u8] + d2))
            == Some(
            seq![
                MachineInstruction::Test { left: rax(), right: Register::RAX },
                MachineInstruction::Jcc { cc: 5, disp: le_i32(d1) },
                MachineInstruction::Jmp { disp: le_i32(d2) },
            ],
        ),
{
    let test = seq![0x48u8, 0x85u8, 0xC0u8];
    let jne = seq![0x0Fu8, 0x85u8] + d1;
    let jmp = seq![0xE9u8] + d2;
    assert(register_number(0) == Register::RAX);
    assert(decode_one(test) == Some((MachineInstruction::Test { left: rax(), right: Register::RAX }, 3int))) by {
        reveal(decode_one);
        assert(test.subrange(1, 3).subrange(1, 2) =~= seq![0xC0u8]);
    }
    assert(decode_one(jne) == Some((MachineInstruction::Jcc { cc: 5, disp: le_i32(d1) }, 6int))) by {
        reveal(decode_one);
        assert(jne.subrange(2, 6) =~= d1);
    }
    assert(decode_one(jmp) == Some((MachineInstruction::Jmp { disp: le_i32(d2) }, 5int))) by {
        reveal(decode_one);
        assert(jmp.subrange(1, 5) =~= d2);
    }
    lemma_decode_all_single(test);
    lemma_decode_all_single(jne);
    lemma_decode_all_single(jmp);
    lemma_decode_all_append(test, jne);
    lemma_decode_all_append(test + jne, jmp);
    assert(test + jne + jmp =~= test + (jne + jmp));
}

/// A jump to a label appends its opcode and four displacement bytes to the text and changes
/// nothing else of the object.
proof fn lemma_jump_appends(c: ContextView, o: ObjectView, opcode: Seq<u8>, name: Seq<char>)
    ensures
        ({
            let o1 = spec_jump_to_label(c, o, opcode, name).1;
            &&& o1.text.len() == o.text.len() + opcode.len() + 4
            &&& o1.text.subrange(0, (o.text.len() + opcode.len()) as int) == o.text + opcode
            &&& o1 == (ObjectView { text: o1.text, ..o })
        }),
{
    reveal(spec_jump_to_label);
    let o1 = spec_jump_to_label(c, o, opcode, name).1;
    if c.labels.contains_key(name) && c.labels[name] is Defined {
        lemma_le32_reads(rel32(
            c.labels[name]->Defined_0,
            o.emit(opcode).text.len() as usize,
        ));
    }
    assert(o1.text.subrange(0, (o.text.len() + opcode.len()) as int) =~= o.text + opcode);
}

/// Branch law: after the condition is loaded into RAX, a branch appends `TEST RAX, RAX`,
/// a `JNE` (jump when RAX is not zero) towards the true label and a `JMP` towards the false
/// label, in that order; a condition that is zero falls through to the false label.
pub proof fn lemma_branch_tests_condition(c: ContextView, o: ObjectView, instruction: BranchInstruction)
    requires
        spec_load_operand(c, o, instruction.condition, Register::RAX) is Ok,
    ensures
        spec_compile_branch(c, o, instruction) is Ok,
        ({
            let o1 = spec_load_operand(c, o, instruction.condition, Register::RAX)->Ok_0;
            let o2 = spec_compile_branch(c, o, instruction)->Ok_0.1;
            &&& o1.text.len() + 14 == o2.text.len()
            &&& o2.text.subrange(0, o1.text.len() as int) == o1.text
            &&& o2 == (ObjectView { text: o2.text, ..o1 })
            &&& decode_all(appended_code(o1, o2)) matches Some(code) && code.len() == 3 && code[0]
                == MachineInstruction::Test { left: rax(), right: Register::RAX } && (code[1] matches MachineInstruction::Jcc { cc, .. } && cc == 5)
                && code[2] is Jmp
        }),
{
    reveal(spec_compile_branch);
    let o1 = spec_load_operand(c, o, instruction.condition, Register::RAX)->Ok_0;
    let test = seq![0x48u8, 0x85u8, 0xC0u8];
    let o2 = o1.emit(test);
    let (c3, o3) = spec_jump_to_label(c, o2, seq![0x0Fu8, 0x85u8], instruction.true_label.name@);
    let (c4, o4) = spec_jump_to_label(c3, o3, seq![0xE9u8], instruction.false_label.name@);
    lemma_jump_appends(c, o2, seq![0x0Fu8, 0x85u8], instruction.true_label.name@);
    lemma_jump_appends(c3, o3, seq![0xE9u8], instruction.false_label.name@);
    let d1 = o3.text.subrange((o2.text.len() + 2) as int, o3.text.len() as int);
    let d2 = o4.text.subrange((o3.text.len() + 1) as int, o4.text.len() as int);
    assert(o3.text =~= o2.text + seq![0x0Fu8, 0x85u8] + d1);
    assert(o4.text =~= o3.text + seq![0xE9u8] + d2);
    assert(appended_code(o1, o4) =~= test + (seq![0x0Fu8, 0x85u8] + d1) + (seq![0xE9u8] + d2));
    lemma_branch_bytes_read(d1, d2);
    assert(o4.text.subrange(0, o1.text.len() as int) =~= o1.text);
}

/// The moves of a variable held in a register, read as instructions.
pub open spec fn register_move(dst: Register, src: Register) -> Seq<MachineInstruction> {
    if dst == src {
        Seq::empty()
    } else {
        seq![MachineInstruction::MovLoad { dst, from: RegisterOrMemory::Direct(src) }]
    }
}

/// Register-variable law: a variable held in register `r` is loaded into `dst` by
/// `MOV dst, r` (nothing when `dst` is `r`), and its assignment moves RAX into `r` (nothing
/// when `r` is RAX): the value read is the one written.
pub proof fn lemma_register_variable_moves(dst: Register, r: Register)
    ensures
        decode_all(spec_reg_move(dst, r)) == Some(register_move(dst, r)),
        decode_all(spec_store_rax(VariableLocation::Register(r))) == Some(
            register_move(r, Register::RAX),
        ),
{
    lemma_reg_move_reads(dst, r);
    lemma_reg_move_reads(r, Register::RAX);
}

/// The fields of a register-direct ModR/M byte.
proof fn lemma_direct_modrm_fields(x: int, y: int)
    requires
        0 <= x < 8,
        0 <= y < 8,
    ensures
        (0xC0 + x * 8 + y) / 64 == 3,
        ((0xC0 + x * 8 + y) / 8) % 8 == x,
        (0xC0 + x * 8 + y) % 8 == y,
{
    assert((0xC0 + x * 8 + y) / 64 == 3) by (nonlinear_arith)
        requires
            0 <= x < 8,
            0 <= y < 8,
    ;
    assert(((0xC0 + x * 8 + y) / 8) % 8 == x) by (nonlinear_arith)
        requires
            0 <= x < 8,
            0 <= y < 8,
    ;
    assert((0xC0 + x * 8 + y) % 8 == y) by (nonlinear_arith)
        requires
            0 <= x < 8,
            0 <= y < 8,
    ;
}

/// `MOV dst, src` as emitted reads as that move.
#[verifier::spinoff_prover]
#[verifier::rlimit(40)]
proof fn lemma_reg_move_reads(dst: Register, src: Register)
    ensures
        decode_all(spec_reg_move(dst, src)) == Some(register_move(dst, src)),
{
    if dst == src {
        assert(spec_reg_move(dst, src) =~= Seq::<u8>::empty());
        assert(decode_all(Seq::<u8>::empty()) == Some(Seq::<MachineInstruction>::empty()));
    } else {
        lemma_register_number(dst);
        lemma_register_number(src);
        let b = spec_reg_move(dst, src);
        let m = b[2] as int;
        lemma_direct_modrm_fields(dst.low3() as int, src.low3() as int);
        assert(m == 0xC0 + (dst.low3() as int) * 8 + src.low3() as int);
        let rest = b.subrange(1, 3);
        assert(rest.subrange(1, 2) =~= seq![b[2]]);
        assert(b.subrange(1, b.len() as int) =~= rest);
        let ext_r: int = if dst.needs_rex() {
            8
        } else {
            0
        };
        let ext_b: int = if src.needs_rex() {
            8
        } else {
            0
        };
        assert(decode_modrm(dst.needs_rex(), src.needs_rex(), rest.subrange(1, 2)) == Some(
            (
                dst.low3() as int + ext_r,
                RegisterOrMemory::Direct(register_number(src.low3() as int + ext_b)),
                1int,
            ),
        ));
        assert(decode_one(b) == Some(
            (MachineInstruction::MovLoad { dst, from: RegisterOrMemory::Direct(src) }, 3int),
        )) by {
            reveal(decode_one);
        }
        lemma_decode_all_single(b);
    }
}

/// `LEA RAX, [rbp + offset]` as emitted (8-bit or 32-bit displacement) reads as the address
/// of that stack location.
#[verifier::spinoff_prover]
proof fn lemma_lea_stack_reads(offset: i32)
    ensures
        decode_all(spec_lea_stack(offset)) == Some(
            seq![MachineInstruction::Lea { dst: Register::RAX, address: stack_slot(offset) }],
        ),
{
    let b = spec_lea_stack(offset);
    assert(register_number(0) == Register::RAX);
    assert(register_number(5) == Register::RBP);
    if -128 <= offset <= 127 {
        let d = (offset as i8) as u8;
        assert((d as i8) as int == offset) by (bit_vector)
            requires
                -128 <= offset <= 127,
                d == (offset as i8) as u8,
        ;
        assert(b.subrange(1, 4).subrange(1, 3) =~= seq![0x45u8, d]);
        assert(b.subrange(1, b.len() as int) =~= b.subrange(1, 4));
    } else {
        lemma_le32_reads(offset);
        assert(b.subrange(1, 7).subrange(1, 6).subrange(1, 5) =~= le32(offset));
        assert(b.subrange(1, b.len() as int) =~= b.subrange(1, 7));
    }
    assert(decode_one(b) == Some(
        (MachineInstruction::Lea { dst: Register::RAX, address: stack_slot(offset) }, b.len() as int),
    )) by {
        reveal(decode_one);
    }
    lemma_decode_all_single(b);
}

/// Alloca law: an `alloca` moves the stack offset down by the size of the type and appends
/// one instruction, `LEA RAX, [rbp + new offset]`: RAX receives the address of the reserved
/// memory, not its contents.
pub proof fn lemma_alloca_yields_address(c: ContextView, o: ObjectView, instruction: AllocaInstruction)
    ensures
        spec_compile_alloca(c, o, instruction).0.stack_offset == c.stack_offset.wrapping_sub(
            instruction.type_.spec_size() as i32,
        ),
        only_code_appended(o, spec_compile_alloca(c, o, instruction).1),
        decode_all(appended_code(o, spec_compile_alloca(c, o, instruction).1)) == Some(
            seq![
                MachineInstruction::Lea {
                    dst: Register::RAX,
                    address: stack_slot(spec_compile_alloca(c, o, instruction).0.stack_offset),
                },
            ],
        ),
{
    let offset = spec_compile_alloca(c, o, instruction).0.stack_offset;
    lemma_lea_stack_reads(offset);
    let o2 = o.emit(spec_lea_stack(offset));
    assert(appended_code(o, o2) =~= spec_lea_stack(offset));
}

/// `MOV RAX, [rax]` and `MOV [rcx], RAX` as emitted after a pointer is fetched from its stack
/// slot.
proof fn lemma_fetched_pointer_access_reads()
    ensures
        decode_all(seq![0x48u8, 0x8Bu8, 0x00u8]) == Some(
            seq![
                MachineInstruction::MovLoad {
                    dst: Register::RAX,
                    from: RegisterOrMemory::Memory(pointee(Register::RAX)),
                },
            ],
        ),
        decode_all(seq![0x48u8, 0x89u8, 0x01u8]) == Some(
            seq![
                MachineInstruction::MovStore {
                    to: RegisterOrMemory::Memory(pointee(Register::RCX)),
                    src: Register::RAX,
                },
            ],
        ),
{
    assert(register_number(0) == Register::RAX);
    assert(register_number(1) == Register::RCX);
    let l = seq![0x48u8, 0x8Bu8, 0x00u8];
    let st = seq![0x48u8, 0x89u8, 0x01u8];
    assert(l.subrange(1, 3).subrange(1, 2) =~= seq![0x00u8]);
    assert(st.subrange(1, 3).subrange(1, 2) =~= seq![0x01u8]);
    assert(decode_one(l) == Some(
        (
            MachineInstruction::MovLoad {
                dst: Register::RAX,
                from: RegisterOrMemory::Memory(pointee(Register::RAX)),
            },
            3int,
        ),
    )) by {
        reveal(decode_one);
    }
    assert(decode_one(st) == Some(
        (
            MachineInstruction::MovStore {
                to: RegisterOrMemory::Memory(pointee(Register::RCX)),
                src: Register::RAX,
            },
            3int,
        ),
    )) by {
        reveal(decode_one);
    }
    lemma_decode_all_single(l);
    lemma_decode_all_single(st);
}

/// Pointer-load law for a pointer kept on the stack: the pointer is fetched from its slot
/// into RAX, then RAX is loaded from the address it holds.
pub proof fn lemma_load_through_stack_pointer(
    c: ContextView,
    o: ObjectView,
    instruction: LoadInstruction,
    offset: i32,
)
    requires
        c.variables.contains_key(instruction.ptr.name@),
        c.variables[instruction.ptr.name@] == VariableLocation::Stack(offset),
    ensures
        spec_compile_load(c, o, instruction) is Ok,
        only_code_appended(o, spec_compile_load(c, o, instruction)->Ok_0),
        decode_all(appended_code(o, spec_compile_load(c, o, instruction)->Ok_0)) == Some(
            seq![
                MachineInstruction::MovLoad {
                    dst: Register::RAX,
                    from: RegisterOrMemory::Memory(stack_slot(offset)),
                },
                MachineInstruction::MovLoad {
                    dst: Register::RAX,
                    from: RegisterOrMemory::Memory(pointee(Register::RAX)),
                },
            ],
        ),
{
    reveal(spec_compile_load);
    let a = spec_stack_load(Register::RAX, offset);
    let b = seq![0x48u8, 0x8Bu8, 0x00u8];
    lemma_stack_slot_load_reads_store(Register::RAX, offset);
    lemma_fetched_pointer_access_reads();
    lemma_decode_all_append(a, b);
    let o2 = o.emit(a + b);
    assert(appended_code(o, o2) =~= a + b);
}

/// Pointer-store law for a pointer kept on the stack: after the value is in RAX, the pointer
/// is fetched from its slot into RCX and RAX is stored to the address it holds.
pub proof fn lemma_store_through_stack_pointer(
    c: ContextView,
    o: ObjectView,
    instruction: StoreInstruction,
    value: i64,
    offset: i32,
)
    requires
        instruction.value == Operand::Literal(LiteralValue::Int64(value)),
        c.variables.contains_key(instruction.ptr.name@),
        c.variables[instruction.ptr.name@] == VariableLocation::Stack(offset),
    ensures
        spec_compile_store(c, o, instruction) is Ok,
        only_code_appended(o, spec_compile_store(c, o, instruction)->Ok_0),
        decode_all(appended_code(o, spec_compile_store(c, o, instruction)->Ok_0)) == Some(
            seq![
                MachineInstruction::MovImm64 { dst: Register::RAX, imm: value },
                MachineInstruction::MovLoad {
                    dst: Register::RCX,
                    from: RegisterOrMemory::Memory(stack_slot(offset)),
                },
                MachineInstruction::MovStore {
                    to: RegisterOrMemory::Memory(pointee(Register::RCX)),
                    src: Register::RAX,
                },
            ],
        ),
{
    reveal(spec_compile_store);
    let m = spec_mov_imm64(Register::RAX, value);
    let a = spec_stack_load(Register::RCX, offset);
    let b = seq![0x48u8, 0x89u8, 0x01u8];
    lemma_mov_imm64_reads(Register::RAX, value);
    lemma_decode_all_single(m);
    lemma_stack_slot_load_reads_store(Register::RCX, offset);
    lemma_fetched_pointer_access_reads();
    lemma_decode_all_append(a, b);
    lemma_decode_all_append(m, a + b);
    let o2 = o.emit(m).emit(a + b);
    assert(appended_code(o, o2) =~= m + (a + b));
    assert(o2 =~= o.emit(m + (a + b)));
}

/// `LEA reg, [rip + disp32]` with the displacement left for the linker reads as the address
/// computation whose displacement is the instruction's last four bytes.
proof fn lemma_rip_lea_reads(b: Seq<u8>, reg: Register)
    requires
        b == seq![
            if reg.needs_rex() {
                0x4Cu8
            } else {
                0x48u8
            },
            0x8Du8,
            (0x05 + (reg.code() % 8) * 8) as u8,
            0u8,
            0u8,
            0u8,
            0u8,
        ],
    ensures
        decode_all(b) == Some(
            seq![
                MachineInstruction::Lea {
                    dst: reg,
                    address: MemoryOperand::RipRelative { disp: le_i32(b.subrange(3, 7)) as int },
                },
            ],
        ),
{
    lemma_register_number(reg);
    let rest = b.subrange(1, 7);
    assert(b.subrange(1, b.len() as int) =~= rest);
    assert(rest.subrange(1, 6).subrange(1, 5) =~= b.subrange(3, 7));
    assert(rest.subrange(1, 6) =~= rest.subrange(1, rest.len() as int));
    assert(decode_one(b) == Some(
        (
            MachineInstruction::Lea {
                dst: reg,
                address: MemoryOperand::RipRelative { disp: le_i32(b.subrange(3, 7)) as int },
            },
            7int,
        ),
    )) by {
        reveal(decode_one);
    }
    lemma_decode_all_single(b);
}

/// Argument-address law for strings: a string literal passed as a call argument (or
/// returned) is placed, as its UTF-8 bytes and a NUL, at the end of the read-only data under
/// a new symbol, and the register receives its address: the code appended is one
/// `LEA reg, [rip + disp32]` whose displacement gets a PC-relative relocation against that
/// symbol.
pub proof fn lemma_string_argument_address(c: ContextView, o: ObjectView, s: String, reg: Register)
    ensures
        spec_load_value(c, o, Operand::Literal(LiteralValue::String(s)), reg) is Ok,
        ({
            let o2 = spec_load_value(c, o, Operand::Literal(LiteralValue::String(s)), reg)->Ok_0;
            let name = string_constant_name(o.rodata.len());
            &&& o.text.len() <= o2.text.len()
            &&& o2.text == o.text + appended_code(o, o2)
            &&& o2.rodata == o.rodata + vstd::utf8::encode_utf8(s@) + seq![0u8]
            &&& o2.symbols.len() == o.symbols.len() + 1
            &&& o2.symbols.last().name == name
            &&& o2.symbols.last().section == SectionType::RoData
            &&& o2.symbols.last().offset == o.rodata.len() as usize
            &&& o2.relocations == o.relocations.push(
                RelocationView {
                    section: SectionType::Text,
                    offset: o.text_offset(3),
                    symbol: name,
                    reloc_type: RelocationType::PcRel32,
                    addend: -4i64,
                },
            )
            &&& decode_all(appended_code(o, o2)) == Some(
                seq![
                    MachineInstruction::Lea {
                        dst: reg,
                        address: MemoryOperand::RipRelative {
                            disp: le_i32(appended_code(o, o2).subrange(3, 7)) as int,
                        },
                    },
                ],
            )
        }),
{
    reveal(spec_load_value);
    let o2 = spec_load_value(c, o, Operand::Literal(LiteralValue::String(s)), reg)->Ok_0;
    let b = appended_code(o, o2);
    assert(o2.text =~= o.text + b);
    assert(b =~= seq![
        if reg.needs_rex() {
            0x4Cu8
        } else {
            0x48u8
        },
        0x8Du8,
        (0x05 + (reg.code() % 8) * 8) as u8,
        0u8,
        0u8,
        0u8,
        0u8,
    ]);
    lemma_rip_lea_reads(b, reg);
}

/// Argument-address law for globals: a global passed by name as a call argument (or
/// returned) gives the register its address: the code appended is one
/// `LEA reg, [rip + disp32]` whose displacement gets a PC-relative relocation against the
/// global; nothing else changes.
pub proof fn lemma_global_argument_address(c: ContextView, o: ObjectView, id: Identifier, reg: Register)
    requires
        !c.variables.contains_key(id.name@),
        has_symbol(o, id.name@),
    ensures
        spec_load_value(c, o, Operand::Identifier(id), reg) is Ok,
        ({
            let o2 = spec_load_value(c, o, Operand::Identifier(id), reg)->Ok_0;
            &&& o.text.len() <= o2.text.len()
            &&& o2 == (ObjectView {
                text: o.text + appended_code(o, o2),
                relocations: o.relocations.push(
                    RelocationView {
                        section: SectionType::Text,
                        offset: o.text_offset(3),
                        symbol: id.name@,
                        reloc_type: RelocationType::PcRel32,
                        addend: -4i64,
                    },
                ),
                ..o
            })
            &&& decode_all(appended_code(o, o2)) == Some(
                seq![
                    MachineInstruction::Lea {
                        dst: reg,
                        address: MemoryOperand::RipRelative {
                            disp: le_i32(appended_code(o, o2).subrange(3, 7)) as int,
                        },
                    },
                ],
            )
        }),
{
    reveal(spec_load_value);
    let o2 = spec_load_value(c, o, Operand::Identifier(id), reg)->Ok_0;
    let b = appended_code(o, o2);
    assert(o2.text =~= o.text + b);
    assert(b =~= seq![
        if reg.needs_rex() {
            0x4Cu8
        } else {
            0x48u8
        },
        0x8Du8,
        (0x05 + (reg.code() % 8) * 8) as u8,
        0u8,
        0u8,
        0u8,
        0u8,
    ]);
    lemma_rip_lea_reads(b, reg);
}

/// Return law: returning an integer literal appends `MOV RAX, value` followed by the
/// epilogue, which releases the frame, restores the saved registers in reverse order,
/// restores RBP and returns with the value in RAX.
pub proof fn lemma_return_literal_code(c: ContextView, o: ObjectView, instruction: ReturnInstruction, value: i64)
    requires
        instruction.return_value matches Some(Operand::Literal(a)) && literal_int(a) == Some(value),
    ensures
        spec_compile_return(c, o, instruction) is Ok,
        only_code_appended(o, spec_compile_return(c, o, instruction)->Ok_0),
        decode_all(appended_code(o, spec_compile_return(c, o, instruction)->Ok_0)) == Some(
            seq![MachineInstruction::MovImm64 { dst: Register::RAX, imm: value }] + frame_release(
                c.allocated_stack_size,
            ) + pops(c.used_callee_saved.reverse()) + seq![
                MachineInstruction::Pop(Register::RBP),
                MachineInstruction::Ret,
            ],
        ),
{
    reveal(spec_compile_return);
    reveal(spec_load_value);
    let m = spec_mov_imm64(Register::RAX, value);
    let e = spec_epilogue(c);
    lemma_mov_imm64_reads(Register::RAX, value);
    lemma_decode_all_single(m);
    lemma_epilogue_restores_saved_registers(c);
    lemma_decode_all_append(m, e);
    let o2 = o.emit(m).emit(e);
    assert(spec_compile_return(c, o, instruction) == Ok::<ObjectView, IRErrorKind>(o2));
    assert(appended_code(o, o2) =~= m + e);
    assert(o2 =~= o.emit(m + e));
    let rest = frame_release(c.allocated_stack_size) + pops(c.used_callee_saved.reverse()) + seq![
        MachineInstruction::Pop(Register::RBP),
        MachineInstruction::Ret,
    ];
    assert(seq![MachineInstruction::MovImm64 { dst: Register::RAX, imm: value }] + rest =~= seq![
        MachineInstruction::MovImm64 { dst: Register::RAX, imm: value },
    ] + frame_release(c.allocated_stack_size) + pops(c.used_callee_saved.reverse()) + seq![
        MachineInstruction::Pop(Register::RBP),
        MachineInstruction::Ret,
    ]);
}

/// Reading a local variable at `loc` into `dst`, as instructions.
pub open spec fn read_local(dst: Register, loc: VariableLocation) -> Seq<MachineInstruction> {
    match loc {
        VariableLocation::Register(r) => register_move(dst, r),
        VariableLocation::Stack(offset) => seq![
            MachineInstruction::MovLoad { dst, from: RegisterOrMemory::Memory(stack_slot(offset)) },
        ],
    }
}

/// Writing RAX to a local variable at `loc`, as instructions.
pub open spec fn write_rax_to_local(loc: VariableLocation) -> Seq<MachineInstruction> {
    match loc {
        VariableLocation::Register(r) => register_move(r, Register::RAX),
        VariableLocation::Stack(offset) => seq![
            MachineInstruction::MovStore {
                to: RegisterOrMemory::Memory(stack_slot(offset)),
                src: Register::RAX,
            },
        ],
    }
}

/// The code of reading a local variable at `loc` into `dst` reads as such.
proof fn lemma_read_local_code(dst: Register, loc: VariableLocation)
    ensures
        decode_all(
            match loc {
                VariableLocation::Register(r) => spec_reg_move(dst, r),
                VariableLocation::Stack(offset) => spec_stack_load(dst, offset),
            },
        ) == Some(read_local(dst, loc)),
        decode_all(spec_store_rax(loc)) == Some(write_rax_to_local(loc)),
{
    match loc {
        VariableLocation::Register(r) => {
            lemma_register_variable_moves(dst, r);
        },
        VariableLocation::Stack(offset) => {
            lemma_stack_slot_load_reads_store(dst, offset);
        },
    }
}

/// Local-operand law: an operand naming a local variable (of arithmetic, of a branch, of a
/// call or return, or of an addition) is read from the variable's own location: its
/// register, or its stack slot `[rbp + offset]`, into the register asked for.
pub proof fn lemma_local_operand_reads_variable(c: ContextView, o: ObjectView, id: Identifier, reg: Register)
    requires
        c.variables.contains_key(id.name@),
    ensures
        spec_load_identifier(c, o, id.name@, reg) is Ok,
        only_code_appended(o, spec_load_identifier(c, o, id.name@, reg)->Ok_0),
        decode_all(appended_code(o, spec_load_identifier(c, o, id.name@, reg)->Ok_0)) == Some(
            read_local(reg, c.variables[id.name@]),
        ),
        spec_load_value(c, o, Operand::Identifier(id), reg) == spec_load_identifier(c, o, id.name@, reg),
        spec_add_load_identifier(c, o, id.name@, reg) == spec_load_identifier(c, o, id.name@, reg),
{
    reveal(spec_load_value);
    let loc = c.variables[id.name@];
    let b = match loc {
        VariableLocation::Register(r) => spec_reg_move(reg, r),
        VariableLocation::Stack(offset) => spec_stack_load(reg, offset),
    };
    lemma_read_local_code(reg, loc);
    let o2 = o.emit(b);
    assert(spec_load_identifier(c, o, id.name@, reg) == Ok::<ObjectView, IRErrorKind>(o2));
    assert(appended_code(o, o2) =~= b);
}

/// Assignment law: an assignment whose value compiles places the variable at a location and
/// ends its code with the write of RAX (where the value was computed) to exactly that
/// location, the one later reads of the variable use.
pub proof fn lemma_assignment_writes_its_location(c: ContextView, o: ObjectView, assignment: AssignmentStatement)
    requires
        spec_compile_assignment(c, o, assignment) is Ok,
    ensures
        ({
            let (c2, o2) = spec_compile_assignment(c, o, assignment)->Ok_0;
            let name = assignment.name.name@;
            &&& c2.variables.contains_key(name)
            &&& spec_store_rax(c2.variables[name]).len() <= o2.text.len()
            &&& decode_all(
                o2.text.subrange(
                    o2.text.len() - spec_store_rax(c2.variables[name]).len(),
                    o2.text.len() as int,
                ),
            ) == Some(write_rax_to_local(c2.variables[name]))
        }),
{
    let (c2, o2) = spec_compile_assignment(c, o, assignment)->Ok_0;
    let name = assignment.name.name@;
    let c1 = spec_assignment_value(c, o, assignment.value)->Ok_0.0;
    let o1 = spec_assignment_value(c, o, assignment.value)->Ok_0.1;
    let (c3, loc) = spec_allocate(c1, name);
    assert(c2 == c3);
    assert(c2.variables.contains_key(name) && c2.variables[name] == loc);
    lemma_read_local_code(Register::RAX, loc);
    let st = spec_store_rax(loc);
    assert(o2.text == o1.text + st);
    assert(o2.text.subrange(o2.text.len() - st.len(), o2.text.len() as int) =~= st);
}

} // verus!
