use vstd::prelude::*;

use crate::ir::ast::common::{literal::LiteralValue, Operand};
use crate::ir::ast::local::instruction::alloca::{AllocaInstruction, LoadInstruction, StoreInstruction};
use crate::ir::compile::linux_amd64::common::{
    emit_le32, emit_mov_imm64, emit_reg_move, emit_stack_load, le32, spec_mov_imm64, spec_reg_move,
    spec_rex, spec_stack_load,
};
use crate::ir::compile::linux_amd64::function::{ContextView, FunctionContext, VariableLocation};
use crate::ir::error::{concat3, IRError, IRErrorKind};
use crate::platforms::amd64::addressing::{
    generate_modrm_indirect, spec_modrm_indirect, DISP8_MAX, DISP8_MIN,
};
use crate::platforms::amd64::instruction::{LEA, MOV, MOV_LOAD};
use crate::platforms::amd64::register::{modrm_reg_base_disp32, modrm_reg_base_disp8, Register};
use crate::platforms::amd64::rex::{REX_W, REX_WB};
use crate::platforms::linux::elf::object::{ELFObject, ObjectView};

verus! {

/// `LEA RAX, [rbp + offset]`, with an 8-bit displacement when it fits.
pub open spec fn spec_lea_stack(offset: i32) -> Seq<u8> {
    if DISP8_MIN <= offset <= DISP8_MAX {
        seq![0x48u8, 0x8Du8, 0x45u8, (offset as i8) as u8]
    } else {
        seq![0x48u8, 0x8Du8, 0x85u8] + le32(offset)
    }
}

/// An `alloca`: the frame grows by the size of the type (in 32-bit two's complement
/// arithmetic) and the address of the new memory is loaded into RAX.
pub open spec fn spec_compile_alloca(c: ContextView, o: ObjectView, instruction: AllocaInstruction) -> (
    ContextView,
    ObjectView,
) {
    let offset = c.stack_offset.wrapping_sub(instruction.type_.spec_size() as i32);
    (ContextView { stack_offset: offset, ..c }, o.emit(spec_lea_stack(offset)))
}

/// `op r64, [reg]` (or `[reg]` with `reg` in RAX's field) for a pointer held in `ptr`.
pub open spec fn spec_indirect(opcode: u8, ptr: Register) -> Seq<u8> {
    seq![spec_rex(false, ptr.needs_rex()), opcode] + spec_modrm_indirect(0, ptr.code())
}

/// A load through a pointer variable into RAX.
#[verifier::opaque]
pub open spec fn spec_compile_load(c: ContextView, o: ObjectView, instruction: LoadInstruction) -> Result<
    ObjectView,
    IRErrorKind,
> {
    let name = instruction.ptr.name@;
    if !c.variables.contains_key(name) {
        Err(IRErrorKind::VariableNotFound)
    } else {
        match c.variables[name] {
            VariableLocation::Register(ptr) => Ok(o.emit(spec_indirect(0x8B, ptr))),
            VariableLocation::Stack(offset) => Ok(
                o.emit(spec_stack_load(Register::RAX, offset) + seq![0x48u8, 0x8Bu8, 0x00u8]),
            ),
        }
    }
}

/// The value of a store, loaded into RAX (only 64-bit integer literals and local variables).
pub open spec fn spec_store_value(c: ContextView, o: ObjectView, value: Operand) -> Result<
    ObjectView,
    IRErrorKind,
> {
    match value {
        Operand::Literal(LiteralValue::Int64(v)) => Ok(o.emit(spec_mov_imm64(Register::RAX, v))),
        Operand::Literal(_) => Err(IRErrorKind::NotImplemented),
        Operand::Identifier(id) => if !c.variables.contains_key(id.name@) {
            Err(IRErrorKind::VariableNotFound)
        } else {
            match c.variables[id.name@] {
                VariableLocation::Register(src) => Ok(o.emit(spec_reg_move(Register::RAX, src))),
                VariableLocation::Stack(offset) => Ok(o.emit(spec_stack_load(Register::RAX, offset))),
            }
        },
    }
}

/// A store of RAX through a pointer variable (a pointer on the stack goes through RCX).
pub open spec fn spec_store_through(c: ContextView, o: ObjectView, ptr_name: Seq<char>) -> Result<
    ObjectView,
    IRErrorKind,
> {
    if !c.variables.contains_key(ptr_name) {
        Err(IRErrorKind::VariableNotFound)
    } else {
        match c.variables[ptr_name] {
            VariableLocation::Register(ptr) => Ok(o.emit(spec_indirect(0x89, ptr))),
            VariableLocation::Stack(offset) => Ok(
                o.emit(spec_stack_load(Register::RCX, offset) + seq![0x48u8, 0x89u8, 0x01u8]),
            ),
        }
    }
}

/// A store: the value is loaded into RAX, then written where the pointer points.
#[verifier::opaque]
pub open spec fn spec_compile_store(c: ContextView, o: ObjectView, instruction: StoreInstruction) -> Result<
    ObjectView,
    IRErrorKind,
> {
    match spec_store_value(c, o, instruction.value) {
        Err(k) => Err(k),
        Ok(o1) => spec_store_through(c, o1, instruction.ptr.name@),
    }
}

/// The object a store leaves behind when it fails: nothing is written when the value
/// cannot be loaded; when the pointer is unknown, the load of the value stays.
#[verifier::opaque]
pub open spec fn spec_store_failure(c: ContextView, o: ObjectView, instruction: StoreInstruction) -> ObjectView {
    match spec_store_value(c, o, instruction.value) {
        Err(_) => o,
        Ok(o1) => o1,
    }
}

/// Reserves stack memory for a value of the type; its address is left in RAX.
pub fn compile_alloca_instruction(
    alloca_instruction: &AllocaInstruction,
    context: &mut FunctionContext,
    object: &mut ELFObject,
) -> (r: Result<(), IRError>)
    requires
        old(context).wf(),
    ensures
        final(context).wf(),
        r is Ok,
        (final(context)@, final(object)@) == spec_compile_alloca(
            old(context)@,
            old(object)@,
            *alloca_instruction,
        ),
{
    let type_size = alloca_instruction.type_.size_in_bytes();
    context.stack_offset = context.stack_offset.wrapping_sub(type_size as i32);
    let stack_offset = context.stack_offset;
    object.emit(REX_W);
    object.emit(LEA);
    if stack_offset >= DISP8_MIN && stack_offset <= DISP8_MAX {
        object.emit(modrm_reg_base_disp8(Register::RAX, Register::RBP));
        object.emit(stack_offset as i8 as u8);
    } else {
        object.emit(modrm_reg_base_disp32(Register::RAX, Register::RBP));
        emit_le32(object, stack_offset);
    }
    assert(object@ =~= old(object)@.emit(spec_lea_stack(stack_offset)));
    Ok(())
}

/// Appends `op [ptr]`-style bytes for a pointer held in a register.
fn emit_indirect(object: &mut ELFObject, opcode: u8, ptr: Register)
    ensures
        final(object)@ == old(object)@.emit(spec_indirect(opcode, ptr)),
{
    if ptr.requires_rex() {
        object.emit(REX_WB);
    } else {
        object.emit(REX_W);
    }
    object.emit(opcode);
    let modrm_bytes = generate_modrm_indirect(Register::RAX.number(), ptr.number());
    object.emit_bytes(modrm_bytes.as_slice());
    assert(object@ =~= old(object)@.emit(spec_indirect(opcode, ptr)));
}

/// Loads into RAX the 64-bit value that the pointer variable points to.
pub fn compile_load_instruction(
    load_instruction: &LoadInstruction,
    context: &mut FunctionContext,
    object: &mut ELFObject,
) -> (r: Result<(), IRError>)
    requires
        old(context).wf(),
    ensures
        r is Err ==> final(object)@ == old(object)@,
        r is Err ==> r->Err_0.message@ == "Pointer variable '"@ + load_instruction.ptr.name@
            + "' not found"@,
        r is Ok ==> old(object)@.text.len() <= final(object)@.text.len(),
        *final(context) == *old(context),
        match r {
            Ok(()) => spec_compile_load(old(context)@, old(object)@, *load_instruction) == Ok::<
                ObjectView,
                IRErrorKind,
            >(final(object)@),
            Err(e) => spec_compile_load(old(context)@, old(object)@, *load_instruction) == Err::<
                ObjectView,
                IRErrorKind,
            >(e.kind),
        },
{
    reveal(spec_compile_load);
    let ptr_name = load_instruction.ptr.name.as_str();
    match context.get_variable(ptr_name) {
        None => Err(
            IRError::with_message(
                IRErrorKind::VariableNotFound,
                concat3("Pointer variable '", ptr_name, "' not found"),
            ),
        ),
        Some(VariableLocation::Register(ptr_reg)) => {
            emit_indirect(object, MOV_LOAD, *ptr_reg);
            Ok(())
        },
        Some(VariableLocation::Stack(offset)) => {
            emit_stack_load(object, Register::RAX, *offset);
            object.emit(REX_W);
            object.emit(MOV_LOAD);
            object.emit(0x00);
            assert(object@ =~= old(object)@.emit(
                spec_stack_load(Register::RAX, *offset) + seq![0x48u8, 0x8Bu8, 0x00u8],
            ));
            Ok(())
        },
    }
}

/// Writes a 64-bit value where the pointer variable points.
pub fn compile_store_instruction(
    store_instruction: &StoreInstruction,
    context: &mut FunctionContext,
    object: &mut ELFObject,
) -> (r: Result<(), IRError>)
    requires
        old(context).wf(),
    ensures
        r is Err ==> final(object)@ == spec_store_failure(old(context)@, old(object)@, *store_instruction),
        r is Ok ==> old(object)@.text.len() <= final(object)@.text.len(),
        *final(context) == *old(context),
        match r {
            Ok(()) => spec_compile_store(old(context)@, old(object)@, *store_instruction) == Ok::<
                ObjectView,
                IRErrorKind,
            >(final(object)@),
            Err(e) => spec_compile_store(old(context)@, old(object)@, *store_instruction) == Err::<
                ObjectView,
                IRErrorKind,
            >(e.kind),
        },
{
    reveal(spec_store_failure);
    reveal(spec_compile_store);
    match &store_instruction.value {
        Operand::Literal(LiteralValue::Int64(value)) => {
            emit_mov_imm64(object, Register::RAX, *value);
        },
        Operand::Literal(_) => {
            return Err(
                IRError::new(
                    IRErrorKind::NotImplemented,
                    "Only Int64 literals supported for store instruction",
                ),
            );
        },
        Operand::Identifier(id) => {
            match context.get_variable(id.name.as_str()) {
                None => {
                    return Err(
                        IRError::with_message(
                            IRErrorKind::VariableNotFound,
                            concat3("Variable '", id.name.as_str(), "' not found"),
                        ),
                    );
                },
                Some(VariableLocation::Register(src_reg)) => {
                    emit_reg_move(object, Register::RAX, *src_reg);
                },
                Some(VariableLocation::Stack(offset)) => {
                    emit_stack_load(object, Register::RAX, *offset);
                },
            }
        },
    }
    let ghost after_value = object@;
    let ptr_name = store_instruction.ptr.name.as_str();
    match context.get_variable(ptr_name) {
        None => Err(
            IRError::with_message(
                IRErrorKind::VariableNotFound,
                concat3("Pointer variable '", ptr_name, "' not found"),
            ),
        ),
        Some(VariableLocation::Register(ptr_reg)) => {
            emit_indirect(object, MOV, *ptr_reg);
            Ok(())
        },
        Some(VariableLocation::Stack(offset)) => {
            emit_stack_load(object, Register::RCX, *offset);
            object.emit(REX_W);
            object.emit(MOV);
            object.emit(0x01);
            assert(object@ =~= after_value.emit(
                spec_stack_load(Register::RCX, *offset) + seq![0x48u8, 0x89u8, 0x01u8],
            ));
            Ok(())
        },
    }
}

} // verus!
