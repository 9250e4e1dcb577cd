use vstd::prelude::*;

use crate::ir::ast::local::instruction::rem::RemInstruction;
use crate::ir::compile::linux_amd64::common::{
    load_operand_to_register, spec_binary_failure, spec_binary_operation, validate_operand_types,
};
use crate::ir::compile::linux_amd64::div::emit_sign_extension;
use crate::ir::compile::linux_amd64::function::{ContextView, FunctionContext};
use crate::ir::error::{IRError, IRErrorKind};
use crate::platforms::amd64::instruction::{IDIV, IDIV_EXTENSION, MOV_LOAD};
use crate::platforms::amd64::register::{modrm_digit_reg, modrm_reg_reg, Register};
use crate::platforms::amd64::rex::REX_W;
use crate::platforms::linux::elf::object::{ELFObject, ObjectView};

verus! {

/// As the division, then `MOV RAX, RDX`: RAX = left % right (signed, with the sign of left).
pub open spec fn spec_compile_rem(c: ContextView, o: ObjectView, instruction: RemInstruction) -> Result<
    ObjectView,
    IRErrorKind,
> {
    spec_binary_operation(c, o, instruction.left, instruction.right, seq![0x48u8, 0x99u8], seq![0x48u8, 0xF7u8, 0xF9u8, 0x48u8, 0x8Bu8, 0xC2u8])
}

/// Compiles a signed remainder; the remainder is left in RAX.
pub fn compile_rem_instruction(
    rem_instruction: &RemInstruction,
    context: &mut FunctionContext,
    object: &mut ELFObject,
) -> (r: Result<(), IRError>)
    requires
        old(context).wf(),
    ensures
        r is Err ==> final(object)@ == spec_binary_failure(
            old(context)@,
            old(object)@,
            rem_instruction.left,
            rem_instruction.right,
            seq![0x48u8, 0x99u8],
        ),
        r is Ok ==> old(object)@.text.len() <= final(object)@.text.len(),
        *final(context) == *old(context),
        match r {
            Ok(()) => spec_compile_rem(old(context)@, old(object)@, *rem_instruction) == Ok::<
                ObjectView,
                IRErrorKind,
            >(final(object)@),
            Err(e) => spec_compile_rem(old(context)@, old(object)@, *rem_instruction) == Err::<
                ObjectView,
                IRErrorKind,
            >(e.kind),
        },
{
    reveal(spec_binary_failure);
    reveal(spec_binary_operation);
    validate_operand_types(&rem_instruction.left, &rem_instruction.right, context, "REM")?;
    load_operand_to_register(&rem_instruction.left, Register::RAX, context, object)?;
    emit_sign_extension(object);
    load_operand_to_register(&rem_instruction.right, Register::RCX, context, object)?;
    let ghost after_right = object@;
    object.emit(REX_W);
    object.emit(IDIV);
    object.emit(modrm_digit_reg(IDIV_EXTENSION, Register::RCX));
    object.emit(REX_W);
    object.emit(MOV_LOAD);
    object.emit(modrm_reg_reg(Register::RAX, Register::RDX));
    assert(object@ =~= after_right.emit(seq![0x48u8, 0xF7u8, 0xF9u8, 0x48u8, 0x8Bu8, 0xC2u8]));
    Ok(())
}

} // verus!
