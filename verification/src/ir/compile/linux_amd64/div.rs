use vstd::prelude::*;

use crate::ir::ast::local::instruction::div::DivInstruction;
use crate::ir::compile::linux_amd64::common::{
    load_operand_to_register, spec_binary_failure, spec_binary_operation, validate_operand_types,
};
use crate::ir::compile::linux_amd64::function::{ContextView, FunctionContext};
use crate::ir::error::{IRError, IRErrorKind};
use crate::platforms::amd64::instruction::{CQO, IDIV, IDIV_EXTENSION};
use crate::platforms::amd64::register::{modrm_digit_reg, Register};
use crate::platforms::amd64::rex::REX_W;
use crate::platforms::linux::elf::object::{ELFObject, ObjectView};

verus! {

/// `CQO` between the loads, then `IDIV RCX`: RAX = left / right, RDX = left % right (signed).
pub open spec fn spec_compile_div(c: ContextView, o: ObjectView, instruction: DivInstruction) -> Result<
    ObjectView,
    IRErrorKind,
> {
    spec_binary_operation(c, o, instruction.left, instruction.right, seq![0x48u8, 0x99u8], seq![0x48u8, 0xF7u8, 0xF9u8])
}

/// Compiles a signed division; the quotient is left in RAX.
pub fn compile_div_instruction(
    div_instruction: &DivInstruction,
    context: &mut FunctionContext,
    object: &mut ELFObject,
) -> (r: Result<(), IRError>)
    requires
        old(context).wf(),
    ensures
        r is Err ==> final(object)@ == spec_binary_failure(
            old(context)@,
            old(object)@,
            div_instruction.left,
            div_instruction.right,
            seq![0x48u8, 0x99u8],
        ),
        r is Ok ==> old(object)@.text.len() <= final(object)@.text.len(),
        *final(context) == *old(context),
        match r {
            Ok(()) => spec_compile_div(old(context)@, old(object)@, *div_instruction) == Ok::<
                ObjectView,
                IRErrorKind,
            >(final(object)@),
            Err(e) => spec_compile_div(old(context)@, old(object)@, *div_instruction) == Err::<
                ObjectView,
                IRErrorKind,
            >(e.kind),
        },
{
    reveal(spec_binary_failure);
    reveal(spec_binary_operation);
    validate_operand_types(&div_instruction.left, &div_instruction.right, context, "DIV")?;
    load_operand_to_register(&div_instruction.left, Register::RAX, context, object)?;
    emit_sign_extension(object);
    load_operand_to_register(&div_instruction.right, Register::RCX, context, object)?;
    let ghost after_right = object@;
    object.emit(REX_W);
    object.emit(IDIV);
    object.emit(modrm_digit_reg(IDIV_EXTENSION, Register::RCX));
    assert(object@ =~= after_right.emit(seq![0x48u8, 0xF7u8, 0xF9u8]));
    Ok(())
}

/// Appends `CQO`, which sign-extends RAX into RDX:RAX.
pub(crate) fn emit_sign_extension(object: &mut ELFObject)
    ensures
        final(object)@ == old(object)@.emit(seq![0x48u8, 0x99u8]),
{
    object.emit(REX_W);
    object.emit(CQO);
    assert(object@ =~= old(object)@.emit(seq![0x48u8, 0x99u8]));
}

} // verus!
