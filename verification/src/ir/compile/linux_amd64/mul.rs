use vstd::prelude::*;

use crate::ir::ast::local::instruction::mul::MulInstruction;
use crate::ir::compile::linux_amd64::common::{
    load_operand_to_register, spec_binary_failure, spec_binary_operation, validate_operand_types,
};
use crate::ir::compile::linux_amd64::function::{ContextView, FunctionContext};
use crate::ir::error::{IRError, IRErrorKind};
use crate::platforms::amd64::instruction::{IMUL, TWO_BYTE_ESCAPE};
use crate::platforms::amd64::register::{modrm_reg_reg, Register};
use crate::platforms::amd64::rex::REX_W;
use crate::platforms::linux::elf::object::{ELFObject, ObjectView};

verus! {

/// `IMUL RAX, RCX` after loading the operands: RAX = left * right (signed).
pub open spec fn spec_compile_mul(c: ContextView, o: ObjectView, instruction: MulInstruction) -> Result<
    ObjectView,
    IRErrorKind,
> {
    spec_binary_operation(c, o, instruction.left, instruction.right, Seq::empty(), seq![0x48u8, 0x0Fu8, 0xAFu8, 0xC1u8])
}

/// Compiles a signed multiplication; the product is left in RAX.
pub fn compile_mul_instruction(
    mul_instruction: &MulInstruction,
    context: &mut FunctionContext,
    object: &mut ELFObject,
) -> (r: Result<(), IRError>)
    requires
        old(context).wf(),
    ensures
        r is Err ==> final(object)@ == spec_binary_failure(
            old(context)@,
            old(object)@,
            mul_instruction.left,
            mul_instruction.right,
            Seq::empty(),
        ),
        r is Ok ==> old(object)@.text.len() <= final(object)@.text.len(),
        *final(context) == *old(context),
        match r {
            Ok(()) => spec_compile_mul(old(context)@, old(object)@, *mul_instruction) == Ok::<
                ObjectView,
                IRErrorKind,
            >(final(object)@),
            Err(e) => spec_compile_mul(old(context)@, old(object)@, *mul_instruction) == Err::<
                ObjectView,
                IRErrorKind,
            >(e.kind),
        },
{
    reveal(spec_binary_failure);
    reveal(spec_binary_operation);
    validate_operand_types(&mul_instruction.left, &mul_instruction.right, context, "MUL")?;
    load_operand_to_register(&mul_instruction.left, Register::RAX, context, object)?;
    let ghost after_left = object@;
    proof {
        after_left.lemma_emit_empty();
    }
    load_operand_to_register(&mul_instruction.right, Register::RCX, context, object)?;
    let ghost after_right = object@;
    object.emit(REX_W);
    object.emit(TWO_BYTE_ESCAPE);
    object.emit(IMUL);
    object.emit(modrm_reg_reg(Register::RAX, Register::RCX));
    assert(object@ =~= after_right.emit(seq![0x48u8, 0x0Fu8, 0xAFu8, 0xC1u8]));
    Ok(())
}

} // verus!
