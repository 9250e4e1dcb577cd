use vstd::prelude::*;

use crate::ir::ast::local::instruction::compare::CompareInstruction;
use crate::ir::compile::linux_amd64::common::{
    load_operand_to_register, spec_binary_failure, spec_binary_operation, validate_operand_types,
};
use crate::ir::compile::linux_amd64::function::{ContextView, FunctionContext};
use crate::ir::error::{IRError, IRErrorKind};
use crate::platforms::amd64::instruction::{CMP, MODRM_AL_REGISTER, MOVZX, SETE, TWO_BYTE_ESCAPE};
use crate::platforms::amd64::register::{modrm_reg_reg, Register};
use crate::platforms::amd64::rex::REX_W;
use crate::platforms::linux::elf::object::{ELFObject, ObjectView};

verus! {

/// `CMP RAX, RCX; SETE AL; MOVZX RAX, AL` after loading the operands: RAX = 1 when they
/// are equal, 0 otherwise.
pub open spec fn spec_compile_compare(c: ContextView, o: ObjectView, instruction: CompareInstruction) -> Result<
    ObjectView,
    IRErrorKind,
> {
    spec_binary_operation(c, o, instruction.left, instruction.right, Seq::empty(), seq![0x48u8, 0x39u8, 0xC8u8, 0x0Fu8, 0x94u8, 0xC0u8, 0x48u8, 0x0Fu8, 0xB6u8, 0xC0u8])
}

/// Compiles an equality comparison; 1 or 0 is left in RAX.
pub fn compile_compare_instruction(
    compare_instruction: &CompareInstruction,
    context: &mut FunctionContext,
    object: &mut ELFObject,
) -> (r: Result<(), IRError>)
    requires
        old(context).wf(),
    ensures
        r is Err ==> final(object)@ == spec_binary_failure(
            old(context)@,
            old(object)@,
            compare_instruction.left,
            compare_instruction.right,
            Seq::empty(),
        ),
        r is Ok ==> old(object)@.text.len() <= final(object)@.text.len(),
        *final(context) == *old(context),
        match r {
            Ok(()) => spec_compile_compare(old(context)@, old(object)@, *compare_instruction) == Ok::<
                ObjectView,
                IRErrorKind,
            >(final(object)@),
            Err(e) => spec_compile_compare(old(context)@, old(object)@, *compare_instruction) == Err::<
                ObjectView,
                IRErrorKind,
            >(e.kind),
        },
{
    reveal(spec_binary_failure);
    reveal(spec_binary_operation);
    validate_operand_types(&compare_instruction.left, &compare_instruction.right, context, "COMPARE")?;
    load_operand_to_register(&compare_instruction.left, Register::RAX, context, object)?;
    let ghost after_left = object@;
    proof {
        after_left.lemma_emit_empty();
    }
    load_operand_to_register(&compare_instruction.right, Register::RCX, context, object)?;
    let ghost after_right = object@;
    object.emit(REX_W);
    object.emit(CMP);
    object.emit(modrm_reg_reg(Register::RCX, Register::RAX));
    object.emit(TWO_BYTE_ESCAPE);
    object.emit(SETE);
    object.emit(MODRM_AL_REGISTER);
    object.emit(REX_W);
    object.emit(TWO_BYTE_ESCAPE);
    object.emit(MOVZX);
    object.emit(modrm_reg_reg(Register::RAX, Register::RAX));
    assert(object@ =~= after_right.emit(
        seq![0x48u8, 0x39u8, 0xC8u8, 0x0Fu8, 0x94u8, 0xC0u8, 0x48u8, 0x0Fu8, 0xB6u8, 0xC0u8],
    ));
    Ok(())
}

} // verus!
