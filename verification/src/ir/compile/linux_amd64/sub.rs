use vstd::prelude::*;

use crate::ir::ast::local::instruction::sub::SubInstruction;
use crate::ir::compile::linux_amd64::common::{
    load_operand_to_register, spec_binary_failure, spec_binary_operation, validate_operand_types,
};
use crate::ir::compile::linux_amd64::function::{ContextView, FunctionContext};
use crate::ir::error::{IRError, IRErrorKind};
use crate::platforms::amd64::instruction::{SUB};
use crate::platforms::amd64::register::{modrm_reg_reg, Register};
use crate::platforms::amd64::rex::REX_W;
use crate::platforms::linux::elf::object::{ELFObject, ObjectView};

verus! {

/// `SUB RAX, RCX` after loading the operands: RAX = left - right.
pub open spec fn spec_compile_sub(c: ContextView, o: ObjectView, instruction: SubInstruction) -> Result<
    ObjectView,
    IRErrorKind,
> {
    spec_binary_operation(c, o, instruction.left, instruction.right, Seq::empty(), seq![0x48u8, 0x29u8, 0xC8u8])
}

/// Compiles a subtraction; the difference is left in RAX.
pub fn compile_sub_instruction(
    sub_instruction: &SubInstruction,
    context: &mut FunctionContext,
    object: &mut ELFObject,
) -> (r: Result<(), IRError>)
    requires
        old(context).wf(),
    ensures
        r is Err ==> final(object)@ == spec_binary_failure(
            old(context)@,
            old(object)@,
            sub_instruction.left,
            sub_instruction.right,
            Seq::empty(),
        ),
        r is Ok ==> old(object)@.text.len() <= final(object)@.text.len(),
        *final(context) == *old(context),
        match r {
            Ok(()) => spec_compile_sub(old(context)@, old(object)@, *sub_instruction) == Ok::<
                ObjectView,
                IRErrorKind,
            >(final(object)@),
            Err(e) => spec_compile_sub(old(context)@, old(object)@, *sub_instruction) == Err::<
                ObjectView,
                IRErrorKind,
            >(e.kind),
        },
{
    reveal(spec_binary_failure);
    reveal(spec_binary_operation);
    validate_operand_types(&sub_instruction.left, &sub_instruction.right, context, "SUB")?;
    load_operand_to_register(&sub_instruction.left, Register::RAX, context, object)?;
    let ghost after_left = object@;
    proof {
        after_left.lemma_emit_empty();
    }
    load_operand_to_register(&sub_instruction.right, Register::RCX, context, object)?;
    let ghost after_right = object@;
    object.emit(REX_W);
    object.emit(SUB);
    object.emit(modrm_reg_reg(Register::RCX, Register::RAX));
    assert(object@ =~= after_right.emit(seq![0x48u8, 0x29u8, 0xC8u8]));
    Ok(())
}

} // verus!
