use vstd::prelude::*;

use crate::ir::ast::common::{literal::LiteralValue, Operand};
use crate::ir::ast::local::instruction::return_::ReturnInstruction;
use crate::ir::compile::linux_amd64::call::{load_value_operand, spec_load_value};
use crate::ir::compile::linux_amd64::function::{
    generate_epilogue, spec_epilogue, ContextView, FunctionContext,
};
use crate::ir::error::{IRError, IRErrorKind};
use crate::platforms::amd64::register::Register;
use crate::platforms::linux::elf::object::{ELFObject, ObjectView};

verus! {

/// A return: the value, if any, is loaded into RAX, then the epilogue follows.
#[verifier::opaque]
pub open spec fn spec_compile_return(c: ContextView, o: ObjectView, instruction: ReturnInstruction) -> Result<
    ObjectView,
    IRErrorKind,
> {
    match instruction.return_value {
        Some(value) => match spec_load_value(c, o, value, Register::RAX) {
            Err(k) => Err(k),
            Ok(o1) => Ok(o1.emit(spec_epilogue(c))),
        },
        None => Ok(o.emit(spec_epilogue(c))),
    }
}

/// Compiles a return: the value goes to RAX and the epilogue ends the function.
pub fn compile_return_instruction(
    instruction: &ReturnInstruction,
    context: &FunctionContext,
    object: &mut ELFObject,
) -> (r: Result<(), IRError>)
    requires
        context.wf(),
    ensures
        r is Err ==> final(object)@ == old(object)@,
        r is Ok ==> old(object)@.text.len() <= final(object)@.text.len(),
        match r {
            Ok(()) => spec_compile_return(context@, old(object)@, *instruction) == Ok::<
                ObjectView,
                IRErrorKind,
            >(final(object)@),
            Err(e) => spec_compile_return(context@, old(object)@, *instruction) == Err::<
                ObjectView,
                IRErrorKind,
            >(e.kind),
        },
{
    reveal(spec_compile_return);
    if let Some(return_value) = &instruction.return_value {
        load_value_to_register(return_value, Register::RAX, context, object)?;
    }
    generate_epilogue(context, object);
    Ok(())
}

/// Loads a returned value into a register.
fn load_value_to_register(
    operand: &Operand,
    target_reg: Register,
    context: &FunctionContext,
    object: &mut ELFObject,
) -> (r: Result<(), IRError>)
    requires
        context.wf(),
    ensures
        r is Err ==> final(object)@ == old(object)@,
        (*operand matches Operand::Literal(LiteralValue::Float64(_))) ==> r is Err && r->Err_0.message@
            == "Float64 return values not yet implemented"@,
        r is Ok ==> old(object)@.text.len() <= final(object)@.text.len(),
        match r {
            Ok(()) => spec_load_value(context@, old(object)@, *operand, target_reg) == Ok::<
                ObjectView,
                IRErrorKind,
            >(final(object)@),
            Err(e) => spec_load_value(context@, old(object)@, *operand, target_reg) == Err::<
                ObjectView,
                IRErrorKind,
            >(e.kind),
        },
{
    load_value_operand(
        operand,
        target_reg,
        context,
        object,
        "Float64 return values not yet implemented",
    )
}

} // verus!
