use vstd::bytes::{spec_u64_to_le_bytes, u64_to_le_bytes};
use vstd::prelude::*;

use crate::ir::ast::common::{literal::LiteralValue, Operand};
use crate::ir::ast::local::instruction::add::AddInstruction;
use crate::ir::ast::types::{IRPrimitiveType, IRType};
use crate::ir::compile::linux_amd64::common::{
    debug_text_of_literal, debug_text_of_primitive, emit_mov_imm64, emit_reg_move, emit_stack_load, spec_mov_imm64,
    spec_reg_move, spec_stack_load,
};
use crate::ir::compile::linux_amd64::function::{ContextView, FunctionContext, VariableLocation};
use crate::ir::error::{concat3, IRError, IRErrorKind};
use crate::platforms::amd64::addressing::{modrm_rip_relative, spec_modrm_rip_relative};
use crate::platforms::amd64::instruction::{ADD, LEA};
use crate::platforms::amd64::register::{modrm_reg_reg, Register};
use crate::platforms::amd64::rex::REX_W;
use crate::platforms::linux::elf::object::{ELFObject, ObjectView};
use crate::platforms::linux::elf::relocation::{Relocation, RelocationType, RelocationView};
use crate::platforms::linux::elf::section::SectionType;
use crate::platforms::linux::elf::symbol::{Symbol, SymbolBinding, SymbolType, SymbolView};
use crate::strings::{prefixed_decimal, spec_decimal};

verus! {

/// Width and kind of the operands of an addition.
#[derive(Debug, Clone, Copy, PartialEq, Eq, Structural)]
pub enum OperandSize {
    Int8,
    Int16,
    Int32,
    Int64,
    Float32,
    Float64,
}

/// The size an operand imposes on an addition (`None` for an untyped identifier), or the
/// kind of error when it cannot be added.
pub open spec fn spec_operand_size(operand: Operand) -> Result<Option<OperandSize>, IRErrorKind> {
    match operand {
        Operand::Literal(lit) => match lit {
            LiteralValue::Int8(_) => Ok(Some(OperandSize::Int8)),
            LiteralValue::Int16(_) => Ok(Some(OperandSize::Int16)),
            LiteralValue::Int32(_) => Ok(Some(OperandSize::Int32)),
            LiteralValue::Int64(_) => Ok(Some(OperandSize::Int64)),
            LiteralValue::Float64(_) => Ok(Some(OperandSize::Float64)),
            _ => Err(IRErrorKind::TypeError),
        },
        Operand::Identifier(id) => match id.type_ {
            IRType::Primitive(p) => match p {
                IRPrimitiveType::Int8 | IRPrimitiveType::UInt8 => Ok(Some(OperandSize::Int8)),
                IRPrimitiveType::Int16 | IRPrimitiveType::UInt16 => Ok(Some(OperandSize::Int16)),
                IRPrimitiveType::Int32 | IRPrimitiveType::UInt32 => Ok(Some(OperandSize::Int32)),
                IRPrimitiveType::Int64 | IRPrimitiveType::UInt64 => Ok(Some(OperandSize::Int64)),
                IRPrimitiveType::Float32 => Ok(Some(OperandSize::Float32)),
                IRPrimitiveType::Float64 => Ok(Some(OperandSize::Float64)),
                _ => Err(IRErrorKind::TypeError),
            },
            IRType::Untyped => Ok(None),
            IRType::Custom(_) => Err(IRErrorKind::TypeError),
        },
    }
}

/// The size of an addition: the operands' sizes must agree; an untyped operand takes the
/// other's size; two untyped operands are 64-bit integers.
pub open spec fn spec_determine_size(left: Operand, right: Operand) -> Result<OperandSize, IRErrorKind> {
    match spec_operand_size(left) {
        Err(k) => Err(k),
        Ok(l) => match spec_operand_size(right) {
            Err(k) => Err(k),
            Ok(r) => match (l, r) {
                (Some(a), Some(b)) => if a != b {
                    Err(IRErrorKind::TypeError)
                } else {
                    Ok(a)
                },
                (Some(a), None) => Ok(a),
                (None, Some(b)) => Ok(b),
                (None, None) => Ok(OperandSize::Int64),
            },
        },
    }
}

/// Name of the read-only constant that holds a float literal placed at `offset`.
pub open spec fn float_constant_name(offset: nat) -> Seq<char> {
    "__float64_const_"@ + spec_decimal(offset)
}

/// A float literal: its bytes go to the read-only data under a local symbol, and its
/// address is loaded with `LEA reg, [rip + disp32]` and a relocation.
pub open spec fn spec_load_float_constant(o: ObjectView, bits: u64, reg: Register) -> ObjectView {
    let name = float_constant_name(o.rodata.len());
    let with_data = ObjectView { rodata: o.rodata + spec_u64_to_le_bytes(bits), ..o };
    let with_symbol = with_data.add_symbol(
        SymbolView {
            name,
            section: SectionType::RoData,
            offset: o.rodata.len() as usize,
            size: 8,
            symbol_type: SymbolType::Object,
            binding: SymbolBinding::Local,
        },
    );
    let with_lea = with_symbol.emit(seq![0x48u8, 0x8Du8, spec_modrm_rip_relative(reg.code())]);
    with_lea.emit(seq![0u8, 0u8, 0u8, 0u8]).add_relocation(
        RelocationView {
            section: SectionType::Text,
            offset: with_lea.text.len() as usize,
            symbol: name,
            reloc_type: RelocationType::PcRel32,
            addend: -4i64,
        },
    )
}

/// Loading a literal of the addition's size.
pub open spec fn spec_add_load_literal(
    o: ObjectView,
    lit: LiteralValue,
    reg: Register,
    size: OperandSize,
) -> Result<ObjectView, IRErrorKind> {
    match (lit, size) {
        (LiteralValue::Int8(v), OperandSize::Int8) => Ok(o.emit(spec_mov_imm64(reg, v as i64))),
        (LiteralValue::Int16(v), OperandSize::Int16) => Ok(o.emit(spec_mov_imm64(reg, v as i64))),
        (LiteralValue::Int32(v), OperandSize::Int32) => Ok(o.emit(spec_mov_imm64(reg, v as i64))),
        (LiteralValue::Int64(v), OperandSize::Int64) => Ok(o.emit(spec_mov_imm64(reg, v))),
        (LiteralValue::Float64(bits), OperandSize::Float64) => Ok(
            spec_load_float_constant(o, bits, reg),
        ),
        _ => Err(IRErrorKind::TypeError),
    }
}

/// Loading a local variable (globals are not looked at by the addition).
pub open spec fn spec_add_load_identifier(
    c: ContextView,
    o: ObjectView,
    name: Seq<char>,
    reg: Register,
) -> Result<ObjectView, IRErrorKind> {
    if c.variables.contains_key(name) {
        match c.variables[name] {
            VariableLocation::Register(src) => Ok(o.emit(spec_reg_move(reg, src))),
            VariableLocation::Stack(offset) => Ok(o.emit(spec_stack_load(reg, offset))),
        }
    } else {
        Err(IRErrorKind::VariableNotFound)
    }
}

/// Loading an operand of an addition.
pub open spec fn spec_add_load_operand(
    c: ContextView,
    o: ObjectView,
    operand: Operand,
    reg: Register,
    size: OperandSize,
) -> Result<ObjectView, IRErrorKind> {
    match operand {
        Operand::Literal(lit) => spec_add_load_literal(o, lit, reg, size),
        Operand::Identifier(id) => spec_add_load_identifier(c, o, id.name@, reg),
    }
}

/// An addition: sizes are determined, the operands are loaded into RAX and RCX, and
/// integers are added with `ADD RAX, RCX`; float additions are not implemented.
#[verifier::opaque]
pub open spec fn spec_compile_add(c: ContextView, o: ObjectView, instruction: AddInstruction) -> Result<
    ObjectView,
    IRErrorKind,
> {
    match spec_determine_size(instruction.left, instruction.right) {
        Err(k) => Err(k),
        Ok(size) => match spec_add_load_operand(c, o, instruction.left, Register::RAX, size) {
            Err(k) => Err(k),
            Ok(o1) => match spec_add_load_operand(c, o1, instruction.right, Register::RCX, size) {
                Err(k) => Err(k),
                Ok(o2) => match size {
                    OperandSize::Float32 | OperandSize::Float64 => Err(IRErrorKind::NotImplemented),
                    _ => Ok(o2.emit(seq![0x48u8, 0x01u8, 0xC8u8])),
                },
            },
        },
    }
}

/// The object an addition leaves behind when it fails: nothing is written when the
/// sizes do not agree or the left operand cannot be loaded; otherwise what was loaded
/// before the failure stays (both operands, when floats are refused at the end).
#[verifier::opaque]
pub open spec fn spec_add_failure(c: ContextView, o: ObjectView, instruction: AddInstruction) -> ObjectView {
    match spec_determine_size(instruction.left, instruction.right) {
        Err(_) => o,
        Ok(size) => match spec_add_load_operand(c, o, instruction.left, Register::RAX, size) {
            Err(_) => o,
            Ok(o1) => match spec_add_load_operand(c, o1, instruction.right, Register::RCX, size) {
                Err(_) => o1,
                Ok(o2) => o2,
            },
        },
    }
}

/// The name of an operand size, as error messages show it.
pub open spec fn spec_operand_size_name(size: OperandSize) -> Seq<char> {
    match size {
        OperandSize::Int8 => "Int8"@,
        OperandSize::Int16 => "Int16"@,
        OperandSize::Int32 => "Int32"@,
        OperandSize::Int64 => "Int64"@,
        OperandSize::Float32 => "Float32"@,
        OperandSize::Float64 => "Float64"@,
    }
}

/// The name of an operand size (the variant's name).
fn operand_size_name(size: &OperandSize) -> (s: String)
    ensures
        s@ == spec_operand_size_name(*size),
{
    match size {
        OperandSize::Int8 => String::from_str("Int8"),
        OperandSize::Int16 => String::from_str("Int16"),
        OperandSize::Int32 => String::from_str("Int32"),
        OperandSize::Int64 => String::from_str("Int64"),
        OperandSize::Float32 => String::from_str("Float32"),
        OperandSize::Float64 => String::from_str("Float64"),
    }
}

/// Compiles an addition; the sum is left in RAX.
pub fn compile_add_instruction(
    add_instruction: &AddInstruction,
    context: &mut FunctionContext,
    object: &mut ELFObject,
) -> (r: Result<(), IRError>)
    requires
        old(context).wf(),
    ensures
        r is Err ==> final(object)@ == spec_add_failure(old(context)@, old(object)@, *add_instruction),
        r is Ok ==> old(object)@.text.len() <= final(object)@.text.len(),
        *final(context) == *old(context),
        match r {
            Ok(()) => spec_compile_add(old(context)@, old(object)@, *add_instruction) == Ok::<
                ObjectView,
                IRErrorKind,
            >(final(object)@),
            Err(e) => spec_compile_add(old(context)@, old(object)@, *add_instruction) == Err::<
                ObjectView,
                IRErrorKind,
            >(e.kind),
        },
{
    reveal(spec_add_failure);
    reveal(spec_compile_add);
    let operand_size = determine_operand_size(&add_instruction.left, &add_instruction.right, context)?;
    load_operand_to_register(&add_instruction.left, Register::RAX, operand_size, context, object)?;
    load_operand_to_register(&add_instruction.right, Register::RCX, operand_size, context, object)?;
    emit_add_instruction(operand_size, object)?;
    Ok(())
}

/// Loads an operand of an addition into a register.
fn load_operand_to_register(
    operand: &Operand,
    target_reg: Register,
    size: OperandSize,
    context: &FunctionContext,
    object: &mut ELFObject,
) -> (r: Result<(), IRError>)
    requires
        context.wf(),
    ensures
        r is Err ==> final(object)@ == old(object)@,
        r is Ok ==> old(object)@.text.len() <= final(object)@.text.len(),
        match r {
            Ok(()) => spec_add_load_operand(context@, old(object)@, *operand, target_reg, size)
                == Ok::<ObjectView, IRErrorKind>(final(object)@),
            Err(e) => spec_add_load_operand(context@, old(object)@, *operand, target_reg, size)
                == Err::<ObjectView, IRErrorKind>(e.kind),
        },
{
    match operand {
        Operand::Literal(lit) => load_literal_to_register(lit, target_reg, size, object),
        Operand::Identifier(id) => load_identifier_to_register(
            id.name.as_str(),
            target_reg,
            context,
            object,
        ),
    }
}

/// Loads a literal of the addition's size into a register; a float literal is placed in
/// the read-only data and its address is loaded.
fn load_literal_to_register(
    lit: &LiteralValue,
    target_reg: Register,
    size: OperandSize,
    object: &mut ELFObject,
) -> (r: Result<(), IRError>)
    ensures
        r is Err ==> final(object)@ == old(object)@,
        r is Ok ==> old(object)@.text.len() <= final(object)@.text.len(),
        match r {
            Ok(()) => spec_add_load_literal(old(object)@, *lit, target_reg, size) == Ok::<
                ObjectView,
                IRErrorKind,
            >(final(object)@),
            Err(e) => spec_add_load_literal(old(object)@, *lit, target_reg, size) == Err::<
                ObjectView,
                IRErrorKind,
            >(e.kind),
        },
{
    match (lit, size) {
        (LiteralValue::Int8(value), OperandSize::Int8) => {
            emit_mov_imm64(object, target_reg, *value as i64);
        },
        (LiteralValue::Int16(value), OperandSize::Int16) => {
            emit_mov_imm64(object, target_reg, *value as i64);
        },
        (LiteralValue::Int32(value), OperandSize::Int32) => {
            emit_mov_imm64(object, target_reg, *value as i64);
        },
        (LiteralValue::Int64(value), OperandSize::Int64) => {
            emit_mov_imm64(object, target_reg, *value);
        },
        (LiteralValue::Float64(bits), OperandSize::Float64) => {
            emit_float_constant(object, *bits, target_reg);
        },
        _ => {
            let lit_text = debug_text_of_literal(lit);
            let size_text = operand_size_name(&size);
            let mut message = concat3("Type mismatch: literal ", lit_text.as_str(), " does not match operand size ");
            message.append(size_text.as_str());
            return Err(IRError::with_message(IRErrorKind::TypeError, message));
        },
    }
    Ok(())
}

/// Places a float literal in the read-only data and loads its address into a register.
fn emit_float_constant(object: &mut ELFObject, bits: u64, target_reg: Register)
    ensures
        final(object)@ == spec_load_float_constant(old(object)@, bits, target_reg),
{
    let const_offset = object.rodata_len();
    let const_name = prefixed_decimal("__float64_const_", const_offset);
    let bytes = u64_to_le_bytes(bits);
    object.append_rodata(bytes.as_slice());
    object.add_symbol(
        Symbol {
            name: const_name.clone(),
            section: SectionType::RoData,
            offset: const_offset,
            size: 8,
            symbol_type: SymbolType::Object,
            binding: SymbolBinding::Local,
        },
    );
    let ghost before_lea = object@;
    object.emit(REX_W);
    object.emit(LEA);
    object.emit(modrm_rip_relative(target_reg.number()));
    assert(object@ =~= before_lea.emit(
        seq![0x48u8, 0x8Du8, spec_modrm_rip_relative(target_reg.code())],
    ));
    let reloc_offset = object.text_len();
    object.emit_bytes(&[0u8, 0u8, 0u8, 0u8]);
    object.add_relocation(
        Relocation {
            section: SectionType::Text,
            offset: reloc_offset,
            symbol: const_name,
            reloc_type: RelocationType::PcRel32,
            addend: -4,
        },
    );
}

/// Loads a local variable into a register.
fn load_identifier_to_register(
    var_name: &str,
    target_reg: Register,
    context: &FunctionContext,
    object: &mut ELFObject,
) -> (r: Result<(), IRError>)
    requires
        context.wf(),
    ensures
        r is Err ==> final(object)@ == old(object)@,
        r is Ok ==> old(object)@.text.len() <= final(object)@.text.len(),
        match r {
            Ok(()) => spec_add_load_identifier(context@, old(object)@, var_name@, target_reg)
                == Ok::<ObjectView, IRErrorKind>(final(object)@),
            Err(e) => spec_add_load_identifier(context@, old(object)@, var_name@, target_reg)
                == Err::<ObjectView, IRErrorKind>(e.kind),
        },
{
    match context.get_variable(var_name) {
        Some(var_loc) => {
            match var_loc {
                VariableLocation::Register(src_reg) => emit_reg_move(object, target_reg, *src_reg),
                VariableLocation::Stack(offset) => emit_stack_load(object, target_reg, *offset),
            }
            Ok(())
        },
        None => Err(
            IRError::with_message(
                IRErrorKind::VariableNotFound,
                concat3("Variable '", var_name, "' not found"),
            ),
        ),
    }
}

/// The size of an addition, from the sizes of its operands.
fn determine_operand_size(left: &Operand, right: &Operand, context: &FunctionContext) -> (r: Result<
    OperandSize,
    IRError,
>)
    ensures
        ({
            match (spec_operand_size(*left), spec_operand_size(*right)) {
                (Ok(Some(a)), Ok(Some(b))) => a != b ==> r is Err && r->Err_0.message@
                    == "Operand type mismatch in ADD instruction: "@ + spec_operand_size_name(a)
                    + " vs "@ + spec_operand_size_name(b),
                _ => true,
            }
        }),
        match r {
            Ok(size) => spec_determine_size(*left, *right) == Ok::<OperandSize, IRErrorKind>(size),
            Err(e) => spec_determine_size(*left, *right) == Err::<OperandSize, IRErrorKind>(e.kind),
        },
{
    let left_size = get_operand_size(left, context)?;
    let right_size = get_operand_size(right, context)?;
    match (left_size, right_size) {
        (Some(l), Some(r)) => {
            if l != r {
                let l_text = operand_size_name(&l);
                let r_text = operand_size_name(&r);
                let mut message = concat3(
                    "Operand type mismatch in ADD instruction: ",
                    l_text.as_str(),
                    " vs ",
                );
                message.append(r_text.as_str());
                Err(IRError::with_message(IRErrorKind::TypeError, message))
            } else {
                Ok(l)
            }
        },
        (Some(size), None) => Ok(size),
        (None, Some(size)) => Ok(size),
        (None, None) => Ok(OperandSize::Int64),
    }
}

/// The size an operand imposes on an addition.
fn get_operand_size(operand: &Operand, _context: &FunctionContext) -> (r: Result<
    Option<OperandSize>,
    IRError,
>)
    ensures
        match r {
            Ok(size) => spec_operand_size(*operand) == Ok::<Option<OperandSize>, IRErrorKind>(size),
            Err(e) => spec_operand_size(*operand) == Err::<Option<OperandSize>, IRErrorKind>(e.kind),
        },
{
    match operand {
        Operand::Literal(lit) => match lit {
            LiteralValue::Int8(_) => Ok(Some(OperandSize::Int8)),
            LiteralValue::Int16(_) => Ok(Some(OperandSize::Int16)),
            LiteralValue::Int32(_) => Ok(Some(OperandSize::Int32)),
            LiteralValue::Int64(_) => Ok(Some(OperandSize::Int64)),
            LiteralValue::Float64(_) => Ok(Some(OperandSize::Float64)),
            LiteralValue::Boolean(_) | LiteralValue::String(_) => Err(
                IRError::new(
                    IRErrorKind::TypeError,
                    "Boolean and String types are not supported in ADD instruction",
                ),
            ),
        },
        Operand::Identifier(id) => match &id.type_ {
            IRType::Primitive(prim_type) => match prim_type {
                IRPrimitiveType::Int8 | IRPrimitiveType::UInt8 => Ok(Some(OperandSize::Int8)),
                IRPrimitiveType::Int16 | IRPrimitiveType::UInt16 => Ok(Some(OperandSize::Int16)),
                IRPrimitiveType::Int32 | IRPrimitiveType::UInt32 => Ok(Some(OperandSize::Int32)),
                IRPrimitiveType::Int64 | IRPrimitiveType::UInt64 => Ok(Some(OperandSize::Int64)),
                IRPrimitiveType::Float32 => Ok(Some(OperandSize::Float32)),
                IRPrimitiveType::Float64 => Ok(Some(OperandSize::Float64)),
                _ => {
                    let text = debug_text_of_primitive(prim_type);
                    Err(
                        IRError::with_message(
                            IRErrorKind::TypeError,
                            concat3("Unsupported type for ADD instruction: ", text.as_str(), ""),
                        ),
                    )
                },
            },
            IRType::Untyped => Ok(None),
            IRType::Custom(_) => Err(
                IRError::new(
                    IRErrorKind::TypeError,
                    "ADD instruction requires primitive numeric type, not custom type",
                ),
            ),
        },
    }
}

/// Appends the addition itself: `ADD RAX, RCX` for integers; floats are not implemented.
fn emit_add_instruction(size: OperandSize, object: &mut ELFObject) -> (r: Result<(), IRError>)
    ensures
        r is Err ==> final(object)@ == old(object)@,
        match size {
            OperandSize::Float32 | OperandSize::Float64 => r is Err && r->Err_0.kind
                == IRErrorKind::NotImplemented,
            _ => r is Ok && final(object)@ == old(object)@.emit(seq![0x48u8, 0x01u8, 0xC8u8]),
        },
{
    match size {
        OperandSize::Int8 | OperandSize::Int16 | OperandSize::Int32 | OperandSize::Int64 => {
            object.emit(REX_W);
            object.emit(ADD);
            object.emit(modrm_reg_reg(Register::RCX, Register::RAX));
            assert(object@ =~= old(object)@.emit(seq![0x48u8, 0x01u8, 0xC8u8]));
        },
        OperandSize::Float32 => {
            return Err(
                IRError::new(
                    IRErrorKind::NotImplemented,
                    "Float32 ADD not yet fully implemented (requires XMM register handling)",
                ),
            );
        },
        OperandSize::Float64 => {
            return Err(
                IRError::new(
                    IRErrorKind::NotImplemented,
                    "Float64 ADD not yet fully implemented (requires XMM register support and memory operations)",
                ),
            );
        },
    }
    Ok(())
}

} // verus!
