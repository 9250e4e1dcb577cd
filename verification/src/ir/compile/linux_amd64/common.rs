//! Helpers shared by the arithmetic instructions: operand classification, REX prefixes,
//! immediates, and loading operands into registers.
use vstd::bytes::{spec_u32_to_le_bytes, spec_u64_to_le_bytes, u32_to_le_bytes, u64_to_le_bytes};
use vstd::prelude::*;

use crate::ir::ast::common::{literal::LiteralValue, Operand};
use crate::ir::ast::types::{IRPrimitiveType, IRType};
use crate::ir::compile::linux_amd64::function::{FunctionContext, VariableLocation};
use crate::ir::error::{concat3, IRError, IRErrorKind};
use crate::platforms::amd64::addressing::{
    modrm_rbp_disp32, modrm_rip_relative, sib_rbp_no_index, spec_modrm_rbp_disp32,
    spec_modrm_rip_relative,
};
use crate::platforms::amd64::instruction::{MOV_IMM64_BASE, MOV_LOAD, REG_NUMBER_MASK};
use crate::platforms::amd64::register::{modrm_reg_reg, spec_modrm_reg_reg, Register};
use crate::platforms::amd64::rex::{REX_W, REX_WB, REX_WR, REX_WRB};
use crate::platforms::linux::elf::object::{ELFObject, ObjectView};
use crate::platforms::linux::elf::relocation::{Relocation, RelocationType, RelocationView};
use crate::platforms::linux::elf::section::SectionType;
use crate::platforms::linux::elf::symbol::spec_find_symbol;

verus! {

/// REX prefix of a 64-bit operation, with REX.R and REX.B as asked.
pub open spec fn spec_rex(r: bool, b: bool) -> u8 {
    if r && b {
        0x4D
    } else if r {
        0x4C
    } else if b {
        0x49
    } else {
        0x48
    }
}

/// Whether an optional register is one of R8 to R15.
pub open spec fn opt_needs_rex(reg: Option<Register>) -> bool {
    match reg {
        Some(r) => r.needs_rex(),
        None => false,
    }
}

/// Little-endian bytes of a 32-bit value.
pub open spec fn le32(v: i32) -> Seq<u8> {
    spec_u32_to_le_bytes(v as u32)
}

/// Little-endian bytes of a 64-bit value.
pub open spec fn le64(v: i64) -> Seq<u8> {
    spec_u64_to_le_bytes(v as u64)
}

/// `MOV reg, imm64`.
pub open spec fn spec_mov_imm64(reg: Register, value: i64) -> Seq<u8> {
    seq![spec_rex(false, reg.needs_rex()), (0xB8 + reg.low3()) as u8] + le64(value)
}

/// `MOV dst, src` (nothing when they are the same register).
pub open spec fn spec_reg_move(dst: Register, src: Register) -> Seq<u8> {
    if dst == src {
        Seq::empty()
    } else {
        seq![spec_rex(dst.needs_rex(), src.needs_rex()), 0x8B, spec_modrm_reg_reg(dst, src)]
    }
}

/// `MOV dst, [rbp + offset]`.
pub open spec fn spec_stack_load(dst: Register, offset: i32) -> Seq<u8> {
    seq![spec_rex(dst.needs_rex(), false), 0x8B, spec_modrm_rbp_disp32(dst.code()), 0x25] + le32(
        offset,
    )
}

/// `opcode dst, [rip + disp32]` with a zero displacement left for the linker.
pub open spec fn spec_rip_operand(opcode: u8, dst: Register) -> Seq<u8> {
    seq![spec_rex(dst.needs_rex(), false), opcode, spec_modrm_rip_relative(dst.code()), 0, 0, 0, 0]
}

/// A PC-relative 32-bit relocation of the text section at `offset`.
pub open spec fn pcrel_relocation(offset: usize, symbol: Seq<char>) -> RelocationView {
    RelocationView {
        section: SectionType::Text,
        offset,
        symbol,
        reloc_type: RelocationType::PcRel32,
        addend: -4i64,
    }
}

/// Whether the object has a symbol called `name`.
pub open spec fn has_symbol(o: ObjectView, name: Seq<char>) -> bool {
    spec_find_symbol(o.symbols, name) != -1
}

/// The integer value of an integer literal (sign-extended to 64 bits).
pub open spec fn literal_int(lit: LiteralValue) -> Option<i64> {
    match lit {
        LiteralValue::Int8(v) => Some(v as i64),
        LiteralValue::Int16(v) => Some(v as i64),
        LiteralValue::Int32(v) => Some(v as i64),
        LiteralValue::Int64(v) => Some(v),
        _ => None,
    }
}

/// Whether arithmetic treats the operand as an integer (`true`) or a float (`false`),
/// or the kind of error when it cannot take part in arithmetic.
pub open spec fn spec_integer_class(operand: Operand) -> Result<bool, IRErrorKind> {
    match operand {
        Operand::Literal(lit) => match lit {
            LiteralValue::Int8(_) | LiteralValue::Int16(_) | LiteralValue::Int32(_)
            | LiteralValue::Int64(_) => Ok(true),
            LiteralValue::Float64(_) => Ok(false),
            _ => Err(IRErrorKind::TypeError),
        },
        Operand::Identifier(id) => match id.type_ {
            IRType::Primitive(p) => if p.spec_is_integer() {
                Ok(true)
            } else if p.spec_is_float() {
                Ok(false)
            } else {
                Err(IRErrorKind::TypeError)
            },
            IRType::Untyped => Ok(true),
            IRType::Custom(_) => Err(IRErrorKind::TypeError),
        },
    }
}

/// Both operands are integers or both are floats.
pub open spec fn spec_validate(left: Operand, right: Operand) -> Result<(), IRErrorKind> {
    match spec_integer_class(left) {
        Err(k) => Err(k),
        Ok(l) => match spec_integer_class(right) {
            Err(k) => Err(k),
            Ok(r) => if l != r {
                Err(IRErrorKind::TypeError)
            } else {
                Ok(())
            },
        },
    }
}

/// Loading an integer literal: `MOV reg, imm64`.
pub open spec fn spec_load_literal(o: ObjectView, lit: LiteralValue, reg: Register) -> Result<
    ObjectView,
    IRErrorKind,
> {
    match literal_int(lit) {
        Some(v) => Ok(o.emit(spec_mov_imm64(reg, v))),
        None => Err(IRErrorKind::TypeError),
    }
}

/// Loading a variable: from its register or stack slot, else from the global symbol of that
/// name through a RIP-relative load and a relocation.
pub open spec fn spec_load_identifier(
    c: crate::ir::compile::linux_amd64::function::ContextView,
    o: ObjectView,
    name: Seq<char>,
    reg: Register,
) -> Result<ObjectView, IRErrorKind> {
    if c.variables.contains_key(name) {
        match c.variables[name] {
            VariableLocation::Register(src) => Ok(o.emit(spec_reg_move(reg, src))),
            VariableLocation::Stack(offset) => Ok(o.emit(spec_stack_load(reg, offset))),
        }
    } else if has_symbol(o, name) {
        Ok(
            o.emit(spec_rip_operand(0x8B, reg)).add_relocation(
                pcrel_relocation(o.text_offset(3), name),
            ),
        )
    } else {
        Err(IRErrorKind::VariableNotFound)
    }
}

/// Loading an operand into a register.
pub open spec fn spec_load_operand(
    c: crate::ir::compile::linux_amd64::function::ContextView,
    o: ObjectView,
    operand: Operand,
    reg: Register,
) -> Result<ObjectView, IRErrorKind> {
    match operand {
        Operand::Literal(lit) => spec_load_literal(o, lit, reg),
        Operand::Identifier(id) => spec_load_identifier(c, o, id.name@, reg),
    }
}

/// A two-operand integer instruction: the operands are checked, the left one is loaded into
/// RAX, `between` is appended, the right one is loaded into RCX, and `op` is appended.
#[verifier::opaque]
pub open spec fn spec_binary_operation(
    c: crate::ir::compile::linux_amd64::function::ContextView,
    o: ObjectView,
    left: Operand,
    right: Operand,
    between: Seq<u8>,
    op: Seq<u8>,
) -> Result<ObjectView, IRErrorKind> {
    match spec_validate(left, right) {
        Err(k) => Err(k),
        Ok(_) => match spec_load_operand(c, o, left, Register::RAX) {
            Err(k) => Err(k),
            Ok(o1) => match spec_load_operand(c, o1.emit(between), right, Register::RCX) {
                Err(k) => Err(k),
                Ok(o2) => Ok(o2.emit(op)),
            },
        },
    }
}

/// The object a two-operand instruction leaves behind when it fails: nothing is written
/// when the operands do not fit together or the left one cannot be loaded; when the
/// right one cannot be loaded, the load of the left one (and `between`) stays.
#[verifier::opaque]
pub open spec fn spec_binary_failure(
    c: crate::ir::compile::linux_amd64::function::ContextView,
    o: ObjectView,
    left: Operand,
    right: Operand,
    between: Seq<u8>,
) -> ObjectView {
    match spec_validate(left, right) {
        Err(_) => o,
        Ok(_) => match spec_load_operand(c, o, left, Register::RAX) {
            Err(_) => o,
            Ok(o1) => o1.emit(between),
        },
    }
}

/// The text of a primitive type as `format!("{:?}")` writes it with the derived `Debug`
/// impl. Nothing is claimed of the text; it only goes into error messages.
#[verifier::external_body]
pub(crate) fn debug_text_of_primitive(t: &IRPrimitiveType) -> String {
    format!("{:?}", t)
}

/// The text of a literal as `format!("{:?}")` writes it with the derived `Debug` impl.
/// Nothing is claimed of the text; it only goes into error messages.
#[verifier::external_body]
pub(crate) fn debug_text_of_literal(lit: &LiteralValue) -> String {
    format!("{:?}", lit)
}

/// Whether the operand is an integer (`true`) or a float (`false`) for arithmetic.
fn is_integer_operand(operand: &Operand, context: &FunctionContext) -> (r: Result<bool, IRError>)
    ensures
        match r {
            Ok(b) => spec_integer_class(*operand) == Ok::<bool, IRErrorKind>(b),
            Err(e) => spec_integer_class(*operand) == Err::<bool, IRErrorKind>(e.kind),
        },
{
    match operand {
        Operand::Literal(lit) => match lit {
            LiteralValue::Int8(_) | LiteralValue::Int16(_) | LiteralValue::Int32(_)
            | LiteralValue::Int64(_) => Ok(true),
            LiteralValue::Float64(_) => Ok(false),
            LiteralValue::Boolean(_) | LiteralValue::String(_) => Err(
                IRError::new(
                    IRErrorKind::TypeError,
                    "Boolean and String types are not supported in arithmetic instructions",
                ),
            ),
        },
        Operand::Identifier(id) => match &id.type_ {
            IRType::Primitive(prim_type) => {
                if prim_type.is_integer() {
                    Ok(true)
                } else if prim_type.is_float() {
                    Ok(false)
                } else {
                    let text = debug_text_of_primitive(prim_type);
                    Err(
                        IRError::with_message(
                            IRErrorKind::TypeError,
                            concat3(
                                "Unsupported type for arithmetic instruction: ",
                                text.as_str(),
                                "",
                            ),
                        ),
                    )
                }
            },
            IRType::Untyped => Ok(true),
            IRType::Custom(_) => Err(
                IRError::new(
                    IRErrorKind::TypeError,
                    "Arithmetic instructions require primitive numeric type, not custom type",
                ),
            ),
        },
    }
}

/// Checks that both operands are integers or both are floats.
pub fn validate_operand_types(
    left: &Operand,
    right: &Operand,
    context: &FunctionContext,
    instruction_name: &str,
) -> (r: Result<(), IRError>)
    ensures
        (spec_integer_class(*left) is Ok && spec_integer_class(*right) is Ok && r is Err) ==> r->Err_0.message@
            == "Type mismatch in "@ + instruction_name@
            + " instruction: cannot mix integer and floating-point operands"@,
        match r {
            Ok(()) => spec_validate(*left, *right) == Ok::<(), IRErrorKind>(()),
            Err(e) => spec_validate(*left, *right) == Err::<(), IRErrorKind>(e.kind),
        },
{
    let left_is_int = is_integer_operand(left, context)?;
    let right_is_int = is_integer_operand(right, context)?;
    if left_is_int != right_is_int {
        return Err(
            IRError::with_message(
                IRErrorKind::TypeError,
                concat3(
                    "Type mismatch in ",
                    instruction_name,
                    " instruction: cannot mix integer and floating-point operands",
                ),
            ),
        );
    }
    Ok(())
}

/// Appends the little-endian bytes of a 32-bit value.
pub fn emit_le32(object: &mut ELFObject, value: i32)
    ensures
        final(object)@ == old(object)@.emit(le32(value)),
{
    let bytes = u32_to_le_bytes(value as u32);
    object.emit_bytes(bytes.as_slice());
}

/// Appends the little-endian bytes of a 64-bit value.
pub fn emit_le64(object: &mut ELFObject, value: i64)
    ensures
        final(object)@ == old(object)@.emit(le64(value)),
{
    let bytes = u64_to_le_bytes(value as u64);
    object.emit_bytes(bytes.as_slice());
}

/// Appends `MOV reg, imm64`.
pub fn emit_mov_imm64(object: &mut ELFObject, target_reg: Register, value: i64)
    ensures
        final(object)@ == old(object)@.emit(spec_mov_imm64(target_reg, value)),
{
    emit_rex_prefix(object, None, Some(target_reg));
    let n = target_reg.number();
    assert(n & 7u8 == n % 8) by (bit_vector);
    object.emit(MOV_IMM64_BASE + (n & REG_NUMBER_MASK));
    emit_le64(object, value);
    assert(final(object)@.text =~= old(object)@.emit(spec_mov_imm64(target_reg, value)).text);
}

/// Appends the REX prefix of a 64-bit operation whose reg and r/m fields hold these
/// registers (REX.R and REX.B for R8 to R15).
pub fn emit_rex_prefix(
    object: &mut ELFObject,
    reg_field: Option<Register>,
    rm_field: Option<Register>,
)
    ensures
        final(object)@ == old(object)@.emit(
            seq![spec_rex(opt_needs_rex(reg_field), opt_needs_rex(rm_field))],
        ),
{
    let needs_rex_r = match reg_field {
        Some(r) => r.requires_rex(),
        None => false,
    };
    let needs_rex_b = match rm_field {
        Some(r) => r.requires_rex(),
        None => false,
    };
    let rex = if needs_rex_r && needs_rex_b {
        REX_WRB
    } else if needs_rex_r {
        REX_WR
    } else if needs_rex_b {
        REX_WB
    } else {
        REX_W
    };
    object.emit(rex);
}

/// Appends `MOV dst, src` unless they are the same register.
pub fn emit_reg_move(object: &mut ELFObject, dst: Register, src: Register)
    ensures
        final(object)@ == old(object)@.emit(spec_reg_move(dst, src)),
{
    if src != dst {
        emit_rex_prefix(object, Some(dst), Some(src));
        object.emit(MOV_LOAD);
        object.emit(modrm_reg_reg(dst, src));
        assert(final(object)@.text =~= old(object)@.emit(spec_reg_move(dst, src)).text);
    } else {
        assert(final(object)@.text =~= old(object)@.emit(spec_reg_move(dst, src)).text);
    }
}

/// Appends `MOV dst, [rbp + offset]`.
pub fn emit_stack_load(object: &mut ELFObject, dst: Register, offset: i32)
    ensures
        final(object)@ == old(object)@.emit(spec_stack_load(dst, offset)),
{
    emit_rex_prefix(object, Some(dst), None);
    object.emit(MOV_LOAD);
    object.emit(modrm_rbp_disp32(dst.number()));
    object.emit(sib_rbp_no_index());
    emit_le32(object, offset);
    assert(final(object)@.text =~= old(object)@.emit(spec_stack_load(dst, offset)).text);
}

/// Appends `opcode dst, [rip + 0]` and a PC-relative relocation of its displacement
/// against `symbol`.
pub fn emit_rip_operand(object: &mut ELFObject, opcode: u8, dst: Register, symbol: String)
    ensures
        final(object)@ == old(object)@.emit(spec_rip_operand(opcode, dst)).add_relocation(
            pcrel_relocation(old(object)@.text_offset(3), symbol@),
        ),
{
    let start = object.text_len();
    emit_rex_prefix(object, Some(dst), None);
    object.emit(opcode);
    object.emit(modrm_rip_relative(dst.number()));
    object.emit_bytes(&[0u8, 0u8, 0u8, 0u8]);
    assert(object@.text =~= old(object)@.emit(spec_rip_operand(opcode, dst)).text);
    object.add_relocation(
        Relocation {
            section: SectionType::Text,
            offset: start.wrapping_add(3),
            symbol,
            reloc_type: RelocationType::PcRel32,
            addend: -4i64,
        },
    );
}

/// Loads an integer literal into a register (`MOV reg, imm64`, sign-extending narrower
/// integers).
pub fn load_literal_to_register(lit: &LiteralValue, target_reg: Register, object: &mut ELFObject) -> (r:
    Result<(), IRError>)
    ensures
        r is Err ==> final(object)@ == old(object)@,
        r is Ok ==> old(object)@.text.len() <= final(object)@.text.len(),
        match r {
            Ok(()) => spec_load_literal(old(object)@, *lit, target_reg) == Ok::<
                ObjectView,
                IRErrorKind,
            >(final(object)@),
            Err(e) => spec_load_literal(old(object)@, *lit, target_reg) == Err::<
                ObjectView,
                IRErrorKind,
            >(e.kind),
        },
{
    match lit {
        LiteralValue::Int8(value) => emit_mov_imm64(object, target_reg, *value as i64),
        LiteralValue::Int16(value) => emit_mov_imm64(object, target_reg, *value as i64),
        LiteralValue::Int32(value) => emit_mov_imm64(object, target_reg, *value as i64),
        LiteralValue::Int64(value) => emit_mov_imm64(object, target_reg, *value),
        _ => {
            let text = debug_text_of_literal(lit);
            return Err(
                IRError::with_message(
                    IRErrorKind::TypeError,
                    concat3("Unsupported literal type for register load: ", text.as_str(), ""),
                ),
            );
        },
    }
    Ok(())
}

/// Loads a variable into a register: from its register or stack slot, else the value of
/// the global symbol of that name (RIP-relative, with a relocation).
pub fn load_identifier_to_register(
    var_name: &str,
    target_reg: Register,
    context: &FunctionContext,
    object: &mut ELFObject,
) -> (r: Result<(), IRError>)
    requires
        context.wf(),
    ensures
        r is Err ==> final(object)@ == old(object)@,
        r is Err ==> r->Err_0.message@ == "Variable '"@ + var_name@
            + "' not found (neither local nor global)"@,
        r is Ok ==> old(object)@.text.len() <= final(object)@.text.len(),
        match r {
            Ok(()) => spec_load_identifier(context@, old(object)@, var_name@, target_reg) == Ok::<
                ObjectView,
                IRErrorKind,
            >(final(object)@),
            Err(e) => spec_load_identifier(context@, old(object)@, var_name@, target_reg) == Err::<
                ObjectView,
                IRErrorKind,
            >(e.kind),
        },
{
    match context.get_variable(var_name) {
        Some(var_loc) => {
            match var_loc {
                VariableLocation::Register(src_reg) => emit_reg_move(object, target_reg, *src_reg),
                VariableLocation::Stack(offset) => emit_stack_load(object, target_reg, *offset),
            }
            Ok(())
        },
        None => {
            let symbol_name = match object.symbol_table.find_symbol(var_name) {
                Some(symbol) => symbol.name.clone(),
                None => {
                    return Err(
                        IRError::with_message(
                            IRErrorKind::VariableNotFound,
                            concat3(
                                "Variable '",
                                var_name,
                                "' not found (neither local nor global)",
                            ),
                        ),
                    );
                },
            };
            emit_rip_operand(object, MOV_LOAD, target_reg, symbol_name);
            Ok(())
        },
    }
}

/// Loads an operand into a register.
pub fn load_operand_to_register(
    operand: &Operand,
    target_reg: Register,
    context: &mut FunctionContext,
    object: &mut ELFObject,
) -> (r: Result<(), IRError>)
    requires
        old(context).wf(),
    ensures
        r is Err ==> final(object)@ == old(object)@,
        r is Ok ==> old(object)@.text.len() <= final(object)@.text.len(),
        *final(context) == *old(context),
        match r {
            Ok(()) => spec_load_operand(old(context)@, old(object)@, *operand, target_reg) == Ok::<
                ObjectView,
                IRErrorKind,
            >(final(object)@),
            Err(e) => spec_load_operand(old(context)@, old(object)@, *operand, target_reg) == Err::<
                ObjectView,
                IRErrorKind,
            >(e.kind),
        },
{
    match operand {
        Operand::Literal(lit) => load_literal_to_register(lit, target_reg, object),
        Operand::Identifier(id) => load_identifier_to_register(
            id.name.as_str(),
            target_reg,
            context,
            object,
        ),
    }
}

} // verus!
