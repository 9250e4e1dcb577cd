use vstd::prelude::*;
use vstd::utf8::encode_utf8;

use crate::ir::ast::common::{literal::LiteralValue, Operand};
use crate::ir::ast::local::instruction::call::CallInstruction;
use crate::ir::compile::linux_amd64::common::{
    emit_mov_imm64, emit_reg_move, emit_rip_operand, emit_stack_load, has_symbol, pcrel_relocation,
    spec_mov_imm64, spec_reg_move, spec_rip_operand, spec_stack_load,
};
use crate::ir::compile::linux_amd64::function::{ContextView, FunctionContext, VariableLocation};
use crate::ir::error::{concat3, IRError, IRErrorKind};
use crate::platforms::amd64::instruction::{CALL_NEAR, LEA};
use crate::platforms::amd64::register::Register;
use crate::platforms::linux::elf::object::{ELFObject, ObjectView};
use crate::platforms::linux::elf::relocation::{Relocation, RelocationType, RelocationView};
use crate::platforms::linux::elf::section::SectionType;
use crate::platforms::linux::elf::symbol::{Symbol, SymbolBinding, SymbolType, SymbolView};
use crate::strings::{prefixed_decimal, spec_decimal};

verus! {

/// Name of the read-only constant that holds a string literal placed at `offset`.
pub open spec fn string_constant_name(offset: nat) -> Seq<char> {
    "__str_const_"@ + spec_decimal(offset)
}

/// A string literal: its UTF-8 bytes and a NUL go to the read-only data under a local
/// symbol, and its address is loaded with `LEA reg, [rip + disp32]` and a relocation.
pub open spec fn spec_load_string(o: ObjectView, s: Seq<char>, reg: Register) -> ObjectView {
    let name = string_constant_name(o.rodata.len());
    let bytes = encode_utf8(s);
    let with_data = ObjectView { rodata: o.rodata + bytes + seq![0u8], ..o };
    let with_symbol = with_data.add_symbol(
        SymbolView {
            name,
            section: SectionType::RoData,
            offset: o.rodata.len() as usize,
            size: (bytes.len() as usize).wrapping_add(1),
            symbol_type: SymbolType::Object,
            binding: SymbolBinding::Local,
        },
    );
    with_symbol.emit(spec_rip_operand(0x8D, reg)).add_relocation(
        pcrel_relocation(with_symbol.text_offset(3), name),
    )
}

/// Loading a call argument or a returned value into a register: integers and booleans as
/// immediates, strings by address, variables from their register or stack slot, globals
/// by address; floats are not implemented.
#[verifier::opaque]
pub open spec fn spec_load_value(c: ContextView, o: ObjectView, operand: Operand, reg: Register) -> Result<
    ObjectView,
    IRErrorKind,
> {
    match operand {
        Operand::Literal(lit) => match lit {
            LiteralValue::Int8(v) => Ok(o.emit(spec_mov_imm64(reg, v as i64))),
            LiteralValue::Int16(v) => Ok(o.emit(spec_mov_imm64(reg, v as i64))),
            LiteralValue::Int32(v) => Ok(o.emit(spec_mov_imm64(reg, v as i64))),
            LiteralValue::Int64(v) => Ok(o.emit(spec_mov_imm64(reg, v))),
            LiteralValue::String(s) => Ok(spec_load_string(o, s@, reg)),
            LiteralValue::Boolean(b) => Ok(
                o.emit(
                    spec_mov_imm64(
                        reg,
                        if b {
                            1
                        } else {
                            0
                        },
                    ),
                ),
            ),
            LiteralValue::Float64(_) => Err(IRErrorKind::NotImplemented),
        },
        Operand::Identifier(id) => {
            let name = id.name@;
            if c.variables.contains_key(name) {
                match c.variables[name] {
                    VariableLocation::Register(src) => Ok(o.emit(spec_reg_move(reg, src))),
                    VariableLocation::Stack(offset) => Ok(o.emit(spec_stack_load(reg, offset))),
                }
            } else if has_symbol(o, name) {
                Ok(
                    o.emit(spec_rip_operand(0x8D, reg)).add_relocation(
                        pcrel_relocation(o.text_offset(3), name),
                    ),
                )
            } else {
                Err(IRErrorKind::VariableNotFound)
            }
        },
    }
}

/// Value-loading law: a call argument or returned value that is a boolean loads exactly
/// as the 64-bit integer 1 or 0 would, and a float literal is refused as not implemented
/// without writing anything.
pub proof fn lemma_load_value_literals(c: ContextView, o: ObjectView, b: bool, bits: u64, reg: Register)
    ensures
        spec_load_value(c, o, Operand::Literal(LiteralValue::Boolean(b)), reg) == spec_load_value(
            c,
            o,
            Operand::Literal(
                LiteralValue::Int64(
                    if b {
                        1
                    } else {
                        0
                    },
                ),
            ),
            reg,
        ),
        spec_load_value(c, o, Operand::Literal(LiteralValue::Float64(bits)), reg) == Err::<
            ObjectView,
            IRErrorKind,
        >(IRErrorKind::NotImplemented),
{
    reveal(spec_load_value);
}

/// The System V argument registers, in order.
pub open spec fn param_register(i: int) -> Register {
    if i == 0 {
        Register::RDI
    } else if i == 1 {
        Register::RSI
    } else if i == 2 {
        Register::RDX
    } else if i == 3 {
        Register::RCX
    } else if i == 4 {
        Register::R8
    } else {
        Register::R9
    }
}

/// Loading the first `n` arguments into their registers, in order.
pub open spec fn spec_load_params(c: ContextView, o: ObjectView, params: Seq<Operand>, n: nat) -> Result<
    ObjectView,
    IRErrorKind,
>
    decreases n,
{
    if n == 0 {
        Ok(o)
    } else {
        match spec_load_params(c, o, params, (n - 1) as nat) {
            Err(k) => Err(k),
            Ok(o1) => spec_load_value(c, o1, params[n - 1], param_register(n - 1)),
        }
    }
}

/// The object left behind when loading the first `n` arguments fails: the arguments
/// loaded before the one that failed stay.
pub open spec fn spec_params_failure(c: ContextView, o: ObjectView, params: Seq<Operand>, n: nat) -> ObjectView
    decreases n,
{
    if n == 0 {
        o
    } else {
        match spec_load_params(c, o, params, (n - 1) as nat) {
            Err(_) => spec_params_failure(c, o, params, (n - 1) as nat),
            Ok(o1) => o1,
        }
    }
}

/// The object a call leaves behind when it fails: nothing is written when it has more
/// than six arguments; otherwise the arguments loaded before the failing one stay.
#[verifier::opaque]
pub open spec fn spec_call_failure(c: ContextView, o: ObjectView, instruction: CallInstruction) -> ObjectView {
    let params = instruction.parameters@;
    if params.len() > 6 {
        o
    } else {
        spec_params_failure(c, o, params, params.len())
    }
}

/// Whether some symbol of the object is called `name`.
pub open spec fn symbol_named(o: ObjectView, name: Seq<char>) -> bool {
    exists|i: int| 0 <= i < o.symbols.len() && #[trigger] o.symbols[i].name == name
}

/// A call: at most six arguments are loaded into RDI, RSI, RDX, RCX, R8 and R9, then
/// `CALL rel32` with a PLT relocation; a callee without a symbol gets an undefined global
/// function symbol.
#[verifier::opaque]
pub open spec fn spec_compile_call(c: ContextView, o: ObjectView, instruction: CallInstruction) -> Result<
    ObjectView,
    IRErrorKind,
> {
    let params = instruction.parameters@;
    let name = instruction.function_name.name@;
    if params.len() > 6 {
        Err(IRErrorKind::NotImplemented)
    } else {
        match spec_load_params(c, o, params, params.len()) {
            Err(k) => Err(k),
            Ok(o1) => {
                let o2 = o1.emit(seq![0xE8u8, 0u8, 0u8, 0u8, 0u8]).add_relocation(
                    RelocationView {
                        section: SectionType::Text,
                        offset: o1.text_offset(1),
                        symbol: name,
                        reloc_type: RelocationType::PltPcRel32,
                        addend: -4i64,
                    },
                );
                if symbol_named(o2, name) {
                    Ok(o2)
                } else {
                    Ok(
                        o2.add_symbol(
                            SymbolView {
                                name,
                                section: SectionType::Undefined,
                                offset: 0,
                                size: 0,
                                symbol_type: SymbolType::Function,
                                binding: SymbolBinding::Global,
                            },
                        ),
                    )
                }
            },
        }
    }
}

/// Places a string literal in the read-only data and loads its address into a register.
fn emit_string_constant(object: &mut ELFObject, s: &String, target_reg: Register)
    ensures
        final(object)@ == spec_load_string(old(object)@, s@, target_reg),
{
    let string_offset = object.rodata_len();
    let string_const_name = prefixed_decimal("__str_const_", string_offset);
    let bytes = s.as_str().as_bytes();
    object.append_rodata(bytes);
    object.append_rodata(&[0u8]);
    assert(object@.rodata =~= old(object)@.rodata + encode_utf8(s@) + seq![0u8]);
    object.add_symbol(
        Symbol {
            name: string_const_name.clone(),
            section: SectionType::RoData,
            offset: string_offset,
            size: bytes.len().wrapping_add(1),
            symbol_type: SymbolType::Object,
            binding: SymbolBinding::Local,
        },
    );
    emit_rip_operand(object, LEA, target_reg, string_const_name);
}

/// Loads a call argument or returned value into a register (see `spec_load_value`);
/// `float_message` is the message of the error a float literal gets.
pub(crate) fn load_value_operand(
    operand: &Operand,
    target_reg: Register,
    context: &FunctionContext,
    object: &mut ELFObject,
    float_message: &str,
) -> (r: Result<(), IRError>)
    requires
        context.wf(),
    ensures
        r is Err ==> final(object)@ == old(object)@,
        (*operand matches Operand::Literal(LiteralValue::Float64(_))) ==> r is Err && r->Err_0.message@
            == float_message@,
        r is Ok ==> old(object)@.text.len() <= final(object)@.text.len(),
        match r {
            Ok(()) => spec_load_value(context@, old(object)@, *operand, target_reg) == Ok::<
                ObjectView,
                IRErrorKind,
            >(final(object)@),
            Err(e) => spec_load_value(context@, old(object)@, *operand, target_reg) == Err::<
                ObjectView,
                IRErrorKind,
            >(e.kind),
        },
{
    reveal(spec_load_value);
    match operand {
        Operand::Literal(lit) => match lit {
            LiteralValue::Int8(value) => emit_mov_imm64(object, target_reg, *value as i64),
            LiteralValue::Int16(value) => emit_mov_imm64(object, target_reg, *value as i64),
            LiteralValue::Int32(value) => emit_mov_imm64(object, target_reg, *value as i64),
            LiteralValue::Int64(value) => emit_mov_imm64(object, target_reg, *value),
            LiteralValue::String(s) => emit_string_constant(object, s, target_reg),
            LiteralValue::Boolean(b) => {
                let value: i64 = if *b {
                    1
                } else {
                    0
                };
                emit_mov_imm64(object, target_reg, value);
            },
            LiteralValue::Float64(_) => {
                return Err(IRError::new(IRErrorKind::NotImplemented, float_message));
            },
        },
        Operand::Identifier(id) => {
            match context.get_variable(id.name.as_str()) {
                Some(VariableLocation::Register(src_reg)) => {
                    emit_reg_move(object, target_reg, *src_reg);
                },
                Some(VariableLocation::Stack(offset)) => {
                    emit_stack_load(object, target_reg, *offset);
                },
                None => {
                    let symbol_name = match object.symbol_table.find_symbol(id.name.as_str()) {
                        Some(symbol) => symbol.name.clone(),
                        None => {
                            return Err(
                                IRError::with_message(
                                    IRErrorKind::VariableNotFound,
                                    concat3(
                                        "Variable '",
                                        id.name.as_str(),
                                        "' not found (neither local nor global)",
                                    ),
                                ),
                            );
                        },
                    };
                    emit_rip_operand(object, LEA, target_reg, symbol_name);
                },
            }
        },
    }
    Ok(())
}

/// Loads a call argument into its register.
fn compile_parameter_to_register(
    param: &Operand,
    target_reg: Register,
    context: &FunctionContext,
    object: &mut ELFObject,
) -> (r: Result<(), IRError>)
    requires
        context.wf(),
    ensures
        r is Err ==> final(object)@ == old(object)@,
        (*param matches Operand::Literal(LiteralValue::Float64(_))) ==> r is Err && r->Err_0.message@
            == "Float64 parameters not yet implemented"@,
        r is Ok ==> old(object)@.text.len() <= final(object)@.text.len(),
        match r {
            Ok(()) => spec_load_value(context@, old(object)@, *param, target_reg) == Ok::<
                ObjectView,
                IRErrorKind,
            >(final(object)@),
            Err(e) => spec_load_value(context@, old(object)@, *param, target_reg) == Err::<
                ObjectView,
                IRErrorKind,
            >(e.kind),
        },
{
    load_value_operand(param, target_reg, context, object, "Float64 parameters not yet implemented")
}

/// Compiles a call (System V calling convention, at most six arguments); the result is
/// left in RAX.
pub fn compile_call_instruction(
    instruction: &CallInstruction,
    context: &mut FunctionContext,
    object: &mut ELFObject,
) -> (r: Result<(), IRError>)
    requires
        old(context).wf(),
    ensures
        r is Err ==> final(object)@ == spec_call_failure(old(context)@, old(object)@, *instruction),
        instruction.parameters@.len() > 6 ==> r is Err && r->Err_0.message@
            == "More than 6 parameters not yet supported (stack parameters not implemented)"@,
        r is Ok ==> old(object)@.text.len() <= final(object)@.text.len(),
        *final(context) == *old(context),
        match r {
            Ok(()) => spec_compile_call(old(context)@, old(object)@, *instruction) == Ok::<
                ObjectView,
                IRErrorKind,
            >(final(object)@),
            Err(e) => spec_compile_call(old(context)@, old(object)@, *instruction) == Err::<
                ObjectView,
                IRErrorKind,
            >(e.kind),
        },
{
    reveal(spec_call_failure);
    reveal(spec_compile_call);
    let function_name = &instruction.function_name.name;
    let parameters = &instruction.parameters;
    let param_registers = [
        Register::RDI,
        Register::RSI,
        Register::RDX,
        Register::RCX,
        Register::R8,
        Register::R9,
    ];
    if parameters.len() > 6 {
        return Err(
            IRError::new(
                IRErrorKind::NotImplemented,
                "More than 6 parameters not yet supported (stack parameters not implemented)",
            ),
        );
    }
    let ghost o0 = object@;
    let mut i: usize = 0;
    while i < parameters.len()
        invariant
            context.wf(),
            *context == *old(context),
            o0 == old(object)@,
            o0.text.len() <= object@.text.len(),
            parameters@.len() <= 6,
            0 <= i <= parameters@.len(),
            parameters@ == instruction.parameters@,
            param_registers@ == seq![
                Register::RDI,
                Register::RSI,
                Register::RDX,
                Register::RCX,
                Register::R8,
                Register::R9,
            ],
            spec_load_params(context@, o0, parameters@, i as nat) == Ok::<ObjectView, IRErrorKind>(
                object@,
            ),
        decreases parameters@.len() - i,
    {
        let target_reg = param_registers[i];
        assert(target_reg == param_register(i as int));
        let ghost before = object@;
        proof {
            lemma_load_params_step(context@, o0, parameters@, i as nat, before);
        }
        match compile_parameter_to_register(&parameters[i], target_reg, context, object) {
            Ok(()) => {},
            Err(e) => {
                proof {
                    reveal(spec_compile_call);
                    reveal(spec_call_failure);
                    lemma_load_params_error(context@, o0, parameters@, (i + 1) as nat, e.kind);
                    lemma_params_failure(context@, o0, parameters@, i as nat, before, (i + 1) as nat);
                }
                return Err(e);
            },
        }
        i = i + 1;
    }
    let call_offset = object.text_len();
    object.emit_bytes(&[CALL_NEAR, 0u8, 0u8, 0u8, 0u8]);
    object.add_relocation(
        Relocation {
            section: SectionType::Text,
            offset: call_offset.wrapping_add(1),
            symbol: function_name.clone(),
            reloc_type: RelocationType::PltPcRel32,
            addend: -4,
        },
    );
    if !object.symbol_table.contains(function_name) {
        object.add_symbol(
            Symbol {
                name: function_name.clone(),
                section: SectionType::Undefined,
                offset: 0,
                size: 0,
                symbol_type: SymbolType::Function,
                binding: SymbolBinding::Global,
            },
        );
    }
    Ok(())
}

/// Loading one more argument after the first `n` loaded.
proof fn lemma_load_params_step(c: ContextView, o: ObjectView, params: Seq<Operand>, n: nat, o1: ObjectView)
    requires
        spec_load_params(c, o, params, n) == Ok::<ObjectView, IRErrorKind>(o1),
    ensures
        spec_load_params(c, o, params, n + 1) == spec_load_value(c, o1, params[n as int], param_register(n as int)),
{
}

/// When argument `n` is the first that fails to load, the object after the first `n`
/// arguments is what loading any longer prefix leaves behind.
proof fn lemma_params_failure(
    c: ContextView,
    o: ObjectView,
    params: Seq<Operand>,
    n: nat,
    o1: ObjectView,
    m: nat,
)
    requires
        n < m <= params.len(),
        spec_load_params(c, o, params, n) == Ok::<ObjectView, IRErrorKind>(o1),
        spec_load_params(c, o, params, n + 1) is Err,
    ensures
        spec_params_failure(c, o, params, params.len()) == o1,
    decreases params.len() - m,
{
    if m < params.len() {
        lemma_params_failure(c, o, params, n, o1, m + 1);
    } else {
        lemma_params_failure_at(c, o, params, n, o1, m);
    }
}

/// The same, for one prefix length `m` past `n`.
proof fn lemma_params_failure_at(
    c: ContextView,
    o: ObjectView,
    params: Seq<Operand>,
    n: nat,
    o1: ObjectView,
    m: nat,
)
    requires
        n < m <= params.len(),
        spec_load_params(c, o, params, n) == Ok::<ObjectView, IRErrorKind>(o1),
        spec_load_params(c, o, params, n + 1) is Err,
    ensures
        spec_params_failure(c, o, params, m) == o1,
        spec_load_params(c, o, params, m) is Err,
    decreases m,
{
    if m > n + 1 {
        lemma_params_failure_at(c, o, params, n, o1, (m - 1) as nat);
    }
}

/// Once loading the first `n` arguments fails, loading all of them fails the same way.
proof fn lemma_load_params_error(
    c: ContextView,
    o: ObjectView,
    params: Seq<Operand>,
    n: nat,
    k: IRErrorKind,
)
    requires
        n <= params.len(),
        spec_load_params(c, o, params, n) == Err::<ObjectView, IRErrorKind>(k),
    ensures
        spec_load_params(c, o, params, params.len()) == Err::<ObjectView, IRErrorKind>(k),
    decreases params.len() - n,
{
    if n < params.len() {
        lemma_load_params_error(c, o, params, n + 1, k);
    }
}

} // verus!
