use foolang::ir::ast::common::literal::LiteralValue;
use foolang::ir::ast::common::{Identifier, Operand};
use foolang::ir::ast::local::instruction::add::AddInstruction;
use foolang::ir::ast::types::{IRPrimitiveType, IRType};
use foolang::ir::compile::linux_amd64::add::compile_add_instruction;
use foolang::ir::compile::linux_amd64::common::{
    load_identifier_to_register, load_literal_to_register, validate_operand_types,
};
use foolang::ir::compile::linux_amd64::function::FunctionContext;
use foolang::ir::error::IRErrorKind;
use foolang::platforms::amd64::register::Register;
use foolang::platforms::linux::elf::object::ELFObject;

fn typed(name: &str, t: IRPrimitiveType) -> Operand {
    Operand::Identifier(Identifier { name: name.to_string(), type_: IRType::Primitive(t) })
}

#[test]
fn unsupported_literal_message_shows_the_literal() {
    let mut object = ELFObject::new();
    let error = load_literal_to_register(&LiteralValue::Boolean(true), Register::RAX, &mut object)
        .expect_err("booleans cannot be loaded as integers");
    assert_eq!(error.kind, IRErrorKind::TypeError);
    assert_eq!(error.message, "Unsupported literal type for register load: Boolean(true)");
}

#[test]
fn unsupported_operand_type_message_shows_the_type() {
    let context = FunctionContext::new();
    let error = validate_operand_types(
        &typed("flag", IRPrimitiveType::Bool),
        &Operand::Literal(LiteralValue::Int64(1)),
        &context,
        "SUB",
    )
    .expect_err("booleans are no arithmetic operands");
    assert_eq!(error.kind, IRErrorKind::TypeError);
    assert_eq!(error.message, "Unsupported type for arithmetic instruction: Bool");
    let error = validate_operand_types(
        &typed("x", IRPrimitiveType::Float64),
        &typed("y", IRPrimitiveType::Int32),
        &context,
        "MUL",
    )
    .expect_err("mixed operands");
    assert_eq!(
        error.message,
        "Type mismatch in MUL instruction: cannot mix integer and floating-point operands"
    );
}

#[test]
fn add_size_mismatch_message_shows_both_sizes() {
    let mut context = FunctionContext::new();
    let mut object = ELFObject::new();
    let error = compile_add_instruction(
        &AddInstruction {
            left: Operand::Literal(LiteralValue::Int8(1)),
            right: Operand::Literal(LiteralValue::Int64(2)),
        },
        &mut context,
        &mut object,
    )
    .expect_err("sizes differ");
    assert_eq!(error.kind, IRErrorKind::TypeError);
    assert_eq!(error.message, "Operand type mismatch in ADD instruction: Int8 vs Int64");
    let error = compile_add_instruction(
        &AddInstruction { left: typed("p", IRPrimitiveType::Void), right: typed("q", IRPrimitiveType::Int8) },
        &mut context,
        &mut object,
    )
    .expect_err("void operand");
    assert_eq!(error.message, "Unsupported type for ADD instruction: Void");
}

#[test]
fn float_addition_places_the_constant_then_reports_not_implemented() {
    let mut context = FunctionContext::new();
    let mut object = ELFObject::new();
    let error = compile_add_instruction(
        &AddInstruction {
            left: Operand::Literal(LiteralValue::Float64(1.5f64.to_bits())),
            right: Operand::Literal(LiteralValue::Float64(2.5f64.to_bits())),
        },
        &mut context,
        &mut object,
    )
    .expect_err("float addition");
    assert_eq!(error.kind, IRErrorKind::NotImplemented);
    let names: Vec<&str> = object.symbol_table.symbols.iter().map(|s| s.name.as_str()).collect();
    assert_eq!(names, vec!["__float64_const_0", "__float64_const_8"]);
    assert_eq!(&object.rodata_section.data[0..8], &1.5f64.to_le_bytes());
    assert_eq!(&object.text_section.data[0..3], &[0x48, 0x8D, 0x05]);
    assert_eq!(object.relocations[1].offset, 10);
}

#[test]
fn global_variable_is_loaded_rip_relative() {
    let context = FunctionContext::new();
    let mut object = ELFObject::new();
    let error = load_identifier_to_register("missing", Register::R9, &context, &mut object)
        .expect_err("no such variable");
    assert_eq!(error.kind, IRErrorKind::VariableNotFound);
    assert_eq!(error.message, "Variable 'missing' not found (neither local nor global)");
}
