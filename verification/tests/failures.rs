use foolang::ir::ast::common::literal::LiteralValue;
use foolang::ir::ast::common::Operand;
use foolang::ir::ast::local::instruction::alloca::StoreInstruction;
use foolang::ir::ast::local::instruction::call::CallInstruction;
use foolang::ir::ast::local::label::LabelDefinition;
use foolang::ir::compile::linux_amd64::alloca::compile_store_instruction;
use foolang::ir::compile::linux_amd64::branch::compile_label_definition;
use foolang::ir::compile::linux_amd64::call::compile_call_instruction;
use foolang::ir::compile::linux_amd64::function::{FunctionContext, LabelLocation};
use foolang::ir::error::IRErrorKind;
use foolang::platforms::linux::elf::object::ELFObject;

#[test]
fn redefined_label_leaves_everything_as_it_was() {
    let mut context = FunctionContext::new();
    let mut object = ELFObject::new();
    let start = LabelDefinition { name: "start".into() };
    compile_label_definition(&start, &mut context, &mut object).expect("first definition");
    object.emit(0x90);
    let error = compile_label_definition(&start, &mut context, &mut object).expect_err("twice");
    assert_eq!(error.kind, IRErrorKind::LabelAlreadyDefined);
    assert!(matches!(context.get_label_location("start"), Some(LabelLocation::Defined(0))));
    assert_eq!(object.text_section.data, vec![0x90]);
}

#[test]
fn store_through_an_unknown_pointer_keeps_only_the_value_load() {
    let mut context = FunctionContext::new();
    let mut object = ELFObject::new();
    let error = compile_store_instruction(
        &StoreInstruction { ptr: "nowhere".into(), value: Operand::Literal(LiteralValue::Int64(5)) },
        &mut context,
        &mut object,
    )
    .expect_err("unknown pointer");
    assert_eq!(error.kind, IRErrorKind::VariableNotFound);
    let mut expected = vec![0x48, 0xB8];
    expected.extend_from_slice(&5i64.to_le_bytes());
    assert_eq!(object.text_section.data, expected);
}

#[test]
fn call_with_too_many_arguments_writes_nothing() {
    let mut context = FunctionContext::new();
    let mut object = ELFObject::new();
    let parameters = (0..7).map(|i| Operand::Literal(LiteralValue::Int64(i))).collect();
    let error = compile_call_instruction(
        &CallInstruction { function_name: "f".into(), parameters },
        &mut context,
        &mut object,
    )
    .expect_err("seven arguments");
    assert_eq!(error.kind, IRErrorKind::NotImplemented);
    assert!(object.text_section.data.is_empty());
    assert!(object.symbol_table.symbols.is_empty());
    // the first argument loads, the float one fails and the call is not emitted
    let parameters = vec![
        Operand::Literal(LiteralValue::Int64(1)),
        Operand::Literal(LiteralValue::Float64(1.0f64.to_bits())),
    ];
    compile_call_instruction(&CallInstruction { function_name: "g".into(), parameters }, &mut context, &mut object)
        .expect_err("float argument");
    assert_eq!(object.text_section.data.len(), 10);
    assert!(object.relocations.is_empty());
}
