use foolang::ir::ast::common::literal::LiteralValue;
use foolang::ir::ast::common::Operand;
use foolang::ir::ast::global::constant::ConstantDefinition;
use foolang::ir::ast::global::function::FunctionDefinition;
use foolang::ir::ast::global::GlobalStatement;
use foolang::ir::ast::local::assignment::{AssignmentStatement, AssignmentStatementValue};
use foolang::ir::ast::local::instruction::add::AddInstruction;
use foolang::ir::ast::local::instruction::alloca::{
    AllocaInstruction, LoadInstruction, StoreInstruction,
};
use foolang::ir::ast::local::instruction::branch::{BranchInstruction, JumpInstruction};
use foolang::ir::ast::local::instruction::call::CallInstruction;
use foolang::ir::ast::local::instruction::compare::CompareInstruction;
use foolang::ir::ast::local::instruction::div::DivInstruction;
use foolang::ir::ast::local::instruction::mul::MulInstruction;
use foolang::ir::ast::local::instruction::rem::RemInstruction;
use foolang::ir::ast::local::instruction::sub::SubInstruction;
use foolang::ir::ast::local::instruction::return_::ReturnInstruction;
use foolang::ir::ast::local::instruction::InstructionStatement;
use foolang::ir::ast::local::label::LabelDefinition;
use foolang::ir::ast::local::{LocalStatement, LocalStatements};
use foolang::ir::ast::types::IRPrimitiveType;
use foolang::ir::ast::CodeUnit;
use foolang::ir::compile::linux_amd64::compile;
use foolang::ir::error::IRErrorKind;
use foolang::platforms::linux::elf::relocation::RelocationType;
use foolang::platforms::linux::elf::section::SectionType;
use foolang::platforms::linux::elf::symbol::{SymbolBinding, SymbolType};

fn function(name: &str, statements: Vec<LocalStatement>) -> GlobalStatement {
    GlobalStatement::DefineFunction(FunctionDefinition {
        function_name: name.to_string(),
        return_type: "void".to_string(),
        arguments: vec![],
        function_body: LocalStatements { statements },
    })
}

fn constant(name: &str, value: LiteralValue) -> GlobalStatement {
    GlobalStatement::Constant(ConstantDefinition { constant_name: name.into(), value })
}

fn unit(statements: Vec<GlobalStatement>) -> CodeUnit {
    CodeUnit { filename: "example.foolang".to_string(), statements }
}

fn call(name: &str, parameters: Vec<Operand>) -> LocalStatement {
    LocalStatement::Instruction(InstructionStatement::Call(CallInstruction {
        function_name: name.into(),
        parameters,
    }))
}

fn label(name: &str) -> LocalStatement {
    LocalStatement::Label(LabelDefinition { name: name.into() })
}

fn assign(name: &str, instruction: InstructionStatement) -> LocalStatement {
    AssignmentStatement {
        name: name.into(),
        value: AssignmentStatementValue::Instruction(instruction),
    }
    .into()
}

fn puts_string(text: &str) -> LocalStatement {
    call("puts", vec![Operand::Literal(LiteralValue::String(text.to_string()))])
}

fn error_kind(code_unit: CodeUnit) -> IRErrorKind {
    match compile(code_unit) {
        Ok(_) => panic!("compilation was expected to fail"),
        Err(e) => e.kind,
    }
}

#[test]
fn hello_world_object_layout() {
    let object = compile(unit(vec![function("main", vec![puts_string("Hello, world!")])]))
        .expect("compiles");
    assert_eq!(
        object.text_section.data,
        vec![
            0x55, 0x48, 0x89, 0xE5, // push rbp; mov rbp, rsp
            0x48, 0x8D, 0x3D, 0, 0, 0, 0, // lea rdi, [rip + __str_const_0]
            0xE8, 0, 0, 0, 0, // call puts
            0x31, 0xC0, 0x5D, 0xC3, // xor eax, eax; pop rbp; ret
        ]
    );
    assert_eq!(object.rodata_section.data, b"Hello, world!\0".to_vec());
    assert_eq!(object.entry_point, Some("main".to_string()));
    assert_eq!(object.defined_functions, vec!["main".to_string()]);
    let symbols = &object.symbol_table.symbols;
    assert_eq!(symbols.len(), 3);
    assert_eq!(symbols[0].name, "__str_const_0");
    assert_eq!(symbols[0].section, SectionType::RoData);
    assert_eq!((symbols[0].offset, symbols[0].size), (0, 14));
    assert_eq!(symbols[0].binding, SymbolBinding::Local);
    assert_eq!(symbols[1].name, "puts");
    assert_eq!(symbols[1].section, SectionType::Undefined);
    assert_eq!(symbols[1].symbol_type, SymbolType::Function);
    assert_eq!(symbols[2].name, "main");
    assert_eq!(symbols[2].section, SectionType::Text);
    assert_eq!((symbols[2].offset, symbols[2].size), (0, 20));
    assert_eq!(symbols[2].binding, SymbolBinding::Global);
    let relocations = &object.relocations;
    assert_eq!(relocations.len(), 2);
    assert_eq!(relocations[0].symbol, "__str_const_0");
    assert_eq!(relocations[0].offset, 7);
    assert_eq!(relocations[0].reloc_type, RelocationType::PcRel32);
    assert_eq!(relocations[0].addend, -4);
    assert_eq!(relocations[1].symbol, "puts");
    assert_eq!(relocations[1].offset, 12);
    assert_eq!(relocations[1].reloc_type, RelocationType::PltPcRel32);
}

#[test]
fn forward_jump_is_patched_to_its_label() {
    let object = compile(unit(vec![
        constant("FAILED_TEXT", LiteralValue::String("FAILED!".to_string())),
        constant("SUCCEEDED_TEXT", LiteralValue::String("SUCCEEDED!".to_string())),
        function(
            "main",
            vec![
                LocalStatement::Instruction(JumpInstruction { label: "jump_point".into() }.into()),
                call("puts", vec![Operand::Identifier("FAILED_TEXT".into())]),
                label("jump_point"),
                call("puts", vec![Operand::Identifier("SUCCEEDED_TEXT".into())]),
            ],
        ),
    ]))
    .expect("compiles");
    let text = &object.text_section.data;
    assert_eq!(text.len(), 37);
    assert_eq!(text[4], 0xE9);
    // The jump ends at 9 and the label stands at 21.
    assert_eq!(&text[5..9], &12i32.to_le_bytes());
    assert_eq!(&text[9..12], &[0x48, 0x8D, 0x3D]);
    assert_eq!(object.rodata_section.data, b"FAILED!\0SUCCEEDED!\0".to_vec());
    let names: Vec<&str> = object.symbol_table.symbols.iter().map(|s| s.name.as_str()).collect();
    assert_eq!(names, vec!["FAILED_TEXT", "SUCCEEDED_TEXT", "puts", "main"]);
    let offsets: Vec<usize> = object.relocations.iter().map(|r| r.offset).collect();
    assert_eq!(offsets, vec![12, 17, 24, 29]);
}

#[test]
fn backward_jump_reaches_its_label() {
    let object = compile(unit(vec![function(
        "main",
        vec![
            label("top"),
            LocalStatement::Instruction(JumpInstruction { label: "top".into() }.into()),
        ],
    )]))
    .expect("compiles");
    let text = &object.text_section.data;
    // Label at 4; the jump's displacement field ends at 9.
    assert_eq!(text[4], 0xE9);
    assert_eq!(&text[5..9], &(-5i32).to_le_bytes());
}

#[test]
fn function_call_result_is_stored_and_passed() {
    let object = compile(unit(vec![
        constant("HELLOWORLD_TEXT", LiteralValue::String("Hello, world!".to_string())),
        function(
            "get_text",
            vec![InstructionStatement::Return(ReturnInstruction {
                return_value: Some(Operand::Identifier("HELLOWORLD_TEXT".into())),
            })
            .into()],
        ),
        function(
            "main",
            vec![
                assign(
                    "text",
                    InstructionStatement::Call(CallInstruction {
                        function_name: "get_text".into(),
                        parameters: vec![],
                    }),
                ),
                call("puts", vec![Operand::Identifier("text".into())]),
            ],
        ),
    ]))
    .expect("compiles");
    assert_eq!(object.defined_functions, vec!["get_text".to_string(), "main".to_string()]);
    let get_text = object.symbol_table.find_symbol("get_text").expect("symbol");
    // get_text: prologue, lea rax, [rip + HELLOWORLD_TEXT], epilogue.
    assert_eq!((get_text.offset, get_text.size), (0, 13));
    assert_eq!(
        &object.text_section.data[0..13],
        &[0x55, 0x48, 0x89, 0xE5, 0x48, 0x8D, 0x05, 0, 0, 0, 0, 0x5D, 0xC3]
    );
    let main = object.symbol_table.find_symbol("main").expect("symbol");
    let code = &object.text_section.data[main.offset..main.offset + main.size];
    // `text` lives in R15, saved by the prologue; one saved register means 8 bytes of padding.
    assert_eq!(&code[0..6], &[0x55, 0x48, 0x89, 0xE5, 0x41, 0x57]);
    assert_eq!(&code[6..13], &[0x48, 0x81, 0xEC, 0x08, 0, 0, 0]);
    assert_eq!(&code[13..18], &[0xE8, 0, 0, 0, 0]);
    assert_eq!(&code[18..21], &[0x4C, 0x8B, 0xF8]);
    assert_eq!(&code[21..24], &[0x49, 0x8B, 0xFF]);
    assert_eq!(
        &code[code.len() - 13..],
        &[0x31, 0xC0, 0x48, 0x81, 0xC4, 0x08, 0, 0, 0, 0x41, 0x5F, 0x5D, 0xC3]
    );
    // get_text is defined: no undefined symbol is added for it.
    let undefined: Vec<&str> = object
        .symbol_table
        .symbols
        .iter()
        .filter(|s| s.section == SectionType::Undefined)
        .map(|s| s.name.as_str())
        .collect();
    assert_eq!(undefined, vec!["puts"]);
}

#[test]
fn add_of_literals_returns_the_sum_register() {
    let object = compile(unit(vec![function(
        "main",
        vec![
            assign(
                "result",
                InstructionStatement::Add(AddInstruction {
                    left: Operand::Literal(LiteralValue::Int64(10)),
                    right: Operand::Literal(LiteralValue::Int64(20)),
                }),
            ),
            InstructionStatement::Return(ReturnInstruction {
                return_value: Some(Operand::Identifier("result".into())),
            })
            .into(),
        ],
    )]))
    .expect("compiles");
    let mut expected = vec![0x55, 0x48, 0x89, 0xE5, 0x41, 0x57, 0x48, 0x81, 0xEC, 0x08, 0, 0, 0];
    expected.extend_from_slice(&[0x48, 0xB8]);
    expected.extend_from_slice(&10i64.to_le_bytes());
    expected.extend_from_slice(&[0x48, 0xB9]);
    expected.extend_from_slice(&20i64.to_le_bytes());
    expected.extend_from_slice(&[0x48, 0x01, 0xC8]);
    expected.extend_from_slice(&[0x4C, 0x8B, 0xF8]);
    expected.extend_from_slice(&[0x49, 0x8B, 0xC7]);
    expected.extend_from_slice(&[0x48, 0x81, 0xC4, 0x08, 0, 0, 0, 0x41, 0x5F, 0x5D, 0xC3]);
    assert_eq!(object.text_section.data, expected);
}

#[test]
fn compare_and_branch_use_jnz_then_jmp() {
    let object = compile(unit(vec![function(
        "main",
        vec![
            assign(
                "result",
                InstructionStatement::Compare(CompareInstruction {
                    left: Operand::Literal(LiteralValue::Int64(10)),
                    right: Operand::Literal(LiteralValue::Int64(20)),
                }),
            ),
            LocalStatement::Instruction(InstructionStatement::Branch(BranchInstruction {
                condition: "result".into(),
                true_label: "equal_label".into(),
                false_label: "not_equal_label".into(),
            })),
            label("equal_label"),
            InstructionStatement::Return(ReturnInstruction { return_value: None }).into(),
            label("not_equal_label"),
        ],
    )]))
    .expect("compiles");
    let text = &object.text_section.data;
    let compare_at = 13 + 10 + 10;
    assert_eq!(
        &text[compare_at..compare_at + 10],
        &[0x48, 0x39, 0xC8, 0x0F, 0x94, 0xC0, 0x48, 0x0F, 0xB6, 0xC0]
    );
    let branch_at = compare_at + 10 + 3;
    // mov rax, r15; test rax, rax; jnz equal_label; jmp not_equal_label
    assert_eq!(&text[branch_at..branch_at + 6], &[0x49, 0x8B, 0xC7, 0x48, 0x85, 0xC0]);
    assert_eq!(&text[branch_at + 6..branch_at + 8], &[0x0F, 0x85]);
    assert_eq!(text[branch_at + 12], 0xE9);
    let equal_label = branch_at + 17;
    let jnz_end = (branch_at + 12) as i32;
    assert_eq!(&text[branch_at + 8..branch_at + 12], &(equal_label as i32 - jnz_end).to_le_bytes());
    // The return (an epilogue of 11 bytes) stands between the two labels.
    let not_equal_label = equal_label + 11;
    let jmp_end = (branch_at + 17) as i32;
    assert_eq!(
        &text[branch_at + 13..branch_at + 17],
        &(not_equal_label as i32 - jmp_end).to_le_bytes()
    );
}

#[test]
fn alloca_store_and_load_through_a_pointer() {
    let object = compile(unit(vec![function(
        "main",
        vec![
            assign("ptr", InstructionStatement::Alloca(AllocaInstruction { type_: IRPrimitiveType::Int64 })),
            LocalStatement::Instruction(InstructionStatement::Store(StoreInstruction {
                ptr: "ptr".into(),
                value: Operand::Literal(LiteralValue::Int64(42)),
            })),
            assign("value", InstructionStatement::Load(LoadInstruction { ptr: "ptr".into() })),
        ],
    )]))
    .expect("compiles");
    let text = &object.text_section.data;
    // ptr in R15, value in R14: two saved registers, 8 bytes of alloca memory -> frame of 16.
    assert_eq!(&text[4..8], &[0x41, 0x57, 0x41, 0x56]);
    assert_eq!(&text[8..15], &[0x48, 0x81, 0xEC, 0x10, 0, 0, 0]);
    // lea rax, [rbp - 8]; mov r15, rax
    assert_eq!(&text[15..19], &[0x48, 0x8D, 0x45, 0xF8]);
    assert_eq!(&text[19..22], &[0x4C, 0x8B, 0xF8]);
    // mov rax, 42; mov [r15], rax
    assert_eq!(&text[22..24], &[0x48, 0xB8]);
    assert_eq!(&text[24..32], &42i64.to_le_bytes());
    assert_eq!(&text[32..35], &[0x49, 0x89, 0x07]);
    // mov rax, [r15]; mov r14, rax
    assert_eq!(&text[35..38], &[0x49, 0x8B, 0x07]);
    assert_eq!(&text[38..41], &[0x4C, 0x8B, 0xF0]);
}

#[test]
fn constants_are_placed_in_their_sections() {
    let object = compile(unit(vec![
        constant("ANSWER", LiteralValue::Int64(42)),
        constant("SMALL", LiteralValue::Int8(-2)),
        constant("FLAG", LiteralValue::Boolean(true)),
        constant("HALF", LiteralValue::Float64(0.5f64.to_bits())),
        constant("WORD", LiteralValue::Int16(0x1234)),
        constant("NAME", LiteralValue::String("foo".to_string())),
    ]))
    .expect("compiles");
    let mut data = 42i64.to_le_bytes().to_vec();
    data.push(0xFE);
    data.push(1);
    data.extend_from_slice(&0.5f64.to_le_bytes());
    data.extend_from_slice(&[0x34, 0x12]);
    assert_eq!(object.data_section.data, data);
    assert_eq!(object.rodata_section.data, b"foo\0".to_vec());
    let layout: Vec<(usize, usize)> =
        object.symbol_table.symbols.iter().map(|s| (s.offset, s.size)).collect();
    assert_eq!(layout, vec![(0, 8), (8, 1), (9, 1), (10, 8), (18, 2), (0, 4)]);
    assert_eq!(object.symbol_table.symbols[5].section, SectionType::RoData);
    assert_eq!(object.entry_point, None);
    assert!(object.text_section.data.is_empty());
}

#[test]
fn duplicate_label_is_refused() {
    let kind = error_kind(unit(vec![function(
        "main",
        vec![label("start"), label("start"), puts_string("Hello, world!")],
    )]));
    assert_eq!(kind, IRErrorKind::LabelAlreadyDefined);
}

#[test]
fn jump_to_a_missing_label_is_refused() {
    let kind = error_kind(unit(vec![function(
        "main",
        vec![
            LocalStatement::Instruction(JumpInstruction { label: "undefined_label".into() }.into()),
            label("start"),
            puts_string("Hello, world!"),
        ],
    )]));
    assert_eq!(kind, IRErrorKind::LabelNotFound);
}

#[test]
fn branch_on_a_missing_variable_is_refused() {
    let kind = error_kind(unit(vec![
        constant("FLAG", LiteralValue::Int64(1)),
        function(
            "main",
            vec![
                LocalStatement::Instruction(
                    BranchInstruction {
                        condition: "UNDEFINED_VAR".into(),
                        true_label: "true_point".into(),
                        false_label: "false_point".into(),
                    }
                    .into(),
                ),
                label("true_point"),
                label("false_point"),
            ],
        ),
    ]));
    assert_eq!(kind, IRErrorKind::VariableNotFound);
}

#[test]
fn value_instruction_without_assignment_is_refused() {
    let kind = error_kind(unit(vec![function(
        "main",
        vec![LocalStatement::Instruction(InstructionStatement::Add(AddInstruction {
            left: Operand::Literal(LiteralValue::Int64(1)),
            right: Operand::Literal(LiteralValue::Int64(2)),
        }))],
    )]));
    assert_eq!(kind, IRErrorKind::AssignmentRequired);
}

#[test]
fn literal_assignment_and_float_arguments_are_not_implemented() {
    let literal = AssignmentStatement {
        name: "x".into(),
        value: AssignmentStatementValue::Literal(LiteralValue::Int64(1)),
    };
    assert_eq!(error_kind(unit(vec![function("main", vec![literal.into()])])), IRErrorKind::NotImplemented);
    let float_argument = call("show", vec![Operand::Literal(LiteralValue::Float64(1.5f64.to_bits()))]);
    assert_eq!(error_kind(unit(vec![function("main", vec![float_argument])])), IRErrorKind::NotImplemented);
    let seven = (0..7).map(|i| Operand::Literal(LiteralValue::Int64(i))).collect();
    assert_eq!(error_kind(unit(vec![function("main", vec![call("many", seven)])])), IRErrorKind::NotImplemented);
}

#[test]
fn mixing_integer_and_float_operands_is_a_type_error() {
    let statement = assign(
        "x",
        InstructionStatement::Compare(CompareInstruction {
            left: Operand::Literal(LiteralValue::Int64(1)),
            right: Operand::Literal(LiteralValue::Float64(2.0f64.to_bits())),
        }),
    );
    assert_eq!(error_kind(unit(vec![function("main", vec![statement])])), IRErrorKind::TypeError);
}

fn binary_body(instruction: InstructionStatement) -> Vec<u8> {
    let object = compile(unit(vec![function(
        "main",
        vec![
            assign("r", instruction),
            InstructionStatement::Return(ReturnInstruction { return_value: None }).into(),
        ],
    )]))
    .expect("compiles");
    // prologue (13 bytes), the two 10-byte loads ... the 3-byte store and the epilogue (11 bytes)
    let text = object.text_section.data;
    text[13..text.len() - 14].to_vec()
}

fn literal(v: i64) -> Operand {
    Operand::Literal(LiteralValue::Int64(v))
}

#[test]
fn arithmetic_instructions_encode_their_operation() {
    let mut load_both = vec![0x48, 0xB8];
    load_both.extend_from_slice(&7i64.to_le_bytes());
    load_both.extend_from_slice(&[0x48, 0xB9]);
    load_both.extend_from_slice(&3i64.to_le_bytes());

    let sub = binary_body(InstructionStatement::Sub(SubInstruction { left: literal(7), right: literal(3) }));
    let mut expected = load_both.clone();
    expected.extend_from_slice(&[0x48, 0x29, 0xC8]);
    assert_eq!(sub, expected);

    let mul = binary_body(InstructionStatement::Mul(MulInstruction { left: literal(7), right: literal(3) }));
    let mut expected = load_both.clone();
    expected.extend_from_slice(&[0x48, 0x0F, 0xAF, 0xC1]);
    assert_eq!(mul, expected);

    let mut with_cqo = vec![0x48, 0xB8];
    with_cqo.extend_from_slice(&7i64.to_le_bytes());
    with_cqo.extend_from_slice(&[0x48, 0x99, 0x48, 0xB9]);
    with_cqo.extend_from_slice(&3i64.to_le_bytes());

    let div = binary_body(InstructionStatement::Div(DivInstruction { left: literal(7), right: literal(3) }));
    let mut expected = with_cqo.clone();
    expected.extend_from_slice(&[0x48, 0xF7, 0xF9]);
    assert_eq!(div, expected);

    let rem = binary_body(InstructionStatement::Rem(RemInstruction { left: literal(7), right: literal(3) }));
    let mut expected = with_cqo;
    expected.extend_from_slice(&[0x48, 0xF7, 0xF9, 0x48, 0x8B, 0xC2]);
    assert_eq!(rem, expected);
}

#[test]
fn returned_boolean_loads_like_the_integer_one() {
    let returning = |value: LiteralValue| {
        compile(unit(vec![function(
            "f",
            vec![InstructionStatement::Return(ReturnInstruction {
                return_value: Some(Operand::Literal(value)),
            })
            .into()],
        )]))
        .expect("compiles")
        .text_section
        .data
    };
    assert_eq!(returning(LiteralValue::Boolean(true)), returning(LiteralValue::Int64(1)));
    assert_eq!(returning(LiteralValue::Boolean(false)), returning(LiteralValue::Int64(0)));
}
