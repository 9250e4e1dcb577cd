use foolang::ir::compile::linux_amd64::function::{FunctionContext, LabelLocation, VariableLocation};
use foolang::platforms::amd64::register::Register;

#[test]
fn variables_take_callee_saved_registers_then_stack_slots() {
    let mut context = FunctionContext::new();
    let names = ["a", "b", "c", "d", "e", "f", "g"];
    let locations: Vec<VariableLocation> =
        names.iter().map(|n| context.allocate_variable(n.to_string())).collect();
    assert_eq!(
        locations,
        vec![
            VariableLocation::Register(Register::R15),
            VariableLocation::Register(Register::R14),
            VariableLocation::Register(Register::R13),
            VariableLocation::Register(Register::R12),
            VariableLocation::Register(Register::RBX),
            VariableLocation::Stack(-8),
            VariableLocation::Stack(-16),
        ]
    );
    assert_eq!(
        context.used_callee_saved,
        vec![Register::R15, Register::R14, Register::R13, Register::R12, Register::RBX]
    );
    assert_eq!(context.stack_offset, -16);
    for i in 0..locations.len() {
        for j in 0..locations.len() {
            if i != j {
                assert_ne!(locations[i], locations[j]);
            }
        }
    }
}

#[test]
fn allocating_a_variable_again_gives_the_same_location() {
    let mut context = FunctionContext::new();
    let first = context.allocate_variable("x".to_string());
    let again = context.allocate_variable("x".to_string());
    assert_eq!(first, again);
    assert_eq!(context.available_registers.len(), 4);
    assert_eq!(context.get_variable("x"), Some(&VariableLocation::Register(Register::R15)));
    assert_eq!(context.get_variable("y"), None);
}

#[test]
fn frame_keeps_the_stack_aligned() {
    let mut context = FunctionContext::new();
    assert_eq!(context.required_stack_size(), 0);
    context.allocate_variable("a".to_string());
    // one saved register: 8 bytes of padding keep RSP aligned (8 + 8 pushed = 16)
    assert_eq!(context.required_stack_size(), 8);
    context.allocate_variable("b".to_string());
    assert_eq!(context.required_stack_size(), 0);
    context.pending_alloca_size = 12;
    assert_eq!(context.required_stack_size(), 16);
    context.pending_alloca_size = 17;
    assert_eq!(context.required_stack_size(), 32);
    for name in ["c", "d", "e", "f"] {
        context.allocate_variable(name.to_string());
    }
    // one stack slot (8) and 17 bytes of alloca memory round up to 32; five saved registers
    // add 8 bytes of padding
    assert_eq!(context.stack_offset, -8);
    assert_eq!(context.required_stack_size(), 40);
    assert_eq!((8 * context.used_callee_saved.len() + 40) % 16, 0);
}

#[test]
fn labels_move_from_referenced_to_defined() {
    let mut context = FunctionContext::new();
    assert!(context.get_label_location("loop").is_none());
    context.add_label_reference("loop".to_string(), 4);
    context.add_label_reference("loop".to_string(), 20);
    match context.get_label_location("loop") {
        Some(LabelLocation::Undefined(refs)) => assert_eq!(refs, &vec![4, 20]),
        other => panic!("unexpected {:?}", other),
    }
    context.define_label("loop".to_string(), 40);
    match context.get_label_location("loop") {
        Some(LabelLocation::Defined(offset)) => assert_eq!(*offset, 40),
        other => panic!("unexpected {:?}", other),
    }
    // a reference to a defined label leaves it defined
    context.add_label_reference("loop".to_string(), 60);
    assert!(matches!(context.get_label_location("loop"), Some(LabelLocation::Defined(40))));
    assert_eq!(context.labels.len(), 1);
}
