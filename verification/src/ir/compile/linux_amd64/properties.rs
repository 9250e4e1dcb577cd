//! Properties that span the compilation of whole functions and code units.
use vstd::prelude::*;

use crate::ir::ast::common::Operand;
use crate::ir::ast::global::function::FunctionDefinition;
use crate::ir::ast::global::GlobalStatement;
use crate::ir::ast::local::instruction::add::AddInstruction;
use crate::ir::ast::local::instruction::alloca::{LoadInstruction, StoreInstruction};
use crate::ir::ast::local::instruction::branch::BranchInstruction;
use crate::ir::ast::local::instruction::call::CallInstruction;
use crate::ir::ast::local::instruction::return_::ReturnInstruction;
use crate::ir::ast::local::assignment::AssignmentStatementValue;
use crate::ir::ast::local::instruction::InstructionStatement;
use crate::ir::ast::local::LocalStatement;
use crate::ir::ast::CodeUnit;
use crate::ir::compile::linux_amd64::add::spec_compile_add;
use crate::ir::compile::linux_amd64::alloca::{spec_compile_load, spec_compile_store};
use crate::ir::compile::linux_amd64::branch::{
    spec_compile_branch, spec_compile_label_definition, spec_jump_to_label,
};
use crate::ir::compile::linux_amd64::call::{
    param_register, spec_compile_call, spec_load_params, spec_load_value,
};
use crate::ir::compile::linux_amd64::common::{spec_binary_operation, spec_load_operand};
use crate::ir::compile::linux_amd64::function::{
    initial_context, spec_allocate, spec_compile_function, spec_prescan, spec_prescan_statement,
    spec_prologue, spec_required_stack_size, ContextView,
};
use crate::ir::compile::linux_amd64::return_::spec_compile_return;
use crate::ir::compile::linux_amd64::statements::{
    spec_compile_statement, spec_compile_statements,
};
use crate::ir::compile::linux_amd64::{
    defined_function_names, defines_main, initial_object, spec_compile, spec_compile_globals,
};
use crate::platforms::amd64::register::Register;
use crate::platforms::linux::elf::object::ObjectView;

verus! {

/// Compiling leaves the entry point and the list of defined functions as they were.
pub open spec fn keeps_metadata(a: ObjectView, b: ObjectView) -> bool {
    b.entry_point == a.entry_point && b.defined_functions == a.defined_functions
}

/// The frame is unchanged: the same reserved size, the same saved registers, and every
/// variable keeps its location.
pub open spec fn keeps_frame(a: ContextView, b: ContextView) -> bool {
    &&& b.allocated_stack_size == a.allocated_stack_size
    &&& b.used_callee_saved == a.used_callee_saved
    &&& forall|k: Seq<char>|
        #[trigger] a.variables.contains_key(k) ==> b.variables.contains_key(k) && b.variables[k]
            == a.variables[k]
}

/// Every assignment among the first `n` statements names a variable that already has a
/// location.
pub open spec fn assignments_allocated(c: ContextView, statements: Seq<LocalStatement>, n: nat) -> bool {
    forall|i: int|
        0 <= i < n && #[trigger] statements[i] is Assignment ==> c.variables.contains_key(
            statements[i]->Assignment_0.name.name@,
        )
}

proof fn lemma_binary_metadata(
    c: ContextView,
    o: ObjectView,
    left: Operand,
    right: Operand,
    between: Seq<u8>,
    op: Seq<u8>,
)
    ensures
        spec_binary_operation(c, o, left, right, between, op) is Ok ==> keeps_metadata(
            o,
            spec_binary_operation(c, o, left, right, between, op)->Ok_0,
        ),
{
    reveal(spec_binary_operation);
}

proof fn lemma_add_metadata(c: ContextView, o: ObjectView, i: AddInstruction)
    ensures
        spec_compile_add(c, o, i) is Ok ==> keeps_metadata(o, spec_compile_add(c, o, i)->Ok_0),
{
    reveal(spec_compile_add);
}

proof fn lemma_load_metadata(c: ContextView, o: ObjectView, load: LoadInstruction)
    ensures
        spec_compile_load(c, o, load) is Ok ==> keeps_metadata(o, spec_compile_load(c, o, load)->Ok_0),
{
    reveal(spec_compile_load);
}

proof fn lemma_store_metadata(c: ContextView, o: ObjectView, store: StoreInstruction)
    ensures
        spec_compile_store(c, o, store) is Ok ==> keeps_metadata(
            o,
            spec_compile_store(c, o, store)->Ok_0,
        ),
{
    reveal(spec_compile_store);
}

proof fn lemma_value_metadata(c: ContextView, o: ObjectView, operand: Operand, reg: Register)
    ensures
        spec_load_value(c, o, operand, reg) is Ok ==> keeps_metadata(
            o,
            spec_load_value(c, o, operand, reg)->Ok_0,
        ),
{
    reveal(spec_load_value);
}

proof fn lemma_params_metadata(c: ContextView, o: ObjectView, params: Seq<Operand>, n: nat)
    ensures
        spec_load_params(c, o, params, n) is Ok ==> keeps_metadata(
            o,
            spec_load_params(c, o, params, n)->Ok_0,
        ),
    decreases n,
{
    if n > 0 {
        lemma_params_metadata(c, o, params, (n - 1) as nat);
        if spec_load_params(c, o, params, (n - 1) as nat) is Ok {
            let o1 = spec_load_params(c, o, params, (n - 1) as nat)->Ok_0;
            lemma_value_metadata(
                c,
                o1,
                params[n - 1],
                param_register(n - 1),
            );
        }
    }
}

proof fn lemma_call_metadata(c: ContextView, o: ObjectView, call: CallInstruction)
    ensures
        spec_compile_call(c, o, call) is Ok ==> keeps_metadata(o, spec_compile_call(c, o, call)->Ok_0),
{
    reveal(spec_compile_call);
    lemma_params_metadata(c, o, call.parameters@, call.parameters@.len());
}

proof fn lemma_return_metadata(c: ContextView, o: ObjectView, ret: ReturnInstruction)
    ensures
        spec_compile_return(c, o, ret) is Ok ==> keeps_metadata(
            o,
            spec_compile_return(c, o, ret)->Ok_0,
        ),
{
    reveal(spec_compile_return);
    if ret.return_value is Some {
        lemma_value_metadata(c, o, ret.return_value->Some_0, Register::RAX);
    }
}

proof fn lemma_jump_to_label_frame(c: ContextView, o: ObjectView, opcode: Seq<u8>, name: Seq<char>)
    ensures
        keeps_metadata(o, spec_jump_to_label(c, o, opcode, name).1),
        keeps_frame(c, spec_jump_to_label(c, o, opcode, name).0),
{
    reveal(spec_jump_to_label);
}

proof fn lemma_branch_frame(c: ContextView, o: ObjectView, branch: BranchInstruction)
    ensures
        spec_compile_branch(c, o, branch) is Ok ==> keeps_metadata(
            o,
            spec_compile_branch(c, o, branch)->Ok_0.1,
        ) && keeps_frame(c, spec_compile_branch(c, o, branch)->Ok_0.0),
{
    reveal(spec_compile_branch);
    if spec_compile_branch(c, o, branch) is Ok {
        let o1 = spec_load_operand(c, o, branch.condition, Register::RAX)->Ok_0;
        let o2 = o1.emit(seq![0x48u8, 0x85u8, 0xC0u8]);
        lemma_jump_to_label_frame(c, o2, seq![0x0Fu8, 0x85u8], branch.true_label.name@);
        let (c3, o3) = spec_jump_to_label(c, o2, seq![0x0Fu8, 0x85u8], branch.true_label.name@);
        lemma_jump_to_label_frame(c3, o3, seq![0xE9u8], branch.false_label.name@);
    }
}

proof fn lemma_label_frame(c: ContextView, o: ObjectView, name: Seq<char>)
    ensures
        spec_compile_label_definition(c, o, name) is Ok ==> keeps_metadata(
            o,
            spec_compile_label_definition(c, o, name)->Ok_0.1,
        ) && keeps_frame(c, spec_compile_label_definition(c, o, name)->Ok_0.0),
{
    reveal(spec_compile_label_definition);
}

/// One statement keeps the metadata of the object and, when an assignment's variable
/// already has a location, the frame.
proof fn lemma_statement_frame(c: ContextView, o: ObjectView, statement: LocalStatement)
    requires
        statement is Assignment ==> c.variables.contains_key(statement->Assignment_0.name.name@),
    ensures
        spec_compile_statement(c, o, statement) is Ok ==> keeps_metadata(
            o,
            spec_compile_statement(c, o, statement)->Ok_0.1,
        ) && keeps_frame(c, spec_compile_statement(c, o, statement)->Ok_0.0),
{
    match statement {
        LocalStatement::Instruction(i) => {
            match i {
                InstructionStatement::Call(x) => lemma_call_metadata(c, o, x),
                InstructionStatement::Return(x) => lemma_return_metadata(c, o, x),
                InstructionStatement::Branch(x) => lemma_branch_frame(c, o, x),
                InstructionStatement::Jump(x) => {
                    lemma_jump_to_label_frame(c, o, seq![0xE9u8], x.label.name@);
                },
                InstructionStatement::Store(x) => lemma_store_metadata(c, o, x),
                _ => {},
            }
        },
        LocalStatement::Assignment(a) => {
            match a.value {
                AssignmentStatementValue::Instruction(i) => {
                    match i {
                        InstructionStatement::Add(x) => {
                            lemma_add_metadata(c, o, x);
                        },
                        InstructionStatement::Sub(x) => {
                            lemma_binary_metadata(c, o, x.left, x.right, Seq::empty(), seq![0x48u8, 0x29u8, 0xC8u8]);
                        },
                        InstructionStatement::Mul(x) => {
                            lemma_binary_metadata(c, o, x.left, x.right, Seq::empty(), seq![0x48u8, 0x0Fu8, 0xAFu8, 0xC1u8]);
                        },
                        InstructionStatement::Div(x) => {
                            lemma_binary_metadata(c, o, x.left, x.right, seq![0x48u8, 0x99u8], seq![0x48u8, 0xF7u8, 0xF9u8]);
                        },
                        InstructionStatement::Rem(x) => {
                            lemma_binary_metadata(
                                c,
                                o,
                                x.left,
                                x.right,
                                seq![0x48u8, 0x99u8],
                                seq![0x48u8, 0xF7u8, 0xF9u8, 0x48u8, 0x8Bu8, 0xC2u8],
                            );
                        },
                        InstructionStatement::Compare(x) => {
                            lemma_binary_metadata(
                                c,
                                o,
                                x.left,
                                x.right,
                                Seq::empty(),
                                seq![0x48u8, 0x39u8, 0xC8u8, 0x0Fu8, 0x94u8, 0xC0u8, 0x48u8, 0x0Fu8, 0xB6u8, 0xC0u8],
                            );
                        },
                        InstructionStatement::Call(x) => lemma_call_metadata(c, o, x),
                        InstructionStatement::Load(x) => lemma_load_metadata(c, o, x),
                        _ => {},
                    }
                },
                _ => {},
            }
        },
        LocalStatement::Label(l) => lemma_label_frame(c, o, l.name.name@),
    }
}

/// The first `n` statements keep the metadata and, when their assignments' variables
/// already have locations, the frame.
proof fn lemma_statements_frame(
    c: ContextView,
    o: ObjectView,
    statements: Seq<LocalStatement>,
    n: nat,
)
    requires
        n <= statements.len(),
        assignments_allocated(c, statements, statements.len()),
    ensures
        spec_compile_statements(c, o, statements, n) is Ok ==> keeps_metadata(
            o,
            spec_compile_statements(c, o, statements, n)->Ok_0.1,
        ) && keeps_frame(c, spec_compile_statements(c, o, statements, n)->Ok_0.0),
    decreases n,
{
    if n > 0 {
        lemma_statements_frame(c, o, statements, (n - 1) as nat);
        if spec_compile_statements(c, o, statements, (n - 1) as nat) is Ok {
            let (c1, o1) = spec_compile_statements(c, o, statements, (n - 1) as nat)->Ok_0;
            let s = statements[n - 1];
            if s is Assignment {
                assert(c.variables.contains_key(s->Assignment_0.name.name@));
            }
            lemma_statement_frame(c1, o1, s);
        }
    }
}

/// Scanning the first `n` statements gives every assigned variable a location and keeps
/// the locations already given.
proof fn lemma_prescan_allocates(c: ContextView, statements: Seq<LocalStatement>, n: nat)
    requires
        n <= statements.len(),
    ensures
        assignments_allocated(spec_prescan(c, statements, n), statements, n),
        forall|k: Seq<char>|
            #[trigger] c.variables.contains_key(k) ==> spec_prescan(c, statements, n).variables.contains_key(k),
    decreases n,
{
    if n > 0 {
        lemma_prescan_allocates(c, statements, (n - 1) as nat);
        let before = spec_prescan(c, statements, (n - 1) as nat);
        let after = spec_prescan(c, statements, n);
        assert(after == spec_prescan_statement(before, statements[n - 1]));
        assert forall|k: Seq<char>| #[trigger] before.variables.contains_key(k) implies after.variables.contains_key(k) by {
            if statements[n - 1] is Assignment {
                let _ = spec_allocate(before, statements[n - 1]->Assignment_0.name.name@);
            }
        }
        assert forall|i: int|
            0 <= i < n && #[trigger] statements[i] is Assignment implies after.variables.contains_key(
            statements[i]->Assignment_0.name.name@,
        ) by {
            if i < n - 1 {
                assert(before.variables.contains_key(statements[i]->Assignment_0.name.name@));
            }
        }
    }
}

/// Frame law: once the prologue of a function has reserved its frame and saved its
/// registers, the context after any number of the body's statements (where a return
/// statement emits its epilogue, and after the last, where the final epilogue is
/// emitted) has the same frame size and the same saved registers: every epilogue
/// releases exactly what the prologue reserved and restores exactly what it saved.
pub proof fn lemma_function_frame_balanced(o: ObjectView, function: FunctionDefinition, n: nat)
    requires
        n <= function.function_body.statements@.len(),
    ensures
        ({
            let statements = function.function_body.statements@;
            let scanned = spec_prescan(initial_context(), statements, statements.len());
            let c1 = ContextView { allocated_stack_size: spec_required_stack_size(scanned), ..scanned };
            let o1 = o.emit(spec_prologue(c1));
            let r = spec_compile_statements(c1, o1, statements, n);
            r is Ok ==> r->Ok_0.0.allocated_stack_size == c1.allocated_stack_size
                && r->Ok_0.0.used_callee_saved == c1.used_callee_saved
        }),
{
    let statements = function.function_body.statements@;
    let scanned = spec_prescan(initial_context(), statements, statements.len());
    let c1 = ContextView { allocated_stack_size: spec_required_stack_size(scanned), ..scanned };
    let o1 = o.emit(spec_prologue(c1));
    lemma_prescan_allocates(initial_context(), statements, statements.len());
    assert(assignments_allocated(c1, statements, statements.len()));
    lemma_statements_frame(c1, o1, statements, n);
}

proof fn lemma_function_metadata(o: ObjectView, function: FunctionDefinition)
    ensures
        spec_compile_function(o, function) is Ok ==> keeps_metadata(
            o,
            spec_compile_function(o, function)->Ok_0,
        ),
{
    let statements = function.function_body.statements@;
    let scanned = spec_prescan(initial_context(), statements, statements.len());
    let c1 = ContextView { allocated_stack_size: spec_required_stack_size(scanned), ..scanned };
    let o1 = o.emit(spec_prologue(c1));
    lemma_prescan_allocates(initial_context(), statements, statements.len());
    lemma_statements_frame(c1, o1, statements, statements.len());
}

proof fn lemma_globals_metadata(o: ObjectView, statements: Seq<GlobalStatement>, n: nat)
    ensures
        spec_compile_globals(o, statements, n) is Ok ==> keeps_metadata(
            o,
            spec_compile_globals(o, statements, n)->Ok_0,
        ),
    decreases n,
{
    if n > 0 {
        lemma_globals_metadata(o, statements, (n - 1) as nat);
        if spec_compile_globals(o, statements, (n - 1) as nat) is Ok {
            let o1 = spec_compile_globals(o, statements, (n - 1) as nat)->Ok_0;
            match statements[n - 1] {
                GlobalStatement::DefineFunction(f) => lemma_function_metadata(o1, f),
                GlobalStatement::Constant(_) => {},
            }
        }
    }
}

/// The statement defines a function called `name`.
pub open spec fn defines_function(statement: GlobalStatement, name: Seq<char>) -> bool {
    match statement {
        GlobalStatement::DefineFunction(f) => f.function_name@ == name,
        GlobalStatement::Constant(_) => false,
    }
}

/// The names of the functions the first `n` statements define are listed once each, and
/// a name is listed exactly when one of those statements defines it.
proof fn lemma_defined_names(statements: Seq<GlobalStatement>, n: nat)
    requires
        n <= statements.len(),
    ensures
        defined_function_names(statements, n).no_duplicates(),
        forall|name: Seq<char>|
            #[trigger] defined_function_names(statements, n).contains(name) <==> exists|i: int|
                0 <= i < n && #[trigger] defines_function(statements[i], name),
    decreases n,
{
    if n > 0 {
        lemma_defined_names(statements, (n - 1) as nat);
        let names = defined_function_names(statements, (n - 1) as nat);
        let last = statements[n - 1];
        assert forall|name: Seq<char>|
            #[trigger] defined_function_names(statements, n).contains(name) <==> exists|i: int|
                0 <= i < n && #[trigger] defines_function(statements[i], name) by {
            if defined_function_names(statements, n).contains(name) {
                if names.contains(name) {
                    let i = choose|i: int| 0 <= i < n - 1 && #[trigger] defines_function(statements[i], name);
                    assert(defines_function(statements[i], name));
                } else {
                    assert(defines_function(statements[n - 1], name));
                }
            }
            if exists|i: int| 0 <= i < n && #[trigger] defines_function(statements[i], name) {
                let i = choose|i: int| 0 <= i < n && #[trigger] defines_function(statements[i], name);
                if i < n - 1 {
                    assert(names.contains(name));
                    if last is DefineFunction && !names.contains(last->DefineFunction_0.function_name@) {
                        assert(names.push(last->DefineFunction_0.function_name@).contains(name)) by {
                            let k = choose|k: int| 0 <= k < names.len() && names[k] == name;
                            assert(names.push(last->DefineFunction_0.function_name@)[k] == name);
                        }
                    }
                } else {
                    if !names.contains(name) {
                        let pushed = names.push(name);
                        assert(pushed[names.len() as int] == name);
                    }
                }
            }
        }
    }
}

/// Entry-point law: a compiled code unit has `main` as its entry point exactly when it
/// defines a function called `main`, and lists each function it defines once, in order
/// of definition.
pub proof fn lemma_compile_metadata(code_unit: CodeUnit)
    ensures
        spec_compile(code_unit) is Ok ==> ({
            let o = spec_compile(code_unit)->Ok_0;
            let statements = code_unit.statements@;
            &&& o.entry_point == (if defines_main(statements) {
                Some("main"@)
            } else {
                None
            })
            &&& o.defined_functions == defined_function_names(statements, statements.len())
            &&& o.defined_functions.no_duplicates()
            &&& forall|name: Seq<char>|
                #[trigger] o.defined_functions.contains(name) <==> exists|i: int|
                    0 <= i < statements.len() && #[trigger] defines_function(statements[i], name)
        }),
{
    let statements = code_unit.statements@;
    lemma_defined_names(statements, statements.len());
    lemma_globals_metadata(initial_object(statements), statements, statements.len());
}

} // verus!
