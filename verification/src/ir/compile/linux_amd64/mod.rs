use vstd::prelude::*;

use crate::ir::ast::global::GlobalStatement;
use crate::ir::ast::CodeUnit;
use crate::ir::compile::linux_amd64::constant::{compile_constant, spec_compile_constant};
use crate::ir::compile::linux_amd64::function::{compile_function, spec_compile_function};
use crate::ir::error::{IRError, IRErrorKind};
use crate::platforms::linux::elf::object::{string_views, ELFObject, ObjectView};

pub mod add;
pub mod alloca;
pub mod branch;
pub mod call;
pub mod common;
pub mod compare;
pub mod constant;
pub mod div;
pub mod function;
pub mod machine_code;
pub mod mul;
pub mod properties;
pub mod rem;
pub mod return_;
pub mod statements;
pub mod sub;

verus! {

/// The statement defines a function called `main`.
pub open spec fn is_main_definition(statement: GlobalStatement) -> bool {
    match statement {
        GlobalStatement::DefineFunction(f) => f.function_name@ == "main"@,
        GlobalStatement::Constant(_) => false,
    }
}

/// Some statement defines a function called `main`.
pub open spec fn defines_main(statements: Seq<GlobalStatement>) -> bool {
    exists|i: int| 0 <= i < statements.len() && #[trigger] is_main_definition(statements[i])
}

/// The names of the functions that the first `n` statements define, each once, in order of
/// first definition.
pub open spec fn defined_function_names(statements: Seq<GlobalStatement>, n: nat) -> Seq<Seq<char>>
    decreases n,
{
    if n == 0 {
        Seq::empty()
    } else {
        let names = defined_function_names(statements, (n - 1) as nat);
        match statements[n - 1] {
            GlobalStatement::DefineFunction(f) => if names.contains(f.function_name@) {
                names
            } else {
                names.push(f.function_name@)
            },
            GlobalStatement::Constant(_) => names,
        }
    }
}

/// One global statement.
pub open spec fn spec_compile_global(o: ObjectView, statement: GlobalStatement) -> Result<
    ObjectView,
    IRErrorKind,
> {
    match statement {
        GlobalStatement::Constant(constant) => Ok(spec_compile_constant(o, constant)),
        GlobalStatement::DefineFunction(function) => spec_compile_function(o, function),
    }
}

/// The first `n` global statements, in order, stopping at the first error.
pub open spec fn spec_compile_globals(o: ObjectView, statements: Seq<GlobalStatement>, n: nat) -> Result<
    ObjectView,
    IRErrorKind,
>
    decreases n,
{
    if n == 0 {
        Ok(o)
    } else {
        match spec_compile_globals(o, statements, (n - 1) as nat) {
            Err(k) => Err(k),
            Ok(o1) => spec_compile_global(o1, statements[n - 1]),
        }
    }
}

/// The object before any statement is compiled: empty, with `main` as entry point when
/// the code unit defines it, and the names of the defined functions.
pub open spec fn initial_object(statements: Seq<GlobalStatement>) -> ObjectView {
    ObjectView {
        entry_point: if defines_main(statements) {
            Some("main"@)
        } else {
            None
        },
        defined_functions: defined_function_names(statements, statements.len()),
        ..ObjectView::empty()
    }
}

/// A code unit: constants and functions are compiled in order into one object.
pub open spec fn spec_compile(code_unit: CodeUnit) -> Result<ObjectView, IRErrorKind> {
    let statements = code_unit.statements@;
    spec_compile_globals(initial_object(statements), statements, statements.len())
}

/// Whether `names` holds `name`.
fn contains_name(names: &Vec<String>, name: &String) -> (b: bool)
    ensures
        b == string_views(names@).contains(name@),
{
    let mut i: usize = 0;
    while i < names.len()
        invariant
            0 <= i <= names@.len(),
            forall|j: int| 0 <= j < i ==> names@[j]@ != name@,
        decreases names@.len() - i,
    {
        if names[i] == *name {
            assert(string_views(names@)[i as int] == name@);
            return true;
        }
        i = i + 1;
    }
    proof {
        if string_views(names@).contains(name@) {
            let k = choose|k: int| 0 <= k < string_views(names@).len() && string_views(names@)[k]
                == name@;
            assert(names@[k]@ == name@);
        }
    }
    false
}

/// Compiling one more global statement after the first `n`.
proof fn lemma_globals_step(o: ObjectView, statements: Seq<GlobalStatement>, n: nat, o1: ObjectView)
    requires
        spec_compile_globals(o, statements, n) == Ok::<ObjectView, IRErrorKind>(o1),
    ensures
        spec_compile_globals(o, statements, n + 1) == spec_compile_global(o1, statements[n as int]),
{
}

/// Once the first `n` statements fail, all of them fail the same way.
proof fn lemma_globals_error(o: ObjectView, statements: Seq<GlobalStatement>, n: nat, k: IRErrorKind)
    requires
        n <= statements.len(),
        spec_compile_globals(o, statements, n) == Err::<ObjectView, IRErrorKind>(k),
    ensures
        spec_compile_globals(o, statements, statements.len()) == Err::<ObjectView, IRErrorKind>(k),
    decreases statements.len() - n,
{
    if n < statements.len() {
        lemma_globals_error(o, statements, n + 1, k);
    }
}

/// Compiles a code unit into a relocatable ELF object for Linux on x86-64.
pub fn compile(code_unit: CodeUnit) -> (r: Result<ELFObject, IRError>)
    ensures
        match r {
            Ok(object) => spec_compile(code_unit) == Ok::<ObjectView, IRErrorKind>(object@),
            Err(e) => spec_compile(code_unit) == Err::<ObjectView, IRErrorKind>(e.kind),
        },
{
    let mut compiled_object = ELFObject::new();
    let statements = &code_unit.statements;
    let main_name = String::from_str("main");
    let mut has_main_function = false;
    let mut i: usize = 0;
    while i < statements.len()
        invariant
            0 <= i <= statements@.len(),
            main_name@ == "main"@,
            has_main_function == exists|j: int|
                0 <= j < i && #[trigger] is_main_definition(statements@[j]),
        decreases statements@.len() - i,
    {
        let is_main = match &statements[i] {
            GlobalStatement::DefineFunction(function) => function.function_name == main_name,
            GlobalStatement::Constant(_) => false,
        };
        assert(is_main == is_main_definition(statements@[i as int]));
        if is_main {
            has_main_function = true;
        }
        i = i + 1;
    }
    if has_main_function {
        compiled_object.set_entry_point("main");
    }
    let mut defined_functions: Vec<String> = Vec::new();
    let mut i: usize = 0;
    while i < statements.len()
        invariant
            0 <= i <= statements@.len(),
            string_views(defined_functions@) == defined_function_names(statements@, i as nat),
        decreases statements@.len() - i,
    {
        if let GlobalStatement::DefineFunction(function) = &statements[i] {
            if !contains_name(&defined_functions, &function.function_name) {
                defined_functions.push(function.function_name.clone());
                assert(string_views(defined_functions@) =~= defined_function_names(
                    statements@,
                    (i + 1) as nat,
                ));
            }
        }
        i = i + 1;
    }
    compiled_object.defined_functions = defined_functions;
    let ghost o0 = compiled_object@;
    assert(o0 == initial_object(statements@));
    let mut i: usize = 0;
    while i < statements.len()
        invariant
            0 <= i <= statements@.len(),
            o0 == initial_object(statements@),
            statements@ == code_unit.statements@,
            spec_compile_globals(o0, statements@, i as nat) == Ok::<ObjectView, IRErrorKind>(
                compiled_object@,
            ),
        decreases statements@.len() - i,
    {
        proof {
            lemma_globals_step(o0, statements@, i as nat, compiled_object@);
        }
        let result = match &statements[i] {
            GlobalStatement::Constant(constant) => compile_constant(constant, &mut compiled_object),
            GlobalStatement::DefineFunction(function) => compile_function(function, &mut compiled_object),
        };
        match result {
            Ok(()) => {},
            Err(e) => {
                proof {
                    lemma_globals_error(o0, statements@, (i + 1) as nat, e.kind);
                }
                return Err(e);
            },
        }
        i = i + 1;
    }
    Ok(compiled_object)
}

} // verus!
