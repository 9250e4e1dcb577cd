use vstd::prelude::*;

use crate::ir::ast::local::assignment::{AssignmentStatement, AssignmentStatementValue};
use crate::ir::ast::local::instruction::InstructionStatement;
use crate::ir::ast::local::LocalStatement;
use crate::ir::compile::linux_amd64::add::{compile_add_instruction, spec_add_failure, spec_compile_add};
use crate::ir::compile::linux_amd64::alloca::{
    compile_alloca_instruction, compile_load_instruction, compile_store_instruction,
    spec_compile_alloca, spec_compile_load, spec_compile_store, spec_store_failure,
};
use crate::ir::compile::linux_amd64::branch::{
    compile_branch_instruction, compile_jump_instruction, compile_label_definition,
    spec_compile_branch, spec_compile_jump, spec_compile_label_definition,
};
use crate::ir::compile::linux_amd64::call::{compile_call_instruction, spec_call_failure, spec_compile_call};
use crate::ir::compile::linux_amd64::common::{
    emit_le32, emit_reg_move, le32, spec_binary_failure, spec_reg_move,
};
use crate::ir::compile::linux_amd64::compare::{compile_compare_instruction, spec_compile_compare};
use crate::ir::compile::linux_amd64::div::{compile_div_instruction, spec_compile_div};
use crate::ir::compile::linux_amd64::function::{
    lemma_refs_fit_grow, refs_fit, refs_ordered, spec_allocate, ContextView, FunctionContext, VariableLocation,
};
use crate::ir::compile::linux_amd64::mul::{compile_mul_instruction, spec_compile_mul};
use crate::ir::compile::linux_amd64::rem::{compile_rem_instruction, spec_compile_rem};
use crate::ir::compile::linux_amd64::return_::{compile_return_instruction, spec_compile_return};
use crate::ir::compile::linux_amd64::sub::{compile_sub_instruction, spec_compile_sub};
use crate::ir::error::{IRError, IRErrorKind};
use crate::platforms::amd64::addressing::{modrm_rbp_disp32, sib_rbp_no_index};
use crate::platforms::amd64::instruction::MOV;
use crate::platforms::amd64::register::Register;
use crate::platforms::amd64::rex::REX_W;
use crate::platforms::linux::elf::object::{ELFObject, ObjectView};

verus! {

/// The result of an instruction that leaves the context as it is.
pub open spec fn with_context(c: ContextView, r: Result<ObjectView, IRErrorKind>) -> Result<
    (ContextView, ObjectView),
    IRErrorKind,
> {
    match r {
        Ok(o) => Ok((c, o)),
        Err(k) => Err(k),
    }
}

/// An instruction on its own: instructions that produce a value need an assignment.
pub open spec fn spec_compile_instruction_statement(
    c: ContextView,
    o: ObjectView,
    instruction: InstructionStatement,
) -> Result<(ContextView, ObjectView), IRErrorKind> {
    match instruction {
        InstructionStatement::Call(i) => with_context(c, spec_compile_call(c, o, i)),
        InstructionStatement::Return(i) => with_context(c, spec_compile_return(c, o, i)),
        InstructionStatement::Branch(i) => spec_compile_branch(c, o, i),
        InstructionStatement::Jump(i) => Ok(spec_compile_jump(c, o, i)),
        InstructionStatement::Store(i) => with_context(c, spec_compile_store(c, o, i)),
        _ => Err(IRErrorKind::AssignmentRequired),
    }
}

/// The value of an assignment, computed into RAX.
pub open spec fn spec_assignment_value(
    c: ContextView,
    o: ObjectView,
    value: AssignmentStatementValue,
) -> Result<(ContextView, ObjectView), IRErrorKind> {
    match value {
        AssignmentStatementValue::Literal(_) => Err(IRErrorKind::NotImplemented),
        AssignmentStatementValue::Instruction(instruction) => match instruction {
            InstructionStatement::Add(i) => with_context(c, spec_compile_add(c, o, i)),
            InstructionStatement::Sub(i) => with_context(c, spec_compile_sub(c, o, i)),
            InstructionStatement::Mul(i) => with_context(c, spec_compile_mul(c, o, i)),
            InstructionStatement::Div(i) => with_context(c, spec_compile_div(c, o, i)),
            InstructionStatement::Rem(i) => with_context(c, spec_compile_rem(c, o, i)),
            InstructionStatement::Call(i) => with_context(c, spec_compile_call(c, o, i)),
            InstructionStatement::Compare(i) => with_context(c, spec_compile_compare(c, o, i)),
            InstructionStatement::Alloca(i) => Ok(spec_compile_alloca(c, o, i)),
            InstructionStatement::Load(i) => with_context(c, spec_compile_load(c, o, i)),
            _ => Err(IRErrorKind::AssignmentRequired),
        },
    }
}

/// Moving RAX to a variable's location.
pub open spec fn spec_store_rax(loc: VariableLocation) -> Seq<u8> {
    match loc {
        VariableLocation::Register(dst) => spec_reg_move(dst, Register::RAX),
        VariableLocation::Stack(offset) => seq![0x48u8, 0x89u8, 0x84u8, 0x25u8] + le32(offset),
    }
}

/// An assignment: the value is computed into RAX, then moved to the variable's location.
pub open spec fn spec_compile_assignment(
    c: ContextView,
    o: ObjectView,
    assignment: AssignmentStatement,
) -> Result<(ContextView, ObjectView), IRErrorKind> {
    match spec_assignment_value(c, o, assignment.value) {
        Err(k) => Err(k),
        Ok((c1, o1)) => {
            let (c2, loc) = spec_allocate(c1, assignment.name.name@);
            Ok((c2, o1.emit(spec_store_rax(loc))))
        },
    }
}

/// One statement of a function body.
pub open spec fn spec_compile_statement(c: ContextView, o: ObjectView, statement: LocalStatement) -> Result<
    (ContextView, ObjectView),
    IRErrorKind,
> {
    match statement {
        LocalStatement::Instruction(i) => spec_compile_instruction_statement(c, o, i),
        LocalStatement::Assignment(a) => spec_compile_assignment(c, o, a),
        LocalStatement::Label(l) => spec_compile_label_definition(c, o, l.name.name@),
    }
}

/// The first `n` statements, in order, stopping at the first error.
pub open spec fn spec_compile_statements(
    c: ContextView,
    o: ObjectView,
    statements: Seq<LocalStatement>,
    n: nat,
) -> Result<(ContextView, ObjectView), IRErrorKind>
    decreases n,
{
    if n == 0 {
        Ok((c, o))
    } else {
        match spec_compile_statements(c, o, statements, (n - 1) as nat) {
            Err(k) => Err(k),
            Ok((c1, o1)) => spec_compile_statement(c1, o1, statements[n - 1]),
        }
    }
}

/// The object the value of an assignment leaves behind when it fails (see the failure
/// of each instruction); a literal or an instruction without a value writes nothing.
#[verifier::opaque]
pub open spec fn spec_assignment_failure(
    c: ContextView,
    o: ObjectView,
    value: AssignmentStatementValue,
) -> ObjectView {
    match value {
        AssignmentStatementValue::Literal(_) => o,
        AssignmentStatementValue::Instruction(instruction) => match instruction {
            InstructionStatement::Add(i) => spec_add_failure(c, o, i),
            InstructionStatement::Sub(i) => spec_binary_failure(c, o, i.left, i.right, Seq::empty()),
            InstructionStatement::Mul(i) => spec_binary_failure(c, o, i.left, i.right, Seq::empty()),
            InstructionStatement::Div(i) => spec_binary_failure(
                c,
                o,
                i.left,
                i.right,
                seq![0x48u8, 0x99u8],
            ),
            InstructionStatement::Rem(i) => spec_binary_failure(
                c,
                o,
                i.left,
                i.right,
                seq![0x48u8, 0x99u8],
            ),
            InstructionStatement::Compare(i) => spec_binary_failure(
                c,
                o,
                i.left,
                i.right,
                Seq::empty(),
            ),
            InstructionStatement::Call(i) => spec_call_failure(c, o, i),
            _ => o,
        },
    }
}

/// The object an instruction on its own leaves behind when it fails: a call keeps the
/// arguments loaded before the failing one, a store keeps the load of its value, and
/// everything else writes nothing.
#[verifier::opaque]
pub open spec fn spec_instruction_failure(
    c: ContextView,
    o: ObjectView,
    instruction: InstructionStatement,
) -> ObjectView {
    match instruction {
        InstructionStatement::Call(i) => spec_call_failure(c, o, i),
        InstructionStatement::Store(i) => spec_store_failure(c, o, i),
        _ => o,
    }
}

/// The object a statement leaves behind when it fails (the context is left as it was).
pub open spec fn spec_statement_failure(c: ContextView, o: ObjectView, statement: LocalStatement) -> ObjectView {
    match statement {
        LocalStatement::Instruction(i) => spec_instruction_failure(c, o, i),
        LocalStatement::Assignment(a) => spec_assignment_failure(c, o, a.value),
        LocalStatement::Label(_) => o,
    }
}

/// The context and object left behind when compiling the first `n` statements fails: the
/// state after the statements before the failing one, with what that one left behind.
pub open spec fn spec_statements_failure(
    c: ContextView,
    o: ObjectView,
    statements: Seq<LocalStatement>,
    n: nat,
) -> (ContextView, ObjectView)
    decreases n,
{
    if n == 0 {
        (c, o)
    } else {
        match spec_compile_statements(c, o, statements, (n - 1) as nat) {
            Err(_) => spec_statements_failure(c, o, statements, (n - 1) as nat),
            Ok((c1, o1)) => (c1, spec_statement_failure(c1, o1, statements[n - 1])),
        }
    }
}

/// When statement `n` is the first that fails, what it leaves behind is what compiling
/// any longer prefix leaves behind.
proof fn lemma_statements_failure_at(
    c: ContextView,
    o: ObjectView,
    statements: Seq<LocalStatement>,
    n: nat,
    c1: ContextView,
    o1: ObjectView,
    m: nat,
)
    requires
        n < m <= statements.len(),
        spec_compile_statements(c, o, statements, n) == Ok::<(ContextView, ObjectView), IRErrorKind>(
            (c1, o1),
        ),
        spec_compile_statements(c, o, statements, n + 1) is Err,
    ensures
        spec_statements_failure(c, o, statements, m) == (c1, spec_statement_failure(
            c1,
            o1,
            statements[n as int],
        )),
        spec_compile_statements(c, o, statements, m) is Err,
    decreases m,
{
    if m > n + 1 {
        lemma_statements_failure_at(c, o, statements, n, c1, o1, (m - 1) as nat);
    }
}

/// Compiling one more statement after the first `n`.
proof fn lemma_statements_step(
    c: ContextView,
    o: ObjectView,
    statements: Seq<LocalStatement>,
    n: nat,
    c1: ContextView,
    o1: ObjectView,
)
    requires
        spec_compile_statements(c, o, statements, n) == Ok::<(ContextView, ObjectView), IRErrorKind>(
            (c1, o1),
        ),
    ensures
        spec_compile_statements(c, o, statements, n + 1) == spec_compile_statement(
            c1,
            o1,
            statements[n as int],
        ),
{
}

/// Once the first `n` statements fail, all of them fail the same way.
proof fn lemma_statements_error(
    c: ContextView,
    o: ObjectView,
    statements: Seq<LocalStatement>,
    n: nat,
    k: IRErrorKind,
)
    requires
        n <= statements.len(),
        spec_compile_statements(c, o, statements, n) == Err::<(ContextView, ObjectView), IRErrorKind>(
            k,
        ),
    ensures
        spec_compile_statements(c, o, statements, statements.len()) == Err::<
            (ContextView, ObjectView),
            IRErrorKind,
        >(k),
    decreases statements.len() - n,
{
    if n < statements.len() {
        lemma_statements_error(c, o, statements, n + 1, k);
    }
}

/// Compiles the statements of a function body in order, stopping at the first error.
pub fn compile_statements(
    statements: &[LocalStatement],
    context: &mut FunctionContext,
    object: &mut ELFObject,
) -> (r: Result<(), IRError>)
    requires
        old(context).wf(),
        refs_fit(old(context)@.labels, old(object)@.text.len()),
    ensures
        r is Err ==> (final(context)@, final(object)@) == spec_statements_failure(
            old(context)@,
            old(object)@,
            statements@,
            statements@.len(),
        ),
        match r {
            Ok(()) => spec_compile_statements(
                old(context)@,
                old(object)@,
                statements@,
                statements@.len(),
            ) == Ok::<(ContextView, ObjectView), IRErrorKind>((final(context)@, final(object)@)),
            Err(e) => spec_compile_statements(
                old(context)@,
                old(object)@,
                statements@,
                statements@.len(),
            ) == Err::<(ContextView, ObjectView), IRErrorKind>(e.kind),
        },
        r is Ok ==> final(context).wf() && old(object)@.text.len() <= final(object)@.text.len()
            && refs_fit(final(context)@.labels, final(object)@.text.len()),
        r is Ok && refs_ordered(old(context)@.labels) ==> refs_ordered(final(context)@.labels),
{
    let ghost c0 = context@;
    let ghost o0 = object@;
    let mut i: usize = 0;
    while i < statements.len()
        invariant
            c0 == old(context)@,
            o0 == old(object)@,
            0 <= i <= statements@.len(),
            context.wf(),
            o0.text.len() <= object@.text.len(),
            refs_fit(context@.labels, object@.text.len()),
            refs_ordered(c0.labels) ==> refs_ordered(context@.labels),
            spec_compile_statements(c0, o0, statements@, i as nat) == Ok::<
                (ContextView, ObjectView),
                IRErrorKind,
            >((context@, object@)),
        decreases statements@.len() - i,
    {
        let ghost before_c = context@;
        let ghost before_o = object@;
        proof {
            lemma_statements_step(c0, o0, statements@, i as nat, context@, object@);
        }
        match compile_statement(&statements[i], context, object) {
            Ok(()) => {},
            Err(e) => {
                proof {
                    lemma_statements_error(c0, o0, statements@, (i + 1) as nat, e.kind);
                    lemma_statements_failure_at(
                        c0,
                        o0,
                        statements@,
                        i as nat,
                        before_c,
                        before_o,
                        statements@.len(),
                    );
                }
                return Err(e);
            },
        }
        i = i + 1;
    }
    Ok(())
}

/// Compiles one statement.
fn compile_statement(stmt: &LocalStatement, context: &mut FunctionContext, object: &mut ELFObject) -> (r:
    Result<(), IRError>)
    requires
        old(context).wf(),
        refs_fit(old(context)@.labels, old(object)@.text.len()),
    ensures
        r is Err ==> *final(context) == *old(context) && final(object)@ == spec_statement_failure(
            old(context)@,
            old(object)@,
            *stmt,
        ),
        match r {
            Ok(()) => spec_compile_statement(old(context)@, old(object)@, *stmt) == Ok::<
                (ContextView, ObjectView),
                IRErrorKind,
            >((final(context)@, final(object)@)),
            Err(e) => spec_compile_statement(old(context)@, old(object)@, *stmt) == Err::<
                (ContextView, ObjectView),
                IRErrorKind,
            >(e.kind),
        },
        r is Ok ==> final(context).wf() && old(object)@.text.len() <= final(object)@.text.len()
            && refs_fit(final(context)@.labels, final(object)@.text.len()),
        r is Ok && refs_ordered(old(context)@.labels) ==> refs_ordered(final(context)@.labels),
{
    match stmt {
        LocalStatement::Instruction(statement) => compile_instruction_statement(statement, context, object),
        LocalStatement::Assignment(assignment_statement) => {
            let r = compile_assignment_statement(assignment_statement, context, object);
            proof {
                if r is Ok {
                    lemma_refs_fit_grow(context@.labels, old(object)@.text.len(), object@.text.len());
                }
            }
            r
        },
        LocalStatement::Label(label_definition) => compile_label_definition(
            label_definition,
            context,
            object,
        ),
    }
}

/// Computes the value of an assignment into RAX and moves it to the variable's location.
fn compile_assignment_statement(
    assignment_statement: &AssignmentStatement,
    context: &mut FunctionContext,
    object: &mut ELFObject,
) -> (r: Result<(), IRError>)
    requires
        old(context).wf(),
    ensures
        r is Err ==> *final(context) == *old(context) && final(object)@ == spec_assignment_failure(
            old(context)@,
            old(object)@,
            assignment_statement.value,
        ),
        assignment_statement.value is Literal ==> r is Err && r->Err_0.message@
            == "Literal assignment not yet implemented"@,
        match assignment_statement.value {
            AssignmentStatementValue::Instruction(InstructionStatement::Return(_))
            | AssignmentStatementValue::Instruction(InstructionStatement::Branch(_))
            | AssignmentStatementValue::Instruction(InstructionStatement::Jump(_))
            | AssignmentStatementValue::Instruction(InstructionStatement::Store(_)) => r is Err
                && r->Err_0.message@ == "Not supported instruction in assignment"@,
            _ => true,
        },
        match r {
            Ok(()) => spec_compile_assignment(old(context)@, old(object)@, *assignment_statement)
                == Ok::<(ContextView, ObjectView), IRErrorKind>((final(context)@, final(object)@)),
            Err(e) => spec_compile_assignment(old(context)@, old(object)@, *assignment_statement)
                == Err::<(ContextView, ObjectView), IRErrorKind>(e.kind),
        },
        r is Ok ==> final(context).wf() && old(object)@.text.len() <= final(object)@.text.len()
            && final(context)@.labels == old(context)@.labels,
{
    reveal(spec_assignment_failure);
    match &assignment_statement.value {
        AssignmentStatementValue::Literal(_) => {
            return Err(
                IRError::new(IRErrorKind::NotImplemented, "Literal assignment not yet implemented"),
            );
        },
        AssignmentStatementValue::Instruction(InstructionStatement::Add(instruction)) => {
            compile_add_instruction(instruction, context, object)?;
        },
        AssignmentStatementValue::Instruction(InstructionStatement::Sub(instruction)) => {
            compile_sub_instruction(instruction, context, object)?;
        },
        AssignmentStatementValue::Instruction(InstructionStatement::Mul(instruction)) => {
            compile_mul_instruction(instruction, context, object)?;
        },
        AssignmentStatementValue::Instruction(InstructionStatement::Div(instruction)) => {
            compile_div_instruction(instruction, context, object)?;
        },
        AssignmentStatementValue::Instruction(InstructionStatement::Rem(instruction)) => {
            compile_rem_instruction(instruction, context, object)?;
        },
        AssignmentStatementValue::Instruction(InstructionStatement::Call(instruction)) => {
            compile_call_instruction(instruction, context, object)?;
        },
        AssignmentStatementValue::Instruction(InstructionStatement::Compare(instruction)) => {
            compile_compare_instruction(instruction, context, object)?;
        },
        AssignmentStatementValue::Instruction(InstructionStatement::Alloca(instruction)) => {
            compile_alloca_instruction(instruction, context, object)?;
        },
        AssignmentStatementValue::Instruction(InstructionStatement::Load(instruction)) => {
            compile_load_instruction(instruction, context, object)?;
        },
        _ => {
            return Err(
                IRError::new(
                    IRErrorKind::AssignmentRequired,
                    "Not supported instruction in assignment",
                ),
            );
        },
    }
    let ghost c1 = context@;
    let ghost o1 = object@;
    assert(spec_assignment_value(old(context)@, old(object)@, assignment_statement.value) == Ok::<
        (ContextView, ObjectView),
        IRErrorKind,
    >((c1, o1)));
    let var_name = assignment_statement.name.name.clone();
    let var_loc = context.allocate_variable(var_name);
    match var_loc {
        VariableLocation::Register(dst_reg) => {
            emit_reg_move(object, dst_reg, Register::RAX);
        },
        VariableLocation::Stack(offset) => {
            object.emit(REX_W);
            object.emit(MOV);
            object.emit(modrm_rbp_disp32(Register::RAX.number()));
            object.emit(sib_rbp_no_index());
            emit_le32(object, offset);
            assert(object@ =~= o1.emit(spec_store_rax(var_loc)));
        },
    }
    Ok(())
}

/// Compiles an instruction that stands on its own.
fn compile_instruction_statement(
    instruction_statement: &InstructionStatement,
    context: &mut FunctionContext,
    object: &mut ELFObject,
) -> (r: Result<(), IRError>)
    requires
        old(context).wf(),
    ensures
        r is Err ==> *final(context) == *old(context) && final(object)@ == spec_instruction_failure(
            old(context)@,
            old(object)@,
            *instruction_statement,
        ),
        match *instruction_statement {
            InstructionStatement::Add(_) => r is Err && r->Err_0.message@
                == "Add instruction need assignment"@,
            InstructionStatement::Sub(_) => r is Err && r->Err_0.message@
                == "Sub instruction needs assignment"@,
            InstructionStatement::Mul(_) => r is Err && r->Err_0.message@
                == "Mul instruction need assignment"@,
            InstructionStatement::Div(_) => r is Err && r->Err_0.message@
                == "Div instruction need assignment"@,
            InstructionStatement::Rem(_) => r is Err && r->Err_0.message@
                == "Rem instruction need assignment"@,
            InstructionStatement::Compare(_) => r is Err && r->Err_0.message@
                == "Compare instruction need assignment"@,
            InstructionStatement::Alloca(_) => r is Err && r->Err_0.message@
                == "Alloca instruction need assignment"@,
            InstructionStatement::Load(_) => r is Err && r->Err_0.message@
                == "Load instruction need assignment"@,
            _ => true,
        },
        match r {
            Ok(()) => spec_compile_instruction_statement(
                old(context)@,
                old(object)@,
                *instruction_statement,
            ) == Ok::<(ContextView, ObjectView), IRErrorKind>((final(context)@, final(object)@)),
            Err(e) => spec_compile_instruction_statement(
                old(context)@,
                old(object)@,
                *instruction_statement,
            ) == Err::<(ContextView, ObjectView), IRErrorKind>(e.kind),
        },
        r is Ok ==> final(context).wf() && old(object)@.text.len() <= final(object)@.text.len(),
        r is Ok && refs_fit(old(context)@.labels, old(object)@.text.len()) ==> refs_fit(
            final(context)@.labels,
            final(object)@.text.len(),
        ),
        r is Ok && refs_fit(old(context)@.labels, old(object)@.text.len()) && refs_ordered(
            old(context)@.labels,
        ) ==> refs_ordered(final(context)@.labels),
{
    reveal(spec_instruction_failure);
    match instruction_statement {
        InstructionStatement::Call(instruction) => {
            compile_call_instruction(instruction, context, object)?;
        },
        InstructionStatement::Add(_) => {
            return Err(
                IRError::new(IRErrorKind::AssignmentRequired, "Add instruction need assignment"),
            );
        },
        InstructionStatement::Return(instruction) => {
            compile_return_instruction(instruction, context, object)?;
        },
        InstructionStatement::Sub(_) => {
            return Err(
                IRError::new(IRErrorKind::AssignmentRequired, "Sub instruction needs assignment"),
            );
        },
        InstructionStatement::Mul(_) => {
            return Err(
                IRError::new(IRErrorKind::AssignmentRequired, "Mul instruction need assignment"),
            );
        },
        InstructionStatement::Div(_) => {
            return Err(
                IRError::new(IRErrorKind::AssignmentRequired, "Div instruction need assignment"),
            );
        },
        InstructionStatement::Rem(_) => {
            return Err(
                IRError::new(IRErrorKind::AssignmentRequired, "Rem instruction need assignment"),
            );
        },
        InstructionStatement::Branch(instruction) => {
            return compile_branch_instruction(instruction, context, object);
        },
        InstructionStatement::Jump(instruction) => {
            return compile_jump_instruction(instruction, context, object);
        },
        InstructionStatement::Compare(_) => {
            return Err(
                IRError::new(
                    IRErrorKind::AssignmentRequired,
                    "Compare instruction need assignment",
                ),
            );
        },
        InstructionStatement::Alloca(_) => {
            return Err(
                IRError::new(IRErrorKind::AssignmentRequired, "Alloca instruction need assignment"),
            );
        },
        InstructionStatement::Load(_) => {
            return Err(
                IRError::new(IRErrorKind::AssignmentRequired, "Load instruction need assignment"),
            );
        },
        InstructionStatement::Store(instruction) => {
            compile_store_instruction(instruction, context, object)?;
        },
    }
    proof {
        if refs_fit(old(context)@.labels, old(object)@.text.len()) {
            lemma_refs_fit_grow(context@.labels, old(object)@.text.len(), object@.text.len());
        }
    }
    Ok(())
}

} // verus!
