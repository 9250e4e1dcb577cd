use vstd::prelude::*;

use crate::assoc::{
    assoc_view, find_key, has_key, keys_distinct, lemma_assoc_absent, lemma_assoc_index,
    lemma_assoc_push, lemma_assoc_update,
};
use crate::ir::ast::global::function::FunctionDefinition;
use crate::ir::ast::local::assignment::AssignmentStatementValue;
use crate::ir::ast::local::instruction::InstructionStatement;
use crate::ir::ast::local::LocalStatement;
use crate::ir::compile::linux_amd64::common::{emit_le32, le32};
use crate::ir::compile::linux_amd64::statements::{
    compile_statements, spec_compile_statements, spec_statements_failure,
};
use crate::ir::error::{concat3, IRError, IRErrorKind};
use crate::platforms::amd64::instruction::{
    ALU_RM64_IMM32, MOV, OPCODE_EXT_ADD, OPCODE_EXT_SUB, POP, PUSH, REG_NUMBER_MASK, RET, XOR,
};
use crate::platforms::amd64::register::{modrm_digit_rsp, modrm_reg_reg, Register};
use crate::platforms::linux::elf::section::SectionType;
use crate::platforms::linux::elf::symbol::{Symbol, SymbolBinding, SymbolType, SymbolView};
use crate::platforms::amd64::rex::{REX_B, REX_W};
use crate::platforms::linux::elf::object::{ELFObject, ObjectView};

verus! {

/// Where a local variable lives.
#[derive(Debug, Clone, Copy, PartialEq, Eq, Structural)]
pub enum VariableLocation {
    /// In a callee-saved register.
    Register(Register),
    /// On the stack, at this (negative) offset from RBP.
    Stack(i32),
}

/// What is known of a label while a function is compiled.
#[derive(Debug, Clone)]
pub enum LabelLocation {
    /// Defined at this offset of the text section.
    Defined(usize),
    /// Not defined yet; the offsets of the jump opcodes that refer to it.
    Undefined(Vec<usize>),
}

/// Mathematical model of a label location.
pub enum LabelView {
    Defined(usize),
    Undefined(Seq<usize>),
}

impl View for LabelLocation {
    type V = LabelView;

    open spec fn view(&self) -> LabelView {
        match self {
            LabelLocation::Defined(offset) => LabelView::Defined(*offset),
            LabelLocation::Undefined(refs) => LabelView::Undefined(refs@),
        }
    }
}

/// Mathematical model of the state of a function being compiled.
pub struct ContextView {
    pub variables: Map<Seq<char>, VariableLocation>,
    pub available_registers: Seq<Register>,
    pub stack_offset: i32,
    pub used_callee_saved: Seq<Register>,
    pub labels: Map<Seq<char>, LabelView>,
    pub allocated_stack_size: i32,
    pub pending_alloca_size: i32,
}

/// The callee-saved registers that variables may occupy, in the order they are handed out
/// (from the end).
pub open spec fn initial_registers() -> Seq<Register> {
    seq![Register::RBX, Register::R12, Register::R13, Register::R14, Register::R15]
}

/// The state of a function before any statement is looked at.
pub open spec fn initial_context() -> ContextView {
    ContextView {
        variables: Map::empty(),
        available_registers: initial_registers(),
        stack_offset: 0,
        used_callee_saved: Seq::empty(),
        labels: Map::empty(),
        allocated_stack_size: 0,
        pending_alloca_size: 0,
    }
}

/// Where `allocate_variable` puts `name` and the state after it.
pub open spec fn spec_allocate(c: ContextView, name: Seq<char>) -> (ContextView, VariableLocation) {
    if c.variables.contains_key(name) {
        (c, c.variables[name])
    } else if c.available_registers.len() > 0 {
        let reg = c.available_registers.last();
        (
            ContextView {
                variables: c.variables.insert(name, VariableLocation::Register(reg)),
                available_registers: c.available_registers.drop_last(),
                used_callee_saved: c.used_callee_saved.push(reg),
                ..c
            },
            VariableLocation::Register(reg),
        )
    } else {
        let offset = c.stack_offset.wrapping_sub(8);
        (
            ContextView {
                variables: c.variables.insert(name, VariableLocation::Stack(offset)),
                stack_offset: offset,
                ..c
            },
            VariableLocation::Stack(offset),
        )
    }
}

/// The labels after a jump at `jump_offset` referred to `name`.
pub open spec fn spec_add_label_reference(
    labels: Map<Seq<char>, LabelView>,
    name: Seq<char>,
    jump_offset: usize,
) -> Map<Seq<char>, LabelView> {
    if labels.contains_key(name) {
        match labels[name] {
            LabelView::Undefined(refs) => labels.insert(name, LabelView::Undefined(refs.push(jump_offset))),
            LabelView::Defined(_) => labels,
        }
    } else {
        labels.insert(name, LabelView::Undefined(seq![jump_offset]))
    }
}

/// Every pending reference to a label points at a jump whose 4-byte displacement lies
/// inside a text section of length `len`.
pub open spec fn refs_fit(labels: Map<Seq<char>, LabelView>, len: nat) -> bool {
    forall|name: Seq<char>|
        #![trigger labels[name]]
        labels.contains_key(name) ==> match labels[name] {
            LabelView::Undefined(refs) => forall|i: int| 0 <= i < refs.len() ==> refs[i] + 5 <= len,
            LabelView::Defined(_) => true,
        }
}

/// The pending jumps to each label come in order, each at least 5 bytes (an opcode byte
/// and a 4-byte displacement) after the one before.
pub open spec fn refs_ordered(labels: Map<Seq<char>, LabelView>) -> bool {
    forall|name: Seq<char>|
        #![trigger labels[name]]
        labels.contains_key(name) ==> match labels[name] {
            LabelView::Undefined(refs) => forall|i: int, j: int|
                0 <= i < j < refs.len() ==> refs[i] + 5 <= refs[j],
            LabelView::Defined(_) => true,
        }
}

/// References that fit a text section still fit it once it has grown.
pub proof fn lemma_refs_fit_grow(labels: Map<Seq<char>, LabelView>, n: nat, m: nat)
    requires
        refs_fit(labels, n),
        n <= m,
    ensures
        refs_fit(labels, m),
{
    assert forall|name: Seq<char>| #[trigger] labels.contains_key(name) implies match labels[name] {
        LabelView::Undefined(refs) => forall|i: int| 0 <= i < refs.len() ==> refs[i] + 5 <= m,
        LabelView::Defined(_) => true,
    } by {
        match labels[name] {
            LabelView::Undefined(refs) => {
                assert(forall|i: int| 0 <= i < refs.len() ==> refs[i] + 5 <= n);
            },
            LabelView::Defined(_) => {},
        }
    }
}

/// `PUSH reg` (with REX.B for R8 to R15).
pub open spec fn push_bytes(reg: Register) -> Seq<u8> {
    if reg.needs_rex() {
        seq![0x41u8, (0x50 + reg.low3()) as u8]
    } else {
        seq![(0x50 + reg.low3()) as u8]
    }
}

/// `POP reg` (with REX.B for R8 to R15).
pub open spec fn pop_bytes(reg: Register) -> Seq<u8> {
    if reg.needs_rex() {
        seq![0x41u8, (0x58 + reg.low3()) as u8]
    } else {
        seq![(0x58 + reg.low3()) as u8]
    }
}

/// One `PUSH` per register, in order.
pub open spec fn push_seq(regs: Seq<Register>) -> Seq<u8>
    decreases regs.len(),
{
    if regs.len() == 0 {
        Seq::empty()
    } else {
        push_seq(regs.drop_last()) + push_bytes(regs.last())
    }
}

/// One `POP` per register, in order.
pub open spec fn pop_seq(regs: Seq<Register>) -> Seq<u8>
    decreases regs.len(),
{
    if regs.len() == 0 {
        Seq::empty()
    } else {
        pop_seq(regs.drop_last()) + pop_bytes(regs.last())
    }
}

/// The registers in reverse order.
pub open spec fn reversed(regs: Seq<Register>) -> Seq<Register> {
    Seq::new(regs.len(), |i: int| regs[regs.len() - 1 - i])
}

/// `ADD rsp, size` (extension 0) or `SUB rsp, size` (extension 5), or nothing for a
/// frame that is not positive.
pub open spec fn frame_adjust(extension: u8, size: i32) -> Seq<u8> {
    if size > 0 {
        seq![0x48u8, 0x81u8, (0xC0 + extension * 8 + 4) as u8] + le32(size)
    } else {
        Seq::empty()
    }
}

/// The epilogue: the frame is released, the saved registers are popped in reverse order,
/// RBP is restored and the function returns.
pub open spec fn spec_epilogue(c: ContextView) -> Seq<u8> {
    frame_adjust(0, c.allocated_stack_size) + pop_seq(reversed(c.used_callee_saved)) + seq![
        0x5Du8,
        0xC3u8,
    ]
}

/// The state after looking at one statement before compilation: an assignment gets its
/// variable a location, and an `alloca` adds the size of its type to the memory to reserve.
pub open spec fn spec_prescan_statement(c: ContextView, statement: LocalStatement) -> ContextView {
    match statement {
        LocalStatement::Assignment(a) => {
            let c1 = spec_allocate(c, a.name.name@).0;
            match a.value {
                AssignmentStatementValue::Instruction(InstructionStatement::Alloca(alloca)) => ContextView {
                    pending_alloca_size: c1.pending_alloca_size.wrapping_add(
                        alloca.type_.spec_size() as i32,
                    ),
                    ..c1
                },
                _ => c1,
            }
        },
        _ => c,
    }
}

/// The state after looking at the first `n` statements.
pub open spec fn spec_prescan(c: ContextView, statements: Seq<LocalStatement>, n: nat) -> ContextView
    decreases n,
{
    if n == 0 {
        c
    } else {
        spec_prescan_statement(spec_prescan(c, statements, (n - 1) as nat), statements[n - 1])
    }
}

/// The prologue: `PUSH RBP; MOV RBP, RSP`, the saved registers in order, and the frame.
pub open spec fn spec_prologue(c: ContextView) -> Seq<u8> {
    seq![0x55u8, 0x48u8, 0x89u8, 0xE5u8] + push_seq(c.used_callee_saved) + frame_adjust(
        5,
        c.allocated_stack_size,
    )
}

/// Some label is referred to but not defined.
pub open spec fn has_undefined_label(c: ContextView) -> bool {
    exists|name: Seq<char>| c.labels.contains_key(name) && #[trigger] c.labels[name] is Undefined
}

/// The body ends with a return instruction.
pub open spec fn ends_with_return(statements: Seq<LocalStatement>) -> bool {
    statements.len() > 0 && statements.last() matches LocalStatement::Instruction(
        InstructionStatement::Return(_),
    )
}

/// A function: the body is scanned for variables and `alloca` memory, the prologue is
/// emitted, the statements are compiled, every referred label must be defined, a body
/// that does not end with a return gets `XOR EAX, EAX` and the epilogue, and the
/// function gets a global symbol covering its code.
pub open spec fn spec_compile_function(o: ObjectView, function: FunctionDefinition) -> Result<
    ObjectView,
    IRErrorKind,
> {
    let statements = function.function_body.statements@;
    let scanned = spec_prescan(initial_context(), statements, statements.len());
    let c1 = ContextView { allocated_stack_size: spec_required_stack_size(scanned), ..scanned };
    let o1 = o.emit(spec_prologue(c1));
    match spec_compile_statements(c1, o1, statements, statements.len()) {
        Err(k) => Err(k),
        Ok((c2, o2)) => if has_undefined_label(c2) {
            Err(IRErrorKind::LabelNotFound)
        } else {
            let o3 = if ends_with_return(statements) {
                o2
            } else {
                o2.emit(seq![0x31u8, 0xC0u8] + spec_epilogue(c2))
            };
            Ok(
                o3.add_symbol(
                    SymbolView {
                        name: function.function_name@,
                        section: SectionType::Text,
                        offset: o.text.len() as usize,
                        size: (o3.text.len() - o.text.len()) as usize,
                        symbol_type: SymbolType::Function,
                        binding: SymbolBinding::Global,
                    },
                ),
            )
        },
    }
}

/// The object a function leaves behind when it fails: the prologue and what the
/// statements left behind, or, when a label is missing, the whole body without the
/// closing epilogue and without the function's symbol.
pub open spec fn spec_function_failure(o: ObjectView, function: FunctionDefinition) -> ObjectView {
    let statements = function.function_body.statements@;
    let scanned = spec_prescan(initial_context(), statements, statements.len());
    let c1 = ContextView { allocated_stack_size: spec_required_stack_size(scanned), ..scanned };
    let o1 = o.emit(spec_prologue(c1));
    match spec_compile_statements(c1, o1, statements, statements.len()) {
        Err(_) => spec_statements_failure(c1, o1, statements, statements.len()).1,
        Ok((_, o2)) => o2,
    }
}

/// `a / b` rounded toward zero, as machine division does.
pub open spec fn trunc_div(a: int, b: int) -> int {
    if a >= 0 {
        a / b
    } else {
        -((-a) / b)
    }
}

/// Bytes of locals and `alloca` memory rounded up to a multiple of 16, plus 8 when an odd
/// number of registers is saved, so that the saved registers and the frame together keep
/// RSP 16-byte aligned (each step in 32-bit two's complement arithmetic).
pub open spec fn spec_required_stack_size(c: ContextView) -> i32 {
    let local_size: i32 = if c.stack_offset == 0 {
        0
    } else {
        0i32.wrapping_sub(c.stack_offset)
    };
    let total_local_size = local_size.wrapping_add(c.pending_alloca_size);
    let alignment_padding: i32 = if c.used_callee_saved.len() % 2 == 1 {
        8
    } else {
        0
    };
    let rounded: i32 = if total_local_size == 0 {
        0
    } else {
        (trunc_div(total_local_size.wrapping_add(15) as int, 16) as i32).wrapping_mul(16)
    };
    rounded.wrapping_add(alignment_padding)
}

/// The state of a function being compiled: where its variables live, which registers are
/// still free, how far the frame extends, and what is known of its labels.
#[derive(Debug)]
pub struct FunctionContext {
    pub variables: Vec<(String, VariableLocation)>,
    pub available_registers: Vec<Register>,
    pub stack_offset: i32,
    pub used_callee_saved: Vec<Register>,
    pub labels: Vec<(String, LabelLocation)>,
    pub allocated_stack_size: i32,
    pub pending_alloca_size: i32,
}

/// The value of a variable entry.
pub open spec fn location_of(l: VariableLocation) -> VariableLocation {
    l
}

/// The model of a label entry.
pub open spec fn label_view_of(l: LabelLocation) -> LabelView {
    l@
}

impl View for FunctionContext {
    type V = ContextView;

    open spec fn view(&self) -> ContextView {
        ContextView {
            variables: assoc_view(self.variables@, |l: VariableLocation| location_of(l)),
            available_registers: self.available_registers@,
            stack_offset: self.stack_offset,
            used_callee_saved: self.used_callee_saved@,
            labels: assoc_view(self.labels@, |l: LabelLocation| label_view_of(l)),
            allocated_stack_size: self.allocated_stack_size,
            pending_alloca_size: self.pending_alloca_size,
        }
    }
}

impl FunctionContext {
    /// No two variables and no two labels share a name.
    pub open spec fn wf(&self) -> bool {
        keys_distinct(self.variables@) && keys_distinct(self.labels@)
    }

    /// A context with no variables and no labels, and the five callee-saved registers free.
    pub fn new() -> (c: Self)
        ensures
            c.wf(),
            c@ == initial_context(),
    {
        let c = FunctionContext {
            variables: Vec::new(),
            available_registers: vec![
                Register::RBX,
                Register::R12,
                Register::R13,
                Register::R14,
                Register::R15,
            ],
            stack_offset: 0,
            used_callee_saved: Vec::new(),
            labels: Vec::new(),
            allocated_stack_size: 0,
            pending_alloca_size: 0,
        };
        assert(c@.variables =~= Map::empty());
        assert(c@.labels =~= Map::empty());
        assert(c@.available_registers =~= initial_registers());
        c
    }

    /// Gives `name` a location: the one it has, else the last free callee-saved register,
    /// else a new 8-byte stack slot.
    pub fn allocate_variable(&mut self, name: String) -> (loc: VariableLocation)
        requires
            old(self).wf(),
        ensures
            final(self).wf(),
            (final(self)@, loc) == spec_allocate(old(self)@, name@),
    {
        match find_key(&self.variables, name.as_str()) {
            Some(i) => {
                proof {
                    lemma_assoc_index(self.variables@, |l: VariableLocation| location_of(l), i as int);
                }
                self.variables[i].1
            },
            None => {
                let ghost f = |l: VariableLocation| location_of(l);
                proof {
                    lemma_assoc_absent(self.variables@, f, name@);
                    assert(!has_key(self.variables@, name@));
                    lemma_assoc_push(self.variables@, f, name, VariableLocation::Stack(0));
                }
                match self.available_registers.pop() {
                    Some(reg) => {
                        let loc = VariableLocation::Register(reg);
                        proof {
                            lemma_assoc_push(self.variables@, f, name, loc);
                        }
                        self.variables.push((name, loc));
                        self.used_callee_saved.push(reg);
                        loc
                    },
                    None => {
                        self.stack_offset = self.stack_offset.wrapping_sub(8);
                        let loc = VariableLocation::Stack(self.stack_offset);
                        proof {
                            lemma_assoc_push(self.variables@, f, name, loc);
                        }
                        self.variables.push((name, loc));
                        loc
                    },
                }
            },
        }
    }

    /// The location of the variable `name`, if it has one.
    pub fn get_variable(&self, name: &str) -> (loc: Option<&VariableLocation>)
        requires
            self.wf(),
        ensures
            match loc {
                Some(l) => self@.variables.contains_key(name@) && *l == self@.variables[name@],
                None => !self@.variables.contains_key(name@),
            },
    {
        match find_key(&self.variables, name) {
            Some(i) => {
                proof {
                    lemma_assoc_index(self.variables@, |l: VariableLocation| location_of(l), i as int);
                }
                Some(&self.variables[i].1)
            },
            None => {
                proof {
                    lemma_assoc_absent(self.variables@, |l: VariableLocation| location_of(l), name@);
                }
                None
            },
        }
    }

    /// Records that the label `label_name` stands at `offset`.
    pub fn define_label(&mut self, label_name: String, offset: usize)
        requires
            old(self).wf(),
        ensures
            final(self).wf(),
            final(self)@ == (ContextView {
                labels: old(self)@.labels.insert(label_name@, LabelView::Defined(offset)),
                ..old(self)@
            }),
    {
        let ghost f = |l: LabelLocation| label_view_of(l);
        match find_key(&self.labels, label_name.as_str()) {
            Some(i) => {
                proof {
                    lemma_assoc_update(self.labels@, f, i as int, label_name, LabelLocation::Defined(offset));
                }
                self.labels.set(i, (label_name, LabelLocation::Defined(offset)));
            },
            None => {
                proof {
                    lemma_assoc_absent(self.labels@, f, label_name@);
                    lemma_assoc_push(self.labels@, f, label_name, LabelLocation::Defined(offset));
                }
                self.labels.push((label_name, LabelLocation::Defined(offset)));
            },
        }
        assert(self@.labels == old(self)@.labels.insert(label_name@, LabelView::Defined(offset)));
    }

    /// Records that the jump whose opcode stands at `jump_offset` refers to `label_name`.
    /// A label that is already defined is left as it is.
    pub fn add_label_reference(&mut self, label_name: String, jump_offset: usize)
        requires
            old(self).wf(),
        ensures
            final(self).wf(),
            final(self)@ == (ContextView {
                labels: spec_add_label_reference(old(self)@.labels, label_name@, jump_offset),
                ..old(self)@
            }),
    {
        let ghost f = |l: LabelLocation| label_view_of(l);
        match find_key(&self.labels, label_name.as_str()) {
            Some(i) => {
                proof {
                    lemma_assoc_index(self.labels@, f, i as int);
                }
                let is_defined = match &self.labels[i].1 {
                    LabelLocation::Defined(_) => true,
                    LabelLocation::Undefined(_) => false,
                };
                if !is_defined {
                    let ghost old_refs = match self.labels@[i as int].1 {
                        LabelLocation::Undefined(refs) => refs@,
                        LabelLocation::Defined(_) => Seq::empty(),
                    };
                    let mut refs: Vec<usize> = Vec::new();
                    let mut k: usize = 0;
                    let n = match &self.labels[i].1 {
                        LabelLocation::Undefined(r) => r.len(),
                        LabelLocation::Defined(_) => 0,
                    };
                    while k < n
                        invariant
                            i < self.labels@.len(),
                            self.labels@ == old(self).labels@,
                            self.labels@[i as int].1 matches LabelLocation::Undefined(r) && r@ == old_refs,
                            n == old_refs.len(),
                            0 <= k <= n,
                            refs@ == old_refs.subrange(0, k as int),
                        decreases n - k,
                    {
                        let v = match &self.labels[i].1 {
                            LabelLocation::Undefined(r) => r[k],
                            LabelLocation::Defined(_) => 0,
                        };
                        refs.push(v);
                        k = k + 1;
                        assert(refs@ =~= old_refs.subrange(0, k as int));
                    }
                    refs.push(jump_offset);
                    assert(refs@ =~= old_refs.push(jump_offset));
                    proof {
                        lemma_assoc_update(self.labels@, f, i as int, label_name, LabelLocation::Undefined(refs));
                    }
                    self.labels.set(i, (label_name, LabelLocation::Undefined(refs)));
                }
            },
            None => {
                let mut refs: Vec<usize> = Vec::new();
                refs.push(jump_offset);
                assert(refs@ =~= seq![jump_offset]);
                proof {
                    lemma_assoc_absent(self.labels@, f, label_name@);
                    lemma_assoc_push(self.labels@, f, label_name, LabelLocation::Undefined(refs));
                }
                self.labels.push((label_name, LabelLocation::Undefined(refs)));
            },
        }
    }

    /// What is known of the label `label_name`, if anything.
    pub fn get_label_location(&self, label_name: &str) -> (loc: Option<&LabelLocation>)
        requires
            self.wf(),
        ensures
            match loc {
                Some(l) => self@.labels.contains_key(label_name@) && l@ == self@.labels[label_name@],
                None => !self@.labels.contains_key(label_name@),
            },
    {
        match find_key(&self.labels, label_name) {
            Some(i) => {
                proof {
                    lemma_assoc_index(self.labels@, |l: LabelLocation| label_view_of(l), i as int);
                }
                Some(&self.labels[i].1)
            },
            None => {
                proof {
                    lemma_assoc_absent(self.labels@, |l: LabelLocation| label_view_of(l), label_name@);
                }
                None
            },
        }
    }

    /// Size of the frame that the prologue reserves below the saved registers: locals and
    /// `alloca` memory rounded up to a multiple of 16, plus 8 bytes when an odd number of
    /// registers is saved. RSP is then 16-byte aligned at every call the function makes:
    /// the return address and RBP take 16 bytes, the saved registers 8 each.
    pub fn required_stack_size(&self) -> (size: i32)
        ensures
            size == spec_required_stack_size(self@),
    {
        let local_size: i32 = if self.stack_offset == 0 {
            0
        } else {
            0i32.wrapping_sub(self.stack_offset)
        };
        let total_local_size = local_size.wrapping_add(self.pending_alloca_size);
        let callee_saved_count = self.used_callee_saved.len();
        let alignment_padding: i32 = if callee_saved_count % 2 == 1 {
            8
        } else {
            0
        };
        let rounded: i32 = if total_local_size == 0 {
            0
        } else {
            let quotient = total_local_size.wrapping_add(15) / 16;
            assert(quotient == trunc_div(total_local_size.wrapping_add(15) as int, 16));
            quotient.wrapping_mul(16)
        };
        rounded.wrapping_add(alignment_padding)
    }
}

/// Registers and stack slots of a frame are handed out without clashes: the free registers
/// are distinct and held by no variable, stack variables lie at or above the current stack
/// offset, and no two variables share a location.
pub open spec fn frame_consistent(c: ContextView) -> bool {
    &&& forall|i: int, j: int|
        0 <= i < j < c.available_registers.len() ==> c.available_registers[i]
            != c.available_registers[j]
    &&& forall|k: Seq<char>|
        #![trigger c.variables[k]]
        c.variables.contains_key(k) ==> match c.variables[k] {
            VariableLocation::Register(r) => !c.available_registers.contains(r),
            VariableLocation::Stack(offset) => offset >= c.stack_offset,
        }
    &&& forall|k1: Seq<char>, k2: Seq<char>|
        #![trigger c.variables[k1], c.variables[k2]]
        c.variables.contains_key(k1) && c.variables.contains_key(k2) && k1 != k2 ==> c.variables[k1]
            != c.variables[k2]
}

/// A fresh context hands out locations without clashes.
pub proof fn lemma_initial_frame_consistent()
    ensures
        frame_consistent(initial_context()),
{
}

/// The free and the saved registers together, as a multiset.
pub open spec fn register_pool(c: ContextView) -> vstd::multiset::Multiset<Register> {
    c.available_registers.to_multiset().add(c.used_callee_saved.to_multiset())
}

/// A fresh context's free and saved registers are RBX and R12 to R15, each once.
pub proof fn lemma_initial_register_pool()
    ensures
        register_pool(initial_context()) == initial_registers().to_multiset(),
{
    broadcast use vstd::seq_lib::group_to_multiset_ensures;

    assert(Seq::<Register>::empty().to_multiset() =~= vstd::multiset::Multiset::empty());
    assert(register_pool(initial_context()) =~= initial_registers().to_multiset());
}

/// Allocation law: allocating a variable is idempotent, and a variable that is new gets a
/// location that no other variable has, keeping the frame free of clashes (as long as the
/// stack offset does not wrap around); the free and saved registers together stay the
/// same registers (starting from a fresh context: RBX and R12 to R15, each once).
pub proof fn lemma_allocation_fresh(c: ContextView, name: Seq<char>)
    requires
        frame_consistent(c),
        c.stack_offset >= i32::MIN + 8,
    ensures
        ({
            let (c1, loc) = spec_allocate(c, name);
            &&& c1.variables.contains_key(name)
            &&& c1.variables[name] == loc
            &&& spec_allocate(c1, name) == (c1, loc)
            &&& frame_consistent(c1)
            &&& !c.variables.contains_key(name) ==> forall|k: Seq<char>|
                #[trigger] c.variables.contains_key(k) ==> c.variables[k] != loc
            &&& c.variables.contains_key(name) ==> c1 == c
            &&& register_pool(c1) == register_pool(c)
        }),
{
    broadcast use vstd::seq_lib::group_to_multiset_ensures;

    let (c1, loc) = spec_allocate(c, name);
    if !c.variables.contains_key(name) && c.available_registers.len() > 0 {
        let avail = c.available_registers;
        assert(avail =~= avail.drop_last().push(avail.last()));
        assert(register_pool(c1) =~= register_pool(c));
    }
    if !c.variables.contains_key(name) {
        if c.available_registers.len() > 0 {
            let reg = c.available_registers.last();
            let n = c.available_registers.len() - 1;
            assert forall|k: Seq<char>| #[trigger] c.variables.contains_key(k) implies c.variables[k]
                != loc by {
                match c.variables[k] {
                    VariableLocation::Register(r) => {
                        assert(c.available_registers[n] == reg);
                    },
                    VariableLocation::Stack(_) => {},
                }
            }
            assert forall|k: Seq<char>| #[trigger] c1.variables.contains_key(k) implies match c1.variables[k] {
                VariableLocation::Register(r) => !c1.available_registers.contains(r),
                VariableLocation::Stack(offset) => offset >= c1.stack_offset,
            } by {
                if k == name {
                    if c1.available_registers.contains(reg) {
                        let i = choose|i: int| 0 <= i < c1.available_registers.len() && c1.available_registers[i] == reg;
                        assert(c.available_registers[i] == c.available_registers[n]);
                    }
                } else {
                    match c.variables[k] {
                        VariableLocation::Register(r) => {
                            if c1.available_registers.contains(r) {
                                let i = choose|i: int| 0 <= i < c1.available_registers.len() && c1.available_registers[i] == r;
                                assert(c.available_registers[i] == r);
                            }
                        },
                        VariableLocation::Stack(_) => {},
                    }
                }
            }
        } else {
            assert forall|k: Seq<char>| #[trigger] c.variables.contains_key(k) implies c.variables[k]
                != loc by {
                match c.variables[k] {
                    VariableLocation::Register(r) => {},
                    VariableLocation::Stack(offset) => {},
                }
            }
        }
    }
}

/// The context after allocating `names`, in order, starting from a fresh one.
pub open spec fn allocate_all(names: Seq<Seq<char>>) -> ContextView
    decreases names.len(),
{
    if names.len() == 0 {
        initial_context()
    } else {
        spec_allocate(allocate_all(names.drop_last()), names.last()).0
    }
}

/// A context built by allocations from a fresh one hands out locations without clashes,
/// keeps RBX and R12 to R15 as its free and saved registers, and has used at most 8
/// bytes of stack per allocation.
proof fn lemma_allocate_all_invariant(names: Seq<Seq<char>>)
    requires
        names.len() < 0x1000_0000,
    ensures
        frame_consistent(allocate_all(names)),
        register_pool(allocate_all(names)) == initial_registers().to_multiset(),
        allocate_all(names).stack_offset >= -8 * names.len(),
        allocate_all(names).stack_offset <= 0,
    decreases names.len(),
{
    if names.len() == 0 {
        lemma_initial_frame_consistent();
        lemma_initial_register_pool();
    } else {
        let prefix = names.drop_last();
        lemma_allocate_all_invariant(prefix);
        lemma_allocation_fresh(allocate_all(prefix), names.last());
    }
}

/// Allocation law for contexts built from a fresh one: whatever variables were allocated
/// before (fewer than 2^28 of them, so that the stack offset cannot wrap), allocating
/// `name` gives it a location that the context then records; allocating it again changes
/// nothing; a new variable gets a location no other variable has; and the free and saved
/// registers stay RBX and R12 to R15, each once.
pub proof fn lemma_allocations_from_new(names: Seq<Seq<char>>, name: Seq<char>)
    requires
        names.len() < 0x1000_0000,
    ensures
        ({
            let c = allocate_all(names);
            let (c1, loc) = spec_allocate(c, name);
            &&& frame_consistent(c1)
            &&& c1.variables.contains_key(name)
            &&& c1.variables[name] == loc
            &&& spec_allocate(c1, name) == (c1, loc)
            &&& !c.variables.contains_key(name) ==> forall|k: Seq<char>|
                #[trigger] c.variables.contains_key(k) ==> c.variables[k] != loc
            &&& c.variables.contains_key(name) ==> c1 == c
            &&& register_pool(c1) == initial_registers().to_multiset()
        }),
{
    lemma_allocate_all_invariant(names);
    lemma_allocation_fresh(allocate_all(names), name);
}

/// Frame law: as long as the frame bookkeeping stays within 32 bits, the frame that the
/// prologue reserves covers the locals and the `alloca` memory, with less than 16 bytes
/// to spare beyond the 8 bytes of padding an odd number of saved registers needs, and
/// the saved registers (8 bytes each) and the frame together keep RSP 16-byte aligned at
/// every call the function makes, whatever the number of saved registers.
pub proof fn lemma_required_stack_size(c: ContextView)
    requires
        c.stack_offset <= 0,
        c.pending_alloca_size >= 0,
        c.pending_alloca_size - c.stack_offset + 15 + 8 <= i32::MAX,
    ensures
        ({
            let size = spec_required_stack_size(c) as int;
            let padding: int = if c.used_callee_saved.len() % 2 == 1 {
                8
            } else {
                0
            };
            let locals = c.pending_alloca_size - c.stack_offset;
            &&& (size - padding) % 16 == 0
            &&& locals <= size - padding < locals + 16
            &&& (8 * c.used_callee_saved.len() + size) % 16 == 0
        }),
{
    let n = c.used_callee_saved.len();
    let locals = c.pending_alloca_size - c.stack_offset;
    if locals > 0 {
        let q = (locals + 15) / 16;
        assert(q * 16 <= locals + 15 < q * 16 + 16);
    }
    assert((8 * n) % 16 == 8 * (n % 2)) by (nonlinear_arith);
}

/// Position of a label that is referred to but not defined, if there is one.
fn find_undefined_label(context: &FunctionContext) -> (found: Option<usize>)
    requires
        context.wf(),
    ensures
        match found {
            Some(i) => i < context.labels@.len() && context.labels@[i as int].1 is Undefined,
            None => !has_undefined_label(context@),
        },
{
    let mut i: usize = 0;
    while i < context.labels.len()
        invariant
            0 <= i <= context.labels@.len(),
            forall|j: int| 0 <= j < i ==> context.labels@[j].1 is Defined,
        decreases context.labels@.len() - i,
    {
        match &context.labels[i].1 {
            LabelLocation::Undefined(_) => {
                return Some(i);
            },
            LabelLocation::Defined(_) => {},
        }
        i = i + 1;
    }
    proof {
        let f = |l: LabelLocation| label_view_of(l);
        assert forall|name: Seq<char>| #[trigger] context@.labels.contains_key(name) implies !(
        context@.labels[name] is Undefined) by {
            let k = choose|k: int| 0 <= k < context.labels@.len() && #[trigger] context.labels@[k].0@
                == name;
            lemma_assoc_index(context.labels@, f, k);
        }
    }
    None
}

/// Looks at the statements before compilation: assignments get their variables a location
/// and `alloca` sizes are added up.
fn prescan_statements(statements: &[LocalStatement], context: &mut FunctionContext)
    requires
        old(context).wf(),
    ensures
        final(context).wf(),
        final(context)@ == spec_prescan(old(context)@, statements@, statements@.len()),
        final(context)@.labels == old(context)@.labels,
{
    let mut i: usize = 0;
    while i < statements.len()
        invariant
            0 <= i <= statements@.len(),
            context.wf(),
            context@ == spec_prescan(old(context)@, statements@, i as nat),
            context@.labels == old(context)@.labels,
        decreases statements@.len() - i,
    {
        match &statements[i] {
            LocalStatement::Assignment(assignment) => {
                let var_name = assignment.name.name.clone();
                context.allocate_variable(var_name);
                match &assignment.value {
                    AssignmentStatementValue::Instruction(InstructionStatement::Alloca(alloca_inst)) => {
                        let type_size = alloca_inst.type_.size_in_bytes();
                        context.pending_alloca_size = context.pending_alloca_size.wrapping_add(
                            type_size as i32,
                        );
                    },
                    _ => {},
                }
            },
            _ => {},
        }
        i = i + 1;
    }
}

/// Compiles a function into the object: prologue, body, epilogue and symbol.
pub fn compile_function(function: &FunctionDefinition, object: &mut ELFObject) -> (r: Result<
    (),
    IRError,
>)
    ensures
        r is Err ==> final(object)@ == spec_function_failure(old(object)@, *function),
        match r {
            Ok(()) => spec_compile_function(old(object)@, *function) == Ok::<ObjectView, IRErrorKind>(
                final(object)@,
            ),
            Err(e) => spec_compile_function(old(object)@, *function) == Err::<
                ObjectView,
                IRErrorKind,
            >(e.kind),
        },
        r is Ok ==> old(object)@.text.len() <= final(object)@.text.len(),
{
    let function_start_offset = object.text_len();
    let statements = function.function_body.statements.as_slice();
    let mut context = FunctionContext::new();
    prescan_statements(statements, &mut context);
    object.emit(PUSH + Register::RBP.number());
    object.emit(REX_W);
    object.emit(MOV);
    object.emit(modrm_reg_reg(Register::RSP, Register::RBP));
    let ghost after_frame_pointer = object@;
    let ghost regs = context@.used_callee_saved;
    let n = context.used_callee_saved.len();
    let mut i: usize = 0;
    while i < n
        invariant
            n == regs.len(),
            regs == context@.used_callee_saved,
            0 <= i <= n,
            object@ == after_frame_pointer.emit(push_seq(regs.subrange(0, i as int))),
        decreases n - i,
    {
        let reg = context.used_callee_saved[i];
        let ghost before = object@;
        if reg.requires_rex() {
            object.emit(REX_B);
        }
        let number = reg.number();
        assert(number & 7u8 == number % 8) by (bit_vector);
        object.emit(PUSH + (number & REG_NUMBER_MASK));
        proof {
            assert(object@ =~= before.emit(push_bytes(reg)));
            assert(regs.subrange(0, i + 1).drop_last() =~= regs.subrange(0, i as int));
            assert(object@.text =~= after_frame_pointer.emit(push_seq(regs.subrange(0, i + 1))).text);
        }
        i = i + 1;
    }
    proof {
        assert(regs.subrange(0, n as int) =~= regs);
    }
    let stack_size = context.required_stack_size();
    context.allocated_stack_size = stack_size;
    if stack_size > 0 {
        object.emit(REX_W);
        object.emit(ALU_RM64_IMM32);
        object.emit(modrm_digit_rsp(OPCODE_EXT_SUB));
        emit_le32(object, stack_size);
    }
    let ghost c1 = context@;
    let ghost o1 = object@;
    assert(o1.text =~= old(object)@.emit(spec_prologue(c1)).text);
    assert(o1 == old(object)@.emit(spec_prologue(c1)));
    assert(refs_fit(context@.labels, object@.text.len()));
    compile_statements(statements, &mut context, object)?;
    match find_undefined_label(&context) {
        Some(i) => {
            proof {
                lemma_assoc_index(context.labels@, |l: LabelLocation| label_view_of(l), i as int);
            }
            return Err(
                IRError::with_message(
                    IRErrorKind::LabelNotFound,
                    concat3(
                        "Label '",
                        context.labels[i].0.as_str(),
                        "' is referenced but never defined",
                    ),
                ),
            );
        },
        None => {},
    }
    let count = statements.len();
    let has_explicit_return = count > 0 && matches!(
        statements[count - 1],
        LocalStatement::Instruction(InstructionStatement::Return(_))
    );
    if !has_explicit_return {
        let ghost o2 = object@;
        object.emit(XOR);
        object.emit(modrm_reg_reg(Register::RAX, Register::RAX));
        generate_epilogue(&context, object);
        assert(object@.text =~= o2.emit(seq![0x31u8, 0xC0u8] + spec_epilogue(context@)).text);
    }
    let function_end_offset = object.text_len();
    let function_size = function_end_offset - function_start_offset;
    object.add_symbol(
        Symbol {
            name: function.function_name.clone(),
            section: SectionType::Text,
            offset: function_start_offset,
            size: function_size,
            symbol_type: SymbolType::Function,
            binding: SymbolBinding::Global,
        },
    );
    Ok(())
}

/// Appends the epilogue: release of the frame, restoring of the callee-saved registers in
/// reverse order, `POP RBP` and `RET`.
pub fn generate_epilogue(context: &FunctionContext, object: &mut ELFObject)
    ensures
        final(object)@ == old(object)@.emit(spec_epilogue(context@)),
{
    let stack_size = context.allocated_stack_size;
    if stack_size > 0 {
        object.emit(REX_W);
        object.emit(ALU_RM64_IMM32);
        object.emit(modrm_digit_rsp(OPCODE_EXT_ADD));
        emit_le32(object, stack_size);
    }
    assert(object@ =~= old(object)@.emit(frame_adjust(0, stack_size)));
    let ghost after_frame = object@;
    let ghost regs = context@.used_callee_saved;
    let n = context.used_callee_saved.len();
    let mut i: usize = 0;
    while i < n
        invariant
            n == regs.len(),
            regs == context@.used_callee_saved,
            0 <= i <= n,
            object@ == after_frame.emit(pop_seq(reversed(regs).subrange(0, i as int))),
        decreases n - i,
    {
        let reg = context.used_callee_saved[n - 1 - i];
        let ghost before = object@;
        if reg.requires_rex() {
            object.emit(REX_B);
        }
        let number = reg.number();
        assert(number & 7u8 == number % 8) by (bit_vector);
        object.emit(POP + (number & REG_NUMBER_MASK));
        proof {
            assert(object@ =~= before.emit(pop_bytes(reg)));
            let r = reversed(regs);
            assert(r.subrange(0, i + 1).drop_last() =~= r.subrange(0, i as int));
            assert(r.subrange(0, i + 1).last() == reg);
            assert(pop_seq(r.subrange(0, i + 1)) == pop_seq(r.subrange(0, i as int)) + pop_bytes(reg));
            assert(object@.text =~= after_frame.emit(pop_seq(r.subrange(0, i + 1))).text);
        }
        i = i + 1;
    }
    proof {
        assert(reversed(regs).subrange(0, n as int) =~= reversed(regs));
    }
    object.emit(POP + Register::RBP.number());
    object.emit(RET);
    assert(object@.text =~= old(object)@.emit(spec_epilogue(context@)).text);
}

} // verus!
