use vstd::bytes::{
    lemma_auto_spec_u32_to_from_le_bytes, spec_u32_from_le_bytes, spec_u32_to_le_bytes, u32_to_le_bytes,
};
use vstd::prelude::*;

use crate::ir::ast::local::instruction::branch::{BranchInstruction, JumpInstruction};
use crate::ir::ast::local::label::LabelDefinition;
use crate::ir::compile::linux_amd64::common::{emit_le32, le32, load_operand_to_register, spec_load_operand};
use crate::ir::compile::linux_amd64::function::{
    lemma_refs_fit_grow, refs_fit, refs_ordered, spec_add_label_reference, ContextView, FunctionContext, LabelLocation, LabelView,
};
use crate::ir::error::{concat3, IRError, IRErrorKind};
use crate::platforms::amd64::instruction::{JMP, JNZ_REL32, TEST, TWO_BYTE_ESCAPE};
use crate::platforms::amd64::register::{modrm_reg_reg, Register};
use crate::platforms::amd64::rex::REX_W;
use crate::platforms::linux::elf::object::{ELFObject, ObjectView};

verus! {

/// The 32-bit displacement from the end of a displacement field at `disp` to `target`
/// (in 32-bit two's complement arithmetic).
pub open spec fn rel32(target: usize, disp: usize) -> i32 {
    (target as i32).wrapping_sub(disp.wrapping_add(4) as i32)
}

/// The text with the displacement of the jump whose opcode is at `jump_offset` pointed at
/// `target`.
pub open spec fn patch_one(text: Seq<u8>, jump_offset: usize, target: usize) -> Seq<u8> {
    text.subrange(0, jump_offset + 1) + le32(rel32(target, (jump_offset + 1) as usize))
        + text.subrange(jump_offset + 5, text.len() as int)
}

/// The text with every jump of `refs` pointed at `target`, in order.
pub open spec fn patch_all(text: Seq<u8>, refs: Seq<usize>, target: usize) -> Seq<u8>
    decreases refs.len(),
{
    if refs.len() == 0 {
        text
    } else {
        patch_one(patch_all(text, refs.drop_last(), target), refs.last(), target)
    }
}

/// Patching jumps that lie inside the text keeps its length.
pub proof fn lemma_patch_all_len(text: Seq<u8>, refs: Seq<usize>, target: usize)
    requires
        forall|i: int| 0 <= i < refs.len() ==> refs[i] + 5 <= text.len(),
    ensures
        patch_all(text, refs, target).len() == text.len(),
    decreases refs.len(),
{
    if refs.len() > 0 {
        lemma_patch_all_len(text, refs.drop_last(), target);
        lemma_auto_spec_u32_to_from_le_bytes();
    }
}

/// A label definition: an error when the label is already defined; otherwise the pending
/// jumps to it are patched to the current end of the text, and it is recorded as defined
/// there.
#[verifier::opaque]
pub open spec fn spec_compile_label_definition(c: ContextView, o: ObjectView, name: Seq<char>) -> Result<
    (ContextView, ObjectView),
    IRErrorKind,
> {
    let here = o.text.len() as usize;
    if c.labels.contains_key(name) && c.labels[name] is Defined {
        Err(IRErrorKind::LabelAlreadyDefined)
    } else {
        let text = if c.labels.contains_key(name) {
            match c.labels[name] {
                LabelView::Undefined(refs) => patch_all(o.text, refs, here),
                LabelView::Defined(_) => o.text,
            }
        } else {
            o.text
        };
        Ok(
            (
                ContextView { labels: c.labels.insert(name, LabelView::Defined(here)), ..c },
                ObjectView { text, ..o },
            ),
        )
    }
}

/// A jump to a label: the opcode bytes, then the displacement to the label when it is
/// defined, else a zero placeholder and a pending reference at the last opcode byte.
#[verifier::opaque]
pub open spec fn spec_jump_to_label(
    c: ContextView,
    o: ObjectView,
    opcode: Seq<u8>,
    name: Seq<char>,
) -> (ContextView, ObjectView) {
    let o1 = o.emit(opcode);
    let disp = o1.text.len() as usize;
    if c.labels.contains_key(name) && c.labels[name] is Defined {
        (c, o1.emit(le32(rel32(c.labels[name]->Defined_0, disp))))
    } else {
        (
            ContextView {
                labels: spec_add_label_reference(c.labels, name, (o1.text.len() - 1) as usize),
                ..c
            },
            o1.emit(seq![0u8, 0u8, 0u8, 0u8]),
        )
    }
}

/// `JMP rel32` to the label.
pub open spec fn spec_compile_jump(c: ContextView, o: ObjectView, instruction: JumpInstruction) -> (
    ContextView,
    ObjectView,
) {
    spec_jump_to_label(c, o, seq![0xE9u8], instruction.label.name@)
}

/// A branch: the condition is loaded into RAX and tested; `JNZ` goes to the true label and
/// a `JMP` after it to the false label.
#[verifier::opaque]
pub open spec fn spec_compile_branch(c: ContextView, o: ObjectView, instruction: BranchInstruction) -> Result<
    (ContextView, ObjectView),
    IRErrorKind,
> {
    match spec_load_operand(c, o, instruction.condition, Register::RAX) {
        Err(k) => Err(k),
        Ok(o1) => {
            let o2 = o1.emit(seq![0x48u8, 0x85u8, 0xC0u8]);
            let (c3, o3) = spec_jump_to_label(c, o2, seq![0x0Fu8, 0x85u8], instruction.true_label.name@);
            Ok(spec_jump_to_label(c3, o3, seq![0xE9u8], instruction.false_label.name@))
        },
    }
}


/// Whether `p` lies in the displacement field of the jump whose opcode is at `jump_offset`.
pub open spec fn in_window(p: int, jump_offset: usize) -> bool {
    jump_offset + 1 <= p < jump_offset + 5
}

/// The jumps of `refs` lie inside the text and their displacement fields do not overlap.
pub open spec fn jumps_disjoint(refs: Seq<usize>, len: nat) -> bool {
    &&& forall|i: int| 0 <= i < refs.len() ==> refs[i] + 5 <= len
    &&& forall|i: int, j: int|
        0 <= i < refs.len() && 0 <= j < refs.len() && i != j ==> refs[i] + 5 <= refs[j] || refs[j]
            + 5 <= refs[i]
}

/// Patching writes each displacement field and leaves every other byte alone.
proof fn lemma_patch_all_bytes(text: Seq<u8>, refs: Seq<usize>, target: usize)
    requires
        jumps_disjoint(refs, text.len()),
    ensures
        patch_all(text, refs, target).len() == text.len(),
        forall|i: int, p: int|
            #![trigger in_window(p, refs[i]), patch_all(text, refs, target)[p]]
            0 <= i < refs.len() && in_window(p, refs[i]) ==> patch_all(text, refs, target)[p]
                == le32(rel32(target, (refs[i] + 1) as usize))[p - refs[i] - 1],
        forall|p: int|
            0 <= p < text.len() && (forall|i: int| 0 <= i < refs.len() ==> !in_window(p, refs[i]))
                ==> #[trigger] patch_all(text, refs, target)[p] == text[p],
    decreases refs.len(),
{
    lemma_auto_spec_u32_to_from_le_bytes();
    if refs.len() > 0 {
        let prefix = refs.drop_last();
        let j = refs.last();
        assert(jumps_disjoint(prefix, text.len())) by {
            assert forall|a: int, b: int|
                0 <= a < prefix.len() && 0 <= b < prefix.len() && a != b implies prefix[a] + 5
                <= prefix[b] || prefix[b] + 5 <= prefix[a] by {
                assert(prefix[a] == refs[a] && prefix[b] == refs[b]);
            }
        }
        lemma_patch_all_bytes(text, prefix, target);
        let before = patch_all(text, prefix, target);
        let after = patch_all(text, refs, target);
        assert(after == patch_one(before, j, target));
        assert forall|i: int, p: int|
            #![trigger in_window(p, refs[i]), after[p]]
            0 <= i < refs.len() && in_window(p, refs[i]) implies after[p] == le32(
            rel32(target, (refs[i] + 1) as usize),
        )[p - refs[i] - 1] by {
            if i < refs.len() - 1 {
                assert(refs[i] + 5 <= j || j + 5 <= refs[i]);
                assert(prefix[i] == refs[i]);
                assert(in_window(p, prefix[i]));
                assert(before[p] == le32(rel32(target, (prefix[i] + 1) as usize))[p - prefix[i] - 1]);
            }
        }
        assert forall|p: int|
            0 <= p < text.len() && (forall|i: int| 0 <= i < refs.len() ==> !in_window(p, refs[i]))
                implies #[trigger] after[p] == text[p] by {
            assert(!in_window(p, refs[refs.len() - 1]));
            assert forall|i: int| 0 <= i < prefix.len() implies !in_window(p, prefix[i]) by {
                assert(prefix[i] == refs[i]);
            }
            assert(before[p] == text[p]);
        }
    }
}

/// A 32-bit value written little-endian reads back as itself.
proof fn lemma_le32_roundtrip(v: i32)
    ensures
        le32(v).len() == 4,
        spec_u32_from_le_bytes(le32(v)) as i32 == v,
{
    lemma_auto_spec_u32_to_from_le_bytes();
    let u = v as u32;
    assert(spec_u32_to_le_bytes(u).len() == 4);
    assert(spec_u32_from_le_bytes(spec_u32_to_le_bytes(u)) == u);
    assert((u as i32) == v) by (bit_vector)
        requires
            u == v as u32,
    ;
}

/// Jump law (forward): defining a label points every jump that waited for it at the label.
/// Read back as a little-endian 32-bit value, the displacement of each such jump is the
/// distance from the end of the jump to the label; every other byte of the code stays as
/// it was (for code shorter than 2^31 bytes).
pub proof fn lemma_forward_jumps_patched(c: ContextView, o: ObjectView, name: Seq<char>)
    requires
        c.labels.contains_key(name),
        c.labels[name] is Undefined,
        jumps_disjoint(c.labels[name]->Undefined_0, o.text.len()),
        o.text.len() <= i32::MAX,
    ensures
        ({
            let refs = c.labels[name]->Undefined_0;
            let result = spec_compile_label_definition(c, o, name);
            &&& result is Ok
            &&& result->Ok_0.1.text.len() == o.text.len()
            &&& result->Ok_0.0.labels[name] == LabelView::Defined(o.text.len() as usize)
            &&& forall|i: int|
                0 <= i < refs.len() ==> spec_u32_from_le_bytes(
                    #[trigger] result->Ok_0.1.text.subrange(refs[i] + 1, refs[i] + 5),
                ) as i32 == o.text.len() - (refs[i] + 5)
            &&& forall|p: int|
                0 <= p < o.text.len() && (forall|i: int| 0 <= i < refs.len() ==> !in_window(p, refs[i]))
                    ==> #[trigger] result->Ok_0.1.text[p] == o.text[p]
        }),
{
    reveal(spec_compile_label_definition);
    let refs = c.labels[name]->Undefined_0;
    let here = o.text.len() as usize;
    lemma_patch_all_bytes(o.text, refs, here);
    let text = patch_all(o.text, refs, here);
    assert forall|i: int| 0 <= i < refs.len() implies spec_u32_from_le_bytes(
        #[trigger] text.subrange(refs[i] + 1, refs[i] + 5),
    ) as i32 == o.text.len() - (refs[i] + 5) by {
        let rel = rel32(here, (refs[i] + 1) as usize);
        lemma_le32_roundtrip(rel);
        assert forall|p: int| refs[i] + 1 <= p < refs[i] + 5 implies text[p] == le32(rel)[p - refs[i] - 1] by {
            assert(in_window(p, refs[i]));
        }
        assert(text.subrange(refs[i] + 1, refs[i] + 5) =~= le32(rel));
    }
}

/// Jump law (backward): a jump to a label that is already defined carries, read back as a
/// little-endian 32-bit value, the distance from the end of the jump to the label, and
/// leaves the labels as they were (for code shorter than 2^31 bytes).
pub proof fn lemma_backward_jump(c: ContextView, o: ObjectView, opcode: Seq<u8>, name: Seq<char>)
    requires
        c.labels.contains_key(name),
        c.labels[name] is Defined,
        c.labels[name]->Defined_0 <= i32::MAX,
        o.text.len() + opcode.len() + 4 <= i32::MAX,
    ensures
        ({
            let (c1, o1) = spec_jump_to_label(c, o, opcode, name);
            let d = o.text.len() + opcode.len();
            &&& c1 == c
            &&& o1.text.len() == d + 4
            &&& o1.text.subrange(0, d as int) == o.text + opcode
            &&& spec_u32_from_le_bytes(o1.text.subrange(d as int, d + 4int)) as i32 == c.labels[name]->Defined_0
                - (d + 4)
        }),
{
    reveal(spec_jump_to_label);
    let d = o.text.len() + opcode.len();
    let rel = rel32(c.labels[name]->Defined_0, d as usize);
    lemma_le32_roundtrip(rel);
    let (c1, o1) = spec_jump_to_label(c, o, opcode, name);
    assert(o1.text =~= o.text + opcode + le32(rel));
    assert(o1.text.subrange(0, d as int) =~= o.text + opcode);
    assert(o1.text.subrange(d as int, d + 4int) =~= le32(rel));
}

/// Defines a label at the current end of the text and patches the jumps that were waiting
/// for it.
pub fn compile_label_definition(
    label_definition: &LabelDefinition,
    context: &mut FunctionContext,
    object: &mut ELFObject,
) -> (r: Result<(), IRError>)
    requires
        old(context).wf(),
        ({
            let name = label_definition.name.name@;
            old(context)@.labels.contains_key(name) && old(context)@.labels[name] is Undefined
                ==> forall|i: int|
                0 <= i < old(context)@.labels[name]->Undefined_0.len()
                    ==> old(context)@.labels[name]->Undefined_0[i] + 5 <= old(object)@.text.len()
        }),
    ensures
        r is Err ==> final(object)@ == old(object)@ && *final(context) == *old(context),
        final(context).wf(),
        match r {
            Ok(()) => spec_compile_label_definition(
                old(context)@,
                old(object)@,
                label_definition.name.name@,
            ) == Ok::<(ContextView, ObjectView), IRErrorKind>((final(context)@, final(object)@)),
            Err(e) => spec_compile_label_definition(
                old(context)@,
                old(object)@,
                label_definition.name.name@,
            ) == Err::<(ContextView, ObjectView), IRErrorKind>(e.kind),
        },
        r is Ok ==> final(object)@.text.len() == old(object)@.text.len(),
        r is Ok && refs_fit(old(context)@.labels, old(object)@.text.len()) ==> refs_fit(
            final(context)@.labels,
            final(object)@.text.len(),
        ),
        refs_ordered(old(context)@.labels) ==> refs_ordered(final(context)@.labels),
        r is Err ==> r->Err_0.message@ == "Label '"@ + label_definition.name.name@
            + "' is already defined"@,
        ({
            let name = label_definition.name.name@;
            (r is Ok && old(object)@.text.len() <= i32::MAX && refs_ordered(old(context)@.labels)
                && old(context)@.labels.contains_key(name) && old(context)@.labels[name] is Undefined)
                ==> {
                let refs = old(context)@.labels[name]->Undefined_0;
                forall|i: int|
                    0 <= i < refs.len() ==> spec_u32_from_le_bytes(
                        #[trigger] final(object)@.text.subrange(refs[i] + 1, refs[i] + 5),
                    ) as i32 == old(object)@.text.len() - (refs[i] + 5)
            }
        }),
{
    reveal(spec_compile_label_definition);
    let label_name = label_definition.name.name.clone();
    let current_offset = object.text_len();
    match context.get_label_location(label_name.as_str()) {
        Some(LabelLocation::Defined(_)) => {
            return Err(
                IRError::with_message(
                    IRErrorKind::LabelAlreadyDefined,
                    concat3("Label '", label_name.as_str(), "' is already defined"),
                ),
            );
        },
        Some(LabelLocation::Undefined(refs)) => {
            let ghost text0 = object@.text;
            assert(forall|i: int| 0 <= i < refs@.len() ==> refs@[i] + 5 <= text0.len()) by {
                let name = label_name@;
                assert(context@.labels.contains_key(name));
                let l = context@.labels[name];
            }
            let mut k: usize = 0;
            while k < refs.len()
                invariant
                    0 <= k <= refs@.len(),
                    current_offset == text0.len(),
                    text0 == old(object)@.text,
                    forall|i: int| 0 <= i < refs@.len() ==> refs@[i] + 5 <= text0.len(),
                    object@ == (ObjectView {
                        text: patch_all(text0, refs@.subrange(0, k as int), current_offset),
                        ..old(object)@
                    }),
                decreases refs@.len() - k,
            {
                proof {
                    lemma_patch_all_len(text0, refs@.subrange(0, k as int), current_offset);
                }
                let jump_offset = refs[k];
                let displacement_offset = jump_offset + 1;
                let relative_offset = (current_offset as i32).wrapping_sub(
                    displacement_offset.wrapping_add(4) as i32,
                );
                let bytes = u32_to_le_bytes(relative_offset as u32);
                object.patch_text(displacement_offset, bytes.as_slice());
                proof {
                    assert(refs@.subrange(0, k + 1).drop_last() =~= refs@.subrange(0, k as int));
                    assert(object@.text =~= patch_all(
                        text0,
                        refs@.subrange(0, k + 1),
                        current_offset,
                    ));
                }
                k = k + 1;
            }
            proof {
                assert(refs@.subrange(0, k as int) =~= refs@);
                lemma_patch_all_len(text0, refs@, current_offset);
            }
        },
        None => {},
    }
    context.define_label(label_name, current_offset);
    proof {
        let name = label_definition.name.name@;
        if old(object)@.text.len() <= i32::MAX && refs_ordered(old(context)@.labels)
            && old(context)@.labels.contains_key(name) && old(context)@.labels[name] is Undefined {
            let refs = old(context)@.labels[name]->Undefined_0;
            assert(forall|i: int, j: int| 0 <= i < j < refs.len() ==> refs[i] + 5 <= refs[j]);
            assert(forall|i: int| 0 <= i < refs.len() ==> refs[i] + 5 <= old(object)@.text.len());
            assert(jumps_disjoint(refs, old(object)@.text.len())) by {
                assert forall|i: int, j: int|
                    0 <= i < refs.len() && 0 <= j < refs.len() && i != j implies refs[i] + 5
                    <= refs[j] || refs[j] + 5 <= refs[i] by {
                    if i < j {
                        assert(refs[i] + 5 <= refs[j]);
                    } else {
                        assert(refs[j] + 5 <= refs[i]);
                    }
                }
            }
            lemma_forward_jumps_patched(old(context)@, old(object)@, name);
        }
        assert(object@ =~= spec_compile_label_definition(old(context)@, old(object)@, label_definition.name.name@).unwrap().1);
    }
    Ok(())
}

/// Appends `opcode` and the displacement to a label (or a placeholder and a pending
/// reference when the label is not defined yet).
fn emit_jump_to_label(
    opcode: &[u8],
    label_name: &String,
    context: &mut FunctionContext,
    object: &mut ELFObject,
)
    requires
        old(context).wf(),
        opcode@.len() > 0,
    ensures
        final(context).wf(),
        (final(context)@, final(object)@) == spec_jump_to_label(
            old(context)@,
            old(object)@,
            opcode@,
            label_name@,
        ),
        final(object)@.text.len() >= old(object)@.text.len(),
        refs_fit(old(context)@.labels, old(object)@.text.len()) ==> refs_fit(
            final(context)@.labels,
            final(object)@.text.len(),
        ),
        refs_fit(old(context)@.labels, old(object)@.text.len()) && refs_ordered(old(context)@.labels)
            ==> refs_ordered(final(context)@.labels),
{
    reveal(spec_jump_to_label);
    object.emit_bytes(opcode);
    let displacement_offset = object.text_len();
    let jump_offset = displacement_offset - 1;
    let target = match context.get_label_location(label_name.as_str()) {
        Some(LabelLocation::Defined(target_offset)) => Some(*target_offset),
        _ => None,
    };
    match target {
        Some(target_offset) => {
            let relative_offset = (target_offset as i32).wrapping_sub(
                displacement_offset.wrapping_add(4) as i32,
            );
            emit_le32(object, relative_offset);
        },
        None => {
            object.emit_bytes(&[0u8, 0u8, 0u8, 0u8]);
            context.add_label_reference(label_name.clone(), jump_offset);
        },
    }
}

/// Compiles an unconditional jump to a label.
pub fn compile_jump_instruction(
    instruction: &JumpInstruction,
    context: &mut FunctionContext,
    object: &mut ELFObject,
) -> (r: Result<(), IRError>)
    requires
        old(context).wf(),
    ensures
        final(context).wf(),
        r is Ok,
        (final(context)@, final(object)@) == spec_compile_jump(
            old(context)@,
            old(object)@,
            *instruction,
        ),
        final(object)@.text.len() >= old(object)@.text.len(),
        refs_fit(old(context)@.labels, old(object)@.text.len()) ==> refs_fit(
            final(context)@.labels,
            final(object)@.text.len(),
        ),
        refs_fit(old(context)@.labels, old(object)@.text.len()) && refs_ordered(old(context)@.labels)
            ==> refs_ordered(final(context)@.labels),
{
    let opcode = [JMP];
    assert(opcode@ =~= seq![0xE9u8]);
    emit_jump_to_label(&opcode, &instruction.label.name, context, object);
    Ok(())
}

/// Compiles a conditional branch: to the true label when the condition is non-zero, else
/// to the false label.
pub fn compile_branch_instruction(
    instruction: &BranchInstruction,
    context: &mut FunctionContext,
    object: &mut ELFObject,
) -> (r: Result<(), IRError>)
    requires
        old(context).wf(),
    ensures
        r is Err ==> final(object)@ == old(object)@ && *final(context) == *old(context),
        final(context).wf(),
        match r {
            Ok(()) => spec_compile_branch(old(context)@, old(object)@, *instruction) == Ok::<
                (ContextView, ObjectView),
                IRErrorKind,
            >((final(context)@, final(object)@)),
            Err(e) => spec_compile_branch(old(context)@, old(object)@, *instruction) == Err::<
                (ContextView, ObjectView),
                IRErrorKind,
            >(e.kind),
        },
        r is Ok ==> final(object)@.text.len() >= old(object)@.text.len(),
        r is Ok && refs_fit(old(context)@.labels, old(object)@.text.len()) ==> refs_fit(
            final(context)@.labels,
            final(object)@.text.len(),
        ),
        r is Ok && refs_fit(old(context)@.labels, old(object)@.text.len()) && refs_ordered(
            old(context)@.labels,
        ) ==> refs_ordered(final(context)@.labels),
{
    reveal(spec_compile_branch);
    load_operand_to_register(&instruction.condition, Register::RAX, context, object)?;
    let ghost loaded = object@;
    proof {
        if refs_fit(old(context)@.labels, old(object)@.text.len()) {
            lemma_refs_fit_grow(old(context)@.labels, old(object)@.text.len(), (loaded.text.len() + 3) as nat);
        }
    }
    object.emit(REX_W);
    object.emit(TEST);
    object.emit(modrm_reg_reg(Register::RAX, Register::RAX));
    assert(object@ =~= loaded.emit(seq![0x48u8, 0x85u8, 0xC0u8]));
    let ghost tested = object@;
    let jnz = [TWO_BYTE_ESCAPE, JNZ_REL32];
    assert(jnz@ =~= seq![0x0Fu8, 0x85u8]);
    emit_jump_to_label(&jnz, &instruction.true_label.name, context, object);
    let ghost c3 = context@;
    let ghost o3 = object@;
    assert((c3, o3) == spec_jump_to_label(
        old(context)@,
        tested,
        seq![0x0Fu8, 0x85u8],
        instruction.true_label.name@,
    ));
    let jmp = [JMP];
    assert(jmp@ =~= seq![0xE9u8]);
    emit_jump_to_label(&jmp, &instruction.false_label.name, context, object);
    assert((context@, object@) == spec_jump_to_label(
        c3,
        o3,
        seq![0xE9u8],
        instruction.false_label.name@,
    ));
    Ok(())
}

} // verus!
