//! The saved CPU context: the on-stack snapshot of a task's general-purpose
//! registers at the moment of preemption.
//!
//! The timer trampoline pushes the registers in a fixed order — ebp, edi,
//! esi, edx, ecx, ebx, eax, so eax ends on top — and restores them in the
//! exact mirror order. Because every task's frame has this one layout, the
//! restore sequence is valid whichever task's stack it runs on. The stack is
//! modelled as a vector whose end is the top of the stack.

use vstd::prelude::*;

verus! {

/// Number of general-purpose registers in one saved frame.
pub const FRAME_WORDS: usize = 7;

/// A task's general-purpose register file, as saved on its stack.
#[derive(Clone, Copy, PartialEq, Eq, Structural, Debug)]
pub struct CPUState {
    pub eax: u32,
    pub ebx: u32,
    pub ecx: u32,
    pub edx: u32,
    pub esi: u32,
    pub edi: u32,
    pub ebp: u32,
}

/// The words a saved frame occupies, bottom of the frame first: the push
/// order ebp, edi, esi, edx, ecx, ebx, eax leaves eax on top of the stack.
pub open spec fn frame_words(regs: CPUState) -> Seq<u32> {
    seq![regs.ebp, regs.edi, regs.esi, regs.edx, regs.ecx, regs.ebx, regs.eax]
}

/// Saves the full register set onto the stack in the fixed frame order.
pub fn push_registers(stack: &mut Vec<u32>, regs: &CPUState)
    ensures
        final(stack)@ == old(stack)@ + frame_words(*regs),
{
    stack.push(regs.ebp);
    stack.push(regs.edi);
    stack.push(regs.esi);
    stack.push(regs.edx);
    stack.push(regs.ecx);
    stack.push(regs.ebx);
    stack.push(regs.eax);
    proof {
        assert(stack@ =~= old(stack)@ + frame_words(*regs));
    }
}

/// Restores a register set from the stack in the exact mirror of the push
/// order, consuming one whole frame.
pub fn pop_registers(stack: &mut Vec<u32>) -> (regs: CPUState)
    requires
        old(stack)@.len() >= FRAME_WORDS,
    ensures
        final(stack)@ == old(stack)@.subrange(0, old(stack)@.len() - FRAME_WORDS),
        frame_words(regs) == old(stack)@.subrange(
            old(stack)@.len() - FRAME_WORDS,
            old(stack)@.len() as int,
        ),
{
    let eax = stack.pop().unwrap();
    let ebx = stack.pop().unwrap();
    let ecx = stack.pop().unwrap();
    let edx = stack.pop().unwrap();
    let esi = stack.pop().unwrap();
    let edi = stack.pop().unwrap();
    let ebp = stack.pop().unwrap();
    let regs = CPUState { eax, ebx, ecx, edx, esi, edi, ebp };
    proof {
        assert(stack@ =~= old(stack)@.subrange(0, old(stack)@.len() - FRAME_WORDS));
        assert(frame_words(regs) =~= old(stack)@.subrange(
            old(stack)@.len() - FRAME_WORDS,
            old(stack)@.len() as int,
        ));
    }
    regs
}

/// Push/pop symmetry: a frame pushed onto any stack and popped again hands
/// back exactly the registers that were saved and leaves the stack as it
/// was — the restore sequence is the precise mirror of the save sequence.
pub proof fn lemma_frame_round_trip(stack: Seq<u32>, regs: CPUState)
    ensures
        (stack + frame_words(regs)).subrange(0, stack.len() as int) == stack,
        (stack + frame_words(regs)).subrange(
            stack.len() as int,
            (stack + frame_words(regs)).len() as int,
        ) == frame_words(regs),
{
    assert((stack + frame_words(regs)).subrange(0, stack.len() as int) =~= stack);
    assert((stack + frame_words(regs)).subrange(
        stack.len() as int,
        (stack + frame_words(regs)).len() as int,
    ) =~= frame_words(regs));
}

/// A frame determines its registers: two register files with the same saved
/// frame are the same register file.
pub proof fn lemma_frame_injective(a: CPUState, b: CPUState)
    requires
        frame_words(a) == frame_words(b),
    ensures
        a == b,
{
    assert(frame_words(a)[0] == frame_words(b)[0]);
    assert(frame_words(a)[1] == frame_words(b)[1]);
    assert(frame_words(a)[2] == frame_words(b)[2]);
    assert(frame_words(a)[3] == frame_words(b)[3]);
    assert(frame_words(a)[4] == frame_words(b)[4]);
    assert(frame_words(a)[5] == frame_words(b)[5]);
    assert(frame_words(a)[6] == frame_words(b)[6]);
}

} // verus!
