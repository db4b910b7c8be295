//! The timer-driven preemption path: the routine the timer trampoline calls
//! between saving and restoring a task's registers, and the end-of-interrupt
//! discipline it owes the interrupt controller.
//!
//! The interrupt controller itself is an external collaborator; this core
//! consumes exactly one of its operations — signal end-of-interrupt for a
//! vector — and must do so exactly once per serviced tick, or the timer
//! never fires again. The controller is modelled here by the ordered record
//! of the signals it has received.

use vstd::prelude::*;

use crate::context::CPUState;
use crate::context::FRAME_WORDS;
use crate::context::pop_registers;
use crate::context::push_registers;
use crate::task::TaskManager;

verus! {

/// Vector the periodic timer interrupt is assigned.
pub const TIMER_INT: u8 = 32;

/// Entry address of the timer trampoline in the kernel image, as wired into
/// the dispatch table; it stands for the address the linker assigns.
pub const TIMER_HANDLER_ADDRESS: u32 = 0x0010_0060;

/// The face of the interrupt-controller driver this core consumes, recording
/// each end-of-interrupt signal in the order it was given.
pub struct Pic {
    /// Every vector acknowledged so far, oldest first.
    pub eoi_signals: Vec<u8>,
}

impl Pic {
    /// A controller that has received no acknowledgement yet.
    pub fn new() -> (pics: Pic)
        ensures
            pics.eoi_signals@ == Seq::<u8>::empty(),
    {
        Pic { eoi_signals: Vec::new() }
    }

    /// Signals end-of-interrupt for `vector`: without it the controller
    /// delivers no further interrupt of that class.
    pub fn end_interrupt(&mut self, vector: u8)
        ensures
            final(self).eoi_signals@ == old(self).eoi_signals@.push(vector),
    {
        self.eoi_signals.push(vector);
    }
}

/// The routine the timer trampoline calls with the preempted task's stack
/// pointer: it lets the scheduler store that pointer and pick the next task,
/// signals end-of-interrupt exactly once — with the timer's own vector — and
/// returns the stack pointer the trampoline is to resume from.
pub fn timer_handler(manager: &mut TaskManager, pics: &mut Pic, esp: u32) -> (new_esp: u32)
    requires
        old(manager).well_formed(),
    ensures
        final(manager).well_formed(),
        final(manager).tasks@.len() == old(manager).tasks@.len(),
        final(manager).current as int == (old(manager).current + 1) % old(
            manager,
        ).tasks@.len() as int,
        final(manager).pointers() == old(manager).pointers().update(
            old(manager).current as int,
            esp,
        ),
        new_esp == final(manager).pointers()[final(manager).current as int],
        final(pics).eoi_signals@ == old(pics).eoi_signals@.push(TIMER_INT),
{
    let new_esp = manager.schedule(esp);
    pics.end_interrupt(TIMER_INT);
    new_esp
}

/// The timer trampoline's save/call/switch/restore protocol, run around a
/// single-task (and so self-resuming) schedule: the full register set is
/// pushed in the fixed frame order, the scheduler is handed the resulting
/// stack pointer and — the task set having size one — returns it unchanged,
/// and the registers are popped in mirror order. The registers that come
/// back are exactly the registers that went in, the stack is as it was, and
/// the controller has been acknowledged exactly once for the timer's vector.
pub fn timer_round_trip(
    stack: &mut Vec<u32>,
    regs: &CPUState,
    manager: &mut TaskManager,
    pics: &mut Pic,
    esp: u32,
) -> (out: CPUState)
    requires
        old(manager).well_formed(),
        old(manager).tasks@.len() == 1,
        old(stack)@.len() + FRAME_WORDS <= usize::MAX,
    ensures
        out == *regs,
        final(stack)@ == old(stack)@,
        final(manager).well_formed(),
        final(manager).pointers() == old(manager).pointers().update(0, esp),
        final(pics).eoi_signals@ == old(pics).eoi_signals@.push(TIMER_INT),
{
    push_registers(stack, regs);
    let new_esp = timer_handler(manager, pics, esp);
    proof {
        // the one registered task is both the preempted and the resumed one
        assert(new_esp == esp);
    }
    let out = pop_registers(stack);
    proof {
        crate::context::lemma_frame_round_trip(old(stack)@, *regs);
        crate::context::lemma_frame_injective(out, *regs);
    }
    out
}

} // verus!
