use felix_core::context::CPUState;
use felix_core::context::pop_registers;
use felix_core::context::push_registers;
use felix_core::task::TaskManager;
use felix_core::task::TaskState;
use felix_core::timer::Pic;
use felix_core::timer::TIMER_INT;
use felix_core::timer::timer_handler;
use felix_core::timer::timer_round_trip;

fn sentinel_registers() -> CPUState {
    CPUState {
        eax: 0x1111_1111,
        ebx: 0x2222_2222,
        ecx: 0x3333_3333,
        edx: 0x4444_4444,
        esi: 0x5555_5555,
        edi: 0x6666_6666,
        ebp: 0x7777_7777,
    }
}

#[test]
fn single_task_schedule_returns_its_own_pointer() {
    let pointers = vec![0x0009_0000u32];
    let mut manager = TaskManager::new(&pointers);
    let next = manager.schedule(0x0008_f000);
    assert_eq!(next, 0x0008_f000);
    assert_eq!(manager.current, 0);
    assert_eq!(manager.tasks[0].stack_pointer, 0x0008_f000);
    assert_eq!(manager.tasks[0].state, TaskState::Running);
}

#[test]
fn full_round_robin_cycle_returns_to_the_first_task() {
    let pointers = vec![0x1000u32, 0x2000, 0x3000];
    let mut manager = TaskManager::new(&pointers);
    assert_eq!(manager.current, 0);

    // each tick feeds back the pointer the previous tick returned
    let first = manager.schedule(0x1000);
    assert_eq!(first, 0x2000);
    assert_eq!(manager.current, 1);
    let second = manager.schedule(first);
    assert_eq!(second, 0x3000);
    assert_eq!(manager.current, 2);
    let third = manager.schedule(second);
    assert_eq!(third, 0x1000);

    // after as many ticks as tasks, the cursor is back on the first task
    // and every slot holds exactly what it was given on its turn
    assert_eq!(manager.current, 0);
    assert_eq!(manager.tasks[0].stack_pointer, 0x1000);
    assert_eq!(manager.tasks[1].stack_pointer, 0x2000);
    assert_eq!(manager.tasks[2].stack_pointer, 0x3000);
    assert_eq!(manager.tasks[0].state, TaskState::Running);
    assert_eq!(manager.tasks[1].state, TaskState::Runnable);
    assert_eq!(manager.tasks[2].state, TaskState::Runnable);
}

#[test]
fn schedule_stores_the_preempted_pointer() {
    let pointers = vec![0x1000u32, 0x2000];
    let mut manager = TaskManager::new(&pointers);
    let next = manager.schedule(0x1a00);
    assert_eq!(next, 0x2000);
    assert_eq!(manager.tasks[0].stack_pointer, 0x1a00);
    assert_eq!(manager.tasks[1].state, TaskState::Running);
    assert_eq!(manager.tasks[0].state, TaskState::Runnable);
}

#[test]
fn end_of_interrupt_once_per_tick_with_the_timer_vector() {
    assert_eq!(TIMER_INT, 32);
    let pointers = vec![0x1000u32, 0x2000];
    let mut manager = TaskManager::new(&pointers);
    let mut pics = Pic::new();
    assert_eq!(pics.eoi_signals.len(), 0);
    let mut esp = 0x1000u32;
    for tick in 1..=3 {
        esp = timer_handler(&mut manager, &mut pics, esp);
        assert_eq!(pics.eoi_signals.len(), tick);
    }
    assert_eq!(pics.eoi_signals, vec![32u8, 32, 32]);
}

#[test]
fn push_then_pop_restores_the_sentinel_frame() {
    let regs = sentinel_registers();
    let mut stack = vec![0xdddd_0001u32, 0xdddd_0002];
    push_registers(&mut stack, &regs);
    // push order: ebp first, eax on top of the stack
    assert_eq!(
        stack,
        vec![
            0xdddd_0001u32,
            0xdddd_0002,
            0x7777_7777,
            0x6666_6666,
            0x5555_5555,
            0x4444_4444,
            0x3333_3333,
            0x2222_2222,
            0x1111_1111,
        ]
    );
    let restored = pop_registers(&mut stack);
    assert_eq!(restored, regs);
    assert_eq!(stack, vec![0xdddd_0001u32, 0xdddd_0002]);
}

#[test]
fn timer_round_trip_preserves_the_frame_over_an_identity_schedule() {
    let regs = sentinel_registers();
    let mut stack = vec![0xaaaa_aaaau32];
    let pointers = vec![0x0009_0000u32];
    let mut manager = TaskManager::new(&pointers);
    let mut pics = Pic::new();
    let restored = timer_round_trip(&mut stack, &regs, &mut manager, &mut pics, 0x0008_f000);
    assert_eq!(restored, regs);
    assert_eq!(stack, vec![0xaaaa_aaaau32]);
    assert_eq!(manager.tasks[0].stack_pointer, 0x0008_f000);
    assert_eq!(pics.eoi_signals, vec![32u8]);
}
