use pico::blink::{systick_handler, toggle, BlinkStep, LedLevel};
use pico::boot::{stack_top, thumb_entry, Core1Launch, LaunchCommand};
use pico::process::{call_process, ContextFrame, CONTEXT_FRAME_SIZE, XPSR_THUMB};
use pico::spin_lock::{LockStep, PiSpinLock};
use pico::startup::{is_valid_layout, startup_plan, MemoryLayout, StartupPlan, HEAP_SIZE};
use pico::task::{PollOutcome, SimpleExecutor};

fn cmd(value: u32) -> Option<LaunchCommand> {
    Some(LaunchCommand { value, drain_first: value == 0 })
}

#[test]
fn thumb_entry_sets_bit_zero() {
    assert_eq!(thumb_entry(0x1000_0200), 0x1000_0201);
    assert_eq!(thumb_entry(0x1000_0201), 0x1000_0201);
    assert_eq!(thumb_entry(0), 1);
    assert_eq!(thumb_entry(u32::MAX), u32::MAX);
}

#[test]
fn stack_top_is_end_of_stack() {
    assert_eq!(stack_top(0x2000_1000, 1024), 0x2000_1400);
    assert_eq!(stack_top(0, 0), 0);
}

#[test]
fn launch_sequence_with_echoing_core() {
    let mut l = Core1Launch::new(0x1000_0100, 0x2000_1400, 0x1000_0300);
    let expected = [0u32, 0, 1, 0x1000_0100, 0x2000_1400, 0x1000_0301];
    for (i, word) in expected.iter().enumerate() {
        assert!(!l.is_done());
        assert_eq!(l.next_command(), cmd(*word), "word {}", i);
        l.on_response(*word);
    }
    assert!(l.is_done());
    assert_eq!(l.next_command(), None);
}

#[test]
fn launch_drains_before_zero_only() {
    let l = Core1Launch::new(1, 2, 3);
    assert_eq!(l.next_command(), Some(LaunchCommand { value: 0, drain_first: true }));
    let mut l = l;
    l.on_response(0);
    l.on_response(0);
    assert_eq!(l.next_command(), Some(LaunchCommand { value: 1, drain_first: false }));
}

#[test]
fn launch_restarts_after_wrong_echo() {
    let mut l = Core1Launch::new(0x100, 0x200, 0x300);
    l.on_response(0);
    l.on_response(0);
    l.on_response(1);
    assert_eq!(l.next_command(), cmd(0x100));
    l.on_response(0x999);
    assert_eq!(l.next_command(), cmd(0));
    // a wrong echo of the first word keeps the handshake at its start
    l.on_response(5);
    assert_eq!(l.next_command(), cmd(0));
    for word in [0u32, 0, 1, 0x100, 0x200, 0x301] {
        assert_eq!(l.next_command(), cmd(word));
        l.on_response(word);
    }
    assert!(l.is_done());
}

#[test]
fn launch_zero_echo_of_nonzero_word_restarts() {
    let mut l = Core1Launch::new(0x100, 0x200, 0x300);
    l.on_response(0);
    l.on_response(0);
    l.on_response(0);
    assert_eq!(l.next_command(), cmd(0));
    assert!(!l.is_done());
}

#[test]
fn initial_context_frame() {
    let f = ContextFrame::initial(0x1000_0400);
    assert_eq!(
        f,
        ContextFrame { r0: 0, r1: 0, r2: 0, r3: 0, r12: 0, lr: 0, return_addr: 0x1000_0400, xpsr: 0x0100_0000 }
    );
    assert_eq!(XPSR_THUMB, 0x0100_0000);
}

#[test]
fn process_frame_at_top_of_stack() {
    let (addr, frame) = call_process(0x1000_0401, 0x2000_0000);
    assert_eq!(addr, 0x2000_03e0);
    assert_eq!(addr + CONTEXT_FRAME_SIZE, 0x2000_0400);
    assert_eq!(frame, ContextFrame::initial(0x1000_0401));
    let (addr, _) = call_process(0, u32::MAX - 1024);
    assert_eq!(addr, u32::MAX - 32);
}

#[test]
fn startup_plan_of_a_layout() {
    let layout = MemoryLayout {
        sbss: 0x2000_0100,
        ebss: 0x2000_0180,
        sdata: 0x2000_0000,
        edata: 0x2000_0100,
        sidata: 0x1000_4000,
        heap_start: 0x2000_0180,
    };
    assert_eq!(
        startup_plan(&layout),
        StartupPlan {
            bss_start: 0x2000_0100,
            bss_len: 0x80,
            data_load: 0x1000_4000,
            data_start: 0x2000_0000,
            data_len: 0x100,
            heap_start: 0x2000_0180,
            heap_end: 0x2000_2180,
        }
    );
    assert_eq!(HEAP_SIZE, 0x2000);
}

#[test]
fn startup_plan_with_empty_sections() {
    let layout = MemoryLayout { sbss: 8, ebss: 8, sdata: 4, edata: 4, sidata: 4, heap_start: 8 };
    let p = startup_plan(&layout);
    assert_eq!(p.bss_len, 0);
    assert_eq!(p.data_len, 0);
    assert_eq!(p.heap_end, 8 + 0x2000);
}

#[test]
fn spin_lock_steps() {
    let l = PiSpinLock::<3>::new();
    assert_eq!(l.register_address(), 0xd000_010c);
    assert_eq!(l.lock(0), LockStep::Retry);
    assert_eq!(l.lock(8), LockStep::Acquired);
    assert!(l.try_lock(1));
    assert!(!l.try_lock(0));
}

#[test]
fn executor_is_first_in_first_out() {
    let mut e = SimpleExecutor::new();
    e.spawn('a');
    e.spawn('b');
    e.spawn('c');
    assert_eq!(e.next_task(), Some('a'));
    assert_eq!(e.next_task(), Some('b'));
    assert_eq!(e.next_task(), Some('c'));
    assert_eq!(e.next_task(), None);
}

#[test]
fn executor_requeues_pending_and_drops_ready() {
    let mut e = SimpleExecutor::new();
    e.spawn(1u32);
    e.spawn(2u32);
    let t = e.next_task().unwrap();
    assert_eq!(t, 1);
    e.complete_poll(t, PollOutcome::Pending);
    let t = e.next_task().unwrap();
    assert_eq!(t, 2);
    e.complete_poll(t, PollOutcome::Ready);
    let t = e.next_task().unwrap();
    assert_eq!(t, 1);
    e.complete_poll(t, PollOutcome::Ready);
    assert_eq!(e.next_task(), None);
}

#[test]
fn executor_full_round_of_pending_restores_order() {
    let mut e = SimpleExecutor::new();
    for t in 0..5u32 {
        e.spawn(t);
    }
    for _ in 0..5 {
        let t = e.next_task().unwrap();
        e.complete_poll(t, PollOutcome::Pending);
    }
    for t in 0..5u32 {
        assert_eq!(e.next_task(), Some(t));
    }
}

#[test]
fn executor_run_loop_ends_when_all_ready() {
    // each task is a countdown: it is pending until it reaches zero
    let mut e = SimpleExecutor::new();
    e.spawn((0u32, 2u32));
    e.spawn((1u32, 0u32));
    e.spawn((2u32, 1u32));
    let mut finished = Vec::new();
    let mut polls = 0;
    while let Some((id, left)) = e.next_task() {
        polls += 1;
        if left == 0 {
            finished.push(id);
            e.complete_poll((id, left), PollOutcome::Ready);
        } else {
            e.complete_poll((id, left - 1), PollOutcome::Pending);
        }
    }
    assert_eq!(finished, vec![1, 2, 0]);
    assert_eq!(polls, 6);
}

#[test]
fn blinking() {
    assert_eq!(toggle(true), BlinkStep { level: Some(LedLevel::Low), flag: false });
    assert_eq!(toggle(false), BlinkStep { level: Some(LedLevel::High), flag: true });
    assert_eq!(toggle(toggle(true).flag).flag, true);
    assert_eq!(systick_handler(0, true), BlinkStep { level: Some(LedLevel::Low), flag: false });
    assert_eq!(systick_handler(1, true), BlinkStep { level: None, flag: true });
    assert_eq!(systick_handler(1, false), BlinkStep { level: None, flag: false });
}

#[test]
fn layout_validity() {
    let ok = MemoryLayout { sbss: 8, ebss: 16, sdata: 0, edata: 8, sidata: 100, heap_start: 16 };
    assert!(is_valid_layout(&ok));
    assert!(!is_valid_layout(&MemoryLayout { ebss: 4, ..ok }));
    assert!(!is_valid_layout(&MemoryLayout { edata: 0, sdata: 1, ..ok }));
    assert!(!is_valid_layout(&MemoryLayout { heap_start: usize::MAX - 0x1fff, ..ok }));
    assert!(is_valid_layout(&MemoryLayout { heap_start: usize::MAX - 0x2000, ..ok }));
}
