//! The exception frame that starts a process.
//!
//! On exception return a Cortex-M0+ pops eight words from the stack: r0-r3,
//! r12, lr, the return address and xPSR. A process starts when such a frame,
//! prepared at the top of its stack, is popped.
use vstd::prelude::*;

verus! {

/// Size in bytes of a process stack.
pub const PROCESS_STACK_SIZE: u32 = 1024;

/// Size in bytes of a [`ContextFrame`]: eight 32-bit words.
pub const CONTEXT_FRAME_SIZE: u32 = 32;

/// xPSR with only the Thumb bit (bit 24) set.
pub const XPSR_THUMB: u32 = 0x0100_0000;

/// The eight words that the processor pops on exception return, in stack order.
#[derive(PartialEq, Eq, Structural, Clone, Copy, Debug)]
pub struct ContextFrame {
    pub r0: u32,
    pub r1: u32,
    pub r2: u32,
    pub r3: u32,
    pub r12: u32,
    pub lr: u32,
    pub return_addr: u32,
    pub xpsr: u32,
}

/// The frame that starts a process at `entry`: every general register zero,
/// execution resuming at `entry`, in Thumb state.
pub open spec fn initial_frame(entry: u32) -> ContextFrame {
    ContextFrame {
        r0: 0,
        r1: 0,
        r2: 0,
        r3: 0,
        r12: 0,
        lr: 0,
        return_addr: entry,
        xpsr: XPSR_THUMB,
    }
}

impl ContextFrame {
    /// The frame that starts a process at `entry`.
    pub fn initial(entry: u32) -> (f: Self)
        ensures
            f == initial_frame(entry),
            f.r0 == 0 && f.r1 == 0 && f.r2 == 0 && f.r3 == 0 && f.r12 == 0 && f.lr == 0,
            f.return_addr == entry,
            f.xpsr == 0x0100_0000,
    {
        ContextFrame {
            r0: 0,
            r1: 0,
            r2: 0,
            r3: 0,
            r12: 0,
            lr: 0,
            return_addr: entry,
            xpsr: XPSR_THUMB,
        }
    }
}

/// Where the starting frame of a process whose 1 KiB stack begins at `sp`
/// goes (the last [`CONTEXT_FRAME_SIZE`] bytes of the stack), and the frame
/// that starts it at the code at `func`.
pub fn call_process(func: u32, sp: u32) -> (r: (u32, ContextFrame))
    requires
        sp + PROCESS_STACK_SIZE <= u32::MAX,
    ensures
        r.0 == sp + PROCESS_STACK_SIZE - CONTEXT_FRAME_SIZE,
        r.0 + CONTEXT_FRAME_SIZE == sp + PROCESS_STACK_SIZE,
        r.1 == initial_frame(func),
        r.1.r0 == 0 && r.1.r1 == 0 && r.1.r2 == 0 && r.1.r3 == 0 && r.1.r12 == 0 && r.1.lr == 0,
        r.1.return_addr == func,
        r.1.xpsr == 0x0100_0000,
{
    let ptr = sp + PROCESS_STACK_SIZE - CONTEXT_FRAME_SIZE;
    (ptr, ContextFrame::initial(func))
}

/// The starting frame of a process, for every entry address: all general
/// registers zero, execution resuming at the entry, and xPSR holding only the
/// Thumb bit (bit 24), whatever the entry address is.
pub proof fn lemma_initial_frame_fields(entry: u32)
    ensures
        initial_frame(entry).r0 == 0,
        initial_frame(entry).r1 == 0,
        initial_frame(entry).r2 == 0,
        initial_frame(entry).r3 == 0,
        initial_frame(entry).r12 == 0,
        initial_frame(entry).lr == 0,
        initial_frame(entry).return_addr == entry,
        initial_frame(entry).xpsr == 0x0100_0000,
        XPSR_THUMB == 0x0100_0000,
{
}

/// Two processes started at different entries get frames that differ in the
/// return address alone.
pub proof fn lemma_initial_frames_differ_only_in_entry(a: u32, b: u32)
    ensures
        initial_frame(a) == (ContextFrame { return_addr: a, ..initial_frame(b) }),
        initial_frame(a).xpsr == initial_frame(b).xpsr,
{
}

} // verus!
