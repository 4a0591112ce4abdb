//! What the reset handler does to memory before `main`: zero `.bss`, copy
//! `.data` from its load address in flash, and hand the heap to the allocator.
use vstd::prelude::*;

verus! {

/// Size in bytes of the heap handed to the global allocator.
pub const HEAP_SIZE: usize = 0x2000;

/// The symbols that the linker script places around the sections.
#[derive(PartialEq, Eq, Structural, Clone, Copy, Debug)]
pub struct MemoryLayout {
    /// Start of `.bss`.
    pub sbss: usize,
    /// End of `.bss`.
    pub ebss: usize,
    /// Start of `.data` in RAM.
    pub sdata: usize,
    /// End of `.data` in RAM.
    pub edata: usize,
    /// Load address of `.data` in flash.
    pub sidata: usize,
    /// First byte after the statically allocated RAM.
    pub heap_start: usize,
}

/// The three memory operations of the reset handler.
#[derive(PartialEq, Eq, Structural, Clone, Copy, Debug)]
pub struct StartupPlan {
    /// Zero `bss_len` bytes from `bss_start`.
    pub bss_start: usize,
    pub bss_len: usize,
    /// Copy `data_len` bytes from `data_load` to `data_start`.
    pub data_load: usize,
    pub data_start: usize,
    pub data_len: usize,
    /// Give the allocator the bytes `heap_start .. heap_end`.
    pub heap_start: usize,
    pub heap_end: usize,
}

/// The layout is one that a linker produces: each section ends where or after
/// it starts, and the heap fits below the top of the address space.
pub open spec fn layout_valid(l: MemoryLayout) -> bool {
    &&& l.sbss <= l.ebss
    &&& l.sdata <= l.edata
    &&& l.heap_start + HEAP_SIZE <= usize::MAX
}

/// Whether `l` is a layout that the reset handler can prepare.
pub fn is_valid_layout(l: &MemoryLayout) -> (ok: bool)
    ensures
        ok == layout_valid(*l),
        ok == (l.sbss <= l.ebss && l.sdata <= l.edata && l.heap_start + HEAP_SIZE <= usize::MAX),
{
    l.sbss <= l.ebss && l.sdata <= l.edata && l.heap_start <= usize::MAX - HEAP_SIZE
}

/// The memory operations of the reset handler for the layout `l`.
pub fn startup_plan(l: &MemoryLayout) -> (p: StartupPlan)
    requires
        layout_valid(*l),
    ensures
        p.bss_start == l.sbss,
        p.bss_start + p.bss_len == l.ebss,
        p.data_load == l.sidata,
        p.data_start == l.sdata,
        p.data_start + p.data_len == l.edata,
        p.heap_start == l.heap_start,
        p.heap_end == l.heap_start + HEAP_SIZE,
{
    StartupPlan {
        bss_start: l.sbss,
        bss_len: l.ebss - l.sbss,
        data_load: l.sidata,
        data_start: l.sdata,
        data_len: l.edata - l.sdata,
        heap_start: l.heap_start,
        heap_end: l.heap_start + HEAP_SIZE,
    }
}

/// A layout is valid exactly when each section ends where or after it starts
/// and the heap fits below the top of the address space; in particular empty
/// sections (`sbss == ebss`, `sdata == edata`) are accepted.
pub proof fn lemma_layout_valid_exactly(l: MemoryLayout)
    ensures
        layout_valid(l) <==> (l.sbss <= l.ebss && l.sdata <= l.edata && l.heap_start + 0x2000
            <= usize::MAX),
        l.sbss == l.ebss && l.sdata == l.edata && l.heap_start + 0x2000 <= usize::MAX
            ==> layout_valid(l),
{
}

} // verus!
