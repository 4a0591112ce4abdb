use vstd::prelude::*;

verus! {

/// Base address of the RESETS register block.
pub const RESET_BASE: usize = 0x4000_c000;

/// Handle on the RESETS peripheral; the registers live at [`RESET_BASE`].
pub struct Resets;

impl Resets {
    /// Creates the handle.
    pub fn new() -> (r: Self)
        ensures
            r.base() == RESET_BASE,
    {
        Resets
    }

    /// Address of the register block that the handle stands for.
    pub open spec fn base(&self) -> usize {
        RESET_BASE
    }

    /// Address of the register block that the handle stands for.
    pub fn base_address(&self) -> (a: usize)
        ensures
            a == self.base(),
            a == RESET_BASE,
    {
        RESET_BASE
    }
}

} // verus!
