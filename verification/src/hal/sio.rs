use vstd::prelude::*;
use vstd::arithmetic::power2::pow2;
use vstd::bits::{lemma_u32_pow2_no_overflow, lemma_u32_shl_is_mul};

verus! {

/// Base address of the single-cycle IO (SIO) block.
pub const SIO_BASE: usize = 0xd000_0000;

/// Offset, inside the SIO block, of the register of hardware spinlock 0.
pub const SPINLOCK_OFFSET: usize = 0x100;

/// Number of hardware spinlocks; their registers follow one another, four bytes apart.
pub const SPINLOCK_COUNT: usize = 32;

/// Number of GPIO pins that one 32-bit SIO GPIO register covers.
pub const GPIO_PIN_COUNT: usize = 32;

/// FIFO_ST bit: the read FIFO holds data from the other core (VLD).
pub const FIFO_ST_VLD: u32 = 0x1;

/// FIFO_ST bit: the write FIFO has room for one more word (RDY).
pub const FIFO_ST_RDY: u32 = 0x2;

/// Value that a write to a spinlock register stores to release the lock.
pub const SPINLOCK_RELEASE: u32 = 0x1;

/// The read FIFO holds data: bit 0 (VLD) of FIFO_ST is set.
pub open spec fn read_fifo_has_data(fifo_st: u32) -> bool {
    fifo_st % 2 == 1
}

/// The write FIFO has room: bit 1 (RDY) of FIFO_ST is set.
pub open spec fn write_fifo_has_room(fifo_st: u32) -> bool {
    (fifo_st / 2) % 2 == 1
}

/// Register value whose only set bit is the bit of `pin`.
pub open spec fn pin_bit(pin: nat) -> nat {
    pow2(pin)
}

/// Address of the register of hardware spinlock `n`.
pub open spec fn spinlock_address(n: nat) -> nat {
    (SIO_BASE + SPINLOCK_OFFSET + 4 * n) as nat
}

/// Mask that a write to one of the GPIO set / clear / output-enable registers
/// uses to act on `pin` alone: the bit of `pin` set, every other bit clear.
pub fn pin_mask(pin: usize) -> (mask: u32)
    requires
        pin < GPIO_PIN_COUNT,
    ensures
        mask as nat == pin_bit(pin as nat),
        mask == 1u32 << (pin as u32),
{
    let shift: u32 = pin as u32;
    proof {
        lemma_u32_pow2_no_overflow(shift as nat);
        lemma_u32_shl_is_mul(1u32, shift);
    }
    1u32 << shift
}

/// Whether a read of a hardware spinlock register claimed the lock: the
/// hardware answers a nonzero value to the read that claims it and zero while
/// another reader holds it.
pub fn lock_acquired(read_value: u32) -> (acquired: bool)
    ensures
        acquired == (read_value > 0),
{
    read_value > 0
}

/// What the drain loop does on one value of FIFO_ST.
#[derive(PartialEq, Eq, Structural, Clone, Copy, Debug)]
pub enum DrainStep {
    /// The read FIFO holds a word: read FIFO_RD, throw the word away, look again.
    Pop,
    /// The read FIFO is empty: the drain is over.
    Done,
}

/// What the blocking read does on one value of FIFO_ST.
#[derive(PartialEq, Eq, Structural, Clone, Copy, Debug)]
pub enum ReadStep {
    /// Nothing to read yet: wait for an event (WFE), then look again.
    WaitForEvent,
    /// A word is there: read FIFO_RD and return it.
    Pop,
}

/// What the blocking push does on one value of FIFO_ST.
#[derive(PartialEq, Eq, Structural, Clone, Copy, Debug)]
pub enum PushStep {
    /// The write FIFO is full: look again.
    Spin,
    /// The write FIFO has room: write the word to FIFO_WR, then signal an event (SEV).
    Push(u32),
}

/// Handle on the SIO block; the registers live at [`SIO_BASE`].
pub struct Sio;

impl Sio {
    /// Creates the handle.
    pub fn new() -> (s: Self)
        ensures
            s.base() == SIO_BASE,
    {
        Sio
    }

    /// Address of the register block that the handle stands for.
    pub open spec fn base(&self) -> usize {
        SIO_BASE
    }

    /// Address of the register block that the handle stands for.
    pub fn base_address(&self) -> (a: usize)
        ensures
            a == self.base(),
            a == SIO_BASE,
    {
        SIO_BASE
    }

    /// One decision of the loop that empties the read FIFO: given the current
    /// FIFO_ST, pop a word while VLD is set, stop once it is clear.
    pub fn drain_fifo(&self, fifo_st: u32) -> (step: DrainStep)
        ensures
            step == (if read_fifo_has_data(fifo_st) { DrainStep::Pop } else { DrainStep::Done }),
    {
        proof {
            assert((fifo_st & FIFO_ST_VLD == 1u32) == (fifo_st % 2 == 1)) by (bit_vector);
        }
        if (fifo_st & FIFO_ST_VLD) == 1 {
            DrainStep::Pop
        } else {
            DrainStep::Done
        }
    }

    /// One decision of the blocking read from the other core: given the
    /// current FIFO_ST, wait for an event while VLD is clear, read once it is set.
    pub fn read_fifo_blocking(&self, fifo_st: u32) -> (step: ReadStep)
        ensures
            step == (if read_fifo_has_data(fifo_st) { ReadStep::Pop } else { ReadStep::WaitForEvent }),
    {
        proof {
            assert((fifo_st & FIFO_ST_VLD == 0u32) == (fifo_st % 2 == 0)) by (bit_vector);
        }
        if (fifo_st & FIFO_ST_VLD) == 0 {
            ReadStep::WaitForEvent
        } else {
            ReadStep::Pop
        }
    }

    /// One decision of the blocking push to the other core: given the current
    /// FIFO_ST, spin while RDY is clear, write `data` unchanged once it is set.
    pub fn push_fifo_blocking(&self, fifo_st: u32, data: u32) -> (step: PushStep)
        ensures
            step == (if write_fifo_has_room(fifo_st) { PushStep::Push(data) } else { PushStep::Spin }),
    {
        proof {
            assert((fifo_st & FIFO_ST_RDY == 0u32) == ((fifo_st / 2) % 2 == 0)) by (bit_vector);
        }
        if fifo_st & FIFO_ST_RDY == 0 {
            PushStep::Spin
        } else {
            PushStep::Push(data)
        }
    }
}

/// Handle on hardware spinlock `N`; its register lives at
/// `SIO_BASE + SPINLOCK_OFFSET + 4 * N`.
pub struct SioSpinLock<const N: usize>;

impl<const N: usize> SioSpinLock<N> {
    /// Creates the handle. Only the locks `0..32` exist.
    pub fn new() -> (s: Self)
        requires
            N < SPINLOCK_COUNT,
        ensures
            s.index() == N,
    {
        SioSpinLock
    }

    /// Which hardware spinlock the handle stands for.
    pub open spec fn index(&self) -> nat {
        N as nat
    }

    /// Address of the register of this spinlock.
    pub fn register_address(&self) -> (a: usize)
        requires
            N < SPINLOCK_COUNT,
        ensures
            a as nat == spinlock_address(N as nat),
    {
        SIO_BASE + SPINLOCK_OFFSET + N * 4
    }
}

/// Masks of two different pins share no bit, so a write with one of them
/// never acts on the other pin.
pub proof fn lemma_pin_masks_disjoint(a: u32, b: u32)
    requires
        a < 32,
        b < 32,
        a != b,
    ensures
        (1u32 << a) & (1u32 << b) == 0,
{
    assert((1u32 << a) & (1u32 << b) == 0) by (bit_vector)
        requires
            a < 32,
            b < 32,
            a != b,
    ;
}

/// The registers of the 32 hardware spinlocks are distinct words, all inside
/// the SIO block's spinlock window `SIO_BASE + 0x100 .. SIO_BASE + 0x180`.
pub proof fn lemma_spinlock_addresses_distinct(m: nat, n: nat)
    requires
        m < SPINLOCK_COUNT,
        n < SPINLOCK_COUNT,
    ensures
        m != n ==> spinlock_address(m) != spinlock_address(n),
        SIO_BASE + SPINLOCK_OFFSET <= spinlock_address(n),
        spinlock_address(n) + 4 <= SIO_BASE + SPINLOCK_OFFSET + 4 * SPINLOCK_COUNT,
        spinlock_address(n) % 4 == 0,
{
}

} // verus!
