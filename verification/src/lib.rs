//! Verified core of a small RP2040 runtime: the register-level decisions of
//! the hardware layer, the core-1 launch handshake, the process context frame,
//! the startup memory plan and the cooperative task queue.
pub mod boot;
pub mod blink;
pub mod hal;
pub mod process;
pub mod spin_lock;
pub mod startup;
pub mod task;
