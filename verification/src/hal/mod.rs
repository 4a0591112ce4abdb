//! Hardware layer: register block addresses and the decisions that drivers
//! take on the values they read from the registers.
pub mod resets;
pub mod sio;
