//! Command pools and command buffers.
pub mod buffer;
pub mod pool;
