//! Foundation of an 8-bit MOS 6502 class processor: a 16-bit addressed
//! byte memory contract, a processor status register made of named
//! condition flags, and a processor core that binds a shared memory
//! store to its status register.

pub mod cpu;
pub mod memory;
pub mod status;
