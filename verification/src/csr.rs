//! Addresses of the control and status registers that the core uses.
//!
//! The CSR file is a flat array of 4096 64-bit words indexed by the 12-bit
//! CSR address; these constants name the slots the core reads and writes.

use vstd::prelude::*;

verus! {

/// Number of control and status registers.
pub const CSR_COUNT: usize = 4096;

/// Supervisor status register.
pub const SSTATUS: usize = 0x100;
/// Supervisor interrupt-enable register (a filtered alias of `mie`).
pub const SIE: usize = 0x104;
/// Supervisor trap-handler base address.
pub const STVEC: usize = 0x105;
/// Supervisor exception program counter.
pub const SEPC: usize = 0x141;
/// Supervisor trap cause.
pub const SCAUSE: usize = 0x142;
/// Supervisor bad address or instruction.
pub const STVAL: usize = 0x143;
/// Supervisor interrupt pending.
pub const SIP: usize = 0x144;
/// Supervisor address translation and protection.
pub const SATP: usize = 0x180;

/// Machine status register.
pub const MSTATUS: usize = 0x300;
/// Machine exception delegation register.
pub const MEDELEG: usize = 0x302;
/// Machine interrupt delegation register.
pub const MIDELEG: usize = 0x303;
/// Machine interrupt-enable register.
pub const MIE: usize = 0x304;
/// Machine trap-handler base address.
pub const MTVEC: usize = 0x305;
/// Machine exception program counter.
pub const MEPC: usize = 0x341;
/// Machine trap cause.
pub const MCAUSE: usize = 0x342;
/// Machine bad address or instruction.
pub const MTVAL: usize = 0x343;
/// Machine interrupt pending.
pub const MIP: usize = 0x344;

} // verus!
