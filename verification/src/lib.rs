//! Core of a user-space emulator for a 64-bit little-endian RISC-V machine
//! (RV64IMA subset with Zicsr, Sv39 paging and M/S/U privilege modes),
//! sufficient to boot an xv6-class kernel with a VirtIO block device and a
//! 16550a UART.
//!
//! Every state transition of the machine is stated as a specification
//! function over a mathematical view of the machine state, and the
//! executable emulator is proved to implement it.

pub mod bits;
pub mod bus;
pub mod clint;
pub mod cpu;
pub mod csr;
pub mod encode;
pub mod exception;
pub mod execute;
pub mod interrupt;
pub mod memory;
pub mod plic;
pub mod uart;
pub mod virtio;
