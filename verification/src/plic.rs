//! PLIC: the platform-level interrupt controller, multiplexing external
//! device interrupts towards the hart. The core models the source priority,
//! pending, supervisor enable, supervisor priority-threshold and supervisor
//! claim/complete registers as memory-mapped 32-bit words.

use vstd::prelude::*;

use crate::exception::Exception;

verus! {

/// Base address of the PLIC window.
pub const PLIC_BASE: u64 = 0xc00_0000;
/// Size of the PLIC window.
pub const PLIC_SIZE: u64 = 0x400_0000;
/// Address of the source priority register.
pub const PLIC_PRIORITY: u64 = PLIC_BASE;
/// Address of the interrupt pending register.
pub const PLIC_PENDING: u64 = PLIC_BASE + 0x1000;
/// Address of the supervisor interrupt enable register.
pub const PLIC_SENABLE: u64 = PLIC_BASE + 0x2080;
/// Address of the supervisor priority-threshold register.
pub const PLIC_SPRIORITY: u64 = PLIC_BASE + 0x201000;
/// Address of the supervisor claim/complete register.
pub const PLIC_SCLAIM: u64 = PLIC_BASE + 0x201004;

/// The state of the PLIC.
#[derive(Debug, Clone, Copy, PartialEq, Eq, Structural)]
pub struct Plic {
    /// Source priority.
    pub priority: u64,
    /// Interrupt pending bits.
    pub pending: u64,
    /// Supervisor interrupt enable bits.
    pub senable: u64,
    /// Supervisor priority threshold.
    pub spriority: u64,
    /// Supervisor claim/complete word; trap delivery writes the raised IRQ
    /// number here so that guest software can read which device to service.
    pub sclaim: u64,
}

/// What a PLIC load returns: only 32-bit accesses are supported; an unnamed
/// offset reads as zero.
pub open spec fn spec_plic_load(p: Plic, addr: u64, size: usize) -> Result<u64, Exception> {
    if size != 32 {
        Err(Exception::LoadAccessFault)
    } else if addr == PLIC_PRIORITY {
        Ok(p.priority)
    } else if addr == PLIC_PENDING {
        Ok(p.pending)
    } else if addr == PLIC_SENABLE {
        Ok(p.senable)
    } else if addr == PLIC_SPRIORITY {
        Ok(p.spriority)
    } else if addr == PLIC_SCLAIM {
        Ok(p.sclaim)
    } else {
        Ok(0)
    }
}

/// What a PLIC store leaves behind: only 32-bit accesses are supported; a
/// store to an unnamed offset is ignored.
pub open spec fn spec_plic_store(p: Plic, addr: u64, size: usize, value: u64) -> Result<
    Plic,
    Exception,
> {
    if size != 32 {
        Err(Exception::StoreAMOAccessFault)
    } else if addr == PLIC_PRIORITY {
        Ok(Plic { priority: value, ..p })
    } else if addr == PLIC_PENDING {
        Ok(Plic { pending: value, ..p })
    } else if addr == PLIC_SENABLE {
        Ok(Plic { senable: value, ..p })
    } else if addr == PLIC_SPRIORITY {
        Ok(Plic { spriority: value, ..p })
    } else if addr == PLIC_SCLAIM {
        Ok(Plic { sclaim: value, ..p })
    } else {
        Ok(p)
    }
}

impl Plic {
    /// Create the PLIC with all registers zero.
    pub fn new() -> (p: Plic)
        ensures
            p == (Plic { priority: 0, pending: 0, senable: 0, spriority: 0, sclaim: 0 }),
    {
        Plic { priority: 0, pending: 0, senable: 0, spriority: 0, sclaim: 0 }
    }

    /// Load a value from a PLIC register.
    pub fn load(&self, addr: u64, size: usize) -> (r: Result<u64, Exception>)
        ensures
            r == spec_plic_load(*self, addr, size),
    {
        if size != 32 {
            return Err(Exception::LoadAccessFault);
        }
        if addr == PLIC_PRIORITY {
            Ok(self.priority)
        } else if addr == PLIC_PENDING {
            Ok(self.pending)
        } else if addr == PLIC_SENABLE {
            Ok(self.senable)
        } else if addr == PLIC_SPRIORITY {
            Ok(self.spriority)
        } else if addr == PLIC_SCLAIM {
            Ok(self.sclaim)
        } else {
            Ok(0)
        }
    }

    /// Store a value to a PLIC register.
    pub fn store(&mut self, addr: u64, size: usize, value: u64) -> (r: Result<(), Exception>)
        ensures
            match spec_plic_store(*old(self), addr, size, value) {
                Ok(p2) => r == Ok::<(), Exception>(()) && *final(self) == p2,
                Err(e) => r == Err::<(), Exception>(e) && *final(self) == *old(self),
            },
    {
        if size != 32 {
            return Err(Exception::StoreAMOAccessFault);
        }
        if addr == PLIC_PRIORITY {
            self.priority = value;
        } else if addr == PLIC_PENDING {
            self.pending = value;
        } else if addr == PLIC_SENABLE {
            self.senable = value;
        } else if addr == PLIC_SPRIORITY {
            self.spriority = value;
        } else if addr == PLIC_SCLAIM {
            self.sclaim = value;
        }
        Ok(())
    }
}

} // verus!
