//! CLINT: the core-local interruptor, holding the software-interrupt and
//! timer registers `msip`, `mtimecmp` and `mtime` as memory-mapped 64-bit
//! words.

use vstd::prelude::*;

use crate::exception::Exception;

verus! {

/// Base address of the CLINT window.
pub const CLINT_BASE: u64 = 0x200_0000;
/// Size of the CLINT window.
pub const CLINT_SIZE: u64 = 0x10000;
/// Address of the machine software-interrupt pending register.
pub const CLINT_MSIP: u64 = CLINT_BASE;
/// Address of the machine timer compare register.
pub const CLINT_MTIMECMP: u64 = CLINT_BASE + 0x4000;
/// Address of the machine timer register.
pub const CLINT_MTIME: u64 = CLINT_BASE + 0xbff8;

/// The state of the CLINT.
#[derive(Debug, Clone, Copy, PartialEq, Eq, Structural)]
pub struct Clint {
    /// Machine software-interrupt pending.
    pub msip: u64,
    /// Machine timer compare value.
    pub mtimecmp: u64,
    /// Machine timer value.
    pub mtime: u64,
}

/// What a CLINT load returns: only 64-bit accesses are supported; an
/// unnamed offset reads as zero.
pub open spec fn spec_clint_load(c: Clint, addr: u64, size: usize) -> Result<u64, Exception> {
    if size != 64 {
        Err(Exception::LoadAccessFault)
    } else if addr == CLINT_MSIP {
        Ok(c.msip)
    } else if addr == CLINT_MTIMECMP {
        Ok(c.mtimecmp)
    } else if addr == CLINT_MTIME {
        Ok(c.mtime)
    } else {
        Ok(0)
    }
}

/// What a CLINT store leaves behind: only 64-bit accesses are supported; a
/// store to an unnamed offset is ignored.
pub open spec fn spec_clint_store(c: Clint, addr: u64, size: usize, value: u64) -> Result<
    Clint,
    Exception,
> {
    if size != 64 {
        Err(Exception::StoreAMOAccessFault)
    } else if addr == CLINT_MSIP {
        Ok(Clint { msip: value, ..c })
    } else if addr == CLINT_MTIMECMP {
        Ok(Clint { mtimecmp: value, ..c })
    } else if addr == CLINT_MTIME {
        Ok(Clint { mtime: value, ..c })
    } else {
        Ok(c)
    }
}

impl Clint {
    /// Create the CLINT with all registers zero.
    pub fn new() -> (c: Clint)
        ensures
            c == (Clint { msip: 0, mtimecmp: 0, mtime: 0 }),
    {
        Clint { msip: 0, mtimecmp: 0, mtime: 0 }
    }

    /// Load a value from a CLINT register.
    pub fn load(&self, addr: u64, size: usize) -> (r: Result<u64, Exception>)
        ensures
            r == spec_clint_load(*self, addr, size),
    {
        if size != 64 {
            return Err(Exception::LoadAccessFault);
        }
        if addr == CLINT_MSIP {
            Ok(self.msip)
        } else if addr == CLINT_MTIMECMP {
            Ok(self.mtimecmp)
        } else if addr == CLINT_MTIME {
            Ok(self.mtime)
        } else {
            Ok(0)
        }
    }

    /// Store a value to a CLINT register.
    pub fn store(&mut self, addr: u64, size: usize, value: u64) -> (r: Result<(), Exception>)
        ensures
            match spec_clint_store(*old(self), addr, size, value) {
                Ok(c2) => r == Ok::<(), Exception>(()) && *final(self) == c2,
                Err(e) => r == Err::<(), Exception>(e) && *final(self) == *old(self),
            },
    {
        if size != 64 {
            return Err(Exception::StoreAMOAccessFault);
        }
        if addr == CLINT_MSIP {
            self.msip = value;
        } else if addr == CLINT_MTIMECMP {
            self.mtimecmp = value;
        } else if addr == CLINT_MTIME {
            self.mtime = value;
        }
        Ok(())
    }
}

} // verus!
