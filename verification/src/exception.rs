//! Exceptions: unusual conditions raised while executing an instruction.
//!
//! The variants map onto the architectural RISC-V exception causes; the
//! cause code is what trap delivery writes into `scause` or `mcause`.

use vstd::prelude::*;

use crate::cpu::{spec_take_trap, Cpu};

verus! {

/// An exception raised during fetch, translation or execution.
#[derive(Debug, Clone, Copy, PartialEq, Eq, Structural)]
pub enum Exception {
    InstructionAddressMisaligned,
    InstructionAccessFault,
    IllegalInstruction,
    Breakpoint,
    LoadAddressMisaligned,
    LoadAccessFault,
    StoreAMOAddressMisaligned,
    StoreAMOAccessFault,
    EnvironmentCallFromUMode,
    EnvironmentCallFromSMode,
    EnvironmentCallFromMMode,
    InstructionPageFault,
    LoadPageFault,
    StoreAMOPageFault,
}

impl Exception {
    /// The architectural cause code of this exception.
    pub open spec fn spec_code(&self) -> u64 {
        match self {
            Exception::InstructionAddressMisaligned => 0,
            Exception::InstructionAccessFault => 1,
            Exception::IllegalInstruction => 2,
            Exception::Breakpoint => 3,
            Exception::LoadAddressMisaligned => 4,
            Exception::LoadAccessFault => 5,
            Exception::StoreAMOAddressMisaligned => 6,
            Exception::StoreAMOAccessFault => 7,
            Exception::EnvironmentCallFromUMode => 8,
            Exception::EnvironmentCallFromSMode => 9,
            Exception::EnvironmentCallFromMMode => 11,
            Exception::InstructionPageFault => 12,
            Exception::LoadPageFault => 13,
            Exception::StoreAMOPageFault => 15,
        }
    }

    /// The architectural cause code, written to `scause`/`mcause` on delivery.
    #[verifier::when_used_as_spec(spec_code)]
    pub fn code(&self) -> (c: u64)
        ensures
            c == self.spec_code(),
    {
        match self {
            Exception::InstructionAddressMisaligned => 0,
            Exception::InstructionAccessFault => 1,
            Exception::IllegalInstruction => 2,
            Exception::Breakpoint => 3,
            Exception::LoadAddressMisaligned => 4,
            Exception::LoadAccessFault => 5,
            Exception::StoreAMOAddressMisaligned => 6,
            Exception::StoreAMOAccessFault => 7,
            Exception::EnvironmentCallFromUMode => 8,
            Exception::EnvironmentCallFromSMode => 9,
            Exception::EnvironmentCallFromMMode => 11,
            Exception::InstructionPageFault => 12,
            Exception::LoadPageFault => 13,
            Exception::StoreAMOPageFault => 15,
        }
    }

    /// Deliver this exception as a trap: machine mode takes it unless the
    /// hart runs below machine mode and `medeleg` delegates the cause to
    /// supervisor mode.
    pub fn get_trap(&self, cpu: &mut Cpu)
        requires
            old(cpu)@.wf(),
        ensures
            final(cpu)@.wf(),
            final(cpu)@ == spec_take_trap(old(cpu)@, self.spec_code(), false),
    {
        let code = self.code();
        cpu.take_trap(code, false);
    }

    /// Whether this exception terminates the main loop after delivery.
    pub open spec fn spec_is_fatal(&self) -> bool {
        match self {
            Exception::InstructionAddressMisaligned
            | Exception::InstructionAccessFault
            | Exception::LoadAccessFault
            | Exception::StoreAMOAddressMisaligned
            | Exception::StoreAMOAccessFault => true,
            _ => false,
        }
    }

    /// Whether this exception terminates the main loop after delivery.
    #[verifier::when_used_as_spec(spec_is_fatal)]
    pub fn is_fatal(&self) -> (f: bool)
        ensures
            f == self.spec_is_fatal(),
    {
        match self {
            Exception::InstructionAddressMisaligned
            | Exception::InstructionAccessFault
            | Exception::LoadAccessFault
            | Exception::StoreAMOAddressMisaligned
            | Exception::StoreAMOAccessFault => true,
            _ => false,
        }
    }
}

} // verus!
