//! Interrupts: asynchronous events that transfer control to a trap handler.

use vstd::prelude::*;

use crate::cpu::{spec_take_trap, Cpu};

verus! {

/// An interrupt pending against the hart.
#[derive(Debug, Clone, Copy, PartialEq, Eq, Structural)]
pub enum Interrupt {
    UserSoftwareInterrupt,
    SupervisorSoftwareInterrupt,
    MachineSoftwareInterrupt,
    UserTimerInterrupt,
    SupervisorTimerInterrupt,
    MachineTimerInterrupt,
    UserExternalInterrupt,
    SupervisorExternalInterrupt,
    MachineExternalInterrupt,
}

impl Interrupt {
    /// The architectural interrupt cause code (without the interrupt bit).
    pub open spec fn spec_code(&self) -> u64 {
        match self {
            Interrupt::UserSoftwareInterrupt => 0,
            Interrupt::SupervisorSoftwareInterrupt => 1,
            Interrupt::MachineSoftwareInterrupt => 3,
            Interrupt::UserTimerInterrupt => 4,
            Interrupt::SupervisorTimerInterrupt => 5,
            Interrupt::MachineTimerInterrupt => 7,
            Interrupt::UserExternalInterrupt => 8,
            Interrupt::SupervisorExternalInterrupt => 9,
            Interrupt::MachineExternalInterrupt => 11,
        }
    }

    /// The architectural interrupt cause code (without the interrupt bit).
    #[verifier::when_used_as_spec(spec_code)]
    pub fn code(&self) -> (c: u64)
        ensures
            c == self.spec_code(),
    {
        match self {
            Interrupt::UserSoftwareInterrupt => 0,
            Interrupt::SupervisorSoftwareInterrupt => 1,
            Interrupt::MachineSoftwareInterrupt => 3,
            Interrupt::UserTimerInterrupt => 4,
            Interrupt::SupervisorTimerInterrupt => 5,
            Interrupt::MachineTimerInterrupt => 7,
            Interrupt::UserExternalInterrupt => 8,
            Interrupt::SupervisorExternalInterrupt => 9,
            Interrupt::MachineExternalInterrupt => 11,
        }
    }

    /// Deliver this interrupt as a trap: the cause gains the interrupt bit,
    /// machine mode takes it unless the hart runs below machine mode and
    /// `mideleg` delegates the cause to supervisor mode, and a vectored trap
    /// base offsets the handler by the cause code.
    pub fn get_trap(&self, cpu: &mut Cpu)
        requires
            old(cpu)@.wf(),
        ensures
            final(cpu)@.wf(),
            final(cpu)@ == spec_take_trap(old(cpu)@, self.spec_code(), true),
    {
        let code = self.code();
        cpu.take_trap(code, true);
    }
}

} // verus!
