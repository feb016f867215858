//! Tests of CSR access, trap delivery, trap returns and interrupt selection.

use rvcore::cpu::{Cpu, Mode, MIP_MSIP, MIP_SEIP, MIP_STIP};
use rvcore::csr::{
    MCAUSE, MEDELEG, MEPC, MIDELEG, MIE, MIP, MSTATUS, MTVEC, SCAUSE, SEPC, SIE, SSTATUS, STVEC,
};
use rvcore::encode::{encode_itype, encode_utype};
use rvcore::exception::Exception;
use rvcore::interrupt::Interrupt;
use rvcore::memory::MEMORY_BASE;

fn program(words: &[u32]) -> Vec<u8> {
    let mut bytes = Vec::new();
    for w in words {
        bytes.extend_from_slice(&w.to_le_bytes());
    }
    bytes
}

fn fresh_cpu() -> Cpu {
    Cpu::new(Vec::new(), Vec::new())
}

const ECALL: u32 = 0x0000_0073;
const SRET: u32 = 0x1020_0073;
const MRET: u32 = 0x3020_0073;

#[test]
fn csr_file_reads_back_what_was_stored() {
    let mut cpu = fresh_cpu();
    cpu.store_csr(MTVEC, 0x1234);
    assert_eq!(cpu.load_csr(MTVEC), 0x1234);
    assert_eq!(cpu.load_csr(MEPC), 0);
}

#[test]
fn sie_is_the_delegated_view_of_mie() {
    let mut cpu = fresh_cpu();
    cpu.store_csr(MIE, 0b1111);
    cpu.store_csr(MIDELEG, 0b0101);
    // Reading sie filters mie by mideleg.
    assert_eq!(cpu.load_csr(SIE), 0b0101);
    // Writing sie changes only the delegated bits of mie.
    cpu.store_csr(SIE, 0);
    assert_eq!(cpu.load_csr(MIE), 0b1010);
    cpu.store_csr(SIE, 0b0100);
    assert_eq!(cpu.load_csr(MIE), 0b1110);
}

#[test]
fn csrrw_swaps_old_value_into_rd() {
    // csrrw x1, mtvec, x2 with x2 = 0x300-ish value.
    let mut cpu = fresh_cpu();
    cpu.store_csr(MTVEC, 7);
    cpu.regs[2] = 0x44;
    let inst = encode_itype(0x73, 1, 1, 2, MTVEC as i32);
    assert_eq!(cpu.decode_execute(inst), Ok(()));
    assert_eq!(cpu.reg(1), 7);
    assert_eq!(cpu.load_csr(MTVEC), 0x44);
}

#[test]
fn csrrs_and_csrrc_set_and_clear_bits() {
    let mut cpu = fresh_cpu();
    cpu.store_csr(MTVEC, 0b1100);
    cpu.regs[2] = 0b0110;
    assert_eq!(cpu.decode_execute(encode_itype(0x73, 1, 2, 2, MTVEC as i32)), Ok(()));
    assert_eq!(cpu.reg(1), 0b1100);
    assert_eq!(cpu.load_csr(MTVEC), 0b1110);
    assert_eq!(cpu.decode_execute(encode_itype(0x73, 3, 3, 2, MTVEC as i32)), Ok(()));
    assert_eq!(cpu.reg(3), 0b1110);
    assert_eq!(cpu.load_csr(MTVEC), 0b1000);
}

#[test]
fn csr_immediate_forms_use_the_field_as_value() {
    let mut cpu = fresh_cpu();
    // csrrwi x1, mtvec, 21 (the rs1 field is the immediate).
    assert_eq!(cpu.decode_execute(encode_itype(0x73, 1, 5, 21, MTVEC as i32)), Ok(()));
    assert_eq!(cpu.reg(1), 0);
    assert_eq!(cpu.load_csr(MTVEC), 21);
    // csrrsi x2, mtvec, 8; csrrci x3, mtvec, 5.
    assert_eq!(cpu.decode_execute(encode_itype(0x73, 2, 6, 8, MTVEC as i32)), Ok(()));
    assert_eq!(cpu.reg(2), 21);
    assert_eq!(cpu.load_csr(MTVEC), 29);
    assert_eq!(cpu.decode_execute(encode_itype(0x73, 3, 7, 5, MTVEC as i32)), Ok(()));
    assert_eq!(cpu.reg(3), 29);
    assert_eq!(cpu.load_csr(MTVEC), 24);
}

#[test]
fn ecall_from_machine_delivers_in_machine_mode() {
    // auipc x1, 0; addi x1, x1, 0x100; csrrw x0, mtvec, x1; ecall.
    let mut cpu = Cpu::new(
        program(&[
            encode_utype(0x17, 1, 0),
            encode_itype(0x13, 1, 0, 1, 0x100),
            encode_itype(0x73, 0, 1, 1, MTVEC as i32),
            ECALL,
        ]),
        Vec::new(),
    );
    for _ in 0..4 {
        assert!(cpu.step());
    }
    assert_eq!(cpu.mode, Mode::Machine);
    assert_eq!(cpu.load_csr(MCAUSE), 11);
    assert_eq!(cpu.load_csr(MEPC), MEMORY_BASE + 12);
    assert_eq!(cpu.pc, MEMORY_BASE + 0x100);
}

#[test]
fn delegated_exception_delivers_in_supervisor_mode() {
    let mut cpu = fresh_cpu();
    cpu.mode = Mode::Supervisor;
    cpu.store_csr(MEDELEG, 1 << 9); // delegate supervisor environment calls
    cpu.store_csr(STVEC, MEMORY_BASE + 0x200);
    cpu.pc = MEMORY_BASE + 0x44; // as if the ecall at 0x40 was just executed
    let e = cpu.decode_execute(ECALL).unwrap_err();
    assert_eq!(e, Exception::EnvironmentCallFromSMode);
    e.get_trap(&mut cpu);
    assert_eq!(cpu.mode, Mode::Supervisor);
    assert_eq!(cpu.load_csr(SCAUSE), 9);
    assert_eq!(cpu.load_csr(SEPC), MEMORY_BASE + 0x40);
    assert_eq!(cpu.pc, MEMORY_BASE + 0x200);
    // SPP records that the trap came from supervisor mode.
    assert_eq!((cpu.load_csr(SSTATUS) >> 8) & 1, 1);
}

#[test]
fn undelegated_exception_from_supervisor_lands_in_machine() {
    let mut cpu = fresh_cpu();
    cpu.mode = Mode::Supervisor;
    cpu.store_csr(MTVEC, MEMORY_BASE + 0x300);
    cpu.pc = MEMORY_BASE + 4;
    let e = cpu.decode_execute(ECALL).unwrap_err();
    e.get_trap(&mut cpu);
    assert_eq!(cpu.mode, Mode::Machine);
    assert_eq!(cpu.load_csr(MCAUSE), 9);
    assert_eq!(cpu.pc, MEMORY_BASE + 0x300);
    // MPP records that the trap came from supervisor mode.
    assert_eq!((cpu.load_csr(MSTATUS) >> 11) & 0b11, 1);
}

#[test]
fn trap_entry_stacks_the_status_register() {
    let mut cpu = fresh_cpu();
    cpu.store_csr(MSTATUS, 1 << 3); // MIE on
    cpu.pc = MEMORY_BASE + 4;
    Exception::Breakpoint.get_trap(&mut cpu);
    let mstatus = cpu.load_csr(MSTATUS);
    assert_eq!((mstatus >> 7) & 1, 1); // MPIE holds the old MIE
    assert_eq!((mstatus >> 3) & 1, 0); // interrupts disabled
    assert_eq!((mstatus >> 11) & 0b11, 3); // MPP: came from machine mode
    assert_eq!(cpu.load_csr(MCAUSE), 3);
}

#[test]
fn sret_restores_mode_interrupts_and_pc() {
    let mut cpu = fresh_cpu();
    cpu.mode = Mode::Supervisor;
    // SPP = supervisor, SPIE = 1, SIE = 0.
    cpu.store_csr(SSTATUS, (1 << 8) | (1 << 5));
    cpu.store_csr(SEPC, MEMORY_BASE + 0x40);
    assert_eq!(cpu.decode_execute(SRET), Ok(()));
    assert_eq!(cpu.mode, Mode::Supervisor);
    assert_eq!(cpu.pc, MEMORY_BASE + 0x40);
    let s = cpu.load_csr(SSTATUS);
    assert_eq!((s >> 1) & 1, 1); // SIE restored from SPIE
    assert_eq!((s >> 5) & 1, 1); // SPIE set
    assert_eq!((s >> 8) & 1, 0); // SPP back to user
}

#[test]
fn sret_with_spp_zero_drops_to_user() {
    let mut cpu = fresh_cpu();
    cpu.mode = Mode::Supervisor;
    cpu.store_csr(SEPC, MEMORY_BASE);
    assert_eq!(cpu.decode_execute(SRET), Ok(()));
    assert_eq!(cpu.mode, Mode::User);
}

#[test]
fn mret_restores_mode_interrupts_and_pc() {
    let mut cpu = fresh_cpu();
    // MPP = machine, MPIE = 1, MIE = 0.
    cpu.store_csr(MSTATUS, (3 << 11) | (1 << 7));
    cpu.store_csr(MEPC, MEMORY_BASE + 0x80);
    assert_eq!(cpu.decode_execute(MRET), Ok(()));
    assert_eq!(cpu.mode, Mode::Machine);
    assert_eq!(cpu.pc, MEMORY_BASE + 0x80);
    let m = cpu.load_csr(MSTATUS);
    assert_eq!((m >> 3) & 1, 1); // MIE restored from MPIE
    assert_eq!((m >> 7) & 1, 1); // MPIE set
    assert_eq!((m >> 11) & 0b11, 0); // MPP back to user
}

#[test]
fn mret_decodes_the_mpp_field() {
    let mut cpu = fresh_cpu();
    cpu.store_csr(MSTATUS, 1 << 11); // MPP = supervisor
    assert_eq!(cpu.decode_execute(MRET), Ok(()));
    assert_eq!(cpu.mode, Mode::Supervisor);

    let mut cpu = fresh_cpu();
    cpu.store_csr(MSTATUS, 0); // MPP = user
    assert_eq!(cpu.decode_execute(MRET), Ok(()));
    assert_eq!(cpu.mode, Mode::User);
}

#[test]
fn pending_enabled_interrupt_is_taken_and_cleared() {
    let mut cpu = fresh_cpu();
    cpu.store_csr(MSTATUS, 1 << 3); // machine interrupts enabled
    cpu.store_csr(MIE, MIP_MSIP);
    cpu.store_csr(MIP, MIP_MSIP);
    assert_eq!(cpu.check_pending_interrupt(), Some(Interrupt::MachineSoftwareInterrupt));
    assert_eq!(cpu.load_csr(MIP) & MIP_MSIP, 0);
    // Nothing further is pending.
    assert_eq!(cpu.check_pending_interrupt(), None);
}

#[test]
fn machine_interrupts_gated_by_mstatus_mie() {
    let mut cpu = fresh_cpu();
    cpu.store_csr(MIE, MIP_MSIP);
    cpu.store_csr(MIP, MIP_MSIP);
    // MIE bit of mstatus is clear, so nothing is taken and mip keeps its bit.
    assert_eq!(cpu.check_pending_interrupt(), None);
    assert_eq!(cpu.load_csr(MIP) & MIP_MSIP, MIP_MSIP);
}

#[test]
fn interrupt_priority_prefers_machine_software_over_supervisor_timer() {
    let mut cpu = fresh_cpu();
    cpu.store_csr(MSTATUS, 1 << 3);
    cpu.store_csr(MIE, MIP_MSIP | MIP_STIP);
    cpu.store_csr(MIP, MIP_MSIP | MIP_STIP);
    assert_eq!(cpu.check_pending_interrupt(), Some(Interrupt::MachineSoftwareInterrupt));
    assert_eq!(cpu.check_pending_interrupt(), Some(Interrupt::SupervisorTimerInterrupt));
}

#[test]
fn user_mode_masks_no_interrupts() {
    let mut cpu = fresh_cpu();
    cpu.mode = Mode::User;
    cpu.store_csr(MIE, MIP_SEIP);
    cpu.store_csr(MIP, MIP_SEIP);
    assert_eq!(cpu.check_pending_interrupt(), Some(Interrupt::SupervisorExternalInterrupt));
}

#[test]
fn interrupt_trap_uses_mideleg_and_sets_the_interrupt_bit() {
    let mut cpu = fresh_cpu();
    cpu.mode = Mode::Supervisor;
    cpu.store_csr(MIDELEG, 1 << 9); // delegate supervisor external interrupts
    cpu.store_csr(STVEC, MEMORY_BASE + 0x200);
    cpu.pc = MEMORY_BASE + 4;
    Interrupt::SupervisorExternalInterrupt.get_trap(&mut cpu);
    assert_eq!(cpu.mode, Mode::Supervisor);
    assert_eq!(cpu.load_csr(SCAUSE), (1 << 63) | 9);
    assert_eq!(cpu.pc, MEMORY_BASE + 0x200);
}

#[test]
fn vectored_interrupt_offsets_the_handler() {
    let mut cpu = fresh_cpu();
    cpu.store_csr(MTVEC, (MEMORY_BASE + 0x100) | 1); // vectored mode
    cpu.pc = MEMORY_BASE + 4;
    Interrupt::MachineTimerInterrupt.get_trap(&mut cpu);
    assert_eq!(cpu.pc, MEMORY_BASE + 0x100 + 4 * 7);
    assert_eq!(cpu.load_csr(MCAUSE), (1 << 63) | 7);
}

#[test]
fn misaligned_pc_raises_a_fatal_misalignment() {
    let mut cpu = fresh_cpu();
    cpu.pc = MEMORY_BASE + 2;
    assert_eq!(cpu.fetch(), Err(Exception::InstructionAddressMisaligned));
    assert!(!cpu.step());
    assert_eq!(cpu.load_csr(MCAUSE), 0);
    assert_eq!(cpu.load_csr(MEPC), MEMORY_BASE + 2);
}

#[test]
fn fatal_fetch_fault_stops_the_loop() {
    let mut cpu = fresh_cpu();
    cpu.pc = 0; // no device is mapped at zero
    assert!(!cpu.step());
    assert_eq!(cpu.load_csr(MCAUSE), Exception::InstructionAccessFault.code());
    assert_eq!(cpu.load_csr(MEPC), 0);
}

#[test]
fn exception_fatality_classification() {
    assert!(Exception::InstructionAddressMisaligned.is_fatal());
    assert!(Exception::InstructionAccessFault.is_fatal());
    assert!(Exception::LoadAccessFault.is_fatal());
    assert!(Exception::StoreAMOAddressMisaligned.is_fatal());
    assert!(Exception::StoreAMOAccessFault.is_fatal());
    assert!(!Exception::IllegalInstruction.is_fatal());
    assert!(!Exception::Breakpoint.is_fatal());
    assert!(!Exception::LoadAddressMisaligned.is_fatal());
    assert!(!Exception::EnvironmentCallFromMMode.is_fatal());
    assert!(!Exception::LoadPageFault.is_fatal());
}

#[test]
fn exception_codes_are_architectural() {
    assert_eq!(Exception::InstructionAddressMisaligned.code(), 0);
    assert_eq!(Exception::IllegalInstruction.code(), 2);
    assert_eq!(Exception::Breakpoint.code(), 3);
    assert_eq!(Exception::EnvironmentCallFromUMode.code(), 8);
    assert_eq!(Exception::EnvironmentCallFromMMode.code(), 11);
    assert_eq!(Exception::InstructionPageFault.code(), 12);
    assert_eq!(Exception::LoadPageFault.code(), 13);
    assert_eq!(Exception::StoreAMOPageFault.code(), 15);
    assert_eq!(Interrupt::SupervisorSoftwareInterrupt.code(), 1);
    assert_eq!(Interrupt::MachineExternalInterrupt.code(), 11);
}

#[test]
fn illegal_instruction_traps_and_continues() {
    // An all-ones word is no instruction: the step delivers an illegal
    // instruction trap and the loop goes on.
    let mut cpu = Cpu::new(program(&[0xffff_ffff]), Vec::new());
    cpu.store_csr(MTVEC, MEMORY_BASE + 0x80);
    assert!(cpu.step());
    assert_eq!(cpu.load_csr(MCAUSE), 2);
    assert_eq!(cpu.pc, MEMORY_BASE + 0x80);
}
