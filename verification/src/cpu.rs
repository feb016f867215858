//! The hart: thirty-two general registers, the program counter, the control
//! and status register file, the privilege mode, the Sv39 paging state and
//! the system bus.
//!
//! The complete machine state has a mathematical view, [`CpuView`], and every
//! operation of the hart is specified as a function over that view.

use vstd::prelude::*;

use crate::bits::lemma_u64_mask_bounds;
use crate::bus::{
    bus_view_wf, fresh_bus, spec_bus_load_r, spec_bus_load_s, spec_bus_store_r, spec_bus_store_s,
    Bus, BusView,
};
use crate::csr::{
    CSR_COUNT, MCAUSE, MEDELEG, MEPC, MIDELEG, MIE, MIP, MSTATUS, MTVAL, MTVEC, SATP, SCAUSE, SEPC,
    SIE, SSTATUS, STVAL, STVEC,
};
use crate::exception::Exception;
use crate::interrupt::Interrupt;
use crate::memory::{MEMORY_BASE, MEMORY_SIZE};
use crate::plic::PLIC_SCLAIM;
use crate::uart::{UartView, UART_IRQ};
use crate::virtio::{spec_disk_access, Virtio, VirtioView, VIRTIO_IRQ};

verus! {

/// Supervisor software-interrupt pending bit of `mip`.
pub const MIP_SSIP: u64 = 1 << 1;
/// Machine software-interrupt pending bit of `mip`.
pub const MIP_MSIP: u64 = 1 << 3;
/// Supervisor timer-interrupt pending bit of `mip`.
pub const MIP_STIP: u64 = 1 << 5;
/// Machine timer-interrupt pending bit of `mip`.
pub const MIP_MTIP: u64 = 1 << 7;
/// Supervisor external-interrupt pending bit of `mip`.
pub const MIP_SEIP: u64 = 1 << 9;
/// Machine external-interrupt pending bit of `mip`.
pub const MIP_MEIP: u64 = 1 << 11;

/// The page size of the virtual memory system.
pub const PAGE_SIZE: u64 = 4096;

/// The largest page-table base a `satp` write can install: a 44-bit physical
/// page number times the page size.
pub const PAGE_TABLE_MAX: u64 = 0x0fff_ffff_ffff * 4096;

/// Privilege mode of the hart.
#[derive(Debug, Clone, Copy, PartialEq, Eq, Structural)]
pub enum Mode {
    User,
    Supervisor,
    Machine,
}

impl Mode {
    /// The architectural two-bit encoding of the mode.
    pub open spec fn spec_encoding(&self) -> u64 {
        match self {
            Mode::User => 0,
            Mode::Supervisor => 1,
            Mode::Machine => 3,
        }
    }
}

/// The kind of memory access being translated.
#[derive(Debug, Clone, Copy, PartialEq, Eq, Structural)]
pub enum AccessType {
    Instruction,
    Load,
    Store,
}

/// The page fault matching an access type.
pub open spec fn page_fault(at: AccessType) -> Exception {
    match at {
        AccessType::Instruction => Exception::InstructionPageFault,
        AccessType::Load => Exception::LoadPageFault,
        AccessType::Store => Exception::StoreAMOPageFault,
    }
}

/// The mathematical state of the whole machine.
pub ghost struct CpuView {
    /// The thirty-two general registers; index zero is hardwired to zero.
    pub regs: Seq<u64>,
    /// The program counter.
    pub pc: u64,
    /// The control and status register file, 4096 64-bit words.
    pub csr: Seq<u64>,
    /// The current privilege mode.
    pub mode: Mode,
    /// Whether Sv39 paging is on.
    pub enable_paging: bool,
    /// The physical base of the root page table.
    pub page_table: u64,
    /// Everything reachable over the bus.
    pub bus: BusView,
}

impl CpuView {
    /// Well-formed machine state: the register files have their fixed sizes,
    /// register zero reads as zero, and the page-table base is one a `satp`
    /// write can install.
    pub open spec fn wf(self) -> bool {
        &&& self.regs.len() == 32
        &&& self.regs[0] == 0
        &&& self.csr.len() == CSR_COUNT
        &&& bus_view_wf(self.bus)
        &&& self.page_table <= PAGE_TABLE_MAX
    }
}

/// What reading a CSR returns. Reading `sie` returns the delegated bits of
/// `mie`; every other address reads its own slot.
pub open spec fn csr_read(csr: Seq<u64>, address: int) -> u64 {
    if address == SIE {
        csr[MIE as int] & csr[MIDELEG as int]
    } else {
        csr[address]
    }
}

/// What writing a CSR leaves behind. Writing `sie` updates the delegated
/// bits of `mie` and leaves the rest; every other address writes its own
/// slot.
pub open spec fn csr_write(csr: Seq<u64>, address: int, value: u64) -> Seq<u64> {
    if address == SIE {
        csr.update(
            MIE as int,
            (csr[MIE as int] & !csr[MIDELEG as int]) | (value & csr[MIDELEG as int]),
        )
    } else {
        csr.update(address, value)
    }
}

/// The virtual page number of `addr` at level `i` of the Sv39 walk.
pub open spec fn vpn_of(addr: u64, i: int) -> u64 {
    if i == 2 {
        (addr >> 30) & 0x1ff
    } else if i == 1 {
        (addr >> 21) & 0x1ff
    } else {
        (addr >> 12) & 0x1ff
    }
}

/// The full 44-bit physical page number of a page-table entry.
pub open spec fn pte_ppn(pte: u64) -> u64 {
    (pte >> 10) & 0x0fff_ffff_ffff
}

/// The physical address a leaf page-table entry found at level `i` maps
/// `addr` to: the offset comes from the low 12 bits of `addr`, and for a
/// superpage leaf the low components of the page number come from the
/// virtual address itself.
pub open spec fn leaf_pa(pte: u64, addr: u64, i: int) -> u64 {
    let offset = addr & 0xfff;
    if i == 0 {
        (pte_ppn(pte) << 12) | offset
    } else if i == 1 {
        (((pte >> 28) & 0x03ff_ffff) << 30) | (((pte >> 19) & 0x1ff) << 21) | (((addr >> 12)
            & 0x1ff) << 12) | offset
    } else {
        (((pte >> 28) & 0x03ff_ffff) << 30) | (((addr >> 21) & 0x1ff) << 21) | (((addr >> 12)
            & 0x1ff) << 12) | offset
    }
}

/// One branch of the Sv39 walk from level `i` with page-table base `a`:
/// the page-table entry is loaded over the bus; an invalid entry or an
/// exhausted walk raises the page fault matching the access type; a leaf
/// entry yields the composed physical address.
pub open spec fn spec_walk(b: BusView, a: u64, addr: u64, i: int, at: AccessType) -> Result<
    u64,
    Exception,
>
    decreases i,
{
    match spec_bus_load_r(b, (a + vpn_of(addr, i) * 8) as u64, 64) {
        Err(e) => Err(e),
        Ok(pte) => {
            if pte & 1 == 0 || ((pte >> 1) & 1 == 0 && (pte >> 2) & 1 == 1) {
                Err(page_fault(at))
            } else if (pte >> 1) & 1 == 1 || (pte >> 3) & 1 == 1 {
                Ok(leaf_pa(pte, addr, i))
            } else if i <= 0 {
                Err(page_fault(at))
            } else {
                spec_walk(b, (pte_ppn(pte) * PAGE_SIZE) as u64, addr, i - 1, at)
            }
        },
    }
}

/// What address translation returns: the identity when paging is off, and
/// the three-level Sv39 walk from the root page table otherwise.
///
/// Translation is gated by the paging switch alone: the privilege mode does
/// not exempt an access, so a machine-mode access with paging on walks the
/// tables too. Hardware ordinarily exempts machine mode (absent MPRV, which
/// this core does not model); the core keeps the walk so that a machine-mode
/// program that has just written `satp` observes its page tables at once,
/// as on the fetch that follows the write.
pub open spec fn spec_translate(c: CpuView, addr: u64, at: AccessType) -> Result<u64, Exception> {
    if !c.enable_paging {
        Ok(addr)
    } else {
        spec_walk(c.bus, c.page_table, addr, 2, at)
    }
}

/// What a CPU load returns: translation followed by a bus load.
pub open spec fn spec_cpu_load_r(c: CpuView, addr: u64, size: usize) -> Result<u64, Exception> {
    match spec_translate(c, addr, AccessType::Load) {
        Err(e) => Err(e),
        Ok(pa) => spec_bus_load_r(c.bus, pa, size),
    }
}

/// What a CPU load leaves behind: only a UART receive-register read changes
/// any state.
pub open spec fn spec_cpu_load_s(c: CpuView, addr: u64, size: usize) -> CpuView {
    match spec_translate(c, addr, AccessType::Load) {
        Err(_) => c,
        Ok(pa) => CpuView { bus: spec_bus_load_s(c.bus, pa, size), ..c },
    }
}

/// What a CPU store returns: translation followed by a bus store.
pub open spec fn spec_cpu_store_r(c: CpuView, addr: u64, size: usize, value: u64) -> Result<
    (),
    Exception,
> {
    match spec_translate(c, addr, AccessType::Store) {
        Err(e) => Err(e),
        Ok(pa) => spec_bus_store_r(c.bus, pa, size, value),
    }
}

/// What a CPU store leaves behind.
pub open spec fn spec_cpu_store_s(c: CpuView, addr: u64, size: usize, value: u64) -> CpuView {
    match spec_translate(c, addr, AccessType::Store) {
        Err(_) => c,
        Ok(pa) => CpuView { bus: spec_bus_store_s(c.bus, pa, size, value), ..c },
    }
}

/// What an instruction fetch returns: a program counter that is not 4-byte
/// aligned raises an instruction address misalignment; otherwise it is
/// translated as an instruction access and 32 bits are loaded, a failed
/// load being an instruction access fault.
pub open spec fn spec_fetch(c: CpuView) -> Result<u32, Exception> {
    if c.pc & 3 != 0 {
        Err(Exception::InstructionAddressMisaligned)
    } else {
        match spec_translate(c, c.pc, AccessType::Instruction) {
            Err(e) => Err(e),
            Ok(pa) => match spec_bus_load_r(c.bus, pa, 32) {
                Ok(v) => Ok(v as u32),
                Err(_) => Err(Exception::InstructionAccessFault),
            },
        }
    }
}

/// What writing `satp` does to the paging state: paging is on exactly when
/// the mode field holds 8 (Sv39), and the page-table base is the physical
/// page number times the page size. A write to any other CSR changes
/// nothing.
pub open spec fn spec_update_paging(c: CpuView, csr_addr: int) -> CpuView {
    if csr_addr != SATP {
        c
    } else {
        CpuView {
            page_table: ((csr_read(c.csr, SATP as int) & 0x0fff_ffff_ffff) * PAGE_SIZE) as u64,
            enable_paging: csr_read(c.csr, SATP as int) >> 60 == 8,
            ..c
        }
    }
}

/// What delivering a trap does. Let the cause code be `code` and the
/// faulting address be the program counter stepped back over the trapping
/// instruction. A trap from user or supervisor mode whose code is delegated
/// (by `medeleg` for exceptions, `mideleg` for interrupts) is delivered in
/// supervisor mode, every other trap in machine mode. Delivery jumps to the
/// trap vector (an interrupt with the vectored bit set lands at the vector
/// base plus four times the code), records the faulting address and cause,
/// clears the trap value, and stacks the status register: the previous
/// interrupt-enable bit moves to the PIE bit, interrupts are disabled, and
/// the PP field records the mode the trap came from.
pub open spec fn spec_take_trap(c: CpuView, code: u64, is_interrupt: bool) -> CpuView {
    let epc = c.pc.wrapping_sub(4);
    let cause = if is_interrupt {
        code | (1u64 << 63)
    } else {
        code
    };
    let deleg = if is_interrupt {
        csr_read(c.csr, MIDELEG as int)
    } else {
        csr_read(c.csr, MEDELEG as int)
    };
    if c.mode != Mode::Machine && (deleg >> code) & 1 == 1 {
        let stvec = csr_read(c.csr, STVEC as int);
        let vector = if is_interrupt && stvec & 1 == 1 {
            (4 * code) as u64
        } else {
            0
        };
        let sstatus = csr_read(c.csr, SSTATUS as int);
        let s1 = if (sstatus >> 1) & 1 == 1 {
            sstatus | (1u64 << 5)
        } else {
            sstatus & !(1u64 << 5)
        };
        let s2 = s1 & !(1u64 << 1);
        let s3 = if c.mode == Mode::User {
            s2 & !(1u64 << 8)
        } else {
            s2 | (1u64 << 8)
        };
        let csr1 = csr_write(c.csr, SEPC as int, epc & !1);
        let csr2 = csr_write(csr1, SCAUSE as int, cause);
        let csr3 = csr_write(csr2, STVAL as int, 0);
        let csr4 = csr_write(csr3, SSTATUS as int, s3);
        CpuView {
            pc: (stvec & !1).wrapping_add(vector),
            mode: Mode::Supervisor,
            csr: csr4,
            ..c
        }
    } else {
        let mtvec = csr_read(c.csr, MTVEC as int);
        let vector = if is_interrupt && mtvec & 1 == 1 {
            (4 * code) as u64
        } else {
            0
        };
        let mstatus = csr_read(c.csr, MSTATUS as int);
        let m1 = if (mstatus >> 3) & 1 == 1 {
            mstatus | (1u64 << 7)
        } else {
            mstatus & !(1u64 << 7)
        };
        let m2 = m1 & !(1u64 << 3);
        let m3 = (m2 & !(3u64 << 11)) | (c.mode.spec_encoding() << 11);
        let csr1 = csr_write(c.csr, MEPC as int, epc & !1);
        let csr2 = csr_write(csr1, MCAUSE as int, cause);
        let csr3 = csr_write(csr2, MTVAL as int, 0);
        let csr4 = csr_write(csr3, MSTATUS as int, m3);
        CpuView {
            pc: (mtvec & !1).wrapping_add(vector),
            mode: Mode::Machine,
            csr: csr4,
            ..c
        }
    }
}

/// The machine state after an external IRQ is raised towards the hart: the
/// IRQ number is written to the PLIC claim register over the bus, and the
/// supervisor external-interrupt bit of `mip` is set pending.
pub open spec fn spec_raise_irq(c: CpuView, irq: u64) -> CpuView {
    let c1 = CpuView { bus: spec_bus_store_s(c.bus, PLIC_SCLAIM, 32, irq), ..c };
    CpuView {
        csr: csr_write(c1.csr, MIP as int, csr_read(c1.csr, MIP as int) | MIP_SEIP),
        ..c1
    }
}

/// The state with one pending bit of `mip` cleared.
pub open spec fn spec_clear_mip(c: CpuView, bit: u64) -> CpuView {
    CpuView { csr: csr_write(c.csr, MIP as int, csr_read(c.csr, MIP as int) & !bit), ..c }
}

/// Which interrupt is taken: the first bit pending in `mip` and enabled in
/// `mie`, in the order machine external, machine software, machine timer,
/// supervisor external, supervisor software, supervisor timer. The taken
/// interrupt's pending bit is cleared.
pub open spec fn spec_take_pending(c: CpuView) -> (Option<Interrupt>, CpuView) {
    let pending = csr_read(c.csr, MIE as int) & csr_read(c.csr, MIP as int);
    if pending & MIP_MEIP != 0 {
        (Some(Interrupt::MachineExternalInterrupt), spec_clear_mip(c, MIP_MEIP))
    } else if pending & MIP_MSIP != 0 {
        (Some(Interrupt::MachineSoftwareInterrupt), spec_clear_mip(c, MIP_MSIP))
    } else if pending & MIP_MTIP != 0 {
        (Some(Interrupt::MachineTimerInterrupt), spec_clear_mip(c, MIP_MTIP))
    } else if pending & MIP_SEIP != 0 {
        (Some(Interrupt::SupervisorExternalInterrupt), spec_clear_mip(c, MIP_SEIP))
    } else if pending & MIP_SSIP != 0 {
        (Some(Interrupt::SupervisorSoftwareInterrupt), spec_clear_mip(c, MIP_SSIP))
    } else if pending & MIP_STIP != 0 {
        (Some(Interrupt::SupervisorTimerInterrupt), spec_clear_mip(c, MIP_STIP))
    } else {
        (None, c)
    }
}

/// What the interrupt poll after an instruction does. In machine mode the
/// global machine interrupt-enable bit gates the poll, in supervisor mode
/// the supervisor one; user mode masks nothing. A pending UART interrupt
/// raises its IRQ; otherwise a pending VirtIO interrupt first performs the
/// disk access and then raises its IRQ. Raising an IRQ claims it in the PLIC
/// and marks a supervisor external interrupt pending; the first pending and
/// enabled interrupt is then taken and its pending bit cleared.
pub open spec fn spec_check_pending(c: CpuView) -> (Option<Interrupt>, CpuView) {
    if c.mode == Mode::Machine && (csr_read(c.csr, MSTATUS as int) >> 3) & 1 == 0 {
        (None, c)
    } else if c.mode == Mode::Supervisor && (csr_read(c.csr, SSTATUS as int) >> 1) & 1 == 0 {
        (None, c)
    } else {
        let c_u = CpuView {
            bus: BusView { uart: UartView { interrupt: false, ..c.bus.uart }, ..c.bus },
            ..c
        };
        if c.bus.uart.interrupt {
            spec_take_pending(spec_raise_irq(c_u, UART_IRQ))
        } else {
            let c_v = CpuView {
                bus: BusView {
                    virtio: VirtioView { interrupt: false, ..c_u.bus.virtio },
                    ..c_u.bus
                },
                ..c_u
            };
            if c.bus.virtio.interrupt {
                let (_, c_d) = spec_disk_access(c_v);
                spec_take_pending(spec_raise_irq(c_d, VIRTIO_IRQ))
            } else {
                spec_take_pending(c_v)
            }
        }
    }
}

/// The interrupt poll and, if an interrupt is taken, its delivery.
pub open spec fn spec_poll(c: CpuView) -> CpuView {
    let (oi, c1) = spec_check_pending(c);
    match oi {
        Some(i) => spec_take_trap(c1, i.spec_code(), true),
        None => c1,
    }
}

/// What one step of the main loop does: fetch at the program counter,
/// advance it by four, execute, deliver any exception, then poll for an
/// interrupt and deliver it. An exception taken during fetch uses the
/// pre-increment program counter as the faulting address; one taken during
/// execution uses the instruction's own address. The step reports whether
/// the loop goes on: a fatal exception stops it.
pub open spec fn spec_step(c: CpuView) -> (bool, CpuView) {
    let c1 = CpuView { pc: c.pc.wrapping_add(4), ..c };
    match spec_fetch(c) {
        Err(e) => {
            let c2 = spec_take_trap(c1, e.spec_code(), false);
            if e.spec_is_fatal() {
                (false, c2)
            } else {
                (true, spec_poll(c2))
            }
        },
        Ok(inst) => {
            let (r, c2) = crate::execute::spec_execute(c1, inst);
            match r {
                Err(e) => {
                    let c3 = spec_take_trap(c2, e.spec_code(), false);
                    if e.spec_is_fatal() {
                        (false, c3)
                    } else {
                        (true, spec_poll(c3))
                    }
                },
                Ok(_) => (true, spec_poll(c2)),
            }
        },
    }
}

/// Law: every page walk that succeeds composes the translated address from
/// the low 12 bits of the virtual address (the offset) and the page number
/// resolved from a leaf page-table entry; a superpage leaf takes the low
/// components of the page number from the virtual address itself.
pub proof fn lemma_walk_composes(b: BusView, a: u64, addr: u64, i: int, at: AccessType)
    requires
        0 <= i <= 2,
        spec_walk(b, a, addr, i, at) is Ok,
    ensures
        ({
            let pa = spec_walk(b, a, addr, i, at)->Ok_0;
            &&& pa & 0xfff == addr & 0xfff
            &&& exists|pte: u64, lvl: int|
                0 <= lvl <= i && pa == leaf_pa(pte, addr, lvl) && (lvl >= 1 ==> (pa >> 12) & 0x1ff
                    == (addr >> 12) & 0x1ff) && (lvl == 2 ==> (pa >> 21) & 0x1ff == (addr >> 21)
                    & 0x1ff)
        }),
    decreases i,
{
    let pte = spec_bus_load_r(b, (a + vpn_of(addr, i) * 8) as u64, 64)->Ok_0;
    if (pte >> 1) & 1 == 1 || (pte >> 3) & 1 == 1 {
        let pa = leaf_pa(pte, addr, i);
        if i == 0 {
            assert(((((pte >> 10) & 0x0fff_ffff_ffff) << 12) | (addr & 0xfff)) & 0xfff == addr
                & 0xfff) by (bit_vector);
        } else if i == 1 {
            assert((((((pte >> 28) & 0x03ff_ffff) << 30) | (((pte >> 19) & 0x1ff) << 21) | (((addr
                >> 12) & 0x1ff) << 12) | (addr & 0xfff)) & 0xfff) == (addr & 0xfff))
                by (bit_vector);
            assert(((((((pte >> 28) & 0x03ff_ffff) << 30) | (((pte >> 19) & 0x1ff) << 21) | (((addr
                >> 12) & 0x1ff) << 12) | (addr & 0xfff)) >> 12) & 0x1ff) == ((addr >> 12) & 0x1ff))
                by (bit_vector);
        } else {
            assert((((((pte >> 28) & 0x03ff_ffff) << 30) | (((addr >> 21) & 0x1ff) << 21) | (((addr
                >> 12) & 0x1ff) << 12) | (addr & 0xfff)) & 0xfff) == (addr & 0xfff))
                by (bit_vector);
            assert(((((((pte >> 28) & 0x03ff_ffff) << 30) | (((addr >> 21) & 0x1ff) << 21) | (((
            addr >> 12) & 0x1ff) << 12) | (addr & 0xfff)) >> 12) & 0x1ff) == ((addr >> 12) & 0x1ff))
                by (bit_vector);
            assert(((((((pte >> 28) & 0x03ff_ffff) << 30) | (((addr >> 21) & 0x1ff) << 21) | (((
            addr >> 12) & 0x1ff) << 12) | (addr & 0xfff)) >> 21) & 0x1ff) == ((addr >> 21) & 0x1ff))
                by (bit_vector);
        }
        assert(0 <= i <= i && pa == leaf_pa(pte, addr, i) && (i >= 1 ==> (pa >> 12) & 0x1ff == (addr
            >> 12) & 0x1ff) && (i == 2 ==> (pa >> 21) & 0x1ff == (addr >> 21) & 0x1ff));
    } else {
        lemma_walk_composes(b, (pte_ppn(pte) * PAGE_SIZE) as u64, addr, i - 1, at);
        let pa = spec_walk(b, a, addr, i, at)->Ok_0;
        let (pte2, lvl) = choose|pte2: u64, lvl: int|
            0 <= lvl <= i - 1 && pa == leaf_pa(pte2, addr, lvl) && (lvl >= 1 ==> (pa >> 12) & 0x1ff
                == (addr >> 12) & 0x1ff) && (lvl == 2 ==> (pa >> 21) & 0x1ff == (addr >> 21)
                & 0x1ff);
        assert(0 <= lvl <= i && pa == leaf_pa(pte2, addr, lvl) && (lvl >= 1 ==> (pa >> 12) & 0x1ff
            == (addr >> 12) & 0x1ff) && (lvl == 2 ==> (pa >> 21) & 0x1ff == (addr >> 21) & 0x1ff));
    }
}

/// Law: when paging is off, translation is the identity for every address
/// and every access type.
pub proof fn lemma_translate_identity(c: CpuView, addr: u64, at: AccessType)
    requires
        !c.enable_paging,
    ensures
        spec_translate(c, addr, at) == Ok::<u64, Exception>(addr),
{
}

/// Law: a `satp` holding mode 8 (Sv39) over a 44-bit physical page number
/// turns paging on at the next paging re-derivation, with the root table at
/// that page number times the page size; every translation afterwards — the
/// next instruction fetch's included — is the three-level walk rooted there,
/// whose first entry is loaded from the root table itself.
pub proof fn lemma_satp_enables_paging(c: CpuView, ppn: u64)
    requires
        c.csr.len() == CSR_COUNT,
        ppn < 0x1000_0000_0000,
        csr_read(c.csr, SATP as int) == (8u64 << 60) | ppn,
    ensures
        ({
            let c2 = spec_update_paging(c, SATP as int);
            &&& c2.enable_paging
            &&& c2.page_table == ppn * PAGE_SIZE
            &&& forall|addr: u64, at: AccessType|
                #[trigger] spec_translate(c2, addr, at) == spec_walk(
                    c2.bus,
                    (ppn * PAGE_SIZE) as u64,
                    addr,
                    2,
                    at,
                )
        }),
{
    assert(((8u64 << 60) | ppn) >> 60 == 8 && ((8u64 << 60) | ppn) & 0x0fff_ffff_ffff == ppn)
        by (bit_vector)
        requires
            ppn < 0x1000_0000_0000,
    ;
}

/// The hart.
pub struct Cpu {
    /// The thirty-two general registers; index zero is hardwired to zero.
    pub regs: Vec<u64>,
    /// The program counter.
    pub pc: u64,
    /// The system bus.
    pub bus: Bus,
    /// The control and status register file.
    pub csr: Vec<u64>,
    /// The current privilege mode.
    pub mode: Mode,
    /// Whether Sv39 paging is on.
    pub enable_paging: bool,
    /// The physical base of the root page table.
    pub page_table: u64,
}

impl View for Cpu {
    type V = CpuView;

    open spec fn view(&self) -> CpuView {
        CpuView {
            regs: self.regs@,
            pc: self.pc,
            csr: self.csr@,
            mode: self.mode,
            enable_paging: self.enable_paging,
            page_table: self.page_table,
            bus: self.bus@,
        }
    }
}

impl Cpu {
    /// Create the hart: execution begins at the base of memory in machine
    /// mode with paging off, all CSRs zero, and the stack pointer (register
    /// 2) at the top of memory. `binary` is copied into the head of RAM and
    /// `image` backs the block device.
    pub fn new(binary: Vec<u8>, image: Vec<u8>) -> (c: Cpu)
        requires
            binary@.len() <= MEMORY_SIZE,
        ensures
            c@.wf(),
            c@.pc == MEMORY_BASE,
            c@.mode == Mode::Machine,
            c@.enable_paging == false,
            c@.page_table == 0,
            c@.regs[2] == MEMORY_BASE + MEMORY_SIZE,
            forall|i: int| 0 <= i < 32 && i != 2 ==> c@.regs[i] == 0,
            forall|i: int| 0 <= i < CSR_COUNT ==> c@.csr[i] == 0,
            fresh_bus(c@.bus, binary@, image@),
    {
        let mut regs: Vec<u64> = Vec::new();
        while regs.len() < 32
            invariant
                regs@.len() <= 32,
                forall|i: int| 0 <= i < regs@.len() ==> regs@[i] == 0,
            decreases 32 - regs@.len(),
        {
            regs.push(0);
        }
        regs[2] = MEMORY_SIZE + MEMORY_BASE;

        let mut csr: Vec<u64> = Vec::new();
        while csr.len() < CSR_COUNT
            invariant
                csr@.len() <= CSR_COUNT,
                forall|i: int| 0 <= i < csr@.len() ==> csr@[i] == 0,
            decreases CSR_COUNT - csr@.len(),
        {
            csr.push(0);
        }

        Cpu {
            regs,
            pc: MEMORY_BASE,
            bus: Bus::new(binary, image),
            csr,
            mode: Mode::Machine,
            enable_paging: false,
            page_table: 0,
        }
    }

    /// Read a general register.
    pub fn reg(&self, index: usize) -> (r: u64)
        requires
            index < 32,
            self@.regs.len() == 32,
        ensures
            r == self@.regs[index as int],
    {
        self.regs[index]
    }

    /// Load the value of the CSR at `address`.
    pub fn load_csr(&self, address: usize) -> (r: u64)
        requires
            address < CSR_COUNT,
            self@.csr.len() == CSR_COUNT,
        ensures
            r == csr_read(self@.csr, address as int),
    {
        if address == SIE {
            self.csr[MIE] & self.csr[MIDELEG]
        } else {
            self.csr[address]
        }
    }

    /// Store a value to the CSR at `address`.
    pub fn store_csr(&mut self, address: usize, value: u64)
        requires
            address < CSR_COUNT,
            old(self)@.csr.len() == CSR_COUNT,
        ensures
            final(self)@ == (CpuView {
                csr: csr_write(old(self)@.csr, address as int, value),
                ..old(self)@
            }),
    {
        if address == SIE {
            let mie = self.csr[MIE];
            let mideleg = self.csr[MIDELEG];
            self.csr[MIE] = (mie & !mideleg) | (value & mideleg);
        } else {
            self.csr[address] = value;
        }
    }

    /// Poll for a pending interrupt after an instruction: raise any external
    /// device IRQ towards the PLIC (performing the disk access for a VirtIO
    /// notify), then take the first pending and enabled interrupt.
    pub fn check_pending_interrupt(&mut self) -> (r: Option<Interrupt>)
        requires
            old(self)@.wf(),
        ensures
            final(self)@.wf(),
            r == spec_check_pending(old(self)@).0,
            final(self)@ == spec_check_pending(old(self)@).1,
    {
        match self.mode {
            Mode::Machine => {
                if (self.load_csr(MSTATUS) >> 3u64) & 1 == 0 {
                    return None;
                }
            },
            Mode::Supervisor => {
                if (self.load_csr(SSTATUS) >> 1u64) & 1 == 0 {
                    return None;
                }
            },
            _ => {},
        }

        let irq: u64;
        if self.bus.uart.is_interrupting() {
            irq = UART_IRQ;
        } else if self.bus.virtio.is_interrupting() {
            // The disk access happens on the way to raising the IRQ; a
            // malformed request leaves its fault behind and the IRQ is
            // raised all the same.
            let _ = Virtio::disk_access(self);
            irq = VIRTIO_IRQ;
        } else {
            irq = 0;
        }

        if irq != 0 {
            let _ = self.bus.store(PLIC_SCLAIM, 32, irq);
            let mip = self.load_csr(MIP);
            self.store_csr(MIP, mip | MIP_SEIP);
        }

        let pending = self.load_csr(MIE) & self.load_csr(MIP);
        if pending & MIP_MEIP != 0 {
            let mip = self.load_csr(MIP);
            self.store_csr(MIP, mip & !MIP_MEIP);
            return Some(Interrupt::MachineExternalInterrupt);
        }
        if pending & MIP_MSIP != 0 {
            let mip = self.load_csr(MIP);
            self.store_csr(MIP, mip & !MIP_MSIP);
            return Some(Interrupt::MachineSoftwareInterrupt);
        }
        if pending & MIP_MTIP != 0 {
            let mip = self.load_csr(MIP);
            self.store_csr(MIP, mip & !MIP_MTIP);
            return Some(Interrupt::MachineTimerInterrupt);
        }
        if pending & MIP_SEIP != 0 {
            let mip = self.load_csr(MIP);
            self.store_csr(MIP, mip & !MIP_SEIP);
            return Some(Interrupt::SupervisorExternalInterrupt);
        }
        if pending & MIP_SSIP != 0 {
            let mip = self.load_csr(MIP);
            self.store_csr(MIP, mip & !MIP_SSIP);
            return Some(Interrupt::SupervisorSoftwareInterrupt);
        }
        if pending & MIP_STIP != 0 {
            let mip = self.load_csr(MIP);
            self.store_csr(MIP, mip & !MIP_STIP);
            return Some(Interrupt::SupervisorTimerInterrupt);
        }
        None
    }

    /// Re-derive the paging state after a CSR write; only a write to `satp`
    /// has any effect.
    pub(crate) fn update_paging(&mut self, csr_addr: usize)
        requires
            old(self)@.csr.len() == CSR_COUNT,
        ensures
            final(self)@ == spec_update_paging(old(self)@, csr_addr as int),
            csr_addr == SATP ==> final(self)@.page_table <= PAGE_TABLE_MAX,
    {
        if csr_addr != SATP {
            return ;
        }
        let satp = self.load_csr(SATP);
        proof {
            lemma_u64_mask_bounds();
        }
        self.page_table = (satp & 0x0fff_ffff_ffff) * PAGE_SIZE;
        let mode = satp >> 60;
        if mode == 8 {
            self.enable_paging = true;
        } else {
            self.enable_paging = false;
        }
    }

    /// Translate a virtual address to a physical address: the identity when
    /// paging is off, otherwise the three-level Sv39 walk. The walk reads
    /// page-table entries over the bus and changes no state.
    pub(crate) fn translate(&mut self, addr: u64, access_type: AccessType) -> (r: Result<
        u64,
        Exception,
    >)
        requires
            old(self)@.wf(),
        ensures
            final(self)@ == old(self)@,
            r == spec_translate(old(self)@, addr, access_type),
    {
        if !self.enable_paging {
            return Ok(addr);
        }
        let ghost c0 = self@;
        let mut a = self.page_table;
        let mut i: i64 = 2;
        proof {
            lemma_u64_mask_bounds();
        }
        loop
            invariant
                self@ == c0,
                c0 == old(self)@,
                c0.wf(),
                c0.enable_paging == true,
                0 <= i <= 2,
                a <= PAGE_TABLE_MAX,
                spec_walk(c0.bus, c0.page_table, addr, 2, access_type) == spec_walk(
                    c0.bus,
                    a,
                    addr,
                    i as int,
                    access_type,
                ),
            decreases i,
        {
            proof {
                lemma_u64_mask_bounds();
            }
            let vpn_i = if i == 2 {
                (addr >> 30) & 0x1ff
            } else if i == 1 {
                (addr >> 21) & 0x1ff
            } else {
                (addr >> 12) & 0x1ff
            };
            let pte_addr = a + vpn_i * 8;
            let r_load = self.bus.load(pte_addr, 64);
            proof {
                crate::bus::lemma_bus_load_preserves(c0.bus, pte_addr, 64);
            }
            let pte = match r_load {
                Ok(p) => p,
                Err(e) => {
                    return Err(e);
                },
            };
            let v = pte & 1;
            let r = (pte >> 1) & 1;
            let w = (pte >> 2) & 1;
            let x = (pte >> 3) & 1;
            if v == 0 || (r == 0 && w == 1) {
                return Err(
                    match access_type {
                        AccessType::Instruction => Exception::InstructionPageFault,
                        AccessType::Load => Exception::LoadPageFault,
                        AccessType::Store => Exception::StoreAMOPageFault,
                    },
                );
            }
            if r == 1 || x == 1 {
                let offset = addr & 0xfff;
                let pa = if i == 0 {
                    (((pte >> 10) & 0x0fff_ffff_ffff) << 12u64) | offset
                } else if i == 1 {
                    (((pte >> 28) & 0x03ff_ffff) << 30u64) | (((pte >> 19) & 0x1ff) << 21u64) | ((
                    (addr >> 12) & 0x1ff) << 12u64) | offset
                } else {
                    (((pte >> 28) & 0x03ff_ffff) << 30u64) | (((addr >> 21) & 0x1ff) << 21u64) | ((
                    (addr >> 12) & 0x1ff) << 12u64) | offset
                };
                return Ok(pa);
            }
            i = i - 1;
            let ppn = (pte >> 10) & 0x0fff_ffff_ffff;
            a = ppn * PAGE_SIZE;
            if i < 0 {
                return Err(
                    match access_type {
                        AccessType::Instruction => Exception::InstructionPageFault,
                        AccessType::Load => Exception::LoadPageFault,
                        AccessType::Store => Exception::StoreAMOPageFault,
                    },
                );
            }
        }
    }

    /// Deliver a trap with cause code `code`: pick the privilege mode by the
    /// delegation registers, jump to its trap vector and stack its status
    /// register.
    pub(crate) fn take_trap(&mut self, code: u64, is_interrupt: bool)
        requires
            old(self)@.wf(),
            code <= 15,
        ensures
            final(self)@.wf(),
            final(self)@ == spec_take_trap(old(self)@, code, is_interrupt),
    {
        let epc = self.pc.wrapping_sub(4);
        let cause = if is_interrupt {
            code | (1u64 << 63)
        } else {
            code
        };
        let deleg = if is_interrupt {
            self.load_csr(MIDELEG)
        } else {
            self.load_csr(MEDELEG)
        };
        let mode_le_s = match self.mode {
            Mode::Machine => false,
            _ => true,
        };
        if mode_le_s && (deleg >> code) & 1 == 1 {
            // Deliver the trap in supervisor mode.
            let stvec = self.load_csr(STVEC);
            let vector = if is_interrupt && stvec & 1 == 1 {
                4 * code
            } else {
                0
            };
            let sstatus = self.load_csr(SSTATUS);
            let s1 = if (sstatus >> 1u64) & 1 == 1 {
                sstatus | (1u64 << 5)
            } else {
                sstatus & !(1u64 << 5)
            };
            let s2 = s1 & !(1u64 << 1);
            let s3 = if let Mode::User = self.mode {
                s2 & !(1u64 << 8)
            } else {
                s2 | (1u64 << 8)
            };
            self.pc = (stvec & !1u64).wrapping_add(vector);
            self.mode = Mode::Supervisor;
            self.store_csr(SEPC, epc & !1u64);
            self.store_csr(SCAUSE, cause);
            self.store_csr(STVAL, 0);
            self.store_csr(SSTATUS, s3);
        } else {
            // Deliver the trap in machine mode.
            let mtvec = self.load_csr(MTVEC);
            let vector = if is_interrupt && mtvec & 1 == 1 {
                4 * code
            } else {
                0
            };
            let mstatus = self.load_csr(MSTATUS);
            let m1 = if (mstatus >> 3u64) & 1 == 1 {
                mstatus | (1u64 << 7)
            } else {
                mstatus & !(1u64 << 7)
            };
            let m2 = m1 & !(1u64 << 3);
            let enc: u64 = match self.mode {
                Mode::User => 0,
                Mode::Supervisor => 1,
                Mode::Machine => 3,
            };
            let m3 = (m2 & !(3u64 << 11)) | (enc << 11u64);
            self.pc = (mtvec & !1u64).wrapping_add(vector);
            self.mode = Mode::Machine;
            self.store_csr(MEPC, epc & !1u64);
            self.store_csr(MCAUSE, cause);
            self.store_csr(MTVAL, 0);
            self.store_csr(MSTATUS, m3);
        }
    }

    /// Load a value of `size` bits from virtual address `addr`.
    pub fn load(&mut self, addr: u64, size: usize) -> (r: Result<u64, Exception>)
        requires
            old(self)@.wf(),
        ensures
            final(self)@.wf(),
            r == spec_cpu_load_r(old(self)@, addr, size),
            final(self)@ == spec_cpu_load_s(old(self)@, addr, size),
    {
        let p_addr = match self.translate(addr, AccessType::Load) {
            Ok(pa) => pa,
            Err(e) => {
                return Err(e);
            },
        };
        self.bus.load(p_addr, size)
    }

    /// Store the low `size` bits of `value` to virtual address `addr`.
    pub fn store(&mut self, addr: u64, size: usize, value: u64) -> (r: Result<(), Exception>)
        requires
            old(self)@.wf(),
        ensures
            final(self)@.wf(),
            r == spec_cpu_store_r(old(self)@, addr, size, value),
            final(self)@ == spec_cpu_store_s(old(self)@, addr, size, value),
    {
        let p_addr = match self.translate(addr, AccessType::Store) {
            Ok(pa) => pa,
            Err(e) => {
                return Err(e);
            },
        };
        self.bus.store(p_addr, size, value)
    }

    /// Run one step of the main loop: fetch, advance the program counter,
    /// execute, deliver any exception, poll for an interrupt and deliver
    /// it. Returns whether the loop goes on; a fatal exception stops it.
    pub fn step(&mut self) -> (cont: bool)
        requires
            old(self)@.wf(),
        ensures
            final(self)@.wf(),
            cont == spec_step(old(self)@).0,
            final(self)@ == spec_step(old(self)@).1,
    {
        let inst = match self.fetch() {
            Ok(i) => i,
            Err(e) => {
                self.pc = self.pc.wrapping_add(4);
                e.get_trap(self);
                if e.is_fatal() {
                    return false;
                }
                match self.check_pending_interrupt() {
                    Some(i) => i.get_trap(self),
                    None => {},
                }
                return true;
            },
        };
        self.pc = self.pc.wrapping_add(4);
        match self.decode_execute(inst) {
            Ok(_) => {},
            Err(e) => {
                e.get_trap(self);
                if e.is_fatal() {
                    return false;
                }
            },
        }
        match self.check_pending_interrupt() {
            Some(i) => i.get_trap(self),
            None => {},
        }
        true
    }

    /// Fetch the 32-bit instruction at the program counter.
    pub fn fetch(&mut self) -> (r: Result<u32, Exception>)
        requires
            old(self)@.wf(),
        ensures
            final(self)@ == old(self)@,
            r == spec_fetch(old(self)@),
    {
        if self.pc & 3 != 0 {
            return Err(Exception::InstructionAddressMisaligned);
        }
        let p_pc = match self.translate(self.pc, AccessType::Instruction) {
            Ok(pa) => pa,
            Err(e) => {
                return Err(e);
            },
        };
        match self.bus.load(p_pc, 32) {
            Ok(v) => Ok(v as u32),
            Err(_) => Err(Exception::InstructionAccessFault),
        }
    }
}

} // verus!
