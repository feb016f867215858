//! System bus: routes loads and stores to the CLINT, PLIC, UART, VirtIO
//! device or RAM by fixed memory-mapped windows. Accesses that fall into no
//! window raise access faults.

use vstd::prelude::*;

use crate::clint::{spec_clint_load, spec_clint_store, Clint, CLINT_BASE, CLINT_SIZE};
use crate::exception::Exception;
use crate::memory::{spec_mem_load, spec_mem_store, Memory, MEMORY_BASE, MEMORY_SIZE};
use crate::plic::{spec_plic_load, spec_plic_store, Plic, PLIC_BASE, PLIC_SIZE};
use crate::uart::{spec_uart_load, spec_uart_store, Uart, UartView, UART_BASE, UART_SIZE};
use crate::virtio::{spec_virtio_load, spec_virtio_store, Virtio, VirtioView, VIRTIO_BASE, VIRTIO_SIZE};

verus! {

/// The mathematical state of everything reachable over the bus.
pub ghost struct BusView {
    /// The CLINT registers.
    pub clint: Clint,
    /// The PLIC registers.
    pub plic: Plic,
    /// The UART state.
    pub uart: UartView,
    /// The VirtIO block device state.
    pub virtio: VirtioView,
    /// The RAM bytes.
    pub mem: Seq<u8>,
}

/// The system bus.
pub struct Bus {
    /// The CLINT.
    pub clint: Clint,
    /// The PLIC.
    pub plic: Plic,
    /// The UART.
    pub uart: Uart,
    /// The VirtIO block device.
    pub virtio: Virtio,
    /// The RAM.
    pub memory: Memory,
}

impl View for Bus {
    type V = BusView;

    open spec fn view(&self) -> BusView {
        BusView {
            clint: self.clint,
            plic: self.plic,
            uart: self.uart@,
            virtio: self.virtio@,
            mem: self.memory@,
        }
    }
}

/// Whether an address falls in the CLINT window.
pub open spec fn in_clint(addr: u64) -> bool {
    CLINT_BASE <= addr && addr < CLINT_BASE + CLINT_SIZE
}

/// Whether an address falls in the PLIC window.
pub open spec fn in_plic(addr: u64) -> bool {
    PLIC_BASE <= addr && addr < PLIC_BASE + PLIC_SIZE
}

/// Whether an address falls in the UART window.
pub open spec fn in_uart(addr: u64) -> bool {
    UART_BASE <= addr && addr < UART_BASE + UART_SIZE
}

/// Whether an address falls in the VirtIO window.
pub open spec fn in_virtio(addr: u64) -> bool {
    VIRTIO_BASE <= addr && addr < VIRTIO_BASE + VIRTIO_SIZE
}

/// What a bus load returns: the routed device's value or fault, and
/// `LoadAccessFault` for an unmapped address.
pub open spec fn spec_bus_load_r(b: BusView, addr: u64, size: usize) -> Result<u64, Exception> {
    if in_clint(addr) {
        spec_clint_load(b.clint, addr, size)
    } else if in_plic(addr) {
        spec_plic_load(b.plic, addr, size)
    } else if in_uart(addr) {
        spec_uart_load(b.uart, addr, size).0
    } else if in_virtio(addr) {
        spec_virtio_load(b.virtio, addr, size)
    } else if MEMORY_BASE <= addr {
        spec_mem_load(b.mem, addr, size)
    } else {
        Err(Exception::LoadAccessFault)
    }
}

/// What a bus load leaves behind: only a UART receive-holding-register read
/// changes any state.
pub open spec fn spec_bus_load_s(b: BusView, addr: u64, size: usize) -> BusView {
    if in_uart(addr) {
        BusView { uart: spec_uart_load(b.uart, addr, size).1, ..b }
    } else {
        b
    }
}

/// What a bus store returns: the routed device's acknowledgement or fault,
/// and `StoreAMOAccessFault` for an unmapped address.
pub open spec fn spec_bus_store_r(b: BusView, addr: u64, size: usize, value: u64) -> Result<
    (),
    Exception,
> {
    if in_clint(addr) {
        match spec_clint_store(b.clint, addr, size, value) {
            Ok(_) => Ok(()),
            Err(e) => Err(e),
        }
    } else if in_plic(addr) {
        match spec_plic_store(b.plic, addr, size, value) {
            Ok(_) => Ok(()),
            Err(e) => Err(e),
        }
    } else if in_uart(addr) {
        spec_uart_store(b.uart, addr, size, value).0
    } else if in_virtio(addr) {
        match spec_virtio_store(b.virtio, addr, size, value) {
            Ok(_) => Ok(()),
            Err(e) => Err(e),
        }
    } else if MEMORY_BASE <= addr {
        match spec_mem_store(b.mem, addr, size, value) {
            Ok(_) => Ok(()),
            Err(e) => Err(e),
        }
    } else {
        Err(Exception::StoreAMOAccessFault)
    }
}

/// What a bus store leaves behind: the routed device updated on success,
/// everything unchanged on a fault.
pub open spec fn spec_bus_store_s(b: BusView, addr: u64, size: usize, value: u64) -> BusView {
    if in_clint(addr) {
        match spec_clint_store(b.clint, addr, size, value) {
            Ok(c2) => BusView { clint: c2, ..b },
            Err(_) => b,
        }
    } else if in_plic(addr) {
        match spec_plic_store(b.plic, addr, size, value) {
            Ok(p2) => BusView { plic: p2, ..b },
            Err(_) => b,
        }
    } else if in_uart(addr) {
        BusView { uart: spec_uart_store(b.uart, addr, size, value).1, ..b }
    } else if in_virtio(addr) {
        match spec_virtio_store(b.virtio, addr, size, value) {
            Ok(v2) => BusView { virtio: v2, ..b },
            Err(_) => b,
        }
    } else if MEMORY_BASE <= addr {
        match spec_mem_store(b.mem, addr, size, value) {
            Ok(m2) => BusView { mem: m2, ..b },
            Err(_) => b,
        }
    } else {
        b
    }
}

/// The state of a freshly constructed bus: all device registers in their
/// reset values, `binary` in the head of RAM with zeroes after it, and
/// `image` backing the block device.
pub open spec fn fresh_bus(b: BusView, binary: Seq<u8>, image: Seq<u8>) -> bool {
    &&& b.clint == (Clint { msip: 0, mtimecmp: 0, mtime: 0 })
    &&& b.plic == (Plic { priority: 0, pending: 0, senable: 0, spriority: 0, sclaim: 0 })
    &&& b.uart.interrupt == false
    &&& b.uart.output == Seq::<u8>::empty()
    &&& b.uart.regs[crate::uart::addr_index(crate::uart::UART_LSR)] == crate::uart::UART_LSR_TX
    &&& forall|i: int|
        0 <= i < UART_SIZE && i != crate::uart::addr_index(crate::uart::UART_LSR)
            ==> b.uart.regs[i] == 0
    &&& b.virtio == (VirtioView {
        driver_features: 0u32,
        page_size: 0u32,
        queue_sel: 0u32,
        queue_num: 0u32,
        queue_pfn: 0u32,
        status: 0u32,
        interrupt: false,
        disk: image,
    })
    &&& forall|i: int| 0 <= i < binary.len() ==> b.mem[i] == binary[i]
    &&& forall|i: int| binary.len() <= i < MEMORY_SIZE ==> b.mem[i] == 0
}

impl Bus {
    /// Well-formed: RAM and the UART register file have their fixed sizes.
    pub open spec fn wf(&self) -> bool {
        bus_view_wf(self@)
    }

    /// Create the bus with `binary` loaded into the head of RAM and `image`
    /// backing the block device.
    pub fn new(binary: Vec<u8>, image: Vec<u8>) -> (bus: Bus)
        requires
            binary@.len() <= MEMORY_SIZE,
        ensures
            bus.wf(),
            fresh_bus(bus@, binary@, image@),
    {
        Bus {
            clint: Clint::new(),
            plic: Plic::new(),
            uart: Uart::new(),
            virtio: Virtio::new(image),
            memory: Memory::new(binary),
        }
    }

    /// Load a value of `size` bits from the device mapped at `addr`.
    pub fn load(&mut self, addr: u64, size: usize) -> (r: Result<u64, Exception>)
        requires
            old(self).wf(),
        ensures
            final(self).wf(),
            r == spec_bus_load_r(old(self)@, addr, size),
            final(self)@ == spec_bus_load_s(old(self)@, addr, size),
    {
        if CLINT_BASE <= addr && addr < CLINT_BASE + CLINT_SIZE {
            return self.clint.load(addr, size);
        }
        if PLIC_BASE <= addr && addr < PLIC_BASE + PLIC_SIZE {
            return self.plic.load(addr, size);
        }
        if UART_BASE <= addr && addr < UART_BASE + UART_SIZE {
            return self.uart.load(addr, size);
        }
        if VIRTIO_BASE <= addr && addr < VIRTIO_BASE + VIRTIO_SIZE {
            return self.virtio.load(addr, size);
        }
        if MEMORY_BASE <= addr {
            return self.memory.load(addr, size);
        }
        Err(Exception::LoadAccessFault)
    }

    /// Store a value of `size` bits to the device mapped at `addr`.
    pub fn store(&mut self, addr: u64, size: usize, value: u64) -> (r: Result<(), Exception>)
        requires
            old(self).wf(),
        ensures
            final(self).wf(),
            r == spec_bus_store_r(old(self)@, addr, size, value),
            final(self)@ == spec_bus_store_s(old(self)@, addr, size, value),
    {
        if CLINT_BASE <= addr && addr < CLINT_BASE + CLINT_SIZE {
            return self.clint.store(addr, size, value);
        }
        if PLIC_BASE <= addr && addr < PLIC_BASE + PLIC_SIZE {
            return self.plic.store(addr, size, value);
        }
        if UART_BASE <= addr && addr < UART_BASE + UART_SIZE {
            return self.uart.store(addr, size, value);
        }
        if VIRTIO_BASE <= addr && addr < VIRTIO_BASE + VIRTIO_SIZE {
            return self.virtio.store(addr, size, value);
        }
        if MEMORY_BASE <= addr {
            return self.memory.store(addr, size, value);
        }
        Err(Exception::StoreAMOAccessFault)
    }
}

/// Well-formed bus state: RAM and the UART register file have their fixed
/// sizes.
pub open spec fn bus_view_wf(b: BusView) -> bool {
    b.mem.len() == MEMORY_SIZE && b.uart.regs.len() == UART_SIZE
}

/// A bus load of any size other than 8 bits changes no device state: the
/// only state-changing load is the UART receive register, which accepts
/// 8-bit accesses alone.
pub proof fn lemma_bus_load_preserves(b: BusView, addr: u64, size: usize)
    requires
        size != 8,
    ensures
        spec_bus_load_s(b, addr, size) == b,
{
}

} // verus!
