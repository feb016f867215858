//! UART: a 16550a subset with the receive holding, transmit holding, line
//! control and line status registers.
//!
//! The core is the register state machine alone. Bytes written to the
//! transmit holding register are appended to `output`, which the surrounding
//! program drains to its terminal; bytes arriving from the surrounding
//! program's reader are offered through [`Uart::receive_byte`], which accepts
//! one byte whenever the receive slot is empty and latches the one-shot
//! interrupt-pending flag.

use vstd::prelude::*;

use crate::exception::Exception;

verus! {

/// Base address of the UART window.
pub const UART_BASE: u64 = 0x1000_0000;
/// Size of the UART window.
pub const UART_SIZE: u64 = 0x100;
/// Receive holding register (read) and transmit holding register (write).
pub const UART_RHR: u64 = UART_BASE;
/// Transmit holding register.
pub const UART_THR: u64 = UART_BASE;
/// Line control register.
pub const UART_LCR: u64 = UART_BASE + 3;
/// Line status register.
pub const UART_LSR: u64 = UART_BASE + 5;

/// Line status bit: data has been received and saved in the receive holding
/// register.
pub const UART_LSR_RX: u8 = 1;
/// Line status bit: the transmit holding register is empty (always set in
/// this model).
pub const UART_LSR_TX: u8 = 1 << 5;
/// The interrupt request number of the UART.
pub const UART_IRQ: u64 = 10;

/// The mathematical state of the UART.
pub ghost struct UartView {
    /// The register bytes, `UART_SIZE` of them, indexed by offset from
    /// `UART_BASE`.
    pub regs: Seq<u8>,
    /// The one-shot interrupt-pending flag.
    pub interrupt: bool,
    /// Every byte written to the transmit holding register, oldest first.
    pub output: Seq<u8>,
}

/// The 16550a UART.
pub struct Uart {
    /// The register bytes, indexed by offset from `UART_BASE`.
    pub regs: Vec<u8>,
    /// The one-shot interrupt-pending flag.
    pub interrupt: bool,
    /// Bytes written to the transmit holding register, oldest first.
    pub output: Vec<u8>,
}

impl View for Uart {
    type V = UartView;

    open spec fn view(&self) -> UartView {
        UartView { regs: self.regs@, interrupt: self.interrupt, output: self.output@ }
    }
}

/// What a UART load returns and leaves behind: only 8-bit accesses are
/// supported. A read of the receive holding register consumes the received
/// byte and clears the data-ready bit.
pub open spec fn spec_uart_load(u: UartView, addr: u64, size: usize) -> (Result<u64, Exception>, UartView) {
    if size != 8 {
        (Err(Exception::LoadAccessFault), u)
    } else if addr == UART_RHR {
        let byte = u.regs[0];
        let lsr = (addr_index(UART_LSR)) as int;
        let regs2 = u.regs.update(0, 0u8).update(
            lsr,
            (u.regs[lsr] & !UART_LSR_RX) as u8,
        );
        (Ok(byte as u64), UartView { regs: regs2, ..u })
    } else {
        (Ok(u.regs[addr_index(addr)] as u64), u)
    }
}

/// The offset of a UART address inside the register file.
pub open spec fn addr_index(addr: u64) -> int {
    addr - UART_BASE
}

/// What a UART store returns and leaves behind: only 8-bit accesses are
/// supported. A write to the transmit holding register appends the byte to
/// the output; any other write lands in the addressed register.
pub open spec fn spec_uart_store(u: UartView, addr: u64, size: usize, value: u64) -> (Result<
    (),
    Exception,
>, UartView) {
    if size != 8 {
        (Err(Exception::StoreAMOAccessFault), u)
    } else if addr == UART_THR {
        (Ok(()), UartView { output: u.output.push(value as u8), ..u })
    } else {
        (Ok(()), UartView { regs: u.regs.update(addr_index(addr), value as u8), ..u })
    }
}

/// Whether a UART address is inside the UART window.
pub open spec fn uart_addr_in_range(addr: u64) -> bool {
    UART_BASE <= addr && addr < UART_BASE + UART_SIZE
}

impl Uart {
    /// Well-formed: the register file has exactly `UART_SIZE` bytes.
    pub open spec fn wf(&self) -> bool {
        self@.regs.len() == UART_SIZE
    }

    /// Create the UART with an empty receive slot, the transmitter marked
    /// empty, no output and no pending interrupt.
    pub fn new() -> (u: Uart)
        ensures
            u.wf(),
            u@.interrupt == false,
            u@.output == Seq::<u8>::empty(),
            u@.regs[addr_index(UART_LSR)] == UART_LSR_TX,
            forall|i: int| 0 <= i < UART_SIZE && i != addr_index(UART_LSR) ==> u@.regs[i] == 0,
    {
        let mut regs: Vec<u8> = Vec::new();
        while regs.len() < UART_SIZE as usize
            invariant
                regs@.len() <= UART_SIZE,
                forall|i: int| 0 <= i < regs@.len() ==> regs@[i] == 0,
            decreases UART_SIZE - regs@.len(),
        {
            regs.push(0);
        }
        regs[(UART_LSR - UART_BASE) as usize] = UART_LSR_TX;
        Uart { regs, interrupt: false, output: Vec::new() }
    }

    /// Return whether an interrupt is pending, clearing the one-shot flag.
    pub fn is_interrupting(&mut self) -> (r: bool)
        ensures
            r == old(self)@.interrupt,
            final(self)@ == (UartView { interrupt: false, ..old(self)@ }),
    {
        let r = self.interrupt;
        self.interrupt = false;
        r
    }

    /// Offer a byte received from the surrounding program's reader. The byte
    /// is accepted only while the receive slot is empty; on acceptance it is
    /// stored in the receive holding register, the data-ready bit is set and
    /// the interrupt-pending flag is latched.
    pub fn receive_byte(&mut self, byte: u8) -> (accepted: bool)
        requires
            old(self).wf(),
        ensures
            final(self).wf(),
            accepted == (old(self)@.regs[addr_index(UART_LSR)] & UART_LSR_RX == 0),
            accepted ==> final(self)@ == (UartView {
                regs: old(self)@.regs.update(0, byte).update(
                    addr_index(UART_LSR),
                    (old(self)@.regs[addr_index(UART_LSR)] | UART_LSR_RX) as u8,
                ),
                interrupt: true,
                output: old(self)@.output,
            }),
            !accepted ==> final(self)@ == old(self)@,
    {
        let lsr = (UART_LSR - UART_BASE) as usize;
        if self.regs[lsr] & UART_LSR_RX != 0 {
            return false;
        }
        self.regs[0] = byte;
        self.regs[lsr] = self.regs[lsr] | UART_LSR_RX;
        self.interrupt = true;
        true
    }

    /// Load a value from a UART register.
    pub fn load(&mut self, addr: u64, size: usize) -> (r: Result<u64, Exception>)
        requires
            old(self).wf(),
            uart_addr_in_range(addr),
        ensures
            final(self).wf(),
            r == spec_uart_load(old(self)@, addr, size).0,
            final(self)@ == spec_uart_load(old(self)@, addr, size).1,
    {
        if size != 8 {
            return Err(Exception::LoadAccessFault);
        }
        if addr == UART_RHR {
            let byte = self.regs[0];
            self.regs[0] = 0;
            let lsr = (UART_LSR - UART_BASE) as usize;
            self.regs[lsr] = self.regs[lsr] & !UART_LSR_RX;
            Ok(byte as u64)
        } else {
            Ok(self.regs[(addr - UART_BASE) as usize] as u64)
        }
    }

    /// Store a value to a UART register.
    pub fn store(&mut self, addr: u64, size: usize, value: u64) -> (r: Result<(), Exception>)
        requires
            old(self).wf(),
            uart_addr_in_range(addr),
        ensures
            final(self).wf(),
            r == spec_uart_store(old(self)@, addr, size, value).0,
            final(self)@ == spec_uart_store(old(self)@, addr, size, value).1,
    {
        if size != 8 {
            return Err(Exception::StoreAMOAccessFault);
        }
        if addr == UART_THR {
            self.output.push(value as u8);
        } else {
            self.regs[(addr - UART_BASE) as usize] = value as u8;
        }
        Ok(())
    }
}

} // verus!
