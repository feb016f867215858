//! VirtIO block device: the legacy memory-mapped layout with magic, version,
//! device-id, queue registers and status, backed by a byte-buffer disk image.
//!
//! A write to the queue-notify register latches a one-shot interrupt-pending
//! flag. When the main loop observes the interrupt it invokes
//! [`Virtio::disk_access`], which walks the descriptor chain in guest memory
//! and transfers one 512-byte sector between the image and guest memory.

use vstd::prelude::*;

use crate::bus::{spec_bus_load_r, spec_bus_load_s, spec_bus_store_r, spec_bus_store_s, BusView};
use crate::cpu::{Cpu, CpuView, PAGE_SIZE};
use crate::exception::Exception;

verus! {

/// Base address of the VirtIO window.
pub const VIRTIO_BASE: u64 = 0x1000_1000;
/// Size of the VirtIO window.
pub const VIRTIO_SIZE: u64 = 0x1000;
/// The interrupt request number of the VirtIO block device.
pub const VIRTIO_IRQ: u64 = 1;

/// Magic value register offset ("virt" little-endian).
pub const VIRTIO_MAGIC: u64 = VIRTIO_BASE;
/// Device version register offset.
pub const VIRTIO_VERSION: u64 = VIRTIO_BASE + 0x4;
/// Device id register offset (2 identifies a block device).
pub const VIRTIO_DEVICE_ID: u64 = VIRTIO_BASE + 0x8;
/// Vendor id register offset.
pub const VIRTIO_VENDOR_ID: u64 = VIRTIO_BASE + 0xc;
/// Device features register offset.
pub const VIRTIO_DEVICE_FEATURES: u64 = VIRTIO_BASE + 0x10;
/// Driver features register offset.
pub const VIRTIO_DRIVER_FEATURES: u64 = VIRTIO_BASE + 0x20;
/// Guest page size register offset.
pub const VIRTIO_GUEST_PAGE_SIZE: u64 = VIRTIO_BASE + 0x28;
/// Queue select register offset.
pub const VIRTIO_QUEUE_SEL: u64 = VIRTIO_BASE + 0x30;
/// Maximum queue size register offset.
pub const VIRTIO_QUEUE_NUM_MAX: u64 = VIRTIO_BASE + 0x34;
/// Queue size register offset.
pub const VIRTIO_QUEUE_NUM: u64 = VIRTIO_BASE + 0x38;
/// Queue page-frame-number register offset.
pub const VIRTIO_QUEUE_PFN: u64 = VIRTIO_BASE + 0x40;
/// Queue notify register offset.
pub const VIRTIO_QUEUE_NOTIFY: u64 = VIRTIO_BASE + 0x50;
/// Device status register offset.
pub const VIRTIO_STATUS: u64 = VIRTIO_BASE + 0x70;

/// The sector size of the block device.
pub const SECTOR_SIZE: u64 = 512;

/// The mathematical state of the VirtIO block device.
pub ghost struct VirtioView {
    /// Driver features word.
    pub driver_features: u32,
    /// Guest page size word.
    pub page_size: u32,
    /// Queue select word.
    pub queue_sel: u32,
    /// Queue size word.
    pub queue_num: u32,
    /// Queue page frame number; the descriptor table lives at this number
    /// times 4096 in guest physical memory.
    pub queue_pfn: u32,
    /// Device status word.
    pub status: u32,
    /// The one-shot interrupt-pending flag, latched by a queue-notify write.
    pub interrupt: bool,
    /// The backing disk image.
    pub disk: Seq<u8>,
}

/// The VirtIO block device.
pub struct Virtio {
    /// Driver features word.
    pub driver_features: u32,
    /// Guest page size word.
    pub page_size: u32,
    /// Queue select word.
    pub queue_sel: u32,
    /// Queue size word.
    pub queue_num: u32,
    /// Queue page frame number.
    pub queue_pfn: u32,
    /// Device status word.
    pub status: u32,
    /// The one-shot interrupt-pending flag.
    pub interrupt: bool,
    /// The backing disk image.
    pub disk: Vec<u8>,
}

impl View for Virtio {
    type V = VirtioView;

    open spec fn view(&self) -> VirtioView {
        VirtioView {
            driver_features: self.driver_features,
            page_size: self.page_size,
            queue_sel: self.queue_sel,
            queue_num: self.queue_num,
            queue_pfn: self.queue_pfn,
            status: self.status,
            interrupt: self.interrupt,
            disk: self.disk@,
        }
    }
}

/// What a VirtIO register load returns: only 32-bit accesses are supported;
/// an unnamed offset reads as zero.
pub open spec fn spec_virtio_load(v: VirtioView, addr: u64, size: usize) -> Result<u64, Exception> {
    if size != 32 {
        Err(Exception::LoadAccessFault)
    } else if addr == VIRTIO_MAGIC {
        Ok(0x74726976)
    } else if addr == VIRTIO_VERSION {
        Ok(0x1)
    } else if addr == VIRTIO_DEVICE_ID {
        Ok(0x2)
    } else if addr == VIRTIO_VENDOR_ID {
        Ok(0x554d4551)
    } else if addr == VIRTIO_DEVICE_FEATURES {
        Ok(0)
    } else if addr == VIRTIO_DRIVER_FEATURES {
        Ok(v.driver_features as u64)
    } else if addr == VIRTIO_QUEUE_NUM_MAX {
        Ok(8)
    } else if addr == VIRTIO_QUEUE_PFN {
        Ok(v.queue_pfn as u64)
    } else if addr == VIRTIO_STATUS {
        Ok(v.status as u64)
    } else {
        Ok(0)
    }
}

/// What a VirtIO register store leaves behind: only 32-bit accesses are
/// supported. A write to queue-notify latches the interrupt-pending flag; a
/// store to an unnamed offset is ignored.
pub open spec fn spec_virtio_store(v: VirtioView, addr: u64, size: usize, value: u64) -> Result<
    VirtioView,
    Exception,
> {
    if size != 32 {
        Err(Exception::StoreAMOAccessFault)
    } else if addr == VIRTIO_DRIVER_FEATURES {
        Ok(VirtioView { driver_features: value as u32, ..v })
    } else if addr == VIRTIO_GUEST_PAGE_SIZE {
        Ok(VirtioView { page_size: value as u32, ..v })
    } else if addr == VIRTIO_QUEUE_SEL {
        Ok(VirtioView { queue_sel: value as u32, ..v })
    } else if addr == VIRTIO_QUEUE_NUM {
        Ok(VirtioView { queue_num: value as u32, ..v })
    } else if addr == VIRTIO_QUEUE_PFN {
        Ok(VirtioView { queue_pfn: value as u32, ..v })
    } else if addr == VIRTIO_QUEUE_NOTIFY {
        Ok(VirtioView { interrupt: true, ..v })
    } else if addr == VIRTIO_STATUS {
        Ok(VirtioView { status: value as u32, ..v })
    } else {
        Ok(v)
    }
}

/// The largest sector number a request may name; it keeps the byte offset
/// well below the width of an address.
pub const SECTOR_LIMIT: u64 = 0x8_0000_0000_0000;

/// DMA from the image to guest memory: the bytes of the sector starting at
/// image offset `off` are stored one at a time through the bus at `addr1`
/// onwards, starting with byte `i`. A faulting store stops the transfer and
/// returns its fault.
pub open spec fn spec_dma_to_mem(b: BusView, addr1: u64, off: int, i: int) -> (Result<
    (),
    Exception,
>, BusView)
    decreases SECTOR_SIZE - i,
{
    if i < 0 || i >= SECTOR_SIZE {
        (Ok(()), b)
    } else {
        let byte = b.virtio.disk[off + i] as u64;
        let target = addr1.wrapping_add(i as u64);
        match spec_bus_store_r(b, target, 8, byte) {
            Err(e) => (Err(e), b),
            Ok(_) => spec_dma_to_mem(spec_bus_store_s(b, target, 8, byte), addr1, off, i + 1),
        }
    }
}

/// DMA from guest memory to the image: the bytes at `addr1` onwards are
/// loaded one at a time through the bus and written into the image at offset
/// `off` onwards, starting with byte `i`. A faulting load stops the transfer
/// and returns its fault.
pub open spec fn spec_dma_to_disk(b: BusView, addr1: u64, off: int, i: int) -> (Result<
    (),
    Exception,
>, BusView)
    decreases SECTOR_SIZE - i,
{
    if i < 0 || i >= SECTOR_SIZE {
        (Ok(()), b)
    } else {
        let source = addr1.wrapping_add(i as u64);
        match spec_bus_load_r(b, source, 8) {
            Err(e) => (Err(e), b),
            Ok(byte) => {
                let b1 = spec_bus_load_s(b, source, 8);
                let b2 = BusView {
                    virtio: VirtioView {
                        disk: b1.virtio.disk.update(off + i, byte as u8),
                        ..b1.virtio
                    },
                    ..b1
                };
                spec_dma_to_disk(b2, addr1, off, i + 1)
            },
        }
    }
}

/// What a disk access does. The descriptor table lies at the queue page
/// frame number times the page size. The walk reads the header descriptor's
/// buffer address and its successor, the data descriptor's buffer address,
/// then the request type and sector from the header buffer; a request type
/// of one writes the data buffer to the image, any other type reads the
/// image into the data buffer, one sector either way. A faulting descriptor
/// read stops the access with its fault, and a request whose sector lies
/// beyond the image raises a load access fault.
pub open spec fn spec_disk_access(c: CpuView) -> (Result<(), Exception>, CpuView) {
    let b = c.bus;
    let dt = (b.virtio.queue_pfn * PAGE_SIZE) as u64;
    match spec_bus_load_r(b, dt, 64) {
        Err(e) => (Err(e), c),
        Ok(addr0) => match spec_bus_load_r(b, dt.wrapping_add(14), 16) {
            Err(e) => (Err(e), c),
            Ok(next0) => match spec_bus_load_r(b, dt.wrapping_add(next0.wrapping_mul(16)), 64) {
                Err(e) => (Err(e), c),
                Ok(addr1) => match spec_bus_load_r(b, addr0, 32) {
                    Err(e) => (Err(e), c),
                    Ok(req_type) => match spec_bus_load_r(b, addr0.wrapping_add(8), 64) {
                        Err(e) => (Err(e), c),
                        Ok(sector) => if sector >= SECTOR_LIMIT || sector * SECTOR_SIZE
                            + SECTOR_SIZE > b.virtio.disk.len() {
                            (Err(Exception::LoadAccessFault), c)
                        } else if req_type == 1 {
                            let (r, b2) = spec_dma_to_disk(b, addr1, (sector * SECTOR_SIZE) as int, 0);
                            (r, CpuView { bus: b2, ..c })
                        } else {
                            let (r, b2) = spec_dma_to_mem(b, addr1, (sector * SECTOR_SIZE) as int, 0);
                            (r, CpuView { bus: b2, ..c })
                        },
                    },
                },
            },
        },
    }
}

impl Virtio {
    /// Create the block device over the given disk image, with all registers
    /// zero and no pending interrupt.
    pub fn new(image: Vec<u8>) -> (v: Virtio)
        ensures
            v@ == (VirtioView {
                driver_features: 0u32,
                page_size: 0u32,
                queue_sel: 0u32,
                queue_num: 0u32,
                queue_pfn: 0u32,
                status: 0u32,
                interrupt: false,
                disk: image@,
            }),
    {
        Virtio {
            driver_features: 0,
            page_size: 0,
            queue_sel: 0,
            queue_num: 0,
            queue_pfn: 0,
            status: 0,
            interrupt: false,
            disk: image,
        }
    }

    /// Return whether an interrupt is pending, clearing the one-shot flag.
    pub fn is_interrupting(&mut self) -> (r: bool)
        ensures
            r == old(self)@.interrupt,
            final(self)@ == (VirtioView { interrupt: false, ..old(self)@ }),
    {
        let r = self.interrupt;
        self.interrupt = false;
        r
    }

    /// Load a value from a VirtIO register.
    pub fn load(&self, addr: u64, size: usize) -> (r: Result<u64, Exception>)
        ensures
            r == spec_virtio_load(self@, addr, size),
    {
        if size != 32 {
            return Err(Exception::LoadAccessFault);
        }
        if addr == VIRTIO_MAGIC {
            Ok(0x74726976)
        } else if addr == VIRTIO_VERSION {
            Ok(0x1)
        } else if addr == VIRTIO_DEVICE_ID {
            Ok(0x2)
        } else if addr == VIRTIO_VENDOR_ID {
            Ok(0x554d4551)
        } else if addr == VIRTIO_DEVICE_FEATURES {
            Ok(0)
        } else if addr == VIRTIO_DRIVER_FEATURES {
            Ok(self.driver_features as u64)
        } else if addr == VIRTIO_QUEUE_NUM_MAX {
            Ok(8)
        } else if addr == VIRTIO_QUEUE_PFN {
            Ok(self.queue_pfn as u64)
        } else if addr == VIRTIO_STATUS {
            Ok(self.status as u64)
        } else {
            Ok(0)
        }
    }

    /// Perform one block-device request: walk the descriptor chain in guest
    /// memory and transfer one sector between the image and the data buffer,
    /// byte-wise through the bus.
    #[verifier::loop_isolation(false)]
    pub fn disk_access(cpu: &mut Cpu) -> (r: Result<(), Exception>)
        requires
            old(cpu)@.wf(),
        ensures
            final(cpu)@.wf(),
            r == spec_disk_access(old(cpu)@).0,
            final(cpu)@ == spec_disk_access(old(cpu)@).1,
    {
        let ghost c0 = cpu@;
        let dt = cpu.bus.virtio.queue_pfn as u64 * PAGE_SIZE;

        let addr0 = match cpu.bus.load(dt, 64) {
            Ok(v) => v,
            Err(e) => {
                proof {
                    crate::bus::lemma_bus_load_preserves(c0.bus, dt, 64);
                }
                return Err(e);
            },
        };
        proof {
            crate::bus::lemma_bus_load_preserves(c0.bus, dt, 64);
        }

        let next0 = match cpu.bus.load(dt.wrapping_add(14), 16) {
            Ok(v) => v,
            Err(e) => {
                proof {
                    crate::bus::lemma_bus_load_preserves(c0.bus, dt.wrapping_add(14), 16);
                }
                return Err(e);
            },
        };
        proof {
            crate::bus::lemma_bus_load_preserves(c0.bus, dt.wrapping_add(14), 16);
        }

        let d1 = dt.wrapping_add(next0.wrapping_mul(16));
        let addr1 = match cpu.bus.load(d1, 64) {
            Ok(v) => v,
            Err(e) => {
                proof {
                    crate::bus::lemma_bus_load_preserves(c0.bus, d1, 64);
                }
                return Err(e);
            },
        };
        proof {
            crate::bus::lemma_bus_load_preserves(c0.bus, d1, 64);
        }

        let req_type = match cpu.bus.load(addr0, 32) {
            Ok(v) => v,
            Err(e) => {
                proof {
                    crate::bus::lemma_bus_load_preserves(c0.bus, addr0, 32);
                }
                return Err(e);
            },
        };
        proof {
            crate::bus::lemma_bus_load_preserves(c0.bus, addr0, 32);
        }

        let sector = match cpu.bus.load(addr0.wrapping_add(8), 64) {
            Ok(v) => v,
            Err(e) => {
                proof {
                    crate::bus::lemma_bus_load_preserves(c0.bus, addr0.wrapping_add(8), 64);
                }
                return Err(e);
            },
        };
        proof {
            crate::bus::lemma_bus_load_preserves(c0.bus, addr0.wrapping_add(8), 64);
        }

        if sector >= SECTOR_LIMIT {
            return Err(Exception::LoadAccessFault);
        }
        let off = sector * SECTOR_SIZE;
        if off + SECTOR_SIZE > cpu.bus.virtio.disk.len() as u64 {
            return Err(Exception::LoadAccessFault);
        }

        if req_type == 1 {
            // Guest memory to image.
            let mut i: u64 = 0;
            while i < SECTOR_SIZE
                invariant
                    cpu@.wf(),
                    cpu@ == (CpuView { bus: cpu@.bus, ..c0 }),
                    0 <= i <= SECTOR_SIZE,
                    off + SECTOR_SIZE <= cpu@.bus.virtio.disk.len(),
                    spec_dma_to_disk(c0.bus, addr1, off as int, 0) == spec_dma_to_disk(
                        cpu@.bus,
                        addr1,
                        off as int,
                        i as int,
                    ),
                decreases SECTOR_SIZE - i,
            {
                let byte = match cpu.bus.load(addr1.wrapping_add(i), 8) {
                    Ok(v) => v,
                    Err(e) => {
                        return Err(e);
                    },
                };
                let idx = (off + i) as usize;
                cpu.bus.virtio.disk[idx] = byte as u8;
                i = i + 1;
            }
            Ok(())
        } else {
            // Image to guest memory.
            let mut i: u64 = 0;
            while i < SECTOR_SIZE
                invariant
                    cpu@.wf(),
                    cpu@ == (CpuView { bus: cpu@.bus, ..c0 }),
                    0 <= i <= SECTOR_SIZE,
                    off + SECTOR_SIZE <= cpu@.bus.virtio.disk.len(),
                    spec_dma_to_mem(c0.bus, addr1, off as int, 0) == spec_dma_to_mem(
                        cpu@.bus,
                        addr1,
                        off as int,
                        i as int,
                    ),
                decreases SECTOR_SIZE - i,
            {
                let byte = cpu.bus.virtio.disk[(off + i) as usize] as u64;
                match cpu.bus.store(addr1.wrapping_add(i), 8, byte) {
                    Ok(_) => {},
                    Err(e) => {
                        return Err(e);
                    },
                }
                i = i + 1;
            }
            Ok(())
        }
    }

    /// Store a value to a VirtIO register.
    pub fn store(&mut self, addr: u64, size: usize, value: u64) -> (r: Result<(), Exception>)
        ensures
            match spec_virtio_store(old(self)@, addr, size, value) {
                Ok(v2) => r == Ok::<(), Exception>(()) && final(self)@ == v2,
                Err(e) => r == Err::<(), Exception>(e) && final(self)@ == old(self)@,
            },
    {
        if size != 32 {
            return Err(Exception::StoreAMOAccessFault);
        }
        if addr == VIRTIO_DRIVER_FEATURES {
            self.driver_features = value as u32;
        } else if addr == VIRTIO_GUEST_PAGE_SIZE {
            self.page_size = value as u32;
        } else if addr == VIRTIO_QUEUE_SEL {
            self.queue_sel = value as u32;
        } else if addr == VIRTIO_QUEUE_NUM {
            self.queue_num = value as u32;
        } else if addr == VIRTIO_QUEUE_PFN {
            self.queue_pfn = value as u32;
        } else if addr == VIRTIO_QUEUE_NOTIFY {
            self.interrupt = true;
        } else if addr == VIRTIO_STATUS {
            self.status = value as u32;
        }
        Ok(())
    }
}

} // verus!
