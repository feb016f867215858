//! Tests of the RAM model and the bus address decoder.

use rvcore::bus::Bus;
use rvcore::clint::{CLINT_MSIP, CLINT_MTIME, CLINT_MTIMECMP};
use rvcore::exception::Exception;
use rvcore::memory::{Memory, MEMORY_BASE, MEMORY_SIZE};
use rvcore::plic::{PLIC_PENDING, PLIC_SCLAIM};
use rvcore::uart::{UART_LSR, UART_LSR_TX};
use rvcore::virtio::{VIRTIO_DEVICE_ID, VIRTIO_MAGIC, VIRTIO_QUEUE_NUM_MAX, VIRTIO_QUEUE_PFN};

fn fresh_memory() -> Memory {
    Memory::new(Vec::new())
}

fn fresh_bus() -> Bus {
    Bus::new(Vec::new(), Vec::new())
}

#[test]
fn memory_round_trip_all_sizes() {
    let mut m = fresh_memory();
    let a = MEMORY_BASE + 0x200;
    for &size in &[8usize, 16, 32, 64] {
        let v: u64 = 0x1122_3344_5566_8899;
        m.store(a, size, v).unwrap();
        let mask: u64 = if size == 64 { u64::MAX } else { (1u64 << size) - 1 };
        assert_eq!(m.load(a, size).unwrap(), v & mask);
    }
}

#[test]
fn memory_round_trip_unaligned_in_64bit_window() {
    let mut m = fresh_memory();
    let base = MEMORY_BASE + 0x300;
    m.store(base, 64, 0x0807_0605_0403_0201).unwrap();
    // Unaligned loads of every size inside the same 64-bit window.
    assert_eq!(m.load(base + 1, 8).unwrap(), 0x02);
    assert_eq!(m.load(base + 1, 16).unwrap(), 0x0302);
    assert_eq!(m.load(base + 3, 32).unwrap(), 0x0706_0504);
    // An unaligned store read back.
    m.store(base + 5, 16, 0xBEEF).unwrap();
    assert_eq!(m.load(base + 5, 16).unwrap(), 0xBEEF);
    assert_eq!(m.load(base, 64).unwrap(), 0x08BE_EF05_0403_0201);
}

#[test]
fn memory_little_endian_layout() {
    let mut m = fresh_memory();
    let a = MEMORY_BASE + 0x40;
    m.store(a, 32, 0xAABB_CCDD).unwrap();
    assert_eq!(m.load(a, 8).unwrap(), 0xDD);
    assert_eq!(m.load(a + 1, 8).unwrap(), 0xCC);
    assert_eq!(m.load(a + 2, 8).unwrap(), 0xBB);
    assert_eq!(m.load(a + 3, 8).unwrap(), 0xAA);
}

#[test]
fn memory_rejects_unsupported_sizes() {
    let mut m = fresh_memory();
    let a = MEMORY_BASE;
    assert_eq!(m.load(a, 7), Err(Exception::LoadAddressMisaligned));
    assert_eq!(m.load(a, 0), Err(Exception::LoadAddressMisaligned));
    assert_eq!(m.store(a, 24, 1), Err(Exception::StoreAMOAddressMisaligned));
}

#[test]
fn memory_rejects_out_of_range_accesses() {
    let mut m = fresh_memory();
    let end = MEMORY_BASE + MEMORY_SIZE;
    assert_eq!(m.load(end, 8), Err(Exception::LoadAccessFault));
    assert_eq!(m.load(end - 4, 64), Err(Exception::LoadAccessFault));
    assert_eq!(m.store(end - 1, 16, 0), Err(Exception::StoreAMOAccessFault));
    // The last byte is still reachable.
    assert!(m.store(end - 1, 8, 0x7f).is_ok());
    assert_eq!(m.load(end - 1, 8).unwrap(), 0x7f);
}

#[test]
fn memory_new_copies_binary_into_head() {
    let m = Memory::new(vec![0x13, 0x24, 0x35]);
    assert_eq!(m.load(MEMORY_BASE, 8).unwrap(), 0x13);
    assert_eq!(m.load(MEMORY_BASE + 1, 8).unwrap(), 0x24);
    assert_eq!(m.load(MEMORY_BASE + 2, 8).unwrap(), 0x35);
    assert_eq!(m.load(MEMORY_BASE + 3, 8).unwrap(), 0);
}

#[test]
fn bus_unmapped_addresses_fault() {
    let mut b = fresh_bus();
    assert_eq!(b.load(0, 32), Err(Exception::LoadAccessFault));
    assert_eq!(b.store(0, 32, 1), Err(Exception::StoreAMOAccessFault));
    assert_eq!(b.load(0x3000_0000, 64), Err(Exception::LoadAccessFault));
    assert_eq!(b.store(0x3000_0000, 64, 1), Err(Exception::StoreAMOAccessFault));
}

#[test]
fn bus_routes_to_clint() {
    let mut b = fresh_bus();
    b.store(CLINT_MTIMECMP, 64, 77).unwrap();
    b.store(CLINT_MTIME, 64, 55).unwrap();
    b.store(CLINT_MSIP, 64, 1).unwrap();
    assert_eq!(b.load(CLINT_MTIMECMP, 64).unwrap(), 77);
    assert_eq!(b.load(CLINT_MTIME, 64).unwrap(), 55);
    assert_eq!(b.load(CLINT_MSIP, 64).unwrap(), 1);
    // The CLINT accepts only 64-bit accesses.
    assert_eq!(b.load(CLINT_MTIME, 32), Err(Exception::LoadAccessFault));
    assert_eq!(b.store(CLINT_MTIME, 32, 1), Err(Exception::StoreAMOAccessFault));
}

#[test]
fn bus_routes_to_plic() {
    let mut b = fresh_bus();
    b.store(PLIC_SCLAIM, 32, 10).unwrap();
    b.store(PLIC_PENDING, 32, 4).unwrap();
    assert_eq!(b.load(PLIC_SCLAIM, 32).unwrap(), 10);
    assert_eq!(b.load(PLIC_PENDING, 32).unwrap(), 4);
    // The PLIC accepts only 32-bit accesses.
    assert_eq!(b.load(PLIC_SCLAIM, 64), Err(Exception::LoadAccessFault));
    assert_eq!(b.store(PLIC_SCLAIM, 8, 1), Err(Exception::StoreAMOAccessFault));
}

#[test]
fn bus_routes_to_uart() {
    let mut b = fresh_bus();
    // The line status register powers on with the transmitter empty.
    assert_eq!(b.load(UART_LSR, 8).unwrap(), UART_LSR_TX as u64);
    assert_eq!(b.load(UART_LSR, 32), Err(Exception::LoadAccessFault));
}

#[test]
fn bus_routes_to_virtio() {
    let mut b = fresh_bus();
    assert_eq!(b.load(VIRTIO_MAGIC, 32).unwrap(), 0x74726976);
    assert_eq!(b.load(VIRTIO_DEVICE_ID, 32).unwrap(), 2);
    assert_eq!(b.load(VIRTIO_QUEUE_NUM_MAX, 32).unwrap(), 8);
    b.store(VIRTIO_QUEUE_PFN, 32, 0x80002).unwrap();
    assert_eq!(b.load(VIRTIO_QUEUE_PFN, 32).unwrap(), 0x80002);
    assert_eq!(b.load(VIRTIO_MAGIC, 8), Err(Exception::LoadAccessFault));
}

#[test]
fn bus_ram_accesses_reach_memory() {
    let mut b = fresh_bus();
    b.store(MEMORY_BASE + 8, 64, 0xDEAD_BEEF_CAFE_F00D).unwrap();
    assert_eq!(b.load(MEMORY_BASE + 8, 64).unwrap(), 0xDEAD_BEEF_CAFE_F00D);
}
