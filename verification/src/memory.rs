//! Random-access memory: a flat little-endian byte buffer at a fixed base.
//!
//! Loads and stores of 8, 16, 32 and 64 bits assemble and disassemble bytes
//! relative to `MEMORY_BASE`. Any other size is rejected, and an access that
//! does not lie wholly inside the buffer raises an access fault.

use vstd::prelude::*;

use crate::exception::Exception;

verus! {

/// Size of the memory, 128 MiB.
pub const MEMORY_SIZE: u64 = 128 * 1024 * 1024;
/// Physical address where the memory starts.
pub const MEMORY_BASE: u64 = 0x8000_0000;

/// Whether an access of `size` bits at `address` lies wholly inside memory.
pub open spec fn mem_in_range(address: u64, size: usize) -> bool {
    MEMORY_BASE <= address && address - MEMORY_BASE + size / 8 <= MEMORY_SIZE
}

/// The little-endian value of the byte at `i`.
pub open spec fn read8(m: Seq<u8>, i: int) -> u64 {
    m[i] as u64
}

/// The little-endian value of the two bytes starting at `i`.
pub open spec fn read16(m: Seq<u8>, i: int) -> u64 {
    m[i] as u64 | (m[i + 1] as u64) << 8
}

/// The little-endian value of the four bytes starting at `i`.
pub open spec fn read32(m: Seq<u8>, i: int) -> u64 {
    m[i] as u64 | (m[i + 1] as u64) << 8 | (m[i + 2] as u64) << 16 | (m[i + 3] as u64) << 24
}

/// The little-endian value of the eight bytes starting at `i`.
pub open spec fn read64(m: Seq<u8>, i: int) -> u64 {
    m[i] as u64 | (m[i + 1] as u64) << 8 | (m[i + 2] as u64) << 16 | (m[i + 3] as u64) << 24
        | (m[i + 4] as u64) << 32 | (m[i + 5] as u64) << 40 | (m[i + 6] as u64) << 48
        | (m[i + 7] as u64) << 56
}

/// `m` with the low byte of `value` written at `i`.
pub open spec fn write8(m: Seq<u8>, i: int, value: u64) -> Seq<u8> {
    m.update(i, (value & 0xff) as u8)
}

/// `m` with the low two bytes of `value` written little-endian at `i`.
pub open spec fn write16(m: Seq<u8>, i: int, value: u64) -> Seq<u8> {
    m.update(i, (value & 0xff) as u8).update(i + 1, ((value >> 8) & 0xff) as u8)
}

/// `m` with the low four bytes of `value` written little-endian at `i`.
pub open spec fn write32(m: Seq<u8>, i: int, value: u64) -> Seq<u8> {
    m.update(i, (value & 0xff) as u8).update(i + 1, ((value >> 8) & 0xff) as u8).update(
        i + 2,
        ((value >> 16) & 0xff) as u8,
    ).update(i + 3, ((value >> 24) & 0xff) as u8)
}

/// `m` with the eight bytes of `value` written little-endian at `i`.
pub open spec fn write64(m: Seq<u8>, i: int, value: u64) -> Seq<u8> {
    m.update(i, (value & 0xff) as u8).update(i + 1, ((value >> 8) & 0xff) as u8).update(
        i + 2,
        ((value >> 16) & 0xff) as u8,
    ).update(i + 3, ((value >> 24) & 0xff) as u8).update(
        i + 4,
        ((value >> 32) & 0xff) as u8,
    ).update(i + 5, ((value >> 40) & 0xff) as u8).update(
        i + 6,
        ((value >> 48) & 0xff) as u8,
    ).update(i + 7, ((value >> 56) & 0xff) as u8)
}

/// What a memory load returns: the assembled little-endian value, or the
/// fault for an unsupported size or an out-of-range access.
pub open spec fn spec_mem_load(m: Seq<u8>, address: u64, size: usize) -> Result<u64, Exception> {
    if !(size == 8 || size == 16 || size == 32 || size == 64) {
        Err(Exception::LoadAddressMisaligned)
    } else if !mem_in_range(address, size) {
        Err(Exception::LoadAccessFault)
    } else {
        let i = address - MEMORY_BASE;
        if size == 8 {
            Ok(read8(m, i))
        } else if size == 16 {
            Ok(read16(m, i))
        } else if size == 32 {
            Ok(read32(m, i))
        } else {
            Ok(read64(m, i))
        }
    }
}

/// What a memory store leaves behind: the updated bytes, or the fault for an
/// unsupported size or an out-of-range access.
pub open spec fn spec_mem_store(m: Seq<u8>, address: u64, size: usize, value: u64) -> Result<
    Seq<u8>,
    Exception,
> {
    if !(size == 8 || size == 16 || size == 32 || size == 64) {
        Err(Exception::StoreAMOAddressMisaligned)
    } else if !mem_in_range(address, size) {
        Err(Exception::StoreAMOAccessFault)
    } else {
        let i = address - MEMORY_BASE;
        if size == 8 {
            Ok(write8(m, i, value))
        } else if size == 16 {
            Ok(write16(m, i, value))
        } else if size == 32 {
            Ok(write32(m, i, value))
        } else {
            Ok(write64(m, i, value))
        }
    }
}

/// The mask of the low `size` bits of a value, for the supported sizes.
pub open spec fn size_mask(size: usize) -> u64 {
    if size == 8 {
        0xff
    } else if size == 16 {
        0xffff
    } else if size == 32 {
        0xffff_ffff
    } else {
        0xffff_ffff_ffff_ffff
    }
}

/// Random-access memory.
pub struct Memory {
    /// The bytes of the memory, `MEMORY_SIZE` of them.
    pub data: Vec<u8>,
}

impl View for Memory {
    type V = Seq<u8>;

    open spec fn view(&self) -> Seq<u8> {
        self.data@
    }
}

impl Memory {
    /// Create the memory, zero-filled, with `binary` copied into its head.
    pub fn new(binary: Vec<u8>) -> (m: Memory)
        requires
            binary@.len() <= MEMORY_SIZE,
        ensures
            m@.len() == MEMORY_SIZE,
            forall|i: int| 0 <= i < binary@.len() ==> m@[i] == binary@[i],
            forall|i: int| binary@.len() <= i < MEMORY_SIZE ==> m@[i] == 0,
    {
        let mut data: Vec<u8> = vec![0u8; MEMORY_SIZE as usize];
        proof {
            assert forall|i: int| 0 <= i < data@.len() implies data@[i] == 0u8 by {
                assert(vstd::pervasive::cloned(0u8, data@[i]));
            }
        }
        let mut i: usize = 0;
        while i < binary.len()
            invariant
                data@.len() == MEMORY_SIZE,
                binary@.len() <= MEMORY_SIZE,
                i <= binary@.len(),
                forall|j: int| 0 <= j < i ==> data@[j] == binary@[j],
                forall|j: int| i <= j < MEMORY_SIZE ==> data@[j] == 0,
            decreases binary@.len() - i,
        {
            data[i] = binary[i];
            i = i + 1;
        }
        Memory { data }
    }

    /// Load a little-endian value of `size` bits from `address`.
    pub fn load(&self, address: u64, size: usize) -> (r: Result<u64, Exception>)
        requires
            self@.len() == MEMORY_SIZE,
        ensures
            r == spec_mem_load(self@, address, size),
    {
        if !(size == 8 || size == 16 || size == 32 || size == 64) {
            return Err(Exception::LoadAddressMisaligned);
        }
        let bytes = size / 8;
        if !(MEMORY_BASE <= address && address - MEMORY_BASE <= MEMORY_SIZE - bytes as u64) {
            return Err(Exception::LoadAccessFault);
        }
        match size {
            8 => Ok(self.load_8bits(address)),
            16 => Ok(self.load_16bits(address)),
            32 => Ok(self.load_32bits(address)),
            _ => Ok(self.load_64bits(address)),
        }
    }

    /// Store the low `size` bits of `value` little-endian at `address`.
    pub fn store(&mut self, address: u64, size: usize, value: u64) -> (r: Result<(), Exception>)
        requires
            old(self)@.len() == MEMORY_SIZE,
        ensures
            match spec_mem_store(old(self)@, address, size, value) {
                Ok(m2) => r == Ok::<(), Exception>(()) && final(self)@ == m2,
                Err(e) => r == Err::<(), Exception>(e) && final(self)@ == old(self)@,
            },
    {
        if !(size == 8 || size == 16 || size == 32 || size == 64) {
            return Err(Exception::StoreAMOAddressMisaligned);
        }
        let bytes = size / 8;
        if !(MEMORY_BASE <= address && address - MEMORY_BASE <= MEMORY_SIZE - bytes as u64) {
            return Err(Exception::StoreAMOAccessFault);
        }
        match size {
            8 => Ok(self.store_8bits(address, value)),
            16 => Ok(self.store_16bits(address, value)),
            32 => Ok(self.store_32bits(address, value)),
            _ => Ok(self.store_64bits(address, value)),
        }
    }

    fn load_8bits(&self, address: u64) -> (r: u64)
        requires
            self@.len() == MEMORY_SIZE,
            mem_in_range(address, 8),
        ensures
            r == read8(self@, address - MEMORY_BASE),
    {
        let index = (address - MEMORY_BASE) as usize;
        self.data[index] as u64
    }

    fn load_16bits(&self, address: u64) -> (r: u64)
        requires
            self@.len() == MEMORY_SIZE,
            mem_in_range(address, 16),
        ensures
            r == read16(self@, address - MEMORY_BASE),
    {
        let index = (address - MEMORY_BASE) as usize;
        self.data[index] as u64 | (self.data[index + 1] as u64) << 8u64
    }

    fn load_32bits(&self, address: u64) -> (r: u64)
        requires
            self@.len() == MEMORY_SIZE,
            mem_in_range(address, 32),
        ensures
            r == read32(self@, address - MEMORY_BASE),
    {
        let index = (address - MEMORY_BASE) as usize;
        self.data[index] as u64 | (self.data[index + 1] as u64) << 8u64
            | (self.data[index + 2] as u64) << 16u64 | (self.data[index + 3] as u64) << 24u64
    }

    fn load_64bits(&self, address: u64) -> (r: u64)
        requires
            self@.len() == MEMORY_SIZE,
            mem_in_range(address, 64),
        ensures
            r == read64(self@, address - MEMORY_BASE),
    {
        let index = (address - MEMORY_BASE) as usize;
        self.data[index] as u64 | (self.data[index + 1] as u64) << 8u64
            | (self.data[index + 2] as u64) << 16u64 | (self.data[index + 3] as u64) << 24u64
            | (self.data[index + 4] as u64) << 32u64 | (self.data[index + 5] as u64) << 40u64
            | (self.data[index + 6] as u64) << 48u64 | (self.data[index + 7] as u64) << 56u64
    }

    fn store_8bits(&mut self, address: u64, value: u64)
        requires
            old(self)@.len() == MEMORY_SIZE,
            mem_in_range(address, 8),
        ensures
            final(self)@ == write8(old(self)@, address - MEMORY_BASE, value),
    {
        let index = (address - MEMORY_BASE) as usize;
        self.data[index] = (value & 0xff) as u8;
    }

    fn store_16bits(&mut self, address: u64, value: u64)
        requires
            old(self)@.len() == MEMORY_SIZE,
            mem_in_range(address, 16),
        ensures
            final(self)@ == write16(old(self)@, address - MEMORY_BASE, value),
    {
        let index = (address - MEMORY_BASE) as usize;
        self.data[index] = (value & 0xff) as u8;
        self.data[index + 1] = ((value >> 8u64) & 0xff) as u8;
    }

    fn store_32bits(&mut self, address: u64, value: u64)
        requires
            old(self)@.len() == MEMORY_SIZE,
            mem_in_range(address, 32),
        ensures
            final(self)@ == write32(old(self)@, address - MEMORY_BASE, value),
    {
        let index = (address - MEMORY_BASE) as usize;
        self.data[index] = (value & 0xff) as u8;
        self.data[index + 1] = ((value >> 8u64) & 0xff) as u8;
        self.data[index + 2] = ((value >> 16u64) & 0xff) as u8;
        self.data[index + 3] = ((value >> 24u64) & 0xff) as u8;
    }

    fn store_64bits(&mut self, address: u64, value: u64)
        requires
            old(self)@.len() == MEMORY_SIZE,
            mem_in_range(address, 64),
        ensures
            final(self)@ == write64(old(self)@, address - MEMORY_BASE, value),
    {
        let index = (address - MEMORY_BASE) as usize;
        self.data[index] = (value & 0xff) as u8;
        self.data[index + 1] = ((value >> 8u64) & 0xff) as u8;
        self.data[index + 2] = ((value >> 16u64) & 0xff) as u8;
        self.data[index + 3] = ((value >> 24u64) & 0xff) as u8;
        self.data[index + 4] = ((value >> 32u64) & 0xff) as u8;
        self.data[index + 5] = ((value >> 40u64) & 0xff) as u8;
        self.data[index + 6] = ((value >> 48u64) & 0xff) as u8;
        self.data[index + 7] = ((value >> 56u64) & 0xff) as u8;
    }
}

/// Law: a store followed by a load of the same address and size reads back
/// the stored value masked to that size. Holds for every in-range address,
/// every supported size and every value.
pub proof fn lemma_mem_store_load(m: Seq<u8>, address: u64, size: usize, value: u64)
    requires
        m.len() == MEMORY_SIZE,
        size == 8 || size == 16 || size == 32 || size == 64,
        mem_in_range(address, size),
    ensures
        spec_mem_store(m, address, size, value) is Ok,
        spec_mem_load(spec_mem_store(m, address, size, value)->Ok_0, address, size) == Ok::<
            u64,
            Exception,
        >(value & size_mask(size)),
{
    let i = address - MEMORY_BASE;
    let m2 = spec_mem_store(m, address, size, value)->Ok_0;
    if size == 8 {
        assert((value & 0xff) as u8 as u64 == value & 0xff) by (bit_vector);
    } else if size == 16 {
        assert(((value & 0xff) as u8 as u64) | (((value >> 8) & 0xff) as u8 as u64) << 8 == value
            & 0xffff) by (bit_vector);
    } else if size == 32 {
        assert(((value & 0xff) as u8 as u64) | (((value >> 8) & 0xff) as u8 as u64) << 8 | (((value
            >> 16) & 0xff) as u8 as u64) << 16 | (((value >> 24) & 0xff) as u8 as u64) << 24
            == value & 0xffff_ffff) by (bit_vector);
    } else {
        assert(((value & 0xff) as u8 as u64) | (((value >> 8) & 0xff) as u8 as u64) << 8 | (((value
            >> 16) & 0xff) as u8 as u64) << 16 | (((value >> 24) & 0xff) as u8 as u64) << 24 | (((
        value >> 32) & 0xff) as u8 as u64) << 32 | (((value >> 40) & 0xff) as u8 as u64) << 40 | ((
        (value >> 48) & 0xff) as u8 as u64) << 48 | (((value >> 56) & 0xff) as u8 as u64) << 56
            == value & 0xffff_ffff_ffff_ffff) by (bit_vector);
    }
}

} // verus!
