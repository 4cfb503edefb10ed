//! The memory bus seen by the processor core.
//!
//! The core borrows the bus for the length of one instruction and reaches
//! it only through the [`Mmu`] trait.  The trait's contracts model the bus
//! as 64 KiB of byte-addressed storage: a read returns the byte held at
//! the address and a write replaces it.  [`Mbc0`] is the plain cartridge
//! without a mapper: a flat, fully writable 64 KiB array.

use vstd::prelude::*;

verus! {

/// The I/O ports the interrupt logic reads and writes by name.
#[derive(Copy, Clone)]
pub enum Port {
    /// The interrupt-request register at 0xFF0F.
    IF,
    /// The interrupt-enable register at 0xFFFF.
    IE,
}

impl Port {
    /// The bus address the port lives at.
    pub open spec fn spec_address(self) -> u16 {
        match self {
            Port::IF => 0xFF0F,
            Port::IE => 0xFFFF,
        }
    }

    pub fn address(self) -> (addr: u16)
        ensures
            addr == self.spec_address(),
    {
        match self {
            Port::IF => 0xFF0F,
            Port::IE => 0xFFFF,
        }
    }
}

/// The memory bus: 64 KiB of byte-addressed storage.
///
/// `mem()` is the sequence of the 0x10000 bytes currently visible on the
/// bus, and `inv()` is whatever well-formedness the implementation needs;
/// every implementation must make `mem()` 0x10000 bytes long under `inv()`.
pub trait Mmu: Sized {
    spec fn mem(&self) -> Seq<u8>;

    spec fn inv(&self) -> bool;

    /// Under `inv()` the bus exposes exactly the 16-bit address space.
    proof fn mem_len(&self)
        requires
            self.inv(),
        ensures
            self.mem().len() == 0x10000,
    ;

    /// Returns the byte visible at the address.
    fn read(&self, address: u16) -> (value: u8)
        requires
            self.inv(),
        ensures
            value == self.mem()[address as int],
    ;

    /// Stores a byte at the address.
    fn write(&mut self, address: u16, value: u8)
        requires
            old(self).inv(),
        ensures
            final(self).inv(),
            final(self).mem() == old(self).mem().update(address as int, value),
    ;

    /// Reads an I/O register by name; the same byte `read` yields at the
    /// port's address.
    fn io_read(&self, port: Port) -> (value: u8)
        requires
            self.inv(),
        ensures
            value == self.mem()[port.spec_address() as int],
    ;

    /// Writes an I/O register by name; the same effect `write` has at the
    /// port's address.
    fn io_write(&mut self, port: Port, value: u8)
        requires
            old(self).inv(),
        ensures
            final(self).inv(),
            final(self).mem() == old(self).mem().update(port.spec_address() as int, value),
    ;
}

/// The 16-bit value stored little-endian at an address: the low byte at
/// `addr`, the high byte at `addr + 1` (wrapping around the address space).
pub open spec fn word_at(mem: Seq<u8>, addr: u16) -> u16 {
    (mem[addr as int] + mem[crate::arith::wrap16(addr + 1) as int] * 0x100) as u16
}

/// Memory after a 16-bit value is pushed below `sp`: the high byte lands
/// at `sp - 1`, the low byte at `sp - 2`, little-endian on the stack.
pub open spec fn stack_push(mem: Seq<u8>, sp: u16, value: u16) -> Seq<u8> {
    mem.update(crate::arith::wrap16(sp - 2) as int, (value % 0x100) as u8).update(
        crate::arith::wrap16(sp - 1) as int,
        (value / 0x100) as u8,
    )
}

/// The mapperless cartridge: one flat 64 KiB array, all of it writable.
pub struct Mbc0 {
    bytes: Vec<u8>,
}

impl Mbc0 {
    /// A bus with every byte zero.
    pub fn new() -> (m: Mbc0)
        ensures
            m.inv(),
            m.mem() == Seq::<u8>::new(0x10000, |i: int| 0u8),
    {
        let mut bytes: Vec<u8> = Vec::new();
        let mut i: usize = 0;
        while i < 0x10000
            invariant
                i <= 0x10000,
                bytes@.len() == i,
                forall|j: int| 0 <= j < i ==> bytes@[j] == 0u8,
            decreases 0x10000 - i,
        {
            bytes.push(0);
            i = i + 1;
        }
        proof {
            assert(bytes@ =~= Seq::<u8>::new(0x10000, |i: int| 0u8));
        }
        Mbc0 { bytes }
    }
}

impl Mmu for Mbc0 {
    closed spec fn mem(&self) -> Seq<u8> {
        self.bytes@
    }

    closed spec fn inv(&self) -> bool {
        self.bytes@.len() == 0x10000
    }

    proof fn mem_len(&self) {
    }

    fn read(&self, address: u16) -> (value: u8) {
        self.bytes[address as usize]
    }

    fn write(&mut self, address: u16, value: u8) {
        self.bytes.set(address as usize, value);
    }

    fn io_read(&self, port: Port) -> (value: u8) {
        self.read(port.address())
    }

    fn io_write(&mut self, port: Port, value: u8) {
        self.write(port.address(), value)
    }
}

} // verus!
