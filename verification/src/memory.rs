//! The byte-addressable memory contract and a flat 64 KiB backing store.
//!
//! The engine reads and writes memory only through the [`Mem`] trait:
//! single-byte accesses over the full 16-bit address range, plus derived
//! little-endian 16-bit helpers. [`Bus`] is the plain RAM implementation;
//! a multi-device routing implementation is interchangeable with it as
//! long as it satisfies the same contract.

use vstd::prelude::*;

verus! {

/// The number of addressable bytes: the full 16-bit address space.
pub const MEMORY_SIZE: usize = 0x10000;

/// The byte-addressable 16-bit address space the engine works through.
///
/// An implementation exposes its contents as a sequence of `MEMORY_SIZE`
/// bytes, indexed by address. The 16-bit helpers assemble and disassemble
/// little-endian pairs from two single-byte accesses; the high byte's
/// address wraps around the top of the address space, so no access ever
/// leaves the 16-bit range.
pub trait Mem {
    /// The current contents, one byte per address.
    spec fn mem_view(&self) -> Seq<u8>;

    /// Reads the byte at `addr`.
    fn mem_read(&self, addr: u16) -> (data: u8)
        requires
            self.mem_view().len() == MEMORY_SIZE,
        ensures
            data == self.mem_view()[addr as int],
    ;

    /// Writes `data` at `addr`, leaving every other byte unchanged.
    fn mem_write(&mut self, addr: u16, data: u8)
        requires
            old(self).mem_view().len() == MEMORY_SIZE,
        ensures
            final(self).mem_view() == old(self).mem_view().update(addr as int, data),
    ;

    /// Reads the little-endian 16-bit word whose low byte is at `pos`.
    fn mem_read_u16(&self, pos: u16) -> (data: u16)
        requires
            self.mem_view().len() == MEMORY_SIZE,
        ensures
            data == self.mem_view()[pos.wrapping_add(1) as int] * 256
                + self.mem_view()[pos as int],
    {
        let lo = self.mem_read(pos);
        let hi = self.mem_read(pos.wrapping_add(1));
        (hi as u16) * 256 + (lo as u16)
    }

    /// Writes `data` as a little-endian pair with its low byte at `pos`.
    fn mem_write_u16(&mut self, pos: u16, data: u16)
        requires
            old(self).mem_view().len() == MEMORY_SIZE,
        ensures
            final(self).mem_view() == old(self).mem_view().update(
                pos as int,
                (data % 256) as u8,
            ).update(pos.wrapping_add(1) as int, (data / 256) as u8),
    {
        let hi = (data / 256) as u8;
        let lo = (data % 256) as u8;
        self.mem_write(pos, lo);
        self.mem_write(pos.wrapping_add(1), hi);
    }
}

/// Overwrites one element of a byte vector in place.
fn store_byte(mem: &mut Vec<u8>, i: usize, data: u8)
    requires
        i < old(mem)@.len(),
    ensures
        final(mem)@ == old(mem)@.update(i as int, data),
    no_unwind
{
    mem[i] = data;
}

/// Flat RAM covering the whole address space, every byte starting at
/// zero.
pub struct Bus {
    mem: Vec<u8>,
}

impl Bus {
    /// A `Bus` always spans the whole address space; the invariant is
    /// established by [`Bus::new`] and preserved by every write.
    #[verifier::type_invariant]
    pub open spec fn well_formed(self) -> bool {
        self@.len() == MEMORY_SIZE
    }

    /// A fresh memory with every byte zero.
    pub fn new() -> (bus: Bus)
        ensures
            bus@ == Seq::<u8>::new(MEMORY_SIZE as nat, |i: int| 0u8),
    {
        let mut mem: Vec<u8> = Vec::new();
        let mut i: usize = 0;
        while i < MEMORY_SIZE
            invariant
                i <= MEMORY_SIZE,
                mem@.len() == i,
                forall|j: int| 0 <= j < i ==> mem@[j] == 0u8,
            decreases MEMORY_SIZE - i,
        {
            mem.push(0);
            i = i + 1;
        }
        let bus = Bus { mem };
        proof {
            assert(bus@ =~= Seq::<u8>::new(MEMORY_SIZE as nat, |i: int| 0u8));
        }
        bus
    }
}

impl View for Bus {
    type V = Seq<u8>;

    closed spec fn view(&self) -> Seq<u8> {
        self.mem@
    }
}

impl Mem for Bus {
    open spec fn mem_view(&self) -> Seq<u8> {
        self@
    }

    fn mem_read(&self, addr: u16) -> (data: u8) {
        self.mem[addr as usize]
    }

    fn mem_write(&mut self, addr: u16, data: u8) {
        proof {
            use_type_invariant(&*self);
        }
        store_byte(&mut self.mem, addr as usize, data);
    }
}

} // verus!
