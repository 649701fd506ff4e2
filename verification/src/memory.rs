//! The memory the processor works on: 65,536 bytes, read and written one byte
//! at a time, with 16-bit values stored low byte first.

use vstd::prelude::*;

verus! {

/// Number of addressable bytes.
pub const MEMORY_SIZE: usize = 0x10000;

/// The low byte of a 16-bit value.
pub open spec fn low_byte_of(word: u16) -> u8 {
    (word % 256) as u8
}

/// The high byte of a 16-bit value.
pub open spec fn high_byte_of(word: u16) -> u8 {
    (word / 256) as u8
}

/// The 16-bit value with the given low and high byte.
pub open spec fn word_of(lo: u8, hi: u8) -> u16 {
    (hi * 256 + lo) as u16
}

/// The address after `addr`, where the address after 0xFFFF is 0x0000.
pub open spec fn next_addr(addr: u16) -> u16 {
    if addr == 0xFFFF {
        0
    } else {
        (addr + 1) as u16
    }
}

/// The 16-bit value stored at `pos`: low byte at `pos`, high byte at the
/// address after it.
pub open spec fn read_u16(mem: Seq<u8>, pos: u16) -> u16 {
    word_of(mem[pos as int], mem[next_addr(pos) as int])
}

/// `mem` after `data` is stored at `pos`, low byte first.
pub open spec fn write_u16(mem: Seq<u8>, pos: u16, data: u16) -> Seq<u8> {
    mem.update(pos as int, low_byte_of(data)).update(next_addr(pos) as int, high_byte_of(data))
}

/// The low byte of a 16-bit value.
pub fn low_byte(word: u16) -> (r: u8)
    ensures
        r == low_byte_of(word),
{
    (word % 256) as u8
}

/// The high byte of a 16-bit value.
pub fn high_byte(word: u16) -> (r: u8)
    ensures
        r == high_byte_of(word),
{
    (word / 256) as u8
}

/// The 16-bit value with the given low and high byte.
pub fn word(lo: u8, hi: u8) -> (r: u16)
    ensures
        r == word_of(lo, hi),
{
    (hi as u16) * 256 + (lo as u16)
}

/// Byte-addressable memory over the addresses 0x0000 to 0xFFFF.
pub trait MyMem {
    /// The bytes held, by address.
    spec fn memory(&self) -> Seq<u8>;

    /// Every address has a byte.
    proof fn lemma_memory_size(&self)
        ensures
            self.memory().len() == MEMORY_SIZE,
    ;

    /// The byte at `addr`.
    fn mem_read(&self, addr: u16) -> (data: u8)
        ensures
            data == self.memory()[addr as int],
    ;

    /// Stores `data` at `addr` and changes no other byte.
    fn mem_write(&mut self, addr: u16, data: u8)
        ensures
            final(self).memory() == old(self).memory().update(addr as int, data),
    ;

    /// The 16-bit value at `pos`, low byte first.
    fn mem_read_u16(&self, pos: u16) -> (data: u16)
        ensures
            data == read_u16(self.memory(), pos),
    {
        let lo = self.mem_read(pos);
        let hi = self.mem_read(pos.wrapping_add(1));
        word(lo, hi)
    }

    /// Stores the 16-bit value `data` at `pos`, low byte first.
    fn mem_write_u16(&mut self, pos: u16, data: u16)
        ensures
            final(self).memory() == write_u16(old(self).memory(), pos, data),
    {
        self.mem_write(pos, low_byte(data));
        self.mem_write(pos.wrapping_add(1), high_byte(data));
    }
}

/// Byte-addressable memory over the addresses 0x0000 to 0xFFFF, under the
/// name that the processor loading at 0x0600 uses for it.
pub trait Mem {
    /// The bytes held, by address.
    spec fn memory(&self) -> Seq<u8>;

    /// Every address has a byte.
    proof fn lemma_memory_size(&self)
        ensures
            self.memory().len() == MEMORY_SIZE,
    ;

    /// The byte at `addr`.
    fn mem_read(&self, addr: u16) -> (data: u8)
        ensures
            data == self.memory()[addr as int],
    ;

    /// Stores `data` at `addr` and changes no other byte.
    fn mem_write(&mut self, addr: u16, data: u8)
        ensures
            final(self).memory() == old(self).memory().update(addr as int, data),
    ;

    /// The 16-bit value at `pos`, low byte first.
    fn mem_read_u16(&self, pos: u16) -> (data: u16)
        ensures
            data == read_u16(self.memory(), pos),
    {
        let lo = self.mem_read(pos);
        let hi = self.mem_read(pos.wrapping_add(1));
        word(lo, hi)
    }

    /// Stores the 16-bit value `data` at `pos`, low byte first.
    fn mem_write_u16(&mut self, pos: u16, data: u16)
        ensures
            final(self).memory() == write_u16(old(self).memory(), pos, data),
    {
        self.mem_write(pos, low_byte(data));
        self.mem_write(pos.wrapping_add(1), high_byte(data));
    }
}

/// 64 KiB of plain memory.
pub struct Ram {
    cells: [u8; 0x10000],
}

impl MyMem for Ram {
    closed spec fn memory(&self) -> Seq<u8> {
        self.cells@
    }

    proof fn lemma_memory_size(&self) {
    }

    fn mem_read(&self, addr: u16) -> (data: u8) {
        self.cells[addr as usize]
    }

    fn mem_write(&mut self, addr: u16, data: u8) {
        self.cells[addr as usize] = data;
    }
}

impl Ram {
    /// Memory with a zero in every byte.
    pub fn new() -> (r: Ram)
        ensures
            r.memory() == Seq::new(MEMORY_SIZE as nat, |i: int| 0u8),
    {
        let r = Ram { cells: [0u8; 0x10000] };
        r
    }
}

} // verus!
