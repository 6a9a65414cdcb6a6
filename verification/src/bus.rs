//! The memory bus: byte, halfword and word accesses against a flat
//! byte-addressed space, little-endian, with every access specified
//! exactly over the bus's byte-sequence view.
//!
//! Addresses pass through as computed: no alignment correction is applied.
//! A read outside the backing store returns zero and a write outside it is
//! dropped, which the spec functions state explicitly.

use crate::Addr;
use vstd::prelude::*;

verus! {

/// A byte read: the byte at `a`, or zero outside the backing store.
pub open spec fn spec_read8(m: Seq<u8>, a: u32) -> u8 {
    if (a as int) < m.len() {
        m[a as int]
    } else {
        0
    }
}

/// A little-endian halfword read from `a` and `a + 1` (wrapping).
pub open spec fn spec_read16(m: Seq<u8>, a: u32) -> u16 {
    (spec_read8(m, a) as int + spec_read8(m, crate::w32(a + 1)) as int * 0x100) as u16
}

/// A little-endian word read from `a` through `a + 3` (wrapping).
pub open spec fn spec_read32(m: Seq<u8>, a: u32) -> u32 {
    (spec_read16(m, a) as int + spec_read16(m, crate::w32(a + 2)) as int * 0x1_0000) as u32
}

/// A byte write: the byte at `a` replaced, or the memory unchanged
/// outside the backing store.
pub open spec fn spec_write8(m: Seq<u8>, a: u32, v: u8) -> Seq<u8> {
    if (a as int) < m.len() {
        m.update(a as int, v)
    } else {
        m
    }
}

/// A little-endian halfword write to `a` and `a + 1` (wrapping).
pub open spec fn spec_write16(m: Seq<u8>, a: u32, v: u16) -> Seq<u8> {
    spec_write8(spec_write8(m, a, (v % 0x100) as u8), crate::w32(a + 1), (v / 0x100) as u8)
}

/// A little-endian word write to `a` through `a + 3` (wrapping).
pub open spec fn spec_write32(m: Seq<u8>, a: u32, v: u32) -> Seq<u8> {
    spec_write16(spec_write16(m, a, (v % 0x1_0000) as u16), crate::w32(a + 2), (v / 0x1_0000) as u16)
}

/// The memory bus, backed by a flat byte array.
pub struct Bus {
    mem: Vec<u8>,
}

impl Bus {
    /// The bus's contents as a byte sequence.
    pub closed spec fn view(self) -> Seq<u8> {
        self.mem@
    }

    /// A bus whose backing store holds `size` zero bytes.
    pub fn new(size: usize) -> (r: Bus)
        ensures
            r@ == Seq::new(size as nat, |i: int| 0u8),
    {
        let mut mem: Vec<u8> = Vec::new();
        let mut i: usize = 0;
        while i < size
            invariant
                i <= size,
                mem@ == Seq::new(i as nat, |j: int| 0u8),
            decreases size - i,
        {
            mem.push(0);
            i = i + 1;
            proof {
                assert(mem@ =~= Seq::new(i as nat, |j: int| 0u8));
            }
        }
        Bus { mem }
    }

    /// Number of bytes in the backing store.
    pub fn size(&self) -> (r: usize)
        ensures
            r == self@.len(),
    {
        self.mem.len()
    }

    /// Read one byte.
    pub fn read_byte(&self, addr: Addr) -> (r: u8)
        ensures
            r == spec_read8(self@, addr),
    {
        if (addr as usize) < self.mem.len() {
            self.mem[addr as usize]
        } else {
            0
        }
    }

    /// Read a little-endian halfword.
    pub fn read_halfword(&self, addr: Addr) -> (r: u16)
        ensures
            r == spec_read16(self@, addr),
    {
        let lo = self.read_byte(addr);
        let hi = self.read_byte(addr.wrapping_add(1));
        proof {
            crate::lemma_w32_wrap(addr as int + 1);
        }
        lo as u16 + hi as u16 * 0x100
    }

    /// Read a little-endian word.
    pub fn read_word(&self, addr: Addr) -> (r: u32)
        ensures
            r == spec_read32(self@, addr),
    {
        let lo = self.read_halfword(addr);
        let hi = self.read_halfword(addr.wrapping_add(2));
        proof {
            crate::lemma_w32_wrap(addr as int + 2);
        }
        lo as u32 + hi as u32 * 0x1_0000
    }

    /// Write one byte.
    pub fn write_byte(&mut self, addr: Addr, value: u8)
        ensures
            final(self)@ == spec_write8(old(self)@, addr, value),
    {
        if (addr as usize) < self.mem.len() {
            self.mem[addr as usize] = value;
        }
    }

    /// Write a little-endian halfword.
    pub fn write_halfword(&mut self, addr: Addr, value: u16)
        ensures
            final(self)@ == spec_write16(old(self)@, addr, value),
    {
        self.write_byte(addr, (value % 0x100) as u8);
        self.write_byte(addr.wrapping_add(1), (value / 0x100) as u8);
        proof {
            crate::lemma_w32_wrap(addr as int + 1);
        }
    }

    /// Write a little-endian word.
    pub fn write_word(&mut self, addr: Addr, value: u32)
        ensures
            final(self)@ == spec_write32(old(self)@, addr, value),
    {
        self.write_halfword(addr, (value % 0x1_0000) as u16);
        self.write_halfword(addr.wrapping_add(2), (value / 0x1_0000) as u16);
        proof {
            crate::lemma_w32_wrap(addr as int + 2);
        }
    }
}

} // verus!
