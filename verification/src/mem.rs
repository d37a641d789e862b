//! A flat, byte-addressable 64 KiB memory. Addresses are 16-bit, so every
//! access is in range by construction; the memory charges no cycles itself,
//! cycle accounting is centralized in the processor at each point of access.

use vstd::prelude::*;
use crate::model::{wrap16, lo_byte, hi_byte, word_at, zero_mem};

verus! {

/// The 64 KiB address space, viewed as a sequence of 65536 bytes.
pub struct Mem {
    data: Vec<u8>,
}

impl View for Mem {
    type V = Seq<u8>;

    closed spec fn view(&self) -> Seq<u8> {
        self.data@
    }
}

impl Mem {
    /// A memory holds exactly one byte per 16-bit address.
    pub open spec fn wf(&self) -> bool {
        self@.len() == 0x10000
    }

    /// A fresh, zero-filled memory.
    pub fn new() -> (m: Mem)
        ensures
            m.wf(),
            m@ == zero_mem(),
    {
        let mut data: Vec<u8> = Vec::new();
        let mut i: usize = 0;
        while i < 0x10000
            invariant
                i <= 0x10000,
                data@.len() == i,
                forall|j: int| 0 <= j < i ==> data@[j] == 0u8,
            decreases 0x10000 - i,
        {
            data.push(0);
            i = i + 1;
        }
        let m = Mem { data };
        proof {
            assert(m@ =~= zero_mem());
        }
        m
    }

    /// Zero-fill the whole address space.
    pub fn reset(&mut self)
        ensures
            final(self).wf(),
            final(self)@ == zero_mem(),
    {
        *self = Mem::new();
    }

    /// The byte at `addr`. Total: every 16-bit address is in range.
    pub fn read(&self, addr: u16) -> (b: u8)
        requires
            self.wf(),
        ensures
            b == self@[addr as int],
    {
        self.data[addr as usize]
    }

    /// The little-endian 16-bit value at `addr` and `addr + 1`. Charges no
    /// cycles: the caller accounts for both byte accesses.
    pub fn read_word(&self, addr: u16) -> (w: u16)
        requires
            self.wf(),
        ensures
            w == word_at(self@, addr),
    {
        let lo = self.data[addr as usize];
        let hi = self.data[addr.wrapping_add(1) as usize];
        lo as u16 + (hi as u16) * 256
    }

    /// Store one byte at `addr`.
    pub fn write(&mut self, addr: u16, value: u8)
        requires
            old(self).wf(),
        ensures
            final(self).wf(),
            final(self)@ == old(self)@.update(addr as int, value),
    {
        self.data[addr as usize] = value;
    }

    /// Store `value` little-endian at `addr` and `addr + 1`.
    pub fn write_word(&mut self, value: u16, addr: u16)
        requires
            old(self).wf(),
        ensures
            final(self).wf(),
            final(self)@ == old(self)@.update(addr as int, lo_byte(value)).update(
                wrap16(addr as int + 1) as int,
                hi_byte(value),
            ),
    {
        self.data[addr as usize] = (value % 256) as u8;
        self.data[addr.wrapping_add(1) as usize] = (value / 256) as u8;
    }
}

} // verus!
