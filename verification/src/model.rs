//! Pure arithmetic helpers shared by the memory and processor models:
//! modular register arithmetic, little-endian word composition, and
//! page-boundary crossing detection.

use vstd::prelude::*;

verus! {

/// Wrap an address computation to the 16-bit range, as the program counter
/// and effective-address arithmetic do on hardware.
pub open spec fn wrap16(x: int) -> u16
    recommends
        -0x10000 <= x < 0x20000,
{
    if x < 0 {
        (x + 0x10000) as u16
    } else if x > 0xFFFF {
        (x - 0x10000) as u16
    } else {
        x as u16
    }
}

/// Wrap an 8-bit register computation, as the stack pointer and zero-page
/// index arithmetic do on hardware.
pub open spec fn wrap8(x: int) -> u8
    recommends
        -0x100 <= x < 0x200,
{
    if x < 0 {
        (x + 0x100) as u8
    } else if x > 0xFF {
        (x - 0x100) as u8
    } else {
        x as u8
    }
}

/// Low byte of a 16-bit word.
pub open spec fn lo_byte(w: u16) -> u8 {
    (w % 256) as u8
}

/// High byte of a 16-bit word.
pub open spec fn hi_byte(w: u16) -> u8 {
    (w / 256) as u8
}

/// The little-endian 16-bit value stored at `addr` and `addr + 1`.
pub open spec fn word_at(mem: Seq<u8>, addr: u16) -> u16
    recommends
        mem.len() == 0x10000,
{
    (mem[addr as int] as int + 256 * (mem[wrap16(addr as int + 1) as int] as int)) as u16
}

/// A page boundary lies between `base` and `eff` iff their high bytes
/// differ; indexed addressing charges one extra cycle exactly then.
pub open spec fn page_crossed(base: u16, eff: u16) -> bool {
    ((base ^ eff) >> 8) != 0
}

/// The contents of a freshly reset memory: 64 KiB of zeroes.
pub open spec fn zero_mem() -> Seq<u8> {
    Seq::new(0x10000, |i: int| 0u8)
}

} // verus!
