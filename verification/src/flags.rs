//! The processor status register: eight independent flag bits with a
//! byte-level serialization accessor for collaborators that need the packed
//! representation.

use vstd::prelude::*;

verus! {

/// The eight 6502 status flags. Bit 5 is unused on hardware but kept so the
/// packed byte is faithful.
#[derive(Clone, Copy, PartialEq, Eq, Structural, Debug)]
pub struct Flags {
    pub carry: bool,
    pub zero: bool,
    pub interrupt_disable: bool,
    pub decimal: bool,
    pub brk: bool,
    pub unused: bool,
    pub overflow: bool,
    pub negative: bool,
}

/// All flags cleared: the state `reset` establishes.
pub open spec fn flags_cleared() -> Flags {
    Flags {
        carry: false,
        zero: false,
        interrupt_disable: false,
        decimal: false,
        brk: false,
        unused: false,
        overflow: false,
        negative: false,
    }
}

/// `f` with the zero and negative flags set from the value `v` just loaded
/// into a register: zero iff `v == 0`, negative iff bit 7 of `v` is set.
/// No other flag changes.
pub open spec fn flags_zn(f: Flags, v: u8) -> Flags {
    Flags {
        carry: f.carry,
        zero: v == 0,
        interrupt_disable: f.interrupt_disable,
        decimal: f.decimal,
        brk: f.brk,
        unused: f.unused,
        overflow: f.overflow,
        negative: (v & 0x80) != 0,
    }
}

/// The conventional packed byte: carry in bit 0 up to negative in bit 7.
pub open spec fn flags_byte(f: Flags) -> u8 {
    ((if f.carry {
        1int
    } else {
        0int
    }) + (if f.zero {
        2int
    } else {
        0int
    }) + (if f.interrupt_disable {
        4int
    } else {
        0int
    }) + (if f.decimal {
        8int
    } else {
        0int
    }) + (if f.brk {
        16int
    } else {
        0int
    }) + (if f.unused {
        32int
    } else {
        0int
    }) + (if f.overflow {
        64int
    } else {
        0int
    }) + (if f.negative {
        128int
    } else {
        0int
    })) as u8
}

impl Flags {
    /// A register with every flag cleared.
    pub fn cleared() -> (f: Flags)
        ensures
            f == flags_cleared(),
    {
        Flags {
            carry: false,
            zero: false,
            interrupt_disable: false,
            decimal: false,
            brk: false,
            unused: false,
            overflow: false,
            negative: false,
        }
    }

    /// Serialize the flags into the conventional packed byte.
    pub fn status_byte(&self) -> (b: u8)
        ensures
            b == flags_byte(*self),
    {
        let mut b: u8 = 0;
        if self.carry {
            b = b + 1;
        }
        if self.zero {
            b = b + 2;
        }
        if self.interrupt_disable {
            b = b + 4;
        }
        if self.decimal {
            b = b + 8;
        }
        if self.brk {
            b = b + 16;
        }
        if self.unused {
            b = b + 32;
        }
        if self.overflow {
            b = b + 64;
        }
        if self.negative {
            b = b + 128;
        }
        b
    }
}

} // verus!
