//! The processor: registers, status flags, and the fetch-decode-execute
//! engine. Every memory access and every addressing-mode penalty charges the
//! cycle counter exactly once, at the point of access; the budget may end
//! negative when the last instruction overdraws it.

use vstd::prelude::*;
use crate::flags::{Flags, flags_cleared, flags_zn};
use crate::mem::Mem;
use crate::model::{wrap16, lo_byte, hi_byte, word_at, zero_mem};
use crate::step::{
    step_lda_im, step_lda_zp, step_lda_zx, step_lda_ab, step_lda_ax, step_lda_ay, step_lda_ix,
    step_lda_iy, step_jsr, spec_step, spec_run, opt_seq,
};

verus! {

/// LDA immediate.
pub const INS_LDA_IM: u8 = 0xA9;

/// LDA zero-page.
pub const INS_LDA_ZP: u8 = 0xA5;

/// LDA zero-page,X.
pub const INS_LDA_ZX: u8 = 0xB5;

/// LDA absolute.
pub const INS_LDA_AB: u8 = 0xAD;

/// LDA absolute,X.
pub const INS_LDA_AX: u8 = 0xBD;

/// LDA absolute,Y.
pub const INS_LDA_AY: u8 = 0xB9;

/// LDA (indirect,X).
pub const INS_LDA_IX: u8 = 0xA1;

/// LDA (indirect),Y.
pub const INS_LDA_IY: u8 = 0xB1;

/// JSR absolute.
pub const INS_JSR: u8 = 0x20;

/// Base address of the fixed stack page: the stack pointer is an offset
/// into this page.
pub const STACK_PAGE: u16 = 0x0100;

/// The 6502 register file. All register arithmetic wraps modulo the
/// register's bit width.
#[derive(Clone, Copy, PartialEq, Eq, Structural, Debug)]
pub struct Cpu {
    /// Program counter.
    pub pc: u16,
    /// Stack pointer, an offset into the stack page.
    pub sp: u8,
    /// Accumulator.
    pub a: u8,
    /// Index register X.
    pub x: u8,
    /// Index register Y.
    pub y: u8,
    /// Processor status flags.
    pub flags: Flags,
}

/// The architectural power-up register values that `reset` establishes:
/// program counter at the reset vector, stack pointer at 0xFE, flags
/// cleared, accumulator and index registers zero.
pub open spec fn reset_cpu_state() -> Cpu {
    Cpu { pc: 0xFFFC, sp: 0xFE, a: 0, x: 0, y: 0, flags: flags_cleared() }
}

impl Cpu {
    /// A processor with every register zeroed; call `reset` before running.
    pub fn new() -> (c: Cpu)
        ensures
            c == (Cpu { pc: 0, sp: 0, a: 0, x: 0, y: 0, flags: flags_cleared() }),
    {
        Cpu { pc: 0, sp: 0, a: 0, x: 0, y: 0, flags: Flags::cleared() }
    }

    /// Reinitialize the registers to their architectural power-up values and
    /// zero the memory. Idempotent: the final state does not depend on the
    /// state before the call.
    pub fn reset(&mut self, mem: &mut Mem)
        ensures
            *final(self) == reset_cpu_state(),
            final(mem).wf(),
            final(mem)@ == zero_mem(),
    {
        self.pc = 0xFFFC;
        self.sp = 0xFE;
        self.a = 0;
        self.x = 0;
        self.y = 0;
        self.flags = Flags::cleared();
        mem.reset();
    }

    /// Fetch the byte the program counter points at, advancing the counter
    /// and charging one cycle for the access.
    pub fn fetch_byte(&mut self, cycles: &mut i64, memory: &Mem) -> (b: u8)
        requires
            memory.wf(),
            *old(cycles) > i64::MIN,
        ensures
            b == memory@[old(self).pc as int],
            final(self).pc == wrap16(old(self).pc as int + 1),
            final(self).sp == old(self).sp,
            final(self).a == old(self).a,
            final(self).x == old(self).x,
            final(self).y == old(self).y,
            final(self).flags == old(self).flags,
            *final(cycles) == *old(cycles) - 1,
    {
        let b = memory.read(self.pc);
        self.pc = self.pc.wrapping_add(1);
        *cycles = *cycles - 1;
        b
    }

    /// Fetch the little-endian word the program counter points at, advancing
    /// the counter twice and charging one cycle per byte access.
    pub fn fetch_word(&mut self, cycles: &mut i64, memory: &Mem) -> (w: u16)
        requires
            memory.wf(),
            *old(cycles) > i64::MIN + 1,
        ensures
            w == word_at(memory@, old(self).pc),
            final(self).pc == wrap16(wrap16(old(self).pc as int + 1) as int + 1),
            final(self).sp == old(self).sp,
            final(self).a == old(self).a,
            final(self).x == old(self).x,
            final(self).y == old(self).y,
            final(self).flags == old(self).flags,
            *final(cycles) == *old(cycles) - 2,
    {
        let lo = self.fetch_byte(cycles, memory);
        let hi = self.fetch_byte(cycles, memory);
        lo as u16 + (hi as u16) * 256
    }

    /// Read the byte at `addr`, charging one cycle for the access.
    pub fn read_byte(cycles: &mut i64, memory: &Mem, addr: u16) -> (b: u8)
        requires
            memory.wf(),
            *old(cycles) > i64::MIN,
        ensures
            b == memory@[addr as int],
            *final(cycles) == *old(cycles) - 1,
    {
        *cycles = *cycles - 1;
        memory.read(addr)
    }

    /// Read the little-endian word at `addr`, charging one cycle per byte
    /// access.
    pub fn read_word(cycles: &mut i64, memory: &Mem, addr: u16) -> (w: u16)
        requires
            memory.wf(),
            *old(cycles) > i64::MIN + 1,
        ensures
            w == word_at(memory@, addr),
            *final(cycles) == *old(cycles) - 2,
    {
        *cycles = *cycles - 2;
        memory.read_word(addr)
    }

    /// Write `value` little-endian at `addr`, charging one cycle per byte
    /// access.
    pub fn write_word(cycles: &mut i64, memory: &mut Mem, value: u16, addr: u16)
        requires
            old(memory).wf(),
            *old(cycles) > i64::MIN + 1,
        ensures
            final(memory).wf(),
            final(memory)@ == old(memory)@.update(addr as int, lo_byte(value)).update(
                wrap16(addr as int + 1) as int,
                hi_byte(value),
            ),
            *final(cycles) == *old(cycles) - 2,
    {
        *cycles = *cycles - 2;
        memory.write_word(value, addr);
    }

    /// Record what a value just loaded into a register says: zero flag iff
    /// the value is zero, negative flag iff its bit 7 is set. No other flag
    /// is touched.
    pub fn set_zero_and_negative_flags(&mut self, register: u8)
        ensures
            final(self).flags == flags_zn(old(self).flags, register),
            final(self).pc == old(self).pc,
            final(self).sp == old(self).sp,
            final(self).a == old(self).a,
            final(self).x == old(self).x,
            final(self).y == old(self).y,
    {
        self.flags.zero = register == 0;
        self.flags.negative = (register & 0x80) != 0;
    }

    /// LDA immediate. `self` holds the post-opcode-fetch state: the program
    /// counter points at the operand.
    fn op_lda_im(&mut self, cycles: &mut i64, memory: &Mem)
        requires
            memory.wf(),
            *old(cycles) > i64::MIN + 8,
        ensures
            ({
                let s = step_lda_im(*old(self), memory@, *old(cycles) as int);
                &&& *final(self) == s.cpu
                &&& *final(cycles) == s.cycles
            }),
    {
        let v = self.fetch_byte(cycles, memory);
        self.a = v;
        self.set_zero_and_negative_flags(v);
    }

    /// LDA zero-page.
    fn op_lda_zp(&mut self, cycles: &mut i64, memory: &Mem)
        requires
            memory.wf(),
            *old(cycles) > i64::MIN + 8,
        ensures
            ({
                let s = step_lda_zp(*old(self), memory@, *old(cycles) as int);
                &&& *final(self) == s.cpu
                &&& *final(cycles) == s.cycles
            }),
    {
        let zp = self.fetch_byte(cycles, memory);
        let v = Cpu::read_byte(cycles, memory, zp as u16);
        self.a = v;
        self.set_zero_and_negative_flags(v);
    }

    /// LDA zero-page,X: the index addition wraps within the zero page and
    /// always costs one extra cycle.
    fn op_lda_zx(&mut self, cycles: &mut i64, memory: &Mem)
        requires
            memory.wf(),
            *old(cycles) > i64::MIN + 8,
        ensures
            ({
                let s = step_lda_zx(*old(self), memory@, *old(cycles) as int);
                &&& *final(self) == s.cpu
                &&& *final(cycles) == s.cycles
            }),
    {
        let zp = self.fetch_byte(cycles, memory);
        let eff = zp.wrapping_add(self.x);
        *cycles = *cycles - 1;
        let v = Cpu::read_byte(cycles, memory, eff as u16);
        self.a = v;
        self.set_zero_and_negative_flags(v);
    }

    /// LDA absolute.
    fn op_lda_ab(&mut self, cycles: &mut i64, memory: &Mem)
        requires
            memory.wf(),
            *old(cycles) > i64::MIN + 8,
        ensures
            ({
                let s = step_lda_ab(*old(self), memory@, *old(cycles) as int);
                &&& *final(self) == s.cpu
                &&& *final(cycles) == s.cycles
            }),
    {
        let base = self.fetch_word(cycles, memory);
        let v = Cpu::read_byte(cycles, memory, base);
        self.a = v;
        self.set_zero_and_negative_flags(v);
    }

    /// LDA absolute,X: one extra cycle iff adding X crosses a page
    /// boundary, judged on the pre-addition base.
    fn op_lda_ax(&mut self, cycles: &mut i64, memory: &Mem)
        requires
            memory.wf(),
            *old(cycles) > i64::MIN + 8,
        ensures
            ({
                let s = step_lda_ax(*old(self), memory@, *old(cycles) as int);
                &&& *final(self) == s.cpu
                &&& *final(cycles) == s.cycles
            }),
    {
        let base = self.fetch_word(cycles, memory);
        let eff = base.wrapping_add(self.x as u16);
        if ((base ^ eff) >> 8) != 0 {
            *cycles = *cycles - 1;
        }
        let v = Cpu::read_byte(cycles, memory, eff);
        self.a = v;
        self.set_zero_and_negative_flags(v);
    }

    /// LDA absolute,Y: one extra cycle iff adding Y crosses a page
    /// boundary, judged on the pre-addition base.
    fn op_lda_ay(&mut self, cycles: &mut i64, memory: &Mem)
        requires
            memory.wf(),
            *old(cycles) > i64::MIN + 8,
        ensures
            ({
                let s = step_lda_ay(*old(self), memory@, *old(cycles) as int);
                &&& *final(self) == s.cpu
                &&& *final(cycles) == s.cycles
            }),
    {
        let base = self.fetch_word(cycles, memory);
        let eff = base.wrapping_add(self.y as u16);
        if ((base ^ eff) >> 8) != 0 {
            *cycles = *cycles - 1;
        }
        let v = Cpu::read_byte(cycles, memory, eff);
        self.a = v;
        self.set_zero_and_negative_flags(v);
    }

    /// LDA (indirect,X): the pointer lies in the zero page at the operand
    /// plus X; the index addition always costs one extra cycle.
    fn op_lda_ix(&mut self, cycles: &mut i64, memory: &Mem)
        requires
            memory.wf(),
            *old(cycles) > i64::MIN + 8,
        ensures
            ({
                let s = step_lda_ix(*old(self), memory@, *old(cycles) as int);
                &&& *final(self) == s.cpu
                &&& *final(cycles) == s.cycles
            }),
    {
        let zp = self.fetch_byte(cycles, memory);
        let zpx = zp.wrapping_add(self.x);
        *cycles = *cycles - 1;
        let ptr = Cpu::read_word(cycles, memory, zpx as u16);
        let v = Cpu::read_byte(cycles, memory, ptr);
        self.a = v;
        self.set_zero_and_negative_flags(v);
    }

    /// LDA (indirect),Y: one extra cycle iff adding Y to the fetched
    /// pointer crosses a page boundary.
    fn op_lda_iy(&mut self, cycles: &mut i64, memory: &Mem)
        requires
            memory.wf(),
            *old(cycles) > i64::MIN + 8,
        ensures
            ({
                let s = step_lda_iy(*old(self), memory@, *old(cycles) as int);
                &&& *final(self) == s.cpu
                &&& *final(cycles) == s.cycles
            }),
    {
        let zp = self.fetch_byte(cycles, memory);
        let base = Cpu::read_word(cycles, memory, zp as u16);
        let eff = base.wrapping_add(self.y as u16);
        if ((base ^ eff) >> 8) != 0 {
            *cycles = *cycles - 1;
        }
        let v = Cpu::read_byte(cycles, memory, eff);
        self.a = v;
        self.set_zero_and_negative_flags(v);
    }

    /// JSR absolute: push the return address minus one onto the stack page,
    /// jump, and charge one extra cycle of stack bookkeeping.
    fn op_jsr(&mut self, cycles: &mut i64, memory: &mut Mem)
        requires
            old(memory).wf(),
            *old(cycles) > i64::MIN + 8,
        ensures
            final(memory).wf(),
            ({
                let s = step_jsr(*old(self), old(memory)@, *old(cycles) as int);
                &&& *final(self) == s.cpu
                &&& final(memory)@ == s.mem
                &&& *final(cycles) == s.cycles
            }),
    {
        let target = self.fetch_word(cycles, memory);
        let ret = self.pc.wrapping_sub(1);
        let sp_addr = STACK_PAGE.wrapping_add(self.sp as u16);
        Cpu::write_word(cycles, memory, ret, sp_addr);
        self.pc = target;
        self.sp = self.sp.wrapping_add(1);
        *cycles = *cycles - 1;
    }

    /// Run the fetch-decode-execute trampoline: while the cycle budget is
    /// positive, fetch one opcode (one cycle), dispatch, and execute it.
    /// Returns the remaining budget (zero, or negative when the last
    /// instruction overdrew it) and every unimplemented opcode met, in
    /// order; an unimplemented opcode costs only its fetch and never
    /// desynchronizes the budget.
    pub fn execute(&mut self, budget: i64, memory: &mut Mem) -> (r: (i64, Vec<u8>))
        requires
            old(memory).wf(),
        ensures
            final(memory).wf(),
            *final(self) == spec_run(*old(self), old(memory)@, budget as int).cpu,
            final(memory)@ == spec_run(*old(self), old(memory)@, budget as int).mem,
            r.0 as int == spec_run(*old(self), old(memory)@, budget as int).cycles,
            r.1@ == spec_run(*old(self), old(memory)@, budget as int).unhandled,
    {
        let mut cycles: i64 = budget;
        let mut unhandled: Vec<u8> = Vec::new();
        let ghost cpu0 = *self;
        let ghost mem0 = memory@;
        proof {
            assert(unhandled@ + spec_run(*self, memory@, cycles as int).unhandled =~= spec_run(
                *self,
                memory@,
                cycles as int,
            ).unhandled);
        }
        while cycles > 0
            invariant
                memory.wf(),
                spec_run(cpu0, mem0, budget as int).cpu == spec_run(
                    *self,
                    memory@,
                    cycles as int,
                ).cpu,
                spec_run(cpu0, mem0, budget as int).mem == spec_run(
                    *self,
                    memory@,
                    cycles as int,
                ).mem,
                spec_run(cpu0, mem0, budget as int).cycles == spec_run(
                    *self,
                    memory@,
                    cycles as int,
                ).cycles,
                spec_run(cpu0, mem0, budget as int).unhandled == unhandled@ + spec_run(
                    *self,
                    memory@,
                    cycles as int,
                ).unhandled,
            decreases (if cycles > 0 {
                cycles as int
            } else {
                0int
            }),
        {
            let ghost pre_cpu = *self;
            let ghost pre_mem = memory@;
            let ghost pre_cycles = cycles as int;
            let ghost pre_unhandled = unhandled@;
            let op = self.fetch_byte(&mut cycles, memory);
            match op {
                INS_LDA_IM => self.op_lda_im(&mut cycles, memory),
                INS_LDA_ZP => self.op_lda_zp(&mut cycles, memory),
                INS_LDA_ZX => self.op_lda_zx(&mut cycles, memory),
                INS_LDA_AB => self.op_lda_ab(&mut cycles, memory),
                INS_LDA_AX => self.op_lda_ax(&mut cycles, memory),
                INS_LDA_AY => self.op_lda_ay(&mut cycles, memory),
                INS_LDA_IX => self.op_lda_ix(&mut cycles, memory),
                INS_LDA_IY => self.op_lda_iy(&mut cycles, memory),
                INS_JSR => self.op_jsr(&mut cycles, memory),
                _ => unhandled.push(op),
            }
            proof {
                let s = spec_step(pre_cpu, pre_mem, pre_cycles);
                let rest = spec_run(s.cpu, s.mem, s.cycles);
                assert(*self == s.cpu);
                assert(memory@ == s.mem);
                assert(cycles as int == s.cycles);
                assert(unhandled@ =~= pre_unhandled + opt_seq(s.unhandled));
                assert(spec_run(pre_cpu, pre_mem, pre_cycles).unhandled == opt_seq(s.unhandled)
                    + rest.unhandled);
                assert(pre_unhandled + (opt_seq(s.unhandled) + rest.unhandled) =~= (pre_unhandled
                    + opt_seq(s.unhandled)) + rest.unhandled);
            }
        }
        proof {
            assert(spec_run(cpu0, mem0, budget as int).unhandled =~= unhandled@);
        }
        (cycles, unhandled)
    }
}

} // verus!
