//! The mathematical model of the fetch-decode-execute engine: what one
//! instruction does to the registers, the memory, and the cycle budget, and
//! what a whole run under a budget does. The executable engine in `cpu` is
//! proved to implement `spec_run` exactly.

use vstd::prelude::*;
use crate::cpu::{
    Cpu, INS_LDA_IM, INS_LDA_ZP, INS_LDA_ZX, INS_LDA_AB, INS_LDA_AX, INS_LDA_AY, INS_LDA_IX,
    INS_LDA_IY, INS_JSR, STACK_PAGE,
};
use crate::flags::flags_zn;
use crate::model::{wrap16, wrap8, lo_byte, hi_byte, word_at, page_crossed};

verus! {

/// The outcome of one instruction: the registers and memory after it, the
/// remaining cycle budget, and the opcode reported if it is unimplemented.
#[verifier::ext_equal]
pub ghost struct StepOut {
    pub cpu: Cpu,
    pub mem: Seq<u8>,
    pub cycles: int,
    pub unhandled: Option<u8>,
}

/// The outcome of a whole run: the final registers and memory, the budget
/// left (zero or negative), and every unimplemented opcode met, in order.
#[verifier::ext_equal]
pub ghost struct RunOut {
    pub cpu: Cpu,
    pub mem: Seq<u8>,
    pub cycles: int,
    pub unhandled: Seq<u8>,
}

/// LDA immediate: one operand byte is the value itself.
/// `cpu` is the state after the opcode fetch: `cpu.pc` points at the operand.
pub open spec fn step_lda_im(cpu: Cpu, mem: Seq<u8>, cycles: int) -> StepOut {
    let v = mem[cpu.pc as int];
    StepOut {
        cpu: Cpu {
            pc: wrap16(cpu.pc as int + 1),
            sp: cpu.sp,
            a: v,
            x: cpu.x,
            y: cpu.y,
            flags: flags_zn(cpu.flags, v),
        },
        mem,
        cycles: cycles - 1,
        unhandled: None,
    }
}

/// LDA zero-page: one operand byte addresses the first page directly.
pub open spec fn step_lda_zp(cpu: Cpu, mem: Seq<u8>, cycles: int) -> StepOut {
    let zp = mem[cpu.pc as int];
    let v = mem[zp as int];
    StepOut {
        cpu: Cpu {
            pc: wrap16(cpu.pc as int + 1),
            sp: cpu.sp,
            a: v,
            x: cpu.x,
            y: cpu.y,
            flags: flags_zn(cpu.flags, v),
        },
        mem,
        cycles: cycles - 2,
        unhandled: None,
    }
}

/// LDA zero-page,X: the operand byte plus X, wrapping within the zero page;
/// the index addition always costs one extra cycle.
pub open spec fn step_lda_zx(cpu: Cpu, mem: Seq<u8>, cycles: int) -> StepOut {
    let zp = mem[cpu.pc as int];
    let eff = wrap8(zp as int + cpu.x as int);
    let v = mem[eff as int];
    StepOut {
        cpu: Cpu {
            pc: wrap16(cpu.pc as int + 1),
            sp: cpu.sp,
            a: v,
            x: cpu.x,
            y: cpu.y,
            flags: flags_zn(cpu.flags, v),
        },
        mem,
        cycles: cycles - 3,
        unhandled: None,
    }
}

/// LDA absolute: a little-endian operand word is the address.
pub open spec fn step_lda_ab(cpu: Cpu, mem: Seq<u8>, cycles: int) -> StepOut {
    let base = word_at(mem, cpu.pc);
    let v = mem[base as int];
    StepOut {
        cpu: Cpu {
            pc: wrap16(wrap16(cpu.pc as int + 1) as int + 1),
            sp: cpu.sp,
            a: v,
            x: cpu.x,
            y: cpu.y,
            flags: flags_zn(cpu.flags, v),
        },
        mem,
        cycles: cycles - 3,
        unhandled: None,
    }
}

/// LDA absolute,X: the operand word plus X; one extra cycle iff the
/// addition crosses a page boundary.
pub open spec fn step_lda_ax(cpu: Cpu, mem: Seq<u8>, cycles: int) -> StepOut {
    let base = word_at(mem, cpu.pc);
    let eff = wrap16(base as int + cpu.x as int);
    let v = mem[eff as int];
    StepOut {
        cpu: Cpu {
            pc: wrap16(wrap16(cpu.pc as int + 1) as int + 1),
            sp: cpu.sp,
            a: v,
            x: cpu.x,
            y: cpu.y,
            flags: flags_zn(cpu.flags, v),
        },
        mem,
        cycles: cycles - 3 - (if page_crossed(base, eff) {
            1int
        } else {
            0int
        }),
        unhandled: None,
    }
}

/// LDA absolute,Y: the operand word plus Y; one extra cycle iff the
/// addition crosses a page boundary.
pub open spec fn step_lda_ay(cpu: Cpu, mem: Seq<u8>, cycles: int) -> StepOut {
    let base = word_at(mem, cpu.pc);
    let eff = wrap16(base as int + cpu.y as int);
    let v = mem[eff as int];
    StepOut {
        cpu: Cpu {
            pc: wrap16(wrap16(cpu.pc as int + 1) as int + 1),
            sp: cpu.sp,
            a: v,
            x: cpu.x,
            y: cpu.y,
            flags: flags_zn(cpu.flags, v),
        },
        mem,
        cycles: cycles - 3 - (if page_crossed(base, eff) {
            1int
        } else {
            0int
        }),
        unhandled: None,
    }
}

/// LDA (indirect,X): the operand byte plus X, wrapping within the zero
/// page, addresses a little-endian pointer; the index addition always costs
/// one extra cycle.
pub open spec fn step_lda_ix(cpu: Cpu, mem: Seq<u8>, cycles: int) -> StepOut {
    let zp = mem[cpu.pc as int];
    let zpx = wrap8(zp as int + cpu.x as int);
    let ptr = word_at(mem, zpx as u16);
    let v = mem[ptr as int];
    StepOut {
        cpu: Cpu {
            pc: wrap16(cpu.pc as int + 1),
            sp: cpu.sp,
            a: v,
            x: cpu.x,
            y: cpu.y,
            flags: flags_zn(cpu.flags, v),
        },
        mem,
        cycles: cycles - 5,
        unhandled: None,
    }
}

/// LDA (indirect),Y: the operand byte addresses a little-endian pointer in
/// the zero page, to which Y is added; one extra cycle iff the addition
/// crosses a page boundary.
pub open spec fn step_lda_iy(cpu: Cpu, mem: Seq<u8>, cycles: int) -> StepOut {
    let zp = mem[cpu.pc as int];
    let base = word_at(mem, zp as u16);
    let eff = wrap16(base as int + cpu.y as int);
    let v = mem[eff as int];
    StepOut {
        cpu: Cpu {
            pc: wrap16(cpu.pc as int + 1),
            sp: cpu.sp,
            a: v,
            x: cpu.x,
            y: cpu.y,
            flags: flags_zn(cpu.flags, v),
        },
        mem,
        cycles: cycles - 4 - (if page_crossed(base, eff) {
            1int
        } else {
            0int
        }),
        unhandled: None,
    }
}

/// JSR absolute: fetch the subroutine address, push the return address
/// minus one little-endian onto the stack page, advance the stack pointer,
/// jump, and charge one extra cycle of internal stack bookkeeping.
pub open spec fn step_jsr(cpu: Cpu, mem: Seq<u8>, cycles: int) -> StepOut {
    let target = word_at(mem, cpu.pc);
    let pc_after = wrap16(wrap16(cpu.pc as int + 1) as int + 1);
    let ret = wrap16(pc_after as int - 1);
    let sp_addr = wrap16(STACK_PAGE as int + cpu.sp as int);
    StepOut {
        cpu: Cpu {
            pc: target,
            sp: wrap8(cpu.sp as int + 1),
            a: cpu.a,
            x: cpu.x,
            y: cpu.y,
            flags: cpu.flags,
        },
        mem: mem.update(sp_addr as int, lo_byte(ret)).update(
            wrap16(sp_addr as int + 1) as int,
            hi_byte(ret),
        ),
        cycles: cycles - 5,
        unhandled: None,
    }
}

/// One trip of the trampoline: fetch the opcode under the program counter
/// (one cycle, advancing the counter), dispatch on it, and execute it. An
/// opcode outside the dispatch table costs only its fetch and is reported.
pub open spec fn spec_step(cpu: Cpu, mem: Seq<u8>, cycles: int) -> StepOut
    recommends
        mem.len() == 0x10000,
{
    let op = mem[cpu.pc as int];
    let fetched = Cpu {
        pc: wrap16(cpu.pc as int + 1),
        sp: cpu.sp,
        a: cpu.a,
        x: cpu.x,
        y: cpu.y,
        flags: cpu.flags,
    };
    let c = cycles - 1;
    if op == INS_LDA_IM {
        step_lda_im(fetched, mem, c)
    } else if op == INS_LDA_ZP {
        step_lda_zp(fetched, mem, c)
    } else if op == INS_LDA_ZX {
        step_lda_zx(fetched, mem, c)
    } else if op == INS_LDA_AB {
        step_lda_ab(fetched, mem, c)
    } else if op == INS_LDA_AX {
        step_lda_ax(fetched, mem, c)
    } else if op == INS_LDA_AY {
        step_lda_ay(fetched, mem, c)
    } else if op == INS_LDA_IX {
        step_lda_ix(fetched, mem, c)
    } else if op == INS_LDA_IY {
        step_lda_iy(fetched, mem, c)
    } else if op == INS_JSR {
        step_jsr(fetched, mem, c)
    } else {
        StepOut { cpu: fetched, mem, cycles: c, unhandled: Some(op) }
    }
}

/// The unimplemented-opcode report of one step, as a sequence.
pub open spec fn opt_seq(o: Option<u8>) -> Seq<u8> {
    match o {
        Some(b) => seq![b],
        None => Seq::empty(),
    }
}

/// A whole run: execute instructions while the budget is positive. An
/// instruction that overdraws the budget still completes, so the final
/// budget may be negative.
pub open spec fn spec_run(cpu: Cpu, mem: Seq<u8>, cycles: int) -> RunOut
    recommends
        mem.len() == 0x10000,
    decreases (if cycles > 0 {
        cycles
    } else {
        0
    }),
{
    if cycles <= 0 {
        RunOut { cpu, mem, cycles, unhandled: Seq::empty() }
    } else {
        let s = spec_step(cpu, mem, cycles);
        let rest = spec_run(s.cpu, s.mem, s.cycles);
        RunOut {
            cpu: rest.cpu,
            mem: rest.mem,
            cycles: rest.cycles,
            unhandled: opt_seq(s.unhandled) + rest.unhandled,
        }
    }
}

} // verus!
