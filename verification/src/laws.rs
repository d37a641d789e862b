//! Laws of the engine, each proved once and for all over the instruction
//! model: flag behaviour of loads, reset idempotence, the page-crossing
//! penalty rule, exact cycle accounting, and the JSR calling convention.

use vstd::prelude::*;
use crate::cpu::{
    Cpu, INS_LDA_IM, INS_LDA_ZP, INS_LDA_ZX, INS_LDA_AB, INS_LDA_AX, INS_LDA_AY, INS_LDA_IX,
    INS_LDA_IY, INS_JSR, STACK_PAGE, reset_cpu_state,
};
use crate::model::{wrap16, wrap8, lo_byte, hi_byte, word_at, page_crossed, zero_mem};
use crate::step::{spec_step, spec_run, opt_seq, RunOut};

verus! {

/// Whether `op` is one of the LDA variants.
pub open spec fn is_lda_opcode(op: u8) -> bool {
    ||| op == INS_LDA_IM
    ||| op == INS_LDA_ZP
    ||| op == INS_LDA_ZX
    ||| op == INS_LDA_AB
    ||| op == INS_LDA_AX
    ||| op == INS_LDA_AY
    ||| op == INS_LDA_IX
    ||| op == INS_LDA_IY
}

/// Every LDA variant leaves the zero flag set exactly when the loaded value
/// is zero and the negative flag set exactly when its bit 7 is set; it
/// touches no other flag, no other register but the program counter, and no
/// memory.
pub proof fn lemma_lda_flags(cpu: Cpu, mem: Seq<u8>, cycles: int)
    requires
        mem.len() == 0x10000,
        is_lda_opcode(mem[cpu.pc as int]),
    ensures
        ({
            let s = spec_step(cpu, mem, cycles);
            &&& s.cpu.flags.zero == (s.cpu.a == 0)
            &&& s.cpu.flags.negative == ((s.cpu.a & 0x80) != 0)
            &&& s.cpu.flags.carry == cpu.flags.carry
            &&& s.cpu.flags.interrupt_disable == cpu.flags.interrupt_disable
            &&& s.cpu.flags.decimal == cpu.flags.decimal
            &&& s.cpu.flags.brk == cpu.flags.brk
            &&& s.cpu.flags.unused == cpu.flags.unused
            &&& s.cpu.flags.overflow == cpu.flags.overflow
            &&& s.cpu.sp == cpu.sp
            &&& s.cpu.x == cpu.x
            &&& s.cpu.y == cpu.y
            &&& s.mem == mem
            &&& s.unhandled is None
        }),
{
}

/// Two reset states are one state: `reset` pins every register and every
/// memory cell, so a second `reset` right after a first changes nothing.
pub proof fn lemma_reset_idempotent(cpu1: Cpu, mem1: Seq<u8>, cpu2: Cpu, mem2: Seq<u8>)
    requires
        cpu1 == reset_cpu_state(),
        mem1 == zero_mem(),
        cpu2 == reset_cpu_state(),
        mem2 == zero_mem(),
    ensures
        cpu1 == cpu2,
        mem1 == mem2,
{
}

/// The base address an indexed LDA starts from, before the index register
/// is added: the operand word for the absolute modes, the zero-page pointer
/// for (indirect),Y.
pub open spec fn indexed_base(cpu: Cpu, mem: Seq<u8>) -> u16 {
    let operand_pc = wrap16(cpu.pc as int + 1);
    if mem[cpu.pc as int] == INS_LDA_IY {
        word_at(mem, mem[operand_pc as int] as u16)
    } else {
        word_at(mem, operand_pc)
    }
}

/// The effective address after the index register is added, wrapping in the
/// 16-bit space.
pub open spec fn indexed_eff(cpu: Cpu, mem: Seq<u8>) -> u16 {
    let idx: u8 = if mem[cpu.pc as int] == INS_LDA_AX {
        cpu.x
    } else {
        cpu.y
    };
    wrap16(indexed_base(cpu, mem) as int + idx as int)
}

/// Cycle cost of an indexed LDA when no page boundary is crossed, opcode
/// fetch included.
pub open spec fn indexed_base_cost(op: u8) -> int {
    if op == INS_LDA_IY {
        5
    } else {
        4
    }
}

/// For absolute,X / absolute,Y / (indirect),Y addressing, the one-cycle
/// penalty is charged if and only if the high byte of the pre-addition base
/// differs from the high byte of the effective address:
/// `(base ^ eff) >> 8 != 0`.
pub proof fn lemma_indexed_page_cross_penalty(cpu: Cpu, mem: Seq<u8>, cycles: int)
    requires
        mem.len() == 0x10000,
        mem[cpu.pc as int] == INS_LDA_AX || mem[cpu.pc as int] == INS_LDA_AY || mem[cpu.pc
            as int] == INS_LDA_IY,
    ensures
        ({
            let s = spec_step(cpu, mem, cycles);
            let base = indexed_base(cpu, mem);
            let eff = indexed_eff(cpu, mem);
            cycles - s.cycles == indexed_base_cost(mem[cpu.pc as int]) + (if page_crossed(
                base,
                eff,
            ) {
                1int
            } else {
                0int
            })
        }),
{
}

/// What one instruction costs: the documented operand-fetch and access
/// cycles, the addressing-mode penalty if one applies, and the opcode fetch
/// itself. Independent of the budget it is charged against.
pub open spec fn instr_cost(cpu: Cpu, mem: Seq<u8>) -> int {
    -spec_step(cpu, mem, 0).cycles
}

/// One step always consumes exactly `instr_cost`, whatever the budget was.
pub proof fn lemma_step_cost(cpu: Cpu, mem: Seq<u8>, cycles: int)
    requires
        mem.len() == 0x10000,
    ensures
        spec_step(cpu, mem, cycles).cycles == cycles - instr_cost(cpu, mem),
        1 <= instr_cost(cpu, mem) <= 6,
{
}

/// A budget of exactly one instruction's cost is consumed precisely: the
/// run executes that instruction alone and ends with zero cycles left. A
/// smaller positive budget still completes the instruction and goes
/// negative by the overdraft.
pub proof fn lemma_single_instruction_run(cpu: Cpu, mem: Seq<u8>, budget: int)
    requires
        mem.len() == 0x10000,
        0 < budget <= instr_cost(cpu, mem),
    ensures
        ({
            let s = spec_step(cpu, mem, budget);
            &&& spec_run(cpu, mem, budget).cpu == s.cpu
            &&& spec_run(cpu, mem, budget).mem == s.mem
            &&& spec_run(cpu, mem, budget).cycles == budget - instr_cost(cpu, mem)
            &&& spec_run(cpu, mem, budget).unhandled == opt_seq(s.unhandled)
        }),
{
    lemma_step_cost(cpu, mem, budget);
    let s = spec_step(cpu, mem, budget);
    assert(s.cycles <= 0);
    assert(spec_run(s.cpu, s.mem, s.cycles) == (RunOut {
        cpu: s.cpu,
        mem: s.mem,
        cycles: s.cycles,
        unhandled: Seq::<u8>::empty(),
    }));
    assert(opt_seq(s.unhandled) + Seq::<u8>::empty() =~= opt_seq(s.unhandled));
}

/// JSR with subroutine target `t`: the program counter ends at `t`, the
/// little-endian value pushed onto the stack page equals the address of the
/// instruction past the operands minus one (the return-address convention),
/// the stack pointer advances by one, no other register or flag changes,
/// and no other memory cell changes.
pub proof fn lemma_jsr(cpu: Cpu, mem: Seq<u8>, cycles: int)
    requires
        mem.len() == 0x10000,
        mem[cpu.pc as int] == INS_JSR,
    ensures
        ({
            let s = spec_step(cpu, mem, cycles);
            let t = word_at(mem, wrap16(cpu.pc as int + 1));
            let pc_after = wrap16(wrap16(wrap16(cpu.pc as int + 1) as int + 1) as int + 1);
            let ret = wrap16(pc_after as int - 1);
            let sp_addr = wrap16(STACK_PAGE as int + cpu.sp as int);
            &&& s.cpu.pc == t
            &&& s.mem[sp_addr as int] == lo_byte(ret)
            &&& s.mem[wrap16(sp_addr as int + 1) as int] == hi_byte(ret)
            &&& s.cpu.sp == wrap8(cpu.sp as int + 1)
            &&& s.cpu.a == cpu.a
            &&& s.cpu.x == cpu.x
            &&& s.cpu.y == cpu.y
            &&& s.cpu.flags == cpu.flags
            &&& cycles - s.cycles == 6
            &&& forall|i: int|
                0 <= i < 0x10000 && i != sp_addr as int && i != wrap16(sp_addr as int + 1) as int
                    ==> s.mem[i] == mem[i]
        }),
{
}

} // verus!
