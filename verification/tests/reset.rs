use mos6502::cpu::Cpu;
use mos6502::mem::Mem;

#[test]
fn reset_establishes_power_up_state() {
    let mut mem = Mem::new();
    let mut cpu = Cpu::new();
    cpu.reset(&mut mem);
    assert_eq!(cpu.pc, 0xFFFC);
    assert_eq!(cpu.sp, 0xFE);
    assert_eq!(cpu.a, 0);
    assert_eq!(cpu.x, 0);
    assert_eq!(cpu.y, 0);
    assert_eq!(cpu.flags.status_byte(), 0);
    for addr in 0..=0xFFFFu16 {
        assert_eq!(mem.read(addr), 0);
    }
}

#[test]
fn reset_is_idempotent() {
    let mut mem = Mem::new();
    let mut cpu = Cpu::new();
    cpu.reset(&mut mem);
    let first_cpu = cpu;
    let mut first_mem = Vec::new();
    for addr in 0..=0xFFFFu16 {
        first_mem.push(mem.read(addr));
    }
    cpu.reset(&mut mem);
    assert_eq!(cpu, first_cpu);
    for addr in 0..=0xFFFFu16 {
        assert_eq!(mem.read(addr), first_mem[addr as usize]);
    }
}

#[test]
fn reset_clears_a_dirtied_machine() {
    let mut mem = Mem::new();
    let mut cpu = Cpu::new();
    cpu.reset(&mut mem);
    mem.write(0xFFFC, 0xA9);
    mem.write(0xFFFD, 0x84);
    cpu.execute(2, &mut mem);
    cpu.reset(&mut mem);
    assert_eq!(cpu.pc, 0xFFFC);
    assert_eq!(cpu.a, 0);
    assert!(!cpu.flags.negative);
    assert_eq!(mem.read(0xFFFC), 0);
    assert_eq!(mem.read(0xFFFD), 0);
}
