use mos6502::cpu::Cpu;
use mos6502::mem::Mem;

fn boot() -> (Cpu, Mem) {
    let mut mem = Mem::new();
    let mut cpu = Cpu::new();
    cpu.reset(&mut mem);
    (cpu, mem)
}

#[test]
fn lda_immediate_loads_value() {
    let (mut cpu, mut mem) = boot();
    mem.write(0xFFFC, 0xA9);
    mem.write(0xFFFD, 0x84);
    let (left, unhandled) = cpu.execute(2, &mut mem);
    assert_eq!(cpu.a, 0x84);
    assert!(!cpu.flags.zero);
    assert!(cpu.flags.negative);
    assert_eq!(cpu.pc, 0xFFFE);
    assert_eq!(left, 0);
    assert!(unhandled.is_empty());
}

#[test]
fn lda_immediate_zero_sets_zero_flag() {
    let (mut cpu, mut mem) = boot();
    mem.write(0xFFFC, 0xA9);
    mem.write(0xFFFD, 0x00);
    let (left, _) = cpu.execute(2, &mut mem);
    assert_eq!(cpu.a, 0);
    assert!(cpu.flags.zero);
    assert!(!cpu.flags.negative);
    assert_eq!(left, 0);
}

#[test]
fn lda_zero_page() {
    let (mut cpu, mut mem) = boot();
    mem.write(0xFFFC, 0xA5);
    mem.write(0xFFFD, 0x42);
    mem.write(0x0042, 0x37);
    let (left, _) = cpu.execute(3, &mut mem);
    assert_eq!(cpu.a, 0x37);
    assert!(!cpu.flags.zero);
    assert!(!cpu.flags.negative);
    assert_eq!(left, 0);
}

#[test]
fn lda_zero_page_x() {
    let (mut cpu, mut mem) = boot();
    cpu.x = 0x02;
    mem.write(0xFFFC, 0xB5);
    mem.write(0xFFFD, 0x40);
    mem.write(0x0042, 0x99);
    let (left, _) = cpu.execute(4, &mut mem);
    assert_eq!(cpu.a, 0x99);
    assert!(cpu.flags.negative);
    assert_eq!(left, 0);
}

#[test]
fn lda_zero_page_x_wraps_in_zero_page() {
    let (mut cpu, mut mem) = boot();
    cpu.x = 0x01;
    mem.write(0xFFFC, 0xB5);
    mem.write(0xFFFD, 0xFF);
    mem.write(0x0000, 0x55);
    mem.write(0x0100, 0xAA);
    let (left, _) = cpu.execute(4, &mut mem);
    assert_eq!(cpu.a, 0x55);
    assert_eq!(left, 0);
}

#[test]
fn lda_absolute() {
    let (mut cpu, mut mem) = boot();
    mem.write(0xFFFC, 0xAD);
    mem.write(0xFFFD, 0x34);
    mem.write(0xFFFE, 0x12);
    mem.write(0x1234, 0x0F);
    let (left, _) = cpu.execute(4, &mut mem);
    assert_eq!(cpu.a, 0x0F);
    assert_eq!(left, 0);
}

#[test]
fn lda_absolute_x() {
    let (mut cpu, mut mem) = boot();
    cpu.x = 0x10;
    mem.write(0xFFFC, 0xBD);
    mem.write(0xFFFD, 0x00);
    mem.write(0xFFFE, 0x20);
    mem.write(0x2010, 0x01);
    let (left, _) = cpu.execute(4, &mut mem);
    assert_eq!(cpu.a, 0x01);
    assert_eq!(left, 0);
}

#[test]
fn lda_absolute_y() {
    let (mut cpu, mut mem) = boot();
    cpu.y = 0x0A;
    mem.write(0xFFFC, 0xB9);
    mem.write(0xFFFD, 0x00);
    mem.write(0xFFFE, 0x30);
    mem.write(0x300A, 0x2C);
    let (left, _) = cpu.execute(4, &mut mem);
    assert_eq!(cpu.a, 0x2C);
    assert_eq!(left, 0);
}

#[test]
fn lda_indirect_x() {
    let (mut cpu, mut mem) = boot();
    cpu.x = 0x04;
    mem.write(0xFFFC, 0xA1);
    mem.write(0xFFFD, 0x20);
    mem.write(0x0024, 0x74);
    mem.write(0x0025, 0x20);
    mem.write(0x2074, 0x42);
    let (left, _) = cpu.execute(6, &mut mem);
    assert_eq!(cpu.a, 0x42);
    assert_eq!(left, 0);
}

#[test]
fn lda_indirect_x_wraps_in_zero_page() {
    let (mut cpu, mut mem) = boot();
    cpu.x = 0x10;
    mem.write(0xFFFC, 0xA1);
    mem.write(0xFFFD, 0xF2);
    mem.write(0x0002, 0x08);
    mem.write(0x0003, 0x40);
    mem.write(0x4008, 0x66);
    let (left, _) = cpu.execute(6, &mut mem);
    assert_eq!(cpu.a, 0x66);
    assert_eq!(left, 0);
}

#[test]
fn lda_indirect_y() {
    let (mut cpu, mut mem) = boot();
    cpu.y = 0x10;
    mem.write(0xFFFC, 0xB1);
    mem.write(0xFFFD, 0x86);
    mem.write(0x0086, 0x28);
    mem.write(0x0087, 0x40);
    mem.write(0x4038, 0x5A);
    let (left, _) = cpu.execute(5, &mut mem);
    assert_eq!(cpu.a, 0x5A);
    assert_eq!(left, 0);
}

#[test]
fn lda_negative_flag_tracks_bit_seven() {
    let (mut cpu, mut mem) = boot();
    mem.write(0xFFFC, 0xA9);
    mem.write(0xFFFD, 0x80);
    cpu.execute(2, &mut mem);
    assert!(cpu.flags.negative);
    assert!(!cpu.flags.zero);

    let (mut cpu, mut mem) = boot();
    mem.write(0xFFFC, 0xA9);
    mem.write(0xFFFD, 0x7F);
    cpu.execute(2, &mut mem);
    assert!(!cpu.flags.negative);
    assert!(!cpu.flags.zero);
}

#[test]
fn lda_touches_no_other_flags() {
    let (mut cpu, mut mem) = boot();
    cpu.flags.carry = true;
    cpu.flags.decimal = true;
    cpu.flags.overflow = true;
    mem.write(0xFFFC, 0xA9);
    mem.write(0xFFFD, 0x01);
    cpu.execute(2, &mut mem);
    assert!(cpu.flags.carry);
    assert!(cpu.flags.decimal);
    assert!(cpu.flags.overflow);
    assert!(!cpu.flags.interrupt_disable);
    assert!(!cpu.flags.brk);
    assert!(!cpu.flags.unused);
}
