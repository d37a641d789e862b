use mos6502::flags::Flags;
use mos6502::mem::Mem;

#[test]
fn write_word_is_little_endian() {
    let mut mem = Mem::new();
    mem.write_word(0x1234, 0x0010);
    assert_eq!(mem.read(0x0010), 0x34);
    assert_eq!(mem.read(0x0011), 0x12);
}

#[test]
fn read_word_is_little_endian() {
    let mut mem = Mem::new();
    mem.write(0x0200, 0xCD);
    mem.write(0x0201, 0xAB);
    assert_eq!(mem.read_word(0x0200), 0xABCD);
}

#[test]
fn word_round_trip() {
    let mut mem = Mem::new();
    mem.write_word(0xBEEF, 0x4000);
    assert_eq!(mem.read_word(0x4000), 0xBEEF);
}

#[test]
fn write_then_read_byte() {
    let mut mem = Mem::new();
    mem.write(0xFFFF, 0x7E);
    assert_eq!(mem.read(0xFFFF), 0x7E);
    assert_eq!(mem.read(0xFFFE), 0x00);
}

#[test]
fn memory_reset_zero_fills() {
    let mut mem = Mem::new();
    mem.write(0x1234, 0x56);
    mem.reset();
    assert_eq!(mem.read(0x1234), 0x00);
}

#[test]
fn status_byte_packs_flags_in_order() {
    let mut f = Flags::cleared();
    assert_eq!(f.status_byte(), 0x00);
    f.carry = true;
    assert_eq!(f.status_byte(), 0x01);
    f.carry = false;
    f.zero = true;
    assert_eq!(f.status_byte(), 0x02);
    f.zero = false;
    f.interrupt_disable = true;
    assert_eq!(f.status_byte(), 0x04);
    f.interrupt_disable = false;
    f.decimal = true;
    assert_eq!(f.status_byte(), 0x08);
    f.decimal = false;
    f.brk = true;
    assert_eq!(f.status_byte(), 0x10);
    f.brk = false;
    f.unused = true;
    assert_eq!(f.status_byte(), 0x20);
    f.unused = false;
    f.overflow = true;
    assert_eq!(f.status_byte(), 0x40);
    f.overflow = false;
    f.negative = true;
    assert_eq!(f.status_byte(), 0x80);
}

#[test]
fn status_byte_all_flags_set() {
    let f = Flags {
        carry: true,
        zero: true,
        interrupt_disable: true,
        decimal: true,
        brk: true,
        unused: true,
        overflow: true,
        negative: true,
    };
    assert_eq!(f.status_byte(), 0xFF);
}
