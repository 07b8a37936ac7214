use lib::bus::MemoryBus;
use lib::registers::Registers;

#[test]
fn new_registers_are_cleared() {
    let r = Registers::new();
    assert_eq!(r, Registers { a: 0, b: 0, c: 0, d: 0, e: 0, f: 0, h: 0, l: 0 });
}

#[test]
fn register_pairs_read_back_what_was_written() {
    let mut r = Registers::new();
    r.set_bc(0x1234);
    assert_eq!((r.b, r.c), (0x12, 0x34));
    assert_eq!(r.get_bc(), 0x1234);
    r.set_de(0xBEEF);
    assert_eq!((r.d, r.e), (0xBE, 0xEF));
    assert_eq!(r.get_de(), 0xBEEF);
    r.set_hl(0x00FF);
    assert_eq!((r.h, r.l), (0x00, 0xFF));
    assert_eq!(r.get_hl(), 0x00FF);
    assert_eq!(r.get_bc(), 0x1234);
}

#[test]
fn set_af_splits_the_word() {
    let mut r = Registers::new();
    r.set_af(0xA5F0);
    assert_eq!(r.a, 0xA5);
    assert_eq!(r.f, 0xF0);
    assert!(r.get_zero_flag() && r.get_subtract_flag() && r.get_half_carry_flag() && r.get_carry_flag());
}

#[test]
fn flags_set_one_bit_each() {
    let mut r = Registers::new();
    r.set_zero_flag(true);
    assert_eq!(r.f, 0x80);
    r.set_carry_flag(true);
    assert_eq!(r.f, 0x90);
    r.set_subtract_flag(true);
    assert_eq!(r.f, 0xD0);
    r.set_half_carry_flag(true);
    assert_eq!(r.f, 0xF0);
    r.set_zero_flag(false);
    assert_eq!(r.f, 0x70);
    assert!(!r.get_zero_flag());
    assert!(r.get_subtract_flag() && r.get_half_carry_flag() && r.get_carry_flag());
    r.set_subtract_flag(false);
    r.set_half_carry_flag(false);
    r.set_carry_flag(false);
    assert_eq!(r.f, 0x00);
}

#[test]
fn flag_setters_keep_the_low_bits() {
    let mut r = Registers::new();
    r.f = 0x0F;
    r.set_zero_flag(true);
    r.set_carry_flag(false);
    assert_eq!(r.f, 0x8F);
}

#[test]
fn new_bus_reads_zero_in_memories() {
    let bus = MemoryBus::new();
    assert_eq!(bus.read_byte(0x0000), 0);
    assert_eq!(bus.read_byte(0x7FFF), 0);
    assert_eq!(bus.read_byte(0xC000), 0);
    assert_eq!(bus.read_byte(0xFF80), 0);
    assert_eq!(bus.read_byte(0xFFFF), 0);
}

#[test]
fn unmapped_regions_read_fixed_values() {
    let bus = MemoryBus::new();
    assert_eq!(bus.read_byte(0x8000), 0xFF);
    assert_eq!(bus.read_byte(0xA000), 0xFF);
    assert_eq!(bus.read_byte(0xE000), 0xFF);
    assert_eq!(bus.read_byte(0xFE00), 0xFF);
    assert_eq!(bus.read_byte(0xFEA0), 0xFF);
    assert_eq!(bus.read_byte(0xFF00), 0xFF);
    assert_eq!(bus.read_byte(0xFF01), 0x00);
    assert_eq!(bus.read_byte(0xFF02), 0x00);
    assert_eq!(bus.read_byte(0xFF44), 0x90);
    assert_eq!(bus.read_byte(0xFF7F), 0xFF);
}

#[test]
fn writes_to_ram_are_read_back() {
    let mut bus = MemoryBus::new();
    assert_eq!(bus.write_byte(0xC000, 0x11), None);
    assert_eq!(bus.write_byte(0xDFFF, 0x22), None);
    assert_eq!(bus.write_byte(0xFF80, 0x33), None);
    assert_eq!(bus.write_byte(0xFFFE, 0x44), None);
    assert_eq!(bus.write_byte(0xFFFF, 0x55), None);
    assert_eq!(bus.read_byte(0xC000), 0x11);
    assert_eq!(bus.read_byte(0xDFFF), 0x22);
    assert_eq!(bus.read_byte(0xFF80), 0x33);
    assert_eq!(bus.read_byte(0xFFFE), 0x44);
    assert_eq!(bus.read_byte(0xFFFF), 0x55);
    assert_eq!(bus.wram[0], 0x11);
    assert_eq!(bus.hram[126], 0x44);
    assert_eq!(bus.ie_register, 0x55);
}

#[test]
fn writes_to_rom_and_unmapped_regions_are_dropped() {
    let mut bus = MemoryBus::new();
    bus.load_rom(&[7, 8, 9]);
    bus.write_byte(0x0001, 0xAA);
    bus.write_byte(0x8000, 0xAA);
    bus.write_byte(0xE000, 0xAA);
    bus.write_byte(0xFF44, 0xAA);
    assert_eq!(bus.read_byte(0x0001), 8);
    assert_eq!(bus.read_byte(0x8000), 0xFF);
    assert_eq!(bus.read_byte(0xE000), 0xFF);
    assert_eq!(bus.read_byte(0xC000), 0x00);
    assert_eq!(bus.read_byte(0xFF44), 0x90);
}

#[test]
fn serial_control_write_sends_the_data_register() {
    let mut bus = MemoryBus::new();
    assert_eq!(bus.write_byte(0xFF01, b'A'), None);
    assert_eq!(bus.write_byte(0xFF02, 0x81), Some(0x00));
    assert_eq!(bus.write_byte(0xFF02, 0x80), None);
}

#[test]
fn load_rom_copies_at_most_the_rom_window() {
    let mut bus = MemoryBus::new();
    let mut image = vec![0u8; 0x8001];
    image[0] = 0x31;
    image[0x7FFF] = 0x42;
    image[0x8000] = 0x99;
    bus.load_rom(&image);
    assert_eq!(bus.read_byte(0x0000), 0x31);
    assert_eq!(bus.read_byte(0x7FFF), 0x42);
    assert_eq!(bus.read_byte(0x8000), 0xFF);
    bus.load_rom(&[1, 2]);
    assert_eq!(bus.read_byte(0x0000), 1);
    assert_eq!(bus.read_byte(0x0001), 2);
    assert_eq!(bus.read_byte(0x7FFF), 0x42);
}

#[test]
fn zero_and_carry_flags_survive_other_writes() {
    let mut r = Registers::new();
    r.set_zero_flag(true);
    r.set_carry_flag(true);
    r.set_subtract_flag(true);
    r.set_half_carry_flag(false);
    r.set_bc(0xFFFF);
    r.set_de(0x0000);
    r.set_hl(0x1234);
    r.set_subtract_flag(false);
    assert!(r.get_zero_flag());
    assert!(r.get_carry_flag());
}
