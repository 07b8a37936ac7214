use lib::cartridge::{find_header, RomReader};
use lib::mmu::{fill, GameBoyMem, MemoryBus};
use lib::ppu::{words_from_probe, FrameBuffer, PPU, SCREEN_PIXELS};

#[test]
fn flat_memory_reads_back_writes() {
    let mut mem = GameBoyMem::new();
    assert_eq!(mem.read(0x1234), 0);
    mem.write(0x0001, 0x11);
    mem.write(0x8000, 0x22);
    mem.write(0xFFFF, 0x33);
    assert_eq!(mem.read(0x0001), 0x11);
    assert_eq!(mem.read(0x8000), 0x22);
    assert_eq!(mem.read(0xFFFF), 0x33);
    assert_eq!(mem.rom[1], 0x11);
    assert_eq!(mem.ram[0], 0x22);
}

#[test]
fn fill_writes_exactly_the_range() {
    let mut mem = GameBoyMem::new();
    fill(&mut mem, 0x7FFE, 0xAA, 4);
    assert_eq!(mem.read(0x7FFD), 0x00);
    assert_eq!(mem.read(0x7FFE), 0xAA);
    assert_eq!(mem.read(0x8001), 0xAA);
    assert_eq!(mem.read(0x8002), 0x00);
    fill(&mut mem, 0xFFFF, 0x01, 1);
    assert_eq!(mem.read(0xFFFF), 0x01);
    fill(&mut mem, 0x0000, 0x05, 0);
    assert_eq!(mem.read(0x0000), 0x00);
}

#[test]
fn display_bytes_shows_the_first_sixteen_bytes() {
    let mut mem = GameBoyMem::new();
    mem.write(0, 0xAB);
    mem.write(1, 0x05);
    mem.write(15, 0xF0);
    mem.write(16, 0x77);
    let text = String::from_utf8(mem.display_bytes()).unwrap();
    assert_eq!(text, "AB 05 00 00 00 00 00 00 00 00 00 00 00 00 00 F0 ");
}

#[test]
fn rom_reader_reads_bytes_in_order() {
    let data = [1u8, 2, 3];
    let mut reader = RomReader::new(&data);
    assert_eq!(reader.read_byte(), Some(1));
    assert_eq!(reader.read_byte(), Some(2));
    assert_eq!(reader.read_byte(), Some(3));
    assert_eq!(reader.read_byte(), None);
    assert_eq!(reader.read_byte(), None);
}

#[test]
fn rom_reader_reads_slices() {
    let data = [1u8, 2, 3, 4, 5];
    let mut reader = RomReader::new(&data);
    assert_eq!(reader.read_slice(2), Some(&data[0..2]));
    assert_eq!(reader.read_slice(4), None);
    assert_eq!(reader.read_byte(), Some(3));
    assert_eq!(reader.read_slice(2), Some(&data[3..5]));
    assert_eq!(reader.read_slice(0), Some(&data[5..5]));
    assert_eq!(reader.read_byte(), None);
}

#[test]
fn header_is_found_in_long_enough_images() {
    let mut rom = vec![0u8; 0x134];
    for (i, b) in rom.iter_mut().enumerate() {
        *b = (i % 251) as u8;
    }
    let header = find_header(&rom).unwrap();
    assert_eq!(header.len(), 0x30);
    assert_eq!(header[0], (0x104 % 251) as u8);
    assert_eq!(header, &rom[0x104..0x134]);
    assert_eq!(find_header(&rom[..0x133]), None);
}

#[test]
fn new_ppu_frame_is_black() {
    let ppu = PPU::new();
    assert_eq!(ppu.framebuffer.len() as u32, SCREEN_PIXELS);
    assert!(ppu.framebuffer.iter().all(|&p| p == 0));
}

#[test]
fn palette_is_applied_pixel_by_pixel() {
    let mut ppu = PPU::new();
    ppu.framebuffer[5] = 9;
    ppu.apply_palette(&[0, 1, 2, 3], |p| p as u32 * 0x0011_1111);
    assert_eq!(&ppu.framebuffer[0..4], &[0, 0x0011_1111, 0x0022_2222, 0x0033_3333]);
    assert_eq!(ppu.framebuffer[5], 9);
    let raw = vec![1u8; SCREEN_PIXELS as usize + 10];
    ppu.apply_palette(&raw, |p| p as u32 + 1);
    assert!(ppu.framebuffer.iter().all(|&p| p == 2));
}

#[test]
fn frame_buffer_pixels_become_words() {
    let mut fb = FrameBuffer::new();
    fb.set_pixel(1, 0, 0x01, 0x02, 0x03);
    fb.set_pixel(159, 143, 0x10, 0x20, 0x30);
    let words = fb.as_u32_slice();
    assert_eq!(words.len(), 160 * 144);
    assert_eq!(words[0], 0);
    assert!(words[1] == 0xFF03_0201 || words[1] == 0x0102_03FF);
    assert_eq!(words[1], u32::from_ne_bytes([0x01, 0x02, 0x03, 0xFF]));
    assert_eq!(words[160 * 144 - 1], u32::from_ne_bytes([0x10, 0x20, 0x30, 0xFF]));
    assert_eq!(words[2], u32::from_ne_bytes([0x00, 0x00, 0x00, 0x00]));
    let little = words[1] == 0xFF03_0201;
    assert_eq!(little, words[160 * 144 - 1] == 0xFF30_2010);
}

#[test]
fn rom_reader_slice_has_the_requested_length() {
    let data = [9u8; 10];
    let mut reader = RomReader::new(&data);
    assert_eq!(reader.read_slice(7).map(|s| s.len()), Some(7));
    assert_eq!(reader.read_slice(3).map(|s| s.len()), Some(3));
    assert_eq!(reader.read_slice(1), None);
}

#[test]
fn words_follow_the_probed_byte_order() {
    let mut bytes = [0u8; 92160];
    bytes[4] = 0x01;
    bytes[5] = 0x02;
    bytes[6] = 0x03;
    bytes[7] = 0x04;
    let little = words_from_probe(&bytes, 1);
    assert_eq!(little.len(), 23040);
    assert_eq!(little[1], 0x0403_0201);
    assert_eq!(little[0], 0);
    let big = words_from_probe(&bytes, 0x0100_0000);
    assert_eq!(big.len(), 23040);
    assert_eq!(big[1], 0x0102_0304);
}
