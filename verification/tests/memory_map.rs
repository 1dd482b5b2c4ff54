use retro6502::apple_string::AppleIIeString;
use retro6502::display::{Display, DISPLAY_HEIGHT, DISPLAY_WIDTH};
use retro6502::machine::{AppleIIe, Machine};
use retro6502::memory::{Endian, Memory, MemoryManager, Region};
use retro6502::ram::RAM;
use retro6502::rom::ROM;
use retro6502::vram::VRAM;

fn ram_manager() -> MemoryManager {
    let mut mm = MemoryManager::new(0xFFFF);
    mm.map(0, Region::Ram(RAM::new(0x10000, Endian::Little)));
    mm
}

#[test]
fn ram_write_reads_back() {
    let mut mm = ram_manager();
    mm.write(0x1234, 0xAB);
    assert_eq!(mm.read(0x1234), 0xAB);
    assert_eq!(mm.read(0x1235), 0x00);
}

#[test]
fn rom_write_is_ignored() {
    let mut mm = MemoryManager::new(0xFFFF);
    mm.map(0x1000, Region::Rom(ROM::new(4, Endian::Little, vec![0x11, 0x22, 0x33, 0x44])));
    assert_eq!(mm.read(0x1001), 0x22);
    mm.write(0x1001, 0xFF);
    assert_eq!(mm.read(0x1001), 0x22);
}

#[test]
fn rom_read_past_image_yields_zero() {
    let rom = ROM::new(0x800, Endian::Little, vec![0x11]);
    assert_eq!(rom.read(0), 0x11);
    assert_eq!(rom.read(5), 0x00);
}

#[test]
fn later_mapping_shadows_earlier() {
    let mut mm = ram_manager();
    mm.write(0x2000, 0x55);
    mm.map(0x2000, Region::Rom(ROM::new(2, Endian::Little, vec![0xAA, 0xBB])));
    // the ROM mapped last answers reads at the overlap
    assert_eq!(mm.read(0x2000), 0xAA);
    assert_eq!(mm.read(0x2001), 0xBB);
    // past the ROM window the RAM shows through again
    assert_eq!(mm.read(0x2002), 0x00);
    // and a shadowed write cannot reach the RAM below
    mm.write(0x2000, 0x77);
    assert_eq!(mm.read(0x2000), 0xAA);
}

#[test]
fn unmapped_access_is_harmless() {
    let mut mm = MemoryManager::new(0xFFFF);
    mm.map(0x100, Region::Ram(RAM::new(0x100, Endian::Little)));
    assert_eq!(mm.read(0x50), 0);
    mm.write(0x50, 0xFF);
    assert_eq!(mm.read(0x50), 0);
}

#[test]
fn word_round_trip_on_ram() {
    let mut mm = ram_manager();
    mm.write_word(0x10, 0xBEEF);
    assert_eq!(mm.read_word(0x10), 0xBEEF);
    // little-endian: low byte at the lower address
    assert_eq!(mm.read(0x10), 0xEF);
    assert_eq!(mm.read(0x11), 0xBE);
}

#[test]
fn word_round_trip_big_endian_ram() {
    let mut ram = RAM::new(0x100, Endian::Big);
    ram.write_word(0x10, 0xBEEF);
    assert_eq!(ram.read_word(0x10), 0xBEEF);
    assert_eq!(ram.read(0x10), 0xBE);
    assert_eq!(ram.read(0x11), 0xEF);
}

#[test]
fn zero_page_word_wraps_high_byte() {
    let mut mm = ram_manager();
    mm.write(0xFF, 0xEF);
    mm.write(0x00, 0xBE);
    assert_eq!(mm.read_word_zero(0xFF), 0xBEEF);
}

#[test]
fn vram_word_write_decomposes_per_endianness() {
    let mut v = VRAM::new(0x10, Endian::Little);
    v.write_word(2, 0xBEEF);
    assert_eq!(v.take_events(), vec![(2usize, 0xEFu8), (3usize, 0xBEu8)]);
    let mut vb = VRAM::new(0x10, Endian::Big);
    vb.write_word(2, 0xBEEF);
    assert_eq!(vb.take_events(), vec![(2usize, 0xBEu8), (3usize, 0xEFu8)]);
}

#[test]
fn zero_page_word_write_wraps_high_byte() {
    let mut mm = ram_manager();
    mm.write_word_zero(0xFF, 0xBEEF);
    assert_eq!(mm.read(0xFF), 0xEF);
    assert_eq!(mm.read(0x00), 0xBE);
}

#[test]
fn ram_load_bytes_places_program() {
    let mut ram = RAM::new(0x100, Endian::Little);
    ram.load_bytes(0x10, &[1, 2, 3]);
    assert_eq!(ram.read(0x10), 1);
    assert_eq!(ram.read(0x12), 3);
    assert_eq!(ram.read(0x13), 0);
    assert_eq!(ram.get_raw()[0x11], 2);
}

#[test]
fn vram_records_writes_as_events() {
    let mut v = VRAM::new(0x400, Endian::Little);
    v.write(3, 0xC1);
    v.write(4, 0xC2);
    assert_eq!(v.read(3), 0);
    let events = v.take_events();
    assert_eq!(events, vec![(3usize, 0xC1u8), (4usize, 0xC2u8)]);
    let later = v.take_events();
    assert!(later.is_empty());
}

#[test]
fn machine_routes_vram_writes_to_display() {
    let mut m = AppleIIe::new(vec![], vec![], vec![], vec![]);
    m.write(0x0400, 0xC1);
    m.write(0x0450, 0xC2);
    // video memory reads as zero; the bytes went to the display queue
    assert_eq!(m.read(0x0400), 0);
    let events = m.take_display_events();
    assert_eq!(events, vec![(0usize, 0xC1u8), (0x50usize, 0xC2u8)]);
}

#[test]
fn machine_roms_shadow_ram() {
    let mut m = AppleIIe::new(vec![0x12, 0x34], vec![], vec![], vec![0x99]);
    assert_eq!(m.read(0xF800), 0x12);
    assert_eq!(m.read(0xF801), 0x34);
    assert_eq!(m.read(0xE000), 0x99);
    m.write(0xF800, 0xFF);
    assert_eq!(m.read(0xF800), 0x12);
    // below and past the images the RAM shows through
    m.write(0xF7FF, 0x55);
    assert_eq!(m.read(0xF7FF), 0x55);
    m.write(0xF802, 0x66);
    assert_eq!(m.read(0xF802), 0x66);
}

#[test]
fn machine_runs_a_program() {
    let mut m = AppleIIe::new(vec![], vec![], vec![], vec![]);
    // LDA #$2A / STA $2000 at address 0; the reset vector reads 0
    m.write(0x0000, 0xA9);
    m.write(0x0001, 0x2A);
    m.write(0x0002, 0x8D);
    m.write(0x0003, 0x00);
    m.write(0x0004, 0x20);
    m.reset();
    m.step();
    m.step();
    assert_eq!(m.read(0x2000), 0x2A);
}

#[test]
fn machine_cycle_amortizes_one_instruction() {
    let mut m = AppleIIe::new(vec![], vec![], vec![], vec![]);
    m.write(0x0000, 0xA9);
    m.write(0x0001, 0x07);
    m.reset();
    // LDA immediate takes two ticks to retire
    m.cycle();
    m.cycle();
    assert_eq!(m.read(0x0000), 0xA9);
}

#[test]
fn apple_text_encodes_letters_and_symbols() {
    let s = AppleIIeString::from_str(String::from("HEllo 1!"));
    assert_eq!(s.string, "HEllo 1!");
    let encoded: Vec<u32> = s.a2string.chars().map(|c| c as u32).collect();
    // 'H' and 'E' move to the low block; the rest keep their codes
    assert_eq!(encoded, vec![0x08, 0x05, 0x6C, 0x6C, 0x6F, 0x20, 0x31, 0x21]);
}

#[test]
fn apple_text_brackets_and_filler() {
    let s = AppleIIeString::from_str(String::from("[\\]^_\u{00E9}"));
    let encoded: Vec<u32> = s.a2string.chars().map(|c| c as u32).collect();
    assert_eq!(encoded, vec![0x1B, 0x1C, 0x1D, 0x1E, 0x1F, 0x56]);
}

#[test]
fn apple_text_from_a2_keeps_encoding() {
    let s = AppleIIeString::from_a2(String::from("\u{8}\u{5}"));
    assert_eq!(s.string, "");
    assert_eq!(s.a2string, "\u{8}\u{5}");
}

#[test]
fn display_draws_a_glyph_row() {
    // character ROM: glyph 1 has its top row's low bit set
    let mut image = vec![0u8; 16];
    image[8] = 0x01;
    let d = Display::new(ROM::new(16, Endian::Little, image));
    let mut frame = vec![0u8; DISPLAY_WIDTH * DISPLAY_HEIGHT * 4];
    // text-page offset 0 is row 0, column 0
    d.write_text(&mut frame, 0, '\u{1}');
    // pixel (0,0) lit white
    assert_eq!(frame[0], 250);
    assert_eq!(frame[3], 0xFF);
    // pixel (1,0) painted black with full alpha
    assert_eq!(frame[4], 0);
    assert_eq!(frame[7], 0xFF);
}

#[test]
fn display_ignores_offsets_between_rows() {
    let d = Display::new(ROM::new(0, Endian::Little, vec![]));
    let mut frame = vec![0u8; DISPLAY_WIDTH * DISPLAY_HEIGHT * 4];
    // offsets past 0x78 within a 128-byte group fall between the rows
    d.write_text(&mut frame, 0x79, 'A');
    assert!(frame.iter().all(|&b| b == 0));
}

#[test]
fn manager_find_by_addr_reports_base() {
    let mut mm = MemoryManager::new(0xFFFF);
    mm.map(0x100, Region::Ram(RAM::new(0x100, Endian::Little)));
    let hit = mm.find_by_addr(0x180);
    assert!(hit.is_some());
    assert_eq!(hit.unwrap().base(), 0x100);
    assert!(mm.find_by_addr(0x50).is_none());
    assert!(mm.find_by_addr(0x200).is_none());
}

#[test]
fn manager_find_by_addr_mut_and_id() {
    let mut mm = MemoryManager::new(0xFFFF);
    mm.map(0, Region::Ram(RAM::new(0x100, Endian::Little)));
    assert!(mm.find_by_addr_mut(0x10).is_some());
    // every mapping carries identifier 0
    assert!(mm.find_by_id(0).is_some());
    assert!(mm.find_by_id(7).is_none());
}

#[test]
fn machine_memory_is_reachable() {
    let mut m = AppleIIe::new(vec![], vec![], vec![], vec![]);
    m.get_memory().write(0x3000, 0x42);
    assert_eq!(m.read(0x3000), 0x42);
}

#[test]
fn manager_size_and_validity() {
    let mut mm = MemoryManager::new(0xFFFF);
    assert_eq!(mm.size(), 0x10000);
    assert!(mm.is_valid(0xFFFF));
    assert!(!mm.is_valid(0x10000));
    mm.map(0, Region::Ram(RAM::new(0x10, Endian::Little)));
    assert_eq!(mm.size(), 0x10000);
}
