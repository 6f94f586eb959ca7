use chip_8_emulator::memory::{IRegister, Memory, MemoryIterator, RomTooLarge, GLYPH_SIZE, MAX_ROM_SIZE, MEMORY_SIZE};

const GLYPHS: [[u8; 5]; 16] = [
    [0xF0, 0x90, 0x90, 0x90, 0xF0],
    [0x20, 0x60, 0x20, 0x20, 0x70],
    [0xF0, 0x10, 0xF0, 0x80, 0xF0],
    [0xF0, 0x10, 0xF0, 0x10, 0xF0],
    [0x90, 0x90, 0xF0, 0x10, 0x10],
    [0xF0, 0x80, 0xF0, 0x10, 0xF0],
    [0xF0, 0x80, 0xF0, 0x90, 0xF0],
    [0xF0, 0x10, 0x20, 0x40, 0x40],
    [0xF0, 0x90, 0xF0, 0x90, 0xF0],
    [0xF0, 0x90, 0xF0, 0x10, 0xF0],
    [0xF0, 0x90, 0xF0, 0x90, 0x90],
    [0xE0, 0x90, 0xE0, 0x90, 0xE0],
    [0xF0, 0x80, 0x80, 0x80, 0xF0],
    [0xE0, 0x90, 0x90, 0x90, 0xE0],
    [0xF0, 0x80, 0xF0, 0x80, 0xF0],
    [0xF0, 0x80, 0xF0, 0x80, 0x80],
];

#[test]
fn sizes_are_fixed() {
    assert_eq!(MEMORY_SIZE, 4096);
    assert_eq!(GLYPH_SIZE, 5);
    assert_eq!(MAX_ROM_SIZE, 3584);
    assert_eq!(Memory::INSTRUCTIONS_START_ADDRESS, 0x200);
    assert_eq!(Memory::DIGITS_FONTS_START_ADDRESS, 0);
    assert_eq!(Memory::DIGITS_FONTS.len(), 80);
}

#[test]
fn load_places_rom_at_program_start() {
    let memory = Memory::load_instructions(&[0x60, 0x05, 0x70, 0x03]).unwrap();
    assert_eq!(memory.get(0x200), Some(0x60));
    assert_eq!(memory.get(0x201), Some(0x05));
    assert_eq!(memory.get(0x202), Some(0x70));
    assert_eq!(memory.get(0x203), Some(0x03));
    assert_eq!(memory.get(0x204), Some(0));
    assert_eq!(memory.get(0x1FF), Some(0));
    assert_eq!(memory.get(0xFFF), Some(0));
}

#[test]
fn load_places_font_table_at_the_bottom() {
    let memory = Memory::load_instructions(&[0xAA; 16]).unwrap();
    for address in 0..80 {
        assert_eq!(memory.get(address), Some(Memory::DIGITS_FONTS[address]));
    }
    for address in 80..0x200 {
        assert_eq!(memory.get(address), Some(0));
    }
}

#[test]
fn load_of_empty_rom_leaves_program_area_zero() {
    let memory = Memory::load_instructions(&[]).unwrap();
    for address in 0x200..4096 {
        assert_eq!(memory.get(address), Some(0));
    }
}

#[test]
fn load_accepts_rom_that_fills_memory() {
    let rom = vec![0x5A; 3584];
    let memory = Memory::load_instructions(&rom).unwrap();
    assert_eq!(memory.get(0x200), Some(0x5A));
    assert_eq!(memory.get(0xFFF), Some(0x5A));
    assert_eq!(memory.get(79), Some(0x80));
}

#[test]
fn load_rejects_rom_one_byte_too_long() {
    let rom = vec![0u8; 3585];
    assert_eq!(Memory::load_instructions(&rom).err(), Some(RomTooLarge));
}

#[test]
fn load_rejects_rom_of_whole_memory_size() {
    let rom = vec![1u8; 4096];
    assert!(Memory::load_instructions(&rom).is_err());
}

#[test]
fn rom_too_large_has_a_message() {
    assert_eq!(RomTooLarge.message(), "Instructions are too large to fit in memory");
}

#[test]
fn get_outside_memory_is_none() {
    let memory = Memory::load_instructions(&[1, 2, 3]).unwrap();
    assert_eq!(memory.get(4095), Some(0));
    assert_eq!(memory.get(4096), None);
    assert_eq!(memory.get(usize::MAX), None);
}

#[test]
fn read_and_write_a_byte() {
    let mut memory = Memory::load_instructions(&[]).unwrap();
    memory.write(0x300, 0x42);
    assert_eq!(memory.read(0x300), 0x42);
    assert_eq!(memory.read(0x2FF), 0);
    assert_eq!(memory.read(0x301), 0);
    assert_eq!(memory.read(0), 0xF0);
}

#[test]
fn slice_gives_the_bytes_between_two_addresses() {
    let memory = Memory::load_instructions(&[9, 8, 7, 6]).unwrap();
    assert_eq!(memory.slice(0x201, 0x204), &[8, 7, 6]);
    assert_eq!(memory.slice(0x200, 0x200), &[] as &[u8]);
    assert_eq!(memory.slice(4096, 4096), &[] as &[u8]);
    assert_eq!(memory.slice(0, 5), &[0xF0, 0x90, 0x90, 0x90, 0xF0]);
}

#[test]
fn digit_address_is_five_times_the_digit() {
    for digit in 0..=15u8 {
        assert_eq!(Memory::get_digit_address(digit), 5 * digit as usize);
    }
}

#[test]
fn digit_address_wraps_modulo_fifteen_above_fifteen() {
    assert_eq!(Memory::get_digit_address(16), 5);
    assert_eq!(Memory::get_digit_address(17), 10);
    assert_eq!(Memory::get_digit_address(29), 70);
    assert_eq!(Memory::get_digit_address(30), 0);
    assert_eq!(Memory::get_digit_address(255), 0);
    assert_eq!(Memory::get_digit_address(254), 70);
}

#[test]
fn glyph_round_trip_for_every_digit() {
    let memory = Memory::load_instructions(&[0xFF; 100]).unwrap();
    for digit in 0..=15u8 {
        let start = Memory::get_digit_address(digit);
        assert_eq!(memory.slice(start, start + 5), &GLYPHS[digit as usize]);
    }
}

#[test]
fn i_register_starts_at_zero() {
    assert_eq!(IRegister::new().data, 0);
}

#[test]
fn memory_iterator_walks_the_slice_in_order() {
    let data = [10u8, 20, 30];
    let mut cursor = MemoryIterator { index: 0, data_slice: &data, max_index: 3 };
    assert_eq!(cursor.next(), Some(&10));
    assert_eq!(cursor.next(), Some(&20));
    assert_eq!(cursor.next(), Some(&30));
    assert_eq!(cursor.next(), None);
    assert_eq!(cursor.next(), None);
    assert_eq!(cursor.index, 3);
}

#[test]
fn memory_iterator_stops_at_max_index() {
    let data = [1u8, 2, 3, 4];
    let mut cursor = MemoryIterator { index: 1, data_slice: &data, max_index: 2 };
    assert_eq!(cursor.next(), Some(&2));
    assert_eq!(cursor.next(), None);
}
