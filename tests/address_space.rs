use keet_8::{load_font, Emulator, Keet8Error, Memory, FONT_ADDR, MAX_ROM_SIZE, MEMORY_SIZE, PROG_ADDR};

const GLYPHS: [u8; 80] = [
    0xF0, 0x90, 0x90, 0x90, 0xF0, 0x20, 0x60, 0x20, 0x20, 0x70, 0xF0, 0x10, 0xF0, 0x80, 0xF0,
    0xF0, 0x10, 0xF0, 0x10, 0xF0, 0x90, 0x90, 0xF0, 0x10, 0x10, 0xF0, 0x80, 0xF0, 0x10, 0xF0,
    0xF0, 0x80, 0xF0, 0x90, 0xF0, 0xF0, 0x10, 0x20, 0x40, 0x40, 0xF0, 0x90, 0xF0, 0x90, 0xF0,
    0xF0, 0x90, 0xF0, 0x10, 0xF0, 0xF0, 0x90, 0xF0, 0x90, 0x90, 0xE0, 0x90, 0xE0, 0x90, 0xE0,
    0xF0, 0x80, 0x80, 0x80, 0xF0, 0xE0, 0x90, 0x90, 0x90, 0xE0, 0xF0, 0x80, 0xF0, 0x80, 0xF0,
    0xF0, 0x80, 0xF0, 0x80, 0x80,
];

#[test]
fn empty_rom_keeps_glyph_table_and_starts_at_program() {
    let emu = Emulator::new(&[]).unwrap();
    for (i, g) in GLYPHS.iter().enumerate() {
        assert_eq!(emu.memory_at(0x0050 + i as u16), *g);
    }
    assert_eq!(emu.memory_at(0x004F), 0);
    assert_eq!(emu.memory_at(0x00A0), 0);
    assert_eq!(emu.program_counter(), 0x0200);
    assert_eq!(emu.index(), 0);
    assert_eq!(emu.stack_depth(), 0);
    assert!(emu.display().iter().all(|c| *c == 0));
}

#[test]
fn rom_is_copied_at_program_start() {
    let mem = Memory::new(&[0x12, 0x34, 0x56]).unwrap();
    assert_eq!(mem.read(PROG_ADDR), 0x12);
    assert_eq!(mem.read(PROG_ADDR + 1), 0x34);
    assert_eq!(mem.read(PROG_ADDR + 2), 0x56);
    assert_eq!(mem.read(PROG_ADDR + 3), 0);
    assert_eq!(mem.read(FONT_ADDR), 0xF0);
}

#[test]
fn addresses_are_masked_to_twelve_bits() {
    let mut mem = Memory::new(&[0xAB]).unwrap();
    assert_eq!(mem.read(0x1200), 0xAB);
    assert_eq!(mem.read(0xF050), 0xF0);
    mem.write(0xFFFF, 0x77);
    assert_eq!(mem.read(0x0FFF), 0x77);
}

#[test]
fn largest_rom_fits_and_larger_is_refused() {
    let rom = vec![0x11u8; MAX_ROM_SIZE];
    let mem = Memory::new(&rom).unwrap();
    assert_eq!(mem.read(0x0FFF), 0x11);
    assert_eq!(mem.read(0x01FF), 0);
    let too_big = vec![0u8; MAX_ROM_SIZE + 1];
    assert!(matches!(Memory::new(&too_big), Err(Keet8Error::ROMTooLarge(3585))));
    assert!(matches!(Emulator::new(&too_big), Err(Keet8Error::ROMTooLarge(3585))));
}

#[test]
fn load_font_writes_only_the_glyph_table() {
    let mut buffer = vec![0x33u8; MEMORY_SIZE];
    load_font(&mut buffer);
    assert_eq!(&buffer[0x50..0xA0], &GLYPHS[..]);
    assert_eq!(buffer[0x4F], 0x33);
    assert_eq!(buffer[0xA0], 0x33);
}
