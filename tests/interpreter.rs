use keet_8::{Emulator, Keet8Error, FLAG};

fn boot(rom: &[u8]) -> Emulator {
    Emulator::new(rom).unwrap()
}

fn run(emu: &mut Emulator, steps: usize) {
    for _ in 0..steps {
        emu.step().unwrap();
    }
}

#[test]
fn add_registers_without_carry() {
    let mut emu = boot(&[0x60, 0x05, 0x61, 0x03, 0x80, 0x14]);
    run(&mut emu, 3);
    assert_eq!(emu.register(0), 8);
    assert_eq!(emu.register(FLAG), 0);
    assert_eq!(emu.program_counter(), 0x0206);
}

#[test]
fn add_registers_with_carry_wraps() {
    let mut emu = boot(&[0x60, 250, 0x61, 10, 0x80, 0x14]);
    run(&mut emu, 3);
    assert_eq!(emu.register(0), 4);
    assert_eq!(emu.register(FLAG), 1);
}

#[test]
fn sub_with_borrow_wraps() {
    let mut emu = boot(&[0x60, 3, 0x61, 5, 0x80, 0x15]);
    run(&mut emu, 3);
    assert_eq!(emu.register(FLAG), 0);
    assert_eq!(emu.register(0), 254);
}

#[test]
fn sub_without_borrow() {
    let mut emu = boot(&[0x60, 5, 0x61, 3, 0x80, 0x15]);
    run(&mut emu, 3);
    assert_eq!(emu.register(FLAG), 1);
    assert_eq!(emu.register(0), 2);
}

#[test]
fn subn_reverses_operands() {
    let mut emu = boot(&[0x60, 3, 0x61, 5, 0x80, 0x17]);
    run(&mut emu, 3);
    assert_eq!(emu.register(FLAG), 1);
    assert_eq!(emu.register(0), 2);
    let mut emu = boot(&[0x60, 5, 0x61, 3, 0x80, 0x17]);
    run(&mut emu, 3);
    assert_eq!(emu.register(FLAG), 0);
    assert_eq!(emu.register(0), 254);
}

#[test]
fn shr_moves_low_bit_into_flag() {
    let mut emu = boot(&[0x60, 0b0000_0011, 0x80, 0x06]);
    run(&mut emu, 2);
    assert_eq!(emu.register(FLAG), 1);
    assert_eq!(emu.register(0), 0b0000_0001);
}

#[test]
fn shl_moves_high_bit_into_flag() {
    let mut emu = boot(&[0x60, 0x81, 0x80, 0x0E]);
    run(&mut emu, 2);
    assert_eq!(emu.register(FLAG), 1);
    assert_eq!(emu.register(0), 0x02);
    let mut emu = boot(&[0x60, 0x41, 0x80, 0x0E]);
    run(&mut emu, 2);
    assert_eq!(emu.register(FLAG), 0);
    assert_eq!(emu.register(0), 0x82);
}

#[test]
fn bitwise_operations_leave_flag_alone() {
    let mut emu = boot(&[0x6F, 0x07, 0x60, 0x0C, 0x61, 0x0A, 0x80, 0x11, 0x82, 0x00, 0x82, 0x12, 0x83, 0x00, 0x83, 0x13]);
    run(&mut emu, 8);
    assert_eq!(emu.register(0), 0x0E);
    assert_eq!(emu.register(2), 0x0A & 0x0E);
    assert_eq!(emu.register(3), 0x0E ^ 0x0A);
    assert_eq!(emu.register(FLAG), 0x07);
}

#[test]
fn add_immediate_wraps_without_flag() {
    let mut emu = boot(&[0x6F, 0x09, 0x60, 0xFF, 0x70, 0x02]);
    run(&mut emu, 3);
    assert_eq!(emu.register(0), 1);
    assert_eq!(emu.register(FLAG), 9);
}

#[test]
fn draw_twice_restores_display_and_sets_flag() {
    // I = glyph of 0, V0 = 10, V1 = 4, draw 5 rows twice
    let mut emu = boot(&[0xA0, 0x50, 0x60, 10, 0x61, 4, 0xD0, 0x15, 0xD0, 0x15]);
    run(&mut emu, 4);
    assert_eq!(emu.register(FLAG), 0);
    assert!(emu.pixel(10, 4));
    assert!(emu.pixel(13, 4));
    assert!(!emu.pixel(14, 4));
    assert!(emu.pixel(10, 5));
    assert!(!emu.pixel(11, 5));
    assert_eq!(emu.display().iter().filter(|c| **c == 0xFF).count(), 14);
    run(&mut emu, 1);
    assert_eq!(emu.register(FLAG), 1);
    assert!(emu.display().iter().all(|c| *c == 0));
}

#[test]
fn sprite_wraps_around_display_edges() {
    // origin (62, 30): columns wrap to 0 and 1, rows to 0..2
    let mut emu = boot(&[0xA0, 0x50, 0x60, 62, 0x61, 30, 0xD0, 0x15]);
    run(&mut emu, 4);
    assert!(emu.pixel(62, 30));
    assert!(emu.pixel(63, 30));
    assert!(emu.pixel(0, 30));
    assert!(emu.pixel(1, 30));
    assert!(emu.pixel(62, 0));
    assert!(!emu.pixel(63, 0));
    assert!(emu.pixel(1, 0));
    assert!(emu.pixel(62, 2));
    assert!(emu.pixel(1, 2));
    assert_eq!(emu.register(FLAG), 0);
}

#[test]
fn origin_is_taken_modulo_display_size() {
    let mut emu = boot(&[0xA0, 0x50, 0x60, 64 + 3, 0x61, 32 + 2, 0xD0, 0x11]);
    run(&mut emu, 4);
    assert!(emu.pixel(3, 2));
    assert!(emu.pixel(6, 2));
    assert!(!emu.pixel(7, 2));
}

#[test]
fn clear_display_unlights_every_cell() {
    let mut emu = boot(&[0xA0, 0x50, 0xD0, 0x05, 0x00, 0xE0]);
    run(&mut emu, 2);
    assert!(emu.pixel(0, 0));
    run(&mut emu, 1);
    assert!(emu.display().iter().all(|c| *c == 0));
}

#[test]
fn skip_if_equal_advances_by_four_or_two() {
    let mut emu = boot(&[0x60, 5, 0x30, 5]);
    run(&mut emu, 2);
    assert_eq!(emu.program_counter(), 0x0206);
    let mut emu = boot(&[0x60, 4, 0x30, 5]);
    run(&mut emu, 2);
    assert_eq!(emu.program_counter(), 0x0204);
}

#[test]
fn skip_if_not_equal_advances_by_four_or_two() {
    let mut emu = boot(&[0x60, 5, 0x40, 5]);
    run(&mut emu, 2);
    assert_eq!(emu.program_counter(), 0x0204);
    let mut emu = boot(&[0x60, 4, 0x40, 5]);
    run(&mut emu, 2);
    assert_eq!(emu.program_counter(), 0x0206);
}

#[test]
fn register_skips_compare_two_registers() {
    let mut emu = boot(&[0x60, 7, 0x61, 7, 0x50, 0x10]);
    run(&mut emu, 3);
    assert_eq!(emu.program_counter(), 0x0208);
    let mut emu = boot(&[0x60, 7, 0x61, 7, 0x90, 0x10]);
    run(&mut emu, 3);
    assert_eq!(emu.program_counter(), 0x0206);
}

#[test]
fn key_skips_follow_keypad() {
    let mut emu = boot(&[0x60, 5, 0xE0, 0x91]);
    emu.set_key(5, 1);
    run(&mut emu, 2);
    assert_eq!(emu.program_counter(), 0x0206);
    let mut emu = boot(&[0x60, 5, 0xE0, 0x91]);
    run(&mut emu, 2);
    assert_eq!(emu.program_counter(), 0x0204);
    let mut emu = boot(&[0x60, 5, 0xE0, 0xA1]);
    run(&mut emu, 2);
    assert_eq!(emu.program_counter(), 0x0206);
    let mut emu = boot(&[0x60, 5, 0xE0, 0xA1]);
    emu.set_key(5, 1);
    run(&mut emu, 2);
    assert_eq!(emu.program_counter(), 0x0204);
}

#[test]
fn key_number_beyond_keypad_is_not_pressed() {
    let mut emu = boot(&[0x60, 0x20, 0xE0, 0x91]);
    emu.set_key(0, 1);
    run(&mut emu, 2);
    assert_eq!(emu.program_counter(), 0x0204);
}

#[test]
fn program_of_three_loads_and_add() {
    let mut emu = boot(&[0x60, 0x05, 0x61, 0x03, 0x80, 0x14]);
    run(&mut emu, 3);
    assert_eq!(emu.register(0), 8);
    assert_eq!(emu.register(FLAG), 0);
    assert_eq!(emu.program_counter(), 0x0206);
}

#[test]
fn call_then_return() {
    let mut emu = boot(&[0x22, 0x08, 0, 0, 0, 0, 0, 0, 0x00, 0xEE]);
    run(&mut emu, 1);
    assert_eq!(emu.program_counter(), 0x0208);
    assert_eq!(emu.stack_depth(), 1);
    run(&mut emu, 1);
    assert_eq!(emu.program_counter(), 0x0202);
    assert_eq!(emu.stack_depth(), 0);
}

#[test]
fn call_into_zeroed_memory_runs_no_ops() {
    // the return sits at 0x0206, so the call lands on zero words
    let mut emu = boot(&[0x22, 0x08, 0x00, 0x00, 0x00, 0x00, 0x00, 0xEE]);
    run(&mut emu, 2);
    assert_eq!(emu.program_counter(), 0x020A);
    assert_eq!(emu.stack_depth(), 1);
}

#[test]
fn wait_for_key_blocks_until_pressed() {
    let mut emu = boot(&[0xF0, 0x0A]);
    for _ in 0..5 {
        emu.step().unwrap();
        assert_eq!(emu.program_counter(), 0x0200);
    }
    emu.set_key(5, 1);
    emu.set_key(9, 1);
    emu.step().unwrap();
    assert_eq!(emu.register(0), 5);
    assert_eq!(emu.program_counter(), 0x0202);
}

#[test]
fn return_on_empty_stack_fails() {
    let mut emu = boot(&[0x00, 0xEE]);
    assert_eq!(emu.step(), Err(Keet8Error::CallStackEmpty));
    assert_eq!(emu.stack_depth(), 0);
}

#[test]
fn call_beyond_depth_fails() {
    // calls itself forever
    let mut emu = boot(&[0x22, 0x00]);
    run(&mut emu, 32);
    assert_eq!(emu.stack_depth(), 32);
    assert_eq!(emu.step(), Err(Keet8Error::CallStackFull));
    assert_eq!(emu.stack_depth(), 32);
}

#[test]
fn jumps_set_program_counter() {
    let mut emu = boot(&[0x12, 0x34]);
    run(&mut emu, 1);
    assert_eq!(emu.program_counter(), 0x0234);
    let mut emu = boot(&[0x60, 0x04, 0xB3, 0x00]);
    run(&mut emu, 2);
    assert_eq!(emu.program_counter(), 0x0304);
}

#[test]
fn timers_load_and_count_down() {
    let mut emu = boot(&[0x60, 5, 0xF0, 0x15, 0xF0, 0x18, 0xF1, 0x07]);
    run(&mut emu, 2);
    assert_eq!(emu.delay_timer(), 4);
    run(&mut emu, 1);
    assert_eq!(emu.delay_timer(), 3);
    assert_eq!(emu.sound_timer(), 4);
    run(&mut emu, 1);
    assert_eq!(emu.register(1), 3);
    assert_eq!(emu.delay_timer(), 2);
    assert_eq!(emu.sound_timer(), 3);
}

#[test]
fn timers_stop_at_zero() {
    let mut emu = boot(&[0x60, 1, 0xF0, 0x15]);
    run(&mut emu, 4);
    assert_eq!(emu.delay_timer(), 0);
    assert_eq!(emu.sound_timer(), 0);
}

#[test]
fn glyph_pointer_and_decimal_digits() {
    let mut emu = boot(&[0x60, 0x0A, 0xF0, 0x29]);
    run(&mut emu, 2);
    assert_eq!(emu.index(), 0x0050 + 5 * 10);
    let mut emu = boot(&[0x60, 254, 0xA3, 0x00, 0xF0, 0x33]);
    run(&mut emu, 3);
    assert_eq!(emu.memory_at(0x300), 2);
    assert_eq!(emu.memory_at(0x301), 5);
    assert_eq!(emu.memory_at(0x302), 4);
}

#[test]
fn register_dump_and_load_round_trip() {
    let mut emu = boot(&[
        0x60, 1, 0x61, 2, 0x62, 3, 0x63, 9, 0xA3, 0x00, 0xF2, 0x55, 0x60, 0, 0x61, 0, 0x62, 0,
        0xF2, 0x65,
    ]);
    run(&mut emu, 6);
    assert_eq!(emu.memory_at(0x300), 1);
    assert_eq!(emu.memory_at(0x301), 2);
    assert_eq!(emu.memory_at(0x302), 3);
    assert_eq!(emu.memory_at(0x303), 0);
    run(&mut emu, 3);
    assert_eq!(emu.register(0), 0);
    run(&mut emu, 1);
    assert_eq!(emu.register(0), 1);
    assert_eq!(emu.register(1), 2);
    assert_eq!(emu.register(2), 3);
    assert_eq!(emu.register(3), 9);
}

#[test]
fn index_add_is_not_masked_until_access() {
    let mut emu = boot(&[0xAF, 0xFF, 0x60, 0x10, 0xF0, 0x1E]);
    run(&mut emu, 3);
    assert_eq!(emu.index(), 0x100F);
}

#[test]
fn random_byte_is_masked() {
    let mut emu = boot(&[0xC0, 0x0F, 0xC1, 0x00]);
    assert_eq!(emu.step_with(0xAB), Ok(()));
    assert_eq!(emu.register(0), 0x0B);
    run(&mut emu, 1);
    assert_eq!(emu.register(1), 0);
}

#[test]
fn unknown_word_is_a_no_op() {
    let mut emu = boot(&[0x01, 0x23, 0xE0, 0x9E]);
    run(&mut emu, 2);
    assert_eq!(emu.program_counter(), 0x0204);
    assert!((0..16).all(|i| emu.register(i) == 0));
}
