use vstd::prelude::*;

use crate::machine::{
    draw_collides, drw_spec, fetch_spec, initial_spec, key_pressed, lemma_toggle, lowest_pressed,
    sprite_covers, step_spec, wrap16, FLAG, LIT, MachineState, NUM_KEYS, VIDEO_BUFFER_HEIGHT,
    VIDEO_BUFFER_SIZE, VIDEO_BUFFER_WIDTH,
};
use crate::memory::{
    glyph_table, lemma_loaded_layout, FONTSET_SIZE, FONT_ADDR, MAX_ROM_SIZE, PROG_ADDR,
};
use crate::opcode::{decode_spec, lemma_decode_fields, AddressMode, Instruction, OpCode};

verus! {

/// The state right after loading a program is well formed, holds the glyph
/// table intact at `FONT_ADDR`, and starts at `PROG_ADDR`.
pub proof fn lemma_initial_state(rom: Seq<u8>)
    requires
        rom.len() <= MAX_ROM_SIZE,
    ensures
        initial_spec(rom).wf(),
        initial_spec(rom).memory.subrange(FONT_ADDR as int, FONT_ADDR + FONTSET_SIZE)
            == glyph_table(),
        initial_spec(rom).pc == PROG_ADDR,
{
    lemma_loaded_layout(rom);
}

/// Drawing the same sprite twice at the same place restores the display:
/// each cell under a set pixel is toggled twice, every other cell is left
/// alone. (The coordinates stay the same when neither is read from `VF`,
/// which the drawing overwrites.)
pub proof fn lemma_draw_twice_restores(s: MachineState, x: usize, y: usize, n: u8)
    requires
        s.wf(),
        x < FLAG,
        y < FLAG,
        n < 16,
    ensures
        ({
            let m = AddressMode::VxVyN { x, y, nibble: n };
            drw_spec(drw_spec(s, m)->Ok_0, m)->Ok_0.display == s.display
        }),
{
    let m = AddressMode::VxVyN { x, y, nibble: n };
    let s1 = drw_spec(s, m)->Ok_0;
    let s2 = drw_spec(s1, m)->Ok_0;
    assert forall|i: int| 0 <= i < VIDEO_BUFFER_SIZE implies s2.display[i] == s.display[i] by {
        lemma_toggle(s.display[i]);
    };
    assert(s2.display =~= s.display);
}

/// Drawing a sprite a second time at the same place reports a collision
/// whenever one of its set pixels fell on an unlit cell the first time: the
/// first drawing lit that cell and the second turns it off.
pub proof fn lemma_draw_twice_collides(s: MachineState, x: usize, y: usize, n: u8)
    requires
        s.wf(),
        x < FLAG,
        y < FLAG,
        n < 16,
        exists|i: int|
            0 <= i < VIDEO_BUFFER_SIZE && sprite_covers(
                s,
                s.registers[x as int] as int % (VIDEO_BUFFER_WIDTH as int),
                s.registers[y as int] as int % (VIDEO_BUFFER_HEIGHT as int),
                n as int,
                i,
            ) && s.display[i] == 0,
    ensures
        ({
            let m = AddressMode::VxVyN { x, y, nibble: n };
            drw_spec(drw_spec(s, m)->Ok_0, m)->Ok_0.registers[FLAG as int] == 1
        }),
{
    let m = AddressMode::VxVyN { x, y, nibble: n };
    let s1 = drw_spec(s, m)->Ok_0;
    let xp = s.registers[x as int] as int % (VIDEO_BUFFER_WIDTH as int);
    let yp = s.registers[y as int] as int % (VIDEO_BUFFER_HEIGHT as int);
    let i = choose|i: int|
        0 <= i < VIDEO_BUFFER_SIZE && sprite_covers(s, xp, yp, n as int, i) && s.display[i] == 0;
    lemma_toggle(s.display[i]);
    assert(sprite_covers(s1, xp, yp, n as int, i));
    assert(s1.display[i] == LIT);
    assert(draw_collides(s1, xp, yp, n as int));
}

/// Whether `op` is one of the skip instructions.
pub open spec fn is_skip(op: OpCode) -> bool {
    op.instr == Instruction::SE || op.instr == Instruction::SNE || op.instr == Instruction::SKP
        || op.instr == Instruction::SKNP
}

/// The condition under which the skip instruction `op` skips, in state `s`.
pub open spec fn skip_condition(s: MachineState, op: OpCode) -> bool {
    match (op.instr, op.address_mode) {
        (Instruction::SE, AddressMode::VxByte { x, byte }) => s.registers[x as int] == byte,
        (Instruction::SE, AddressMode::VxVy { x, y }) => s.registers[x as int]
            == s.registers[y as int],
        (Instruction::SNE, AddressMode::VxByte { x, byte }) => s.registers[x as int] != byte,
        (Instruction::SNE, AddressMode::VxVy { x, y }) => s.registers[x as int]
            != s.registers[y as int],
        (Instruction::SKP, AddressMode::Vx { x }) => key_pressed(
            s.keypad,
            s.registers[x as int] as int,
        ),
        (Instruction::SKNP, AddressMode::Vx { x }) => !key_pressed(
            s.keypad,
            s.registers[x as int] as int,
        ),
        _ => false,
    }
}

/// A step that runs a skip instruction succeeds and moves the program
/// counter 4 bytes on when the condition holds, 2 when it does not.
pub proof fn lemma_skip_advance(s: MachineState, random: u8)
    requires
        s.wf(),
        is_skip(decode_spec(fetch_spec(s))),
    ensures
        step_spec(s, random).1 is Ok,
        step_spec(s, random).0.pc == wrap16(
            s.pc + if skip_condition(s, decode_spec(fetch_spec(s))) {
                4int
            } else {
                2int
            },
        ),
{
    lemma_decode_fields(fetch_spec(s));
}

/// A step that runs "wait for a key, store it in `Vx`" leaves the program
/// counter where it was while no key is pressed, so that the same
/// instruction runs again; once a key is pressed it stores the lowest
/// pressed key in `Vx` and moves on by 2.
pub proof fn lemma_wait_for_key(s: MachineState, x: usize, random: u8)
    requires
        s.wf(),
        decode_spec(fetch_spec(s)) == (OpCode {
            instr: Instruction::LD,
            address_mode: AddressMode::VxKey { x },
        }),
    ensures
        step_spec(s, random).1 is Ok,
        (forall|k: int| 0 <= k < NUM_KEYS ==> !key_pressed(s.keypad, k)) ==> step_spec(
            s,
            random,
        ).0.pc == s.pc,
        forall|k: int|
            lowest_pressed(s.keypad, k) ==> step_spec(s, random).0.registers[x as int] == k
                && step_spec(s, random).0.pc == wrap16(s.pc + 2),
{
    lemma_decode_fields(fetch_spec(s));
    assert forall|k: int| lowest_pressed(s.keypad, k) implies step_spec(s, random).0.registers[x
        as int] == k by {
        let j = choose|j: int| lowest_pressed(s.keypad, j);
        if j < k {
            assert(!key_pressed(s.keypad, j));
        } else if j > k {
            assert(!key_pressed(s.keypad, k));
        }
    };
}

} // verus!
