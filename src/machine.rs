use vstd::prelude::*;

use crate::error::Keet8Error;
use crate::memory::{cell_of, loaded_spec, FONT_ADDR, MEMORY_SIZE, PROG_ADDR};
use crate::opcode::{decode_spec, AddressMode, Instruction, OpCode};
use crate::stack::STACK_SIZE;

verus! {

/// The number of general-purpose registers; the last one is the flag
/// register `VF`.
pub const NUM_REGISTERS: usize = 16;

/// The number of keys on the keypad.
pub const NUM_KEYS: usize = 16;

/// The width of the display in cells.
pub const VIDEO_BUFFER_WIDTH: usize = 64;

/// The height of the display in cells.
pub const VIDEO_BUFFER_HEIGHT: usize = 32;

/// The number of display cells, row after row.
pub const VIDEO_BUFFER_SIZE: usize = 2048;

/// The index of the flag register `VF`.
pub const FLAG: usize = 15;

/// The value of a lit display cell; an unlit one holds 0.
pub const LIT: u8 = 0xFF;

/// The whole state of the machine, as the contracts speak of it.
pub struct MachineState {
    /// `V0` to `VF`
    pub registers: Seq<u8>,
    /// The index register `I`
    pub idx: u16,
    /// The address of the next instruction
    pub pc: u16,
    /// The delay timer
    pub delay: u8,
    /// The sound timer
    pub sound: u8,
    /// Pending return addresses, oldest first
    pub stack: Seq<u16>,
    /// The address space
    pub memory: Seq<u8>,
    /// The display cells, row after row
    pub display: Seq<u8>,
    /// The key states; a key is pressed when its entry is not 0
    pub keypad: Seq<u8>,
}

impl MachineState {
    /// The sizes are the fixed ones, and every display cell is lit or unlit.
    pub open spec fn wf(&self) -> bool {
        &&& self.registers.len() == NUM_REGISTERS
        &&& self.stack.len() <= STACK_SIZE
        &&& self.memory.len() == MEMORY_SIZE
        &&& self.display.len() == VIDEO_BUFFER_SIZE
        &&& self.keypad.len() == NUM_KEYS
        &&& forall|i: int|
            0 <= i < VIDEO_BUFFER_SIZE ==> #[trigger] self.display[i] == 0 || self.display[i] == LIT
    }
}

/// `v` reduced to 16 bits, as the program counter and index register wrap.
pub open spec fn wrap16(v: int) -> u16 {
    (v % 0x10000) as u16
}

/// The machine right after loading `rom`: registers, timers, stack, display
/// and keys cleared, the program counter at `PROG_ADDR`.
pub open spec fn initial_spec(rom: Seq<u8>) -> MachineState {
    MachineState {
        registers: Seq::new(NUM_REGISTERS as nat, |i: int| 0u8),
        idx: 0,
        pc: PROG_ADDR,
        delay: 0,
        sound: 0,
        stack: Seq::empty(),
        memory: loaded_spec(rom),
        display: Seq::new(VIDEO_BUFFER_SIZE as nat, |i: int| 0u8),
        keypad: Seq::new(NUM_KEYS as nat, |i: int| 0u8),
    }
}

/// The error for operands that an instruction does not take.
pub open spec fn invalid(mode: AddressMode) -> Result<MachineState, Keet8Error> {
    Err(Keet8Error::InvalidAddressMode(mode))
}

/// `v` reduced to 8 bits, as register arithmetic wraps.
pub open spec fn wrap8(v: int) -> u8 {
    (v % 0x100) as u8
}

/// What an instruction does: `Ok` with the state after it, or the error it
/// fails with (leaving the state as it was).
pub open spec fn outcome(
    pre: MachineState,
    post: MachineState,
    r: Result<(), Keet8Error>,
    expected: Result<MachineState, Keet8Error>,
) -> bool {
    match expected {
        Ok(t) => r is Ok && post == t,
        Err(e) => r == Err::<(), Keet8Error>(e) && post == pre,
    }
}

/// `s` with register `x` set to `v`.
pub open spec fn set_reg(s: MachineState, x: int, v: u8) -> MachineState {
    MachineState { registers: s.registers.update(x, v), ..s }
}

/// `s` with the flag register set to `flag`, then register `x` to `v`.
pub open spec fn set_flag_reg(s: MachineState, x: int, flag: u8, v: u8) -> MachineState {
    MachineState { registers: s.registers.update(FLAG as int, flag).update(x, v), ..s }
}

/// `s` with the next instruction skipped.
pub open spec fn skip_next(s: MachineState) -> MachineState {
    MachineState { pc: wrap16(s.pc + 2), ..s }
}

/// `s` with the next instruction skipped when `cond` holds.
pub open spec fn skip_if(s: MachineState, cond: bool) -> MachineState {
    if cond {
        skip_next(s)
    } else {
        s
    }
}

/// Key `k` exists and is pressed.
pub open spec fn key_pressed(keypad: Seq<u8>, k: int) -> bool {
    0 <= k < NUM_KEYS && keypad[k] != 0
}

/// Key `k` is the lowest-numbered pressed key.
pub open spec fn lowest_pressed(keypad: Seq<u8>, k: int) -> bool {
    key_pressed(keypad, k) && forall|j: int| 0 <= j < k ==> !key_pressed(keypad, j)
}

/// Clear the display.
pub open spec fn cls_spec(s: MachineState) -> MachineState {
    MachineState { display: Seq::new(VIDEO_BUFFER_SIZE as nat, |i: int| 0u8), ..s }
}

/// Return: pop the call stack into the program counter.
pub open spec fn ret_spec(s: MachineState) -> Result<MachineState, Keet8Error> {
    if s.stack.len() == 0 {
        Err(Keet8Error::CallStackEmpty)
    } else {
        Ok(MachineState { pc: s.stack.last(), stack: s.stack.drop_last(), ..s })
    }
}

/// Jump to an address, or to an address plus `V0`.
pub open spec fn jp_spec(s: MachineState, mode: AddressMode) -> Result<MachineState, Keet8Error> {
    match mode {
        AddressMode::Addr { address } => Ok(MachineState { pc: address, ..s }),
        AddressMode::V0Addr { address } => Ok(
            MachineState { pc: (s.registers[0] + address) as u16, ..s },
        ),
        _ => invalid(mode),
    }
}

/// Call: push the program counter, then jump.
pub open spec fn call_spec(s: MachineState, mode: AddressMode) -> Result<MachineState, Keet8Error> {
    match mode {
        AddressMode::Addr { address } => if s.stack.len() == STACK_SIZE {
            Err(Keet8Error::CallStackFull)
        } else {
            Ok(MachineState { pc: address, stack: s.stack.push(s.pc), ..s })
        },
        _ => invalid(mode),
    }
}

/// Skip if a register equals a byte or another register.
pub open spec fn se_spec(s: MachineState, mode: AddressMode) -> Result<MachineState, Keet8Error> {
    match mode {
        AddressMode::VxByte { x, byte } => Ok(skip_if(s, s.registers[x as int] == byte)),
        AddressMode::VxVy { x, y } => Ok(
            skip_if(s, s.registers[x as int] == s.registers[y as int]),
        ),
        _ => invalid(mode),
    }
}

/// Skip if a register differs from a byte or another register.
pub open spec fn sne_spec(s: MachineState, mode: AddressMode) -> Result<MachineState, Keet8Error> {
    match mode {
        AddressMode::VxByte { x, byte } => Ok(skip_if(s, s.registers[x as int] != byte)),
        AddressMode::VxVy { x, y } => Ok(
            skip_if(s, s.registers[x as int] != s.registers[y as int]),
        ),
        _ => invalid(mode),
    }
}

/// Add a byte (wrapping, flag untouched), a register (wrapping, carry in
/// `VF`), or a register into the index register (wrapping at 16 bits).
pub open spec fn add_spec(s: MachineState, mode: AddressMode) -> Result<MachineState, Keet8Error> {
    match mode {
        AddressMode::VxByte { x, byte } => Ok(
            set_reg(s, x as int, wrap8(s.registers[x as int] + byte)),
        ),
        AddressMode::VxVy { x, y } => {
            let sum = s.registers[x as int] + s.registers[y as int];
            Ok(set_flag_reg(s, x as int, if sum > 0xFF { 1 } else { 0 }, wrap8(sum)))
        },
        AddressMode::IVx { x } => Ok(
            MachineState { idx: wrap16(s.idx + s.registers[x as int]), ..s },
        ),
        _ => invalid(mode),
    }
}

/// `Vx = Vx | Vy`.
pub open spec fn or_spec(s: MachineState, mode: AddressMode) -> Result<MachineState, Keet8Error> {
    match mode {
        AddressMode::VxVy { x, y } => Ok(
            set_reg(s, x as int, s.registers[x as int] | s.registers[y as int]),
        ),
        _ => invalid(mode),
    }
}

/// `Vx = Vx & Vy`.
pub open spec fn and_spec(s: MachineState, mode: AddressMode) -> Result<MachineState, Keet8Error> {
    match mode {
        AddressMode::VxVy { x, y } => Ok(
            set_reg(s, x as int, s.registers[x as int] & s.registers[y as int]),
        ),
        _ => invalid(mode),
    }
}

/// `Vx = Vx ^ Vy`.
pub open spec fn xor_spec(s: MachineState, mode: AddressMode) -> Result<MachineState, Keet8Error> {
    match mode {
        AddressMode::VxVy { x, y } => Ok(
            set_reg(s, x as int, s.registers[x as int] ^ s.registers[y as int]),
        ),
        _ => invalid(mode),
    }
}

/// `VF = Vx > Vy`, then `Vx = Vx - Vy` wrapping, both of the values before.
pub open spec fn sub_spec(s: MachineState, mode: AddressMode) -> Result<MachineState, Keet8Error> {
    match mode {
        AddressMode::VxVy { x, y } => {
            let (vx, vy) = (s.registers[x as int], s.registers[y as int]);
            Ok(set_flag_reg(s, x as int, if vx > vy { 1 } else { 0 }, wrap8(vx - vy)))
        },
        _ => invalid(mode),
    }
}

/// `VF = Vy > Vx`, then `Vx = Vy - Vx` wrapping, both of the values before.
pub open spec fn subn_spec(s: MachineState, mode: AddressMode) -> Result<MachineState, Keet8Error> {
    match mode {
        AddressMode::VxVy { x, y } => {
            let (vx, vy) = (s.registers[x as int], s.registers[y as int]);
            Ok(set_flag_reg(s, x as int, if vy > vx { 1 } else { 0 }, wrap8(vy - vx)))
        },
        _ => invalid(mode),
    }
}

/// `VF` = the lowest bit of `Vx`, then `Vx = Vx >> 1`.
pub open spec fn shr_spec(s: MachineState, mode: AddressMode) -> Result<MachineState, Keet8Error> {
    match mode {
        AddressMode::VxVy { x, .. } => {
            let vx = s.registers[x as int];
            Ok(set_flag_reg(s, x as int, vx & 1, vx >> 1u8))
        },
        _ => invalid(mode),
    }
}

/// `VF` = the highest bit of `Vx`, then `Vx = Vx << 1` truncated to 8 bits.
pub open spec fn shl_spec(s: MachineState, mode: AddressMode) -> Result<MachineState, Keet8Error> {
    match mode {
        AddressMode::VxVy { x, .. } => {
            let vx = s.registers[x as int];
            Ok(set_flag_reg(s, x as int, vx >> 7u8, vx << 1u8))
        },
        _ => invalid(mode),
    }
}

/// `Vx` = the drawn byte `random` masked by the immediate byte.
pub open spec fn rnd_spec(s: MachineState, mode: AddressMode, random: u8) -> Result<
    MachineState,
    Keet8Error,
> {
    match mode {
        AddressMode::VxByte { x, byte } => Ok(set_reg(s, x as int, random & byte)),
        _ => invalid(mode),
    }
}

/// Skip if the key numbered by `Vx` is pressed.
pub open spec fn skp_spec(s: MachineState, mode: AddressMode) -> Result<MachineState, Keet8Error> {
    match mode {
        AddressMode::Vx { x } => Ok(skip_if(s, key_pressed(s.keypad, s.registers[x as int] as int))),
        _ => invalid(mode),
    }
}

/// Skip if the key numbered by `Vx` is not pressed.
pub open spec fn sknp_spec(s: MachineState, mode: AddressMode) -> Result<MachineState, Keet8Error> {
    match mode {
        AddressMode::Vx { x } => Ok(skip_if(s, !key_pressed(s.keypad, s.registers[x as int] as int))),
        _ => invalid(mode),
    }
}

/// Memory with `Vx` split into decimal digits at `I`, `I + 1` and `I + 2`:
/// hundreds, tens, ones.
pub open spec fn bcd_memory(s: MachineState, v: u8) -> Seq<u8> {
    s.memory.update(cell_of(s.idx + 2), v % 10).update(cell_of(s.idx + 1), (v / 10) % 10).update(
        cell_of(s.idx as int),
        v / 100,
    )
}

/// The offset of address `a` past the index register, in the wrapped
/// address space.
pub open spec fn offset_from_index(s: MachineState, a: int) -> int {
    (a - s.idx) % (MEMORY_SIZE as int)
}

/// Memory with `V0..=Vx` stored at `I..=I + x`.
pub open spec fn dump_memory(s: MachineState, x: int) -> Seq<u8> {
    Seq::new(
        MEMORY_SIZE as nat,
        |a: int|
            if offset_from_index(s, a) <= x {
                s.registers[offset_from_index(s, a)]
            } else {
                s.memory[a]
            },
    )
}

/// Registers with `V0..=Vx` loaded from `I..=I + x`.
pub open spec fn fill_registers(s: MachineState, x: int) -> Seq<u8> {
    Seq::new(
        NUM_REGISTERS as nat,
        |k: int|
            if k <= x {
                s.memory[cell_of(s.idx + k)]
            } else {
                s.registers[k]
            },
    )
}

/// Wait for a key: with some key pressed, `Vx` = the lowest pressed one;
/// with none, the program counter goes back to this instruction.
pub open spec fn wait_key_spec(s: MachineState, x: int) -> MachineState {
    if exists|k: int| lowest_pressed(s.keypad, k) {
        set_reg(s, x, (choose|k: int| lowest_pressed(s.keypad, k)) as u8)
    } else {
        MachineState { pc: wrap16(s.pc - 2), ..s }
    }
}

/// The load instruction, in each of its addressing modes.
pub open spec fn ld_spec(s: MachineState, mode: AddressMode) -> Result<MachineState, Keet8Error> {
    match mode {
        AddressMode::VxByte { x, byte } => Ok(set_reg(s, x as int, byte)),
        AddressMode::VxVy { x, y } => Ok(set_reg(s, x as int, s.registers[y as int])),
        AddressMode::IAddr { address } => Ok(MachineState { idx: address, ..s }),
        AddressMode::VxDt { x } => Ok(set_reg(s, x as int, s.delay)),
        AddressMode::VxKey { x } => Ok(wait_key_spec(s, x as int)),
        AddressMode::DtVx { x } => Ok(MachineState { delay: s.registers[x as int], ..s }),
        AddressMode::StVx { x } => Ok(MachineState { sound: s.registers[x as int], ..s }),
        AddressMode::FontVx { x } => Ok(
            MachineState { idx: (FONT_ADDR + 5 * s.registers[x as int]) as u16, ..s },
        ),
        AddressMode::BcdVx { x } => Ok(
            MachineState { memory: bcd_memory(s, s.registers[x as int]), ..s },
        ),
        AddressMode::AddrIVx { x } => Ok(MachineState { memory: dump_memory(s, x as int), ..s }),
        AddressMode::VxAddrI { x } => Ok(
            MachineState { registers: fill_registers(s, x as int), ..s },
        ),
        _ => invalid(mode),
    }
}

/// How far right of column `xp` the column of display cell `i` lies,
/// wrapping at the right edge.
pub open spec fn col_offset(xp: int, i: int) -> int {
    (i % (VIDEO_BUFFER_WIDTH as int) - xp) % (VIDEO_BUFFER_WIDTH as int)
}

/// How far below row `yp` the row of display cell `i` lies, wrapping at the
/// bottom edge.
pub open spec fn row_offset(yp: int, i: int) -> int {
    (i / (VIDEO_BUFFER_WIDTH as int) - yp) % (VIDEO_BUFFER_HEIGHT as int)
}

/// Pixel `dx` (counted from the left, most significant bit first) of a
/// sprite row is set.
pub open spec fn sprite_bit(row: u8, dx: int) -> bool {
    row & (0x80u8 >> (dx as u8)) != 0
}

/// Display cell `i` lies under a set pixel of the `n`-row sprite read from
/// memory at `I` and drawn with its top left corner at column `xp`, row
/// `yp`. A sprite that crosses an edge of the display wraps around to the
/// opposite edge.
pub open spec fn sprite_covers(s: MachineState, xp: int, yp: int, n: int, i: int) -> bool {
    let dx = col_offset(xp, i);
    let dy = row_offset(yp, i);
    dy < n && dx < 8 && sprite_bit(s.memory[cell_of(s.idx + dy)], dx)
}

/// The display with every cell under a set sprite pixel toggled.
pub open spec fn drawn_display(s: MachineState, xp: int, yp: int, n: int) -> Seq<u8> {
    Seq::new(
        VIDEO_BUFFER_SIZE as nat,
        |i: int|
            if sprite_covers(s, xp, yp, n, i) {
                s.display[i] ^ LIT
            } else {
                s.display[i]
            },
    )
}

/// Some set sprite pixel falls on a lit cell, which the drawing turns off.
pub open spec fn draw_collides(s: MachineState, xp: int, yp: int, n: int) -> bool {
    exists|i: int|
        0 <= i < VIDEO_BUFFER_SIZE && sprite_covers(s, xp, yp, n, i) && s.display[i] == LIT
}

/// Draw the `n`-row sprite at `I` with its origin at (`Vx` mod 64, `Vy` mod
/// 32), toggling cells; `VF` = 1 on a collision, else 0.
pub open spec fn drw_spec(s: MachineState, mode: AddressMode) -> Result<MachineState, Keet8Error> {
    match mode {
        AddressMode::VxVyN { x, y, nibble } => {
            let xp = s.registers[x as int] as int % (VIDEO_BUFFER_WIDTH as int);
            let yp = s.registers[y as int] as int % (VIDEO_BUFFER_HEIGHT as int);
            Ok(
                MachineState {
                    display: drawn_display(s, xp, yp, nibble as int),
                    registers: s.registers.update(
                        FLAG as int,
                        if draw_collides(s, xp, yp, nibble as int) {
                            1
                        } else {
                            0
                        },
                    ),
                    ..s
                },
            )
        },
        _ => invalid(mode),
    }
}

/// The pixel at row `dy`, column `dx` of the sprite comes before the one at
/// row `r`, column `c` in drawing order.
pub(crate) open spec fn drawn_before(dy: int, dx: int, r: int, c: int) -> bool {
    dy < r || (dy == r && dx < c)
}

/// The display once the pixels before row `r`, column `c` are drawn.
pub(crate) open spec fn partly_drawn(s: MachineState, xp: int, yp: int, n: int, r: int, c: int) -> Seq<u8> {
    Seq::new(
        VIDEO_BUFFER_SIZE as nat,
        |i: int|
            if sprite_covers(s, xp, yp, n, i) && drawn_before(
                row_offset(yp, i),
                col_offset(xp, i),
                r,
                c,
            ) {
                s.display[i] ^ LIT
            } else {
                s.display[i]
            },
    )
}

/// A pixel before row `r`, column `c` collided.
pub(crate) open spec fn partly_collides(s: MachineState, xp: int, yp: int, n: int, r: int, c: int) -> bool {
    exists|i: int|
        0 <= i < VIDEO_BUFFER_SIZE && sprite_covers(s, xp, yp, n, i) && drawn_before(
            row_offset(yp, i),
            col_offset(xp, i),
            r,
            c,
        ) && s.display[i] == LIT
}

/// The cell at row `r`, column `c` of a sprite with origin (`xp`, `yp`) is
/// the one cell with those offsets.
pub(crate) proof fn lemma_sprite_cell(xp: int, yp: int, r: int, c: int)
    requires
        0 <= xp < VIDEO_BUFFER_WIDTH,
        0 <= yp < VIDEO_BUFFER_HEIGHT,
        0 <= r < VIDEO_BUFFER_HEIGHT,
        0 <= c < 8,
    ensures
        ({
            let t = ((yp + r) % 32) * 64 + (xp + c) % 64;
            &&& 0 <= t < VIDEO_BUFFER_SIZE
            &&& row_offset(yp, t) == r
            &&& col_offset(xp, t) == c
            &&& forall|i: int|
                0 <= i < VIDEO_BUFFER_SIZE && row_offset(yp, i) == r && col_offset(xp, i) == c
                    ==> i == t
        }),
{
    let t = ((yp + r) % 32) * 64 + (xp + c) % 64;
    assert(t / 64 == (yp + r) % 32 && t % 64 == (xp + c) % 64);
    assert forall|i: int|
        0 <= i < VIDEO_BUFFER_SIZE && row_offset(yp, i) == r && col_offset(xp, i) == c implies i
        == t by {
        assert(i / 64 == (yp + r) % 32);
        assert(i % 64 == (xp + c) % 64);
    };
}

/// Toggling keeps a cell lit or unlit, and twice restores it.
pub(crate) proof fn lemma_toggle(v: u8)
    ensures
        v == 0 ==> v ^ LIT == LIT,
        v == LIT ==> v ^ LIT == 0,
        (v ^ LIT) ^ LIT == v,
{
    assert(v == 0 ==> v ^ 0xFF == 0xFF) by (bit_vector);
    assert(v == 0xFF ==> v ^ 0xFF == 0) by (bit_vector);
    assert((v ^ 0xFF) ^ 0xFF == v) by (bit_vector);
}

/// Drawing the pixel at row `r`, column `c` toggles its cell if the pixel is
/// set, and records a collision if that cell was lit.
pub(crate) proof fn lemma_draw_pixel(s: MachineState, xp: int, yp: int, n: int, r: int, c: int)
    requires
        s.wf(),
        0 <= xp < VIDEO_BUFFER_WIDTH,
        0 <= yp < VIDEO_BUFFER_HEIGHT,
        0 <= r < n <= 16,
        0 <= c < 8,
    ensures
        ({
            let t = ((yp + r) % 32) * 64 + (xp + c) % 64;
            &&& 0 <= t < VIDEO_BUFFER_SIZE
            &&& partly_drawn(s, xp, yp, n, r, c)[t] == s.display[t]
            &&& sprite_covers(s, xp, yp, n, t) == sprite_bit(s.memory[cell_of(s.idx + r)], c)
            &&& partly_drawn(s, xp, yp, n, r, c + 1) == if sprite_covers(s, xp, yp, n, t) {
                partly_drawn(s, xp, yp, n, r, c).update(t, s.display[t] ^ LIT)
            } else {
                partly_drawn(s, xp, yp, n, r, c)
            }
            &&& partly_collides(s, xp, yp, n, r, c + 1) == (partly_collides(s, xp, yp, n, r, c) || (
            sprite_covers(s, xp, yp, n, t) && s.display[t] == LIT))
        }),
{
    lemma_sprite_cell(xp, yp, r, c);
    let t = ((yp + r) % 32) * 64 + (xp + c) % 64;
    let before = partly_drawn(s, xp, yp, n, r, c);
    let after = partly_drawn(s, xp, yp, n, r, c + 1);
    if sprite_covers(s, xp, yp, n, t) {
        assert(after =~= before.update(t, s.display[t] ^ LIT));
    } else {
        assert(after =~= before);
    }
    if partly_collides(s, xp, yp, n, r, c + 1) {
        let i = choose|i: int|
            0 <= i < VIDEO_BUFFER_SIZE && sprite_covers(s, xp, yp, n, i) && drawn_before(
                row_offset(yp, i),
                col_offset(xp, i),
                r,
                c + 1,
            ) && s.display[i] == LIT;
        if i != t {
            assert(drawn_before(row_offset(yp, i), col_offset(xp, i), r, c));
        }
    }
    if sprite_covers(s, xp, yp, n, t) && s.display[t] == LIT {
        assert(drawn_before(row_offset(yp, t), col_offset(xp, t), r, c + 1));
    }
}

/// Finishing row `r` is starting row `r + 1`.
pub(crate) proof fn lemma_draw_row(s: MachineState, xp: int, yp: int, n: int, r: int)
    ensures
        partly_drawn(s, xp, yp, n, r, 8) == partly_drawn(s, xp, yp, n, r + 1, 0),
        partly_collides(s, xp, yp, n, r, 8) == partly_collides(s, xp, yp, n, r + 1, 0),
{
    assert(partly_drawn(s, xp, yp, n, r, 8) =~= partly_drawn(s, xp, yp, n, r + 1, 0));
}

/// Once all rows are drawn, the whole sprite is.
pub(crate) proof fn lemma_draw_done(s: MachineState, xp: int, yp: int, n: int)
    requires
        s.wf(),
    ensures
        partly_drawn(s, xp, yp, n, n, 0) == drawn_display(s, xp, yp, n),
        partly_collides(s, xp, yp, n, n, 0) == draw_collides(s, xp, yp, n),
        partly_drawn(s, xp, yp, n, 0, 0) == s.display,
        !partly_collides(s, xp, yp, n, 0, 0),
{
    assert(partly_drawn(s, xp, yp, n, n, 0) =~= drawn_display(s, xp, yp, n));
    assert forall|i: int| row_offset(yp, i) >= 0 by {};
    assert(partly_drawn(s, xp, yp, n, 0, 0) =~= s.display);
}

/// What executing `op` does, with `random` as the byte that a random
/// instruction draws.
pub open spec fn execute_spec(s: MachineState, op: OpCode, random: u8) -> Result<
    MachineState,
    Keet8Error,
> {
    let m = op.address_mode;
    match op.instr {
        Instruction::RAW => Ok(s),
        Instruction::SYS => Ok(s),
        Instruction::CLS => Ok(cls_spec(s)),
        Instruction::RET => ret_spec(s),
        Instruction::JP => jp_spec(s, m),
        Instruction::CALL => call_spec(s, m),
        Instruction::SE => se_spec(s, m),
        Instruction::SNE => sne_spec(s, m),
        Instruction::LD => ld_spec(s, m),
        Instruction::ADD => add_spec(s, m),
        Instruction::OR => or_spec(s, m),
        Instruction::AND => and_spec(s, m),
        Instruction::XOR => xor_spec(s, m),
        Instruction::SUB => sub_spec(s, m),
        Instruction::SHR => shr_spec(s, m),
        Instruction::SUBN => subn_spec(s, m),
        Instruction::SHL => shl_spec(s, m),
        Instruction::RND => rnd_spec(s, m, random),
        Instruction::DRW => drw_spec(s, m),
        Instruction::SKP => skp_spec(s, m),
        Instruction::SKNP => sknp_spec(s, m),
    }
}

/// The word at the program counter: the byte there, then the next one.
pub open spec fn fetch_spec(s: MachineState) -> u16 {
    (s.memory[cell_of(s.pc as int)] as int * 0x100 + s.memory[cell_of(s.pc + 1)] as int) as u16
}

/// Both timers count down by one, stopping at zero.
pub open spec fn tick_spec(s: MachineState) -> MachineState {
    MachineState {
        delay: if s.delay > 0 {
            (s.delay - 1) as u8
        } else {
            0
        },
        sound: if s.sound > 0 {
            (s.sound - 1) as u8
        } else {
            0
        },
        ..s
    }
}

/// One cycle: fetch the word at the program counter and move past it,
/// execute it, then count the timers down. An instruction that fails leaves
/// the state as the fetch left it, and the timers as they were.
pub open spec fn step_spec(s: MachineState, random: u8) -> (MachineState, Result<(), Keet8Error>) {
    let fetched = MachineState { pc: wrap16(s.pc + 2), ..s };
    match execute_spec(fetched, decode_spec(fetch_spec(s)), random) {
        Ok(t) => (tick_spec(t), Ok(())),
        Err(e) => (fetched, Err(e)),
    }
}

} // verus!
