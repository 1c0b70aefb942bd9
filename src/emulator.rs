use vstd::prelude::*;

use crate::error::Keet8Error;
use crate::machine::{
    add_spec, and_spec, bcd_memory, call_spec, cls_spec, drw_spec, dump_memory, execute_spec,
    fetch_spec, fill_registers, initial_spec, jp_spec, key_pressed, ld_spec, lemma_draw_done,
    lemma_draw_pixel, lemma_draw_row, lemma_toggle, lowest_pressed, offset_from_index, or_spec,
    outcome, partly_collides, partly_drawn, ret_spec, rnd_spec, se_spec, shl_spec, shr_spec,
    skip_next, sknp_spec, skp_spec, sne_spec, step_spec, sub_spec, subn_spec, wait_key_spec, wrap16,
    xor_spec, FLAG, LIT, MachineState, NUM_KEYS, NUM_REGISTERS, VIDEO_BUFFER_HEIGHT,
    VIDEO_BUFFER_SIZE, VIDEO_BUFFER_WIDTH,
};
use crate::memory::{cell_of, Memory, FONT_ADDR, MAX_ROM_SIZE, MEMORY_SIZE, PROG_ADDR};
use crate::opcode::{decode_spec, lemma_decode_fields, AddressMode, Instruction, OpCode};
use crate::stack::CallStack;

verus! {

/// Relies on `rand::random`: a value drawn from the thread-local generator.
/// Nothing is promised of it.
pub assume_specification<T>[ rand::random::<T> ]() -> (r: T)
    where
        rand::distributions::Standard: rand::distributions::Distribution<T>,
;

/// The Chip-8 interpreter.
pub struct Emulator {
    /// `V0` to `VF`
    registers: Vec<u8>,
    /// The index register `I`
    idx: u16,
    /// The address of the next instruction
    program_counter: u16,
    /// The delay timer
    delay_timer: u8,
    /// The sound timer
    sound_timer: u8,
    /// Pending return addresses
    stack: CallStack,
    /// The address space
    memory: Memory,
    /// The display cells, row after row
    video_buffer: Vec<u8>,
    /// The key states
    keypad: Vec<u8>,
}

impl View for Emulator {
    type V = MachineState;

    closed spec fn view(&self) -> MachineState {
        MachineState {
            registers: self.registers@,
            idx: self.idx,
            pc: self.program_counter,
            delay: self.delay_timer,
            sound: self.sound_timer,
            stack: self.stack@,
            memory: self.memory@,
            display: self.video_buffer@,
            keypad: self.keypad@,
        }
    }
}

impl Emulator {
    /// The state is well formed.
    pub open spec fn wf(&self) -> bool {
        self@.wf()
    }

    /// Creates the machine for a program: `rom` loaded at `PROG_ADDR`, the
    /// glyph table at `FONT_ADDR`, everything else cleared. A ROM longer than
    /// `MAX_ROM_SIZE` is refused.
    pub fn new(rom: &[u8]) -> (r: Result<Emulator, Keet8Error>)
        ensures
            rom@.len() > MAX_ROM_SIZE ==> r == Err::<Emulator, Keet8Error>(
                Keet8Error::ROMTooLarge(rom@.len() as usize),
            ),
            rom@.len() <= MAX_ROM_SIZE ==> r is Ok && r->Ok_0.wf() && r->Ok_0@ == initial_spec(
                rom@,
            ),
    {
        let memory = match Memory::new(rom) {
            Ok(m) => m,
            Err(e) => return Err(e),
        };
        let emu = Emulator {
            registers: vec![0u8; NUM_REGISTERS],
            idx: 0,
            program_counter: PROG_ADDR,
            delay_timer: 0,
            sound_timer: 0,
            stack: CallStack::new(),
            memory,
            video_buffer: vec![0u8; VIDEO_BUFFER_SIZE],
            keypad: vec![0u8; NUM_KEYS],
        };
        assert(emu@.registers =~= initial_spec(rom@).registers);
        assert(emu@.display =~= initial_spec(rom@).display);
        assert(emu@.keypad =~= initial_spec(rom@).keypad);
        Ok(emu)
    }

    /// Clears the display.
    fn cls(&mut self) -> (r: Result<(), Keet8Error>)
        requires
            old(self).wf(),
        ensures
            final(self).wf(),
            outcome(old(self)@, final(self)@, r, Ok(cls_spec(old(self)@))),
    {
        self.video_buffer = vec![0u8; VIDEO_BUFFER_SIZE];
        assert(self@.display =~= cls_spec(old(self)@).display);
        Ok(())
    }

    /// Returns from a subroutine.
    fn ret(&mut self) -> (r: Result<(), Keet8Error>)
        requires
            old(self).wf(),
        ensures
            final(self).wf(),
            outcome(old(self)@, final(self)@, r, ret_spec(old(self)@)),
    {
        match self.stack.pop() {
            Some(addr) => {
                self.program_counter = addr;
                Ok(())
            },
            None => Err(Keet8Error::CallStackEmpty),
        }
    }

    /// Jumps to an address, or to an address plus `V0`.
    fn jp(&mut self, opcode: OpCode) -> (r: Result<(), Keet8Error>)
        requires
            old(self).wf(),
            opcode.address_mode.wf(),
        ensures
            final(self).wf(),
            outcome(old(self)@, final(self)@, r, jp_spec(old(self)@, opcode.address_mode)),
    {
        match opcode.address_mode {
            AddressMode::Addr { address } => {
                self.program_counter = address;
            },
            AddressMode::V0Addr { address } => {
                self.program_counter = self.registers[0] as u16 + address;
            },
            _ => return Err(Keet8Error::InvalidAddressMode(opcode.address_mode)),
        }
        Ok(())
    }

    /// Calls a subroutine: pushes the program counter, then jumps.
    fn call(&mut self, opcode: OpCode) -> (r: Result<(), Keet8Error>)
        requires
            old(self).wf(),
            opcode.address_mode.wf(),
        ensures
            final(self).wf(),
            outcome(old(self)@, final(self)@, r, call_spec(old(self)@, opcode.address_mode)),
    {
        if let AddressMode::Addr { address } = opcode.address_mode {
            match self.stack.push(self.program_counter) {
                Ok(()) => {},
                Err(e) => return Err(e),
            }
            self.program_counter = address;
            Ok(())
        } else {
            Err(Keet8Error::InvalidAddressMode(opcode.address_mode))
        }
    }

    /// Skips the next instruction.
    fn skip(&mut self)
        ensures
            final(self)@ == skip_next(old(self)@),
    {
        self.program_counter = self.program_counter.wrapping_add(2);
    }

    /// Skips the next instruction if two values are equal.
    fn se(&mut self, opcode: OpCode) -> (r: Result<(), Keet8Error>)
        requires
            old(self).wf(),
            opcode.address_mode.wf(),
        ensures
            final(self).wf(),
            outcome(old(self)@, final(self)@, r, se_spec(old(self)@, opcode.address_mode)),
    {
        match opcode.address_mode {
            AddressMode::VxByte { x, byte } => {
                if self.registers[x] == byte {
                    self.skip();
                }
            },
            AddressMode::VxVy { x, y } => {
                if self.registers[x] == self.registers[y] {
                    self.skip();
                }
            },
            _ => return Err(Keet8Error::InvalidAddressMode(opcode.address_mode)),
        }
        Ok(())
    }

    /// Skips the next instruction if two values differ.
    fn sne(&mut self, opcode: OpCode) -> (r: Result<(), Keet8Error>)
        requires
            old(self).wf(),
            opcode.address_mode.wf(),
        ensures
            final(self).wf(),
            outcome(old(self)@, final(self)@, r, sne_spec(old(self)@, opcode.address_mode)),
    {
        match opcode.address_mode {
            AddressMode::VxByte { x, byte } => {
                if self.registers[x] != byte {
                    self.skip();
                }
            },
            AddressMode::VxVy { x, y } => {
                if self.registers[x] != self.registers[y] {
                    self.skip();
                }
            },
            _ => return Err(Keet8Error::InvalidAddressMode(opcode.address_mode)),
        }
        Ok(())
    }

    /// Adds a byte or a register into a register, or a register into the
    /// index register.
    fn add(&mut self, opcode: OpCode) -> (r: Result<(), Keet8Error>)
        requires
            old(self).wf(),
            opcode.address_mode.wf(),
        ensures
            final(self).wf(),
            outcome(old(self)@, final(self)@, r, add_spec(old(self)@, opcode.address_mode)),
    {
        match opcode.address_mode {
            AddressMode::VxByte { x, byte } => {
                let v = self.registers[x].wrapping_add(byte);
                self.registers.set(x, v);
            },
            AddressMode::VxVy { x, y } => {
                let sum = self.registers[x] as u16 + self.registers[y] as u16;
                let flag: u8 = if sum > 0x00FF { 1 } else { 0 };
                self.registers.set(FLAG, flag);
                self.registers.set(x, (sum & 0x00FF) as u8);
                assert(sum & 0x00FF == sum % 256) by (bit_vector);
            },
            AddressMode::IVx { x } => {
                self.idx = self.idx.wrapping_add(self.registers[x] as u16);
            },
            _ => return Err(Keet8Error::InvalidAddressMode(opcode.address_mode)),
        }
        Ok(())
    }

    /// `Vx = Vx | Vy`.
    fn or(&mut self, opcode: OpCode) -> (r: Result<(), Keet8Error>)
        requires
            old(self).wf(),
            opcode.address_mode.wf(),
        ensures
            final(self).wf(),
            outcome(old(self)@, final(self)@, r, or_spec(old(self)@, opcode.address_mode)),
    {
        if let AddressMode::VxVy { x, y } = opcode.address_mode {
            let v = self.registers[x] | self.registers[y];
            self.registers.set(x, v);
            Ok(())
        } else {
            Err(Keet8Error::InvalidAddressMode(opcode.address_mode))
        }
    }

    /// `Vx = Vx & Vy`.
    fn and(&mut self, opcode: OpCode) -> (r: Result<(), Keet8Error>)
        requires
            old(self).wf(),
            opcode.address_mode.wf(),
        ensures
            final(self).wf(),
            outcome(old(self)@, final(self)@, r, and_spec(old(self)@, opcode.address_mode)),
    {
        if let AddressMode::VxVy { x, y } = opcode.address_mode {
            let v = self.registers[x] & self.registers[y];
            self.registers.set(x, v);
            Ok(())
        } else {
            Err(Keet8Error::InvalidAddressMode(opcode.address_mode))
        }
    }

    /// `Vx = Vx ^ Vy`.
    fn xor(&mut self, opcode: OpCode) -> (r: Result<(), Keet8Error>)
        requires
            old(self).wf(),
            opcode.address_mode.wf(),
        ensures
            final(self).wf(),
            outcome(old(self)@, final(self)@, r, xor_spec(old(self)@, opcode.address_mode)),
    {
        if let AddressMode::VxVy { x, y } = opcode.address_mode {
            let v = self.registers[x] ^ self.registers[y];
            self.registers.set(x, v);
            Ok(())
        } else {
            Err(Keet8Error::InvalidAddressMode(opcode.address_mode))
        }
    }

    /// `VF = Vx > Vy`, then `Vx = Vx - Vy` wrapping.
    fn sub(&mut self, opcode: OpCode) -> (r: Result<(), Keet8Error>)
        requires
            old(self).wf(),
            opcode.address_mode.wf(),
        ensures
            final(self).wf(),
            outcome(old(self)@, final(self)@, r, sub_spec(old(self)@, opcode.address_mode)),
    {
        if let AddressMode::VxVy { x, y } = opcode.address_mode {
            let vx = self.registers[x];
            let vy = self.registers[y];
            let flag: u8 = if vx > vy { 1 } else { 0 };
            self.registers.set(FLAG, flag);
            self.registers.set(x, vx.wrapping_sub(vy));
            Ok(())
        } else {
            Err(Keet8Error::InvalidAddressMode(opcode.address_mode))
        }
    }

    /// `VF = Vy > Vx`, then `Vx = Vy - Vx` wrapping.
    fn subn(&mut self, opcode: OpCode) -> (r: Result<(), Keet8Error>)
        requires
            old(self).wf(),
            opcode.address_mode.wf(),
        ensures
            final(self).wf(),
            outcome(old(self)@, final(self)@, r, subn_spec(old(self)@, opcode.address_mode)),
    {
        if let AddressMode::VxVy { x, y } = opcode.address_mode {
            let vx = self.registers[x];
            let vy = self.registers[y];
            let flag: u8 = if vy > vx { 1 } else { 0 };
            self.registers.set(FLAG, flag);
            self.registers.set(x, vy.wrapping_sub(vx));
            Ok(())
        } else {
            Err(Keet8Error::InvalidAddressMode(opcode.address_mode))
        }
    }

    /// `VF` = the lowest bit of `Vx`, then `Vx = Vx >> 1`.
    fn shr(&mut self, opcode: OpCode) -> (r: Result<(), Keet8Error>)
        requires
            old(self).wf(),
            opcode.address_mode.wf(),
        ensures
            final(self).wf(),
            outcome(old(self)@, final(self)@, r, shr_spec(old(self)@, opcode.address_mode)),
    {
        if let AddressMode::VxVy { x, y: _ } = opcode.address_mode {
            let vx = self.registers[x];
            self.registers.set(FLAG, vx & 0x01);
            self.registers.set(x, vx >> 1u8);
            Ok(())
        } else {
            Err(Keet8Error::InvalidAddressMode(opcode.address_mode))
        }
    }

    /// `VF` = the highest bit of `Vx`, then `Vx = Vx << 1`.
    fn shl(&mut self, opcode: OpCode) -> (r: Result<(), Keet8Error>)
        requires
            old(self).wf(),
            opcode.address_mode.wf(),
        ensures
            final(self).wf(),
            outcome(old(self)@, final(self)@, r, shl_spec(old(self)@, opcode.address_mode)),
    {
        if let AddressMode::VxVy { x, y: _ } = opcode.address_mode {
            let vx = self.registers[x];
            self.registers.set(FLAG, vx >> 7u8);
            self.registers.set(x, vx << 1u8);
            Ok(())
        } else {
            Err(Keet8Error::InvalidAddressMode(opcode.address_mode))
        }
    }

    /// `Vx` = `random` masked by the immediate byte.
    fn rnd(&mut self, opcode: OpCode, random: u8) -> (r: Result<(), Keet8Error>)
        requires
            old(self).wf(),
            opcode.address_mode.wf(),
        ensures
            final(self).wf(),
            outcome(old(self)@, final(self)@, r, rnd_spec(old(self)@, opcode.address_mode, random)),
    {
        if let AddressMode::VxByte { x, byte } = opcode.address_mode {
            self.registers.set(x, random & byte);
            Ok(())
        } else {
            Err(Keet8Error::InvalidAddressMode(opcode.address_mode))
        }
    }

    /// Whether the key numbered `key` exists and is pressed.
    fn is_pressed(&self, key: u8) -> (r: bool)
        requires
            self.wf(),
        ensures
            r == key_pressed(self@.keypad, key as int),
    {
        (key as usize) < NUM_KEYS && self.keypad[key as usize] > 0
    }

    /// Skips the next instruction if the key numbered by `Vx` is pressed.
    fn skp(&mut self, opcode: OpCode) -> (r: Result<(), Keet8Error>)
        requires
            old(self).wf(),
            opcode.address_mode.wf(),
        ensures
            final(self).wf(),
            outcome(old(self)@, final(self)@, r, skp_spec(old(self)@, opcode.address_mode)),
    {
        if let AddressMode::Vx { x } = opcode.address_mode {
            if self.is_pressed(self.registers[x]) {
                self.skip();
            }
            Ok(())
        } else {
            Err(Keet8Error::InvalidAddressMode(opcode.address_mode))
        }
    }

    /// Skips the next instruction if the key numbered by `Vx` is not
    /// pressed.
    fn sknp(&mut self, opcode: OpCode) -> (r: Result<(), Keet8Error>)
        requires
            old(self).wf(),
            opcode.address_mode.wf(),
        ensures
            final(self).wf(),
            outcome(old(self)@, final(self)@, r, sknp_spec(old(self)@, opcode.address_mode)),
    {
        if let AddressMode::Vx { x } = opcode.address_mode {
            if !self.is_pressed(self.registers[x]) {
                self.skip();
            }
            Ok(())
        } else {
            Err(Keet8Error::InvalidAddressMode(opcode.address_mode))
        }
    }

    /// Stores the lowest pressed key in `Vx`; with no key pressed, steps
    /// the program counter back so that this instruction runs again.
    fn wait_key(&mut self, x: usize)
        requires
            old(self).wf(),
            x < NUM_REGISTERS,
        ensures
            final(self).wf(),
            final(self)@ == wait_key_spec(old(self)@, x as int),
    {
        let mut i: usize = 0;
        while i < NUM_KEYS
            invariant
                i <= NUM_KEYS,
                x < NUM_REGISTERS,
                self@ == old(self)@,
                self.wf(),
                forall|j: int| 0 <= j < i ==> !key_pressed(self@.keypad, j),
            decreases NUM_KEYS - i,
        {
            if self.keypad[i] > 0 {
                assert(lowest_pressed(self@.keypad, i as int));
                let ghost k = choose|k: int| lowest_pressed(self@.keypad, k);
                assert(k == i) by {
                    if k < i {
                        assert(!key_pressed(self@.keypad, k));
                    } else if k > i {
                        assert(!key_pressed(self@.keypad, i as int));
                    }
                };
                self.registers.set(x, i as u8);
                return;
            }
            i = i + 1;
        }
        assert forall|k: int| !lowest_pressed(old(self)@.keypad, k) by {
            if lowest_pressed(old(self)@.keypad, k) {
                assert(key_pressed(old(self)@.keypad, k));
            }
        };
        self.program_counter = self.program_counter.wrapping_sub(2);
    }

    /// Writes the decimal digits of `v` at `I`, `I + 1` and `I + 2`.
    fn store_bcd(&mut self, v: u8)
        requires
            old(self).wf(),
        ensures
            final(self).wf(),
            final(self)@ == (MachineState { memory: bcd_memory(old(self)@, v), ..old(self)@ }),
    {
        let ghost s = self@;
        self.memory.write(self.idx.wrapping_add(2), v % 10);
        self.memory.write(self.idx.wrapping_add(1), (v / 10) % 10);
        self.memory.write(self.idx, v / 100);
        assert(cell_of(wrap16(s.idx + 2) as int) == cell_of(s.idx + 2));
        assert(cell_of(wrap16(s.idx + 1) as int) == cell_of(s.idx + 1));
    }

    /// Stores `V0..=Vx` at `I..=I + x`.
    fn store_registers(&mut self, x: usize)
        requires
            old(self).wf(),
            x < NUM_REGISTERS,
        ensures
            final(self).wf(),
            final(self)@ == (MachineState { memory: dump_memory(old(self)@, x as int), ..old(self)@ }),
    {
        let ghost s = self@;
        let mut i: usize = 0;
        while i <= x
            invariant
                i <= x + 1,
                x < NUM_REGISTERS,
                self.wf(),
                self@ == (MachineState { memory: self@.memory, ..s }),
                forall|a: int|
                    0 <= a < MEMORY_SIZE ==> #[trigger] self@.memory[a] == if offset_from_index(s, a) < i {
                        s.registers[offset_from_index(s, a)]
                    } else {
                        s.memory[a]
                    },
            decreases x + 1 - i,
        {
            let addr = self.idx.wrapping_add(i as u16);
            let ghost t = cell_of(addr as int);
            assert(t == cell_of(s.idx + i));
            assert(offset_from_index(s, t) == i);
            assert forall|a: int| 0 <= a < MEMORY_SIZE && a != t implies offset_from_index(s, a) != i by {
                if offset_from_index(s, a) == i {
                    assert(a == cell_of(s.idx + i));
                }
            };
            self.memory.write(addr, self.registers[i]);
            i = i + 1;
        }
        assert(self@.memory =~= dump_memory(s, x as int));
    }

    /// Loads `V0..=Vx` from `I..=I + x`.
    fn load_registers(&mut self, x: usize)
        requires
            old(self).wf(),
            x < NUM_REGISTERS,
        ensures
            final(self).wf(),
            final(self)@ == (MachineState {
                registers: fill_registers(old(self)@, x as int),
                ..old(self)@
            }),
    {
        let ghost s = self@;
        let mut i: usize = 0;
        while i <= x
            invariant
                i <= x + 1,
                x < NUM_REGISTERS,
                self.wf(),
                self@ == (MachineState { registers: self@.registers, ..s }),
                forall|k: int|
                    0 <= k < NUM_REGISTERS ==> #[trigger] self@.registers[k] == if k < i {
                        s.memory[cell_of(s.idx + k)]
                    } else {
                        s.registers[k]
                    },
            decreases x + 1 - i,
        {
            let addr = self.idx.wrapping_add(i as u16);
            assert(cell_of(addr as int) == cell_of(s.idx + i));
            let v = self.memory.read(addr);
            self.registers.set(i, v);
            i = i + 1;
        }
        assert(self@.registers =~= fill_registers(s, x as int));
    }

    /// Loads a value, in each of the load instruction's addressing modes.
    fn ld(&mut self, opcode: OpCode) -> (r: Result<(), Keet8Error>)
        requires
            old(self).wf(),
            opcode.address_mode.wf(),
        ensures
            final(self).wf(),
            outcome(old(self)@, final(self)@, r, ld_spec(old(self)@, opcode.address_mode)),
    {
        match opcode.address_mode {
            AddressMode::VxByte { x, byte } => {
                self.registers.set(x, byte);
            },
            AddressMode::VxVy { x, y } => {
                let v = self.registers[y];
                self.registers.set(x, v);
            },
            AddressMode::IAddr { address } => {
                self.idx = address;
            },
            AddressMode::VxDt { x } => {
                let v = self.delay_timer;
                self.registers.set(x, v);
            },
            AddressMode::VxKey { x } => {
                self.wait_key(x);
            },
            AddressMode::DtVx { x } => {
                self.delay_timer = self.registers[x];
            },
            AddressMode::StVx { x } => {
                self.sound_timer = self.registers[x];
            },
            AddressMode::FontVx { x } => {
                let digit = self.registers[x];
                self.idx = FONT_ADDR + 5 * digit as u16;
            },
            AddressMode::BcdVx { x } => {
                let v = self.registers[x];
                self.store_bcd(v);
            },
            AddressMode::AddrIVx { x } => {
                self.store_registers(x);
            },
            AddressMode::VxAddrI { x } => {
                self.load_registers(x);
            },
            _ => return Err(Keet8Error::InvalidAddressMode(opcode.address_mode)),
        }
        Ok(())
    }

    /// Draws a sprite, toggling the cells under its set pixels; `VF` records
    /// whether a lit cell was turned off.
    fn drw(&mut self, opcode: OpCode) -> (r: Result<(), Keet8Error>)
        requires
            old(self).wf(),
            opcode.address_mode.wf(),
        ensures
            final(self).wf(),
            outcome(old(self)@, final(self)@, r, drw_spec(old(self)@, opcode.address_mode)),
    {
        if let AddressMode::VxVyN { x, y, nibble } = opcode.address_mode {
            let xp = self.registers[x] % VIDEO_BUFFER_WIDTH as u8;
            let yp = self.registers[y] % VIDEO_BUFFER_HEIGHT as u8;
            let ghost s = self@;
            let ghost (gx, gy, n) = (xp as int, yp as int, nibble as int);
            proof {
                lemma_draw_done(s, gx, gy, n);
            }
            let mut collision = false;
            let mut r: u8 = 0;
            while r < nibble
                invariant
                    r <= nibble < 16,
                    s.wf(),
                    gx == xp && gy == yp && n == nibble,
                    xp < VIDEO_BUFFER_WIDTH,
                    yp < VIDEO_BUFFER_HEIGHT,
                    self.wf(),
                    self@ == (MachineState { display: self@.display, ..s }),
                    self@.display == partly_drawn(s, gx, gy, n, r as int, 0),
                    collision == partly_collides(s, gx, gy, n, r as int, 0),
                decreases nibble - r,
            {
                let sprite = self.memory.read(self.idx.wrapping_add(r as u16));
                assert(cell_of(wrap16(s.idx + r) as int) == cell_of(s.idx + r));
                let mut c: u8 = 0;
                while c < 8
                    invariant
                        r < nibble < 16,
                        c <= 8,
                        s.wf(),
                        gx == xp && gy == yp && n == nibble,
                        xp < VIDEO_BUFFER_WIDTH,
                        yp < VIDEO_BUFFER_HEIGHT,
                        sprite == s.memory[cell_of(s.idx + r)],
                        self.wf(),
                        self@ == (MachineState { display: self@.display, ..s }),
                        self@.display == partly_drawn(s, gx, gy, n, r as int, c as int),
                        collision == partly_collides(s, gx, gy, n, r as int, c as int),
                    decreases 8 - c,
                {
                    proof {
                        lemma_draw_pixel(s, gx, gy, n, r as int, c as int);
                    }
                    let cell = ((yp as usize + r as usize) % VIDEO_BUFFER_HEIGHT) * VIDEO_BUFFER_WIDTH
                        + (xp as usize + c as usize) % VIDEO_BUFFER_WIDTH;
                    if sprite & (0x80u8 >> c) != 0 {
                        let v = self.video_buffer[cell];
                        if v == LIT {
                            collision = true;
                        }
                        proof {
                            lemma_toggle(v);
                        }
                        self.video_buffer.set(cell, v ^ LIT);
                    }
                    c = c + 1;
                }
                proof {
                    lemma_draw_row(s, gx, gy, n, r as int);
                }
                r = r + 1;
            }
            let flag: u8 = if collision { 1 } else { 0 };
            self.registers.set(FLAG, flag);
            Ok(())
        } else {
            Err(Keet8Error::InvalidAddressMode(opcode.address_mode))
        }
    }

    /// Executes a decoded instruction; `random` is the byte that a random
    /// instruction uses.
    fn execute(&mut self, opcode: OpCode, random: u8) -> (r: Result<(), Keet8Error>)
        requires
            old(self).wf(),
            opcode.address_mode.wf(),
        ensures
            final(self).wf(),
            outcome(old(self)@, final(self)@, r, execute_spec(old(self)@, opcode, random)),
    {
        match opcode.instr {
            Instruction::RAW => Ok(()),
            Instruction::SYS => Ok(()),
            Instruction::CLS => self.cls(),
            Instruction::RET => self.ret(),
            Instruction::JP => self.jp(opcode),
            Instruction::CALL => self.call(opcode),
            Instruction::SE => self.se(opcode),
            Instruction::SNE => self.sne(opcode),
            Instruction::LD => self.ld(opcode),
            Instruction::ADD => self.add(opcode),
            Instruction::OR => self.or(opcode),
            Instruction::AND => self.and(opcode),
            Instruction::XOR => self.xor(opcode),
            Instruction::SUB => self.sub(opcode),
            Instruction::SHR => self.shr(opcode),
            Instruction::SUBN => self.subn(opcode),
            Instruction::SHL => self.shl(opcode),
            Instruction::RND => self.rnd(opcode, random),
            Instruction::DRW => self.drw(opcode),
            Instruction::SKP => self.skp(opcode),
            Instruction::SKNP => self.sknp(opcode),
        }
    }

    /// The word at the program counter, high byte first.
    pub fn fetch(&self) -> (r: u16)
        requires
            self.wf(),
        ensures
            r == fetch_spec(self@),
    {
        let hi = self.memory.read(self.program_counter);
        let lo = self.memory.read(self.program_counter.wrapping_add(1));
        assert(cell_of(wrap16(self.program_counter + 1) as int) == cell_of(self.program_counter + 1));
        assert(((hi as u16) << 8u16) | (lo as u16) == (hi as u16) * 256 + (lo as u16)) by (bit_vector);
        ((hi as u16) << 8u16) | (lo as u16)
    }

    /// Runs one cycle with `random` as the byte that a random instruction
    /// draws: fetch, execute, then count the timers down.
    pub fn step_with(&mut self, random: u8) -> (r: Result<(), Keet8Error>)
        requires
            old(self).wf(),
        ensures
            final(self).wf(),
            (final(self)@, r) == step_spec(old(self)@, random),
    {
        let raw = self.fetch();
        self.program_counter = self.program_counter.wrapping_add(2);
        let opcode = OpCode::decode(raw);
        proof {
            lemma_decode_fields(raw);
        }
        match self.execute(opcode, random) {
            Ok(()) => {},
            Err(e) => return Err(e),
        }
        if self.delay_timer > 0 {
            self.delay_timer = self.delay_timer - 1;
        }
        if self.sound_timer > 0 {
            self.sound_timer = self.sound_timer - 1;
        }
        Ok(())
    }

    /// Runs one cycle: fetch, execute, then count the timers down. A random
    /// instruction draws its byte from the thread-local generator; every
    /// other instruction behaves as under `step_with`, whatever byte that is
    /// given.
    pub fn step(&mut self) -> (r: Result<(), Keet8Error>)
        requires
            old(self).wf(),
        ensures
            final(self).wf(),
            exists|b: u8| (final(self)@, r) == step_spec(old(self)@, b),
            decode_spec(fetch_spec(old(self)@)).instr != Instruction::RND ==> (final(self)@, r)
                == step_spec(old(self)@, 0),
    {
        let opcode = OpCode::decode(self.fetch());
        let random: u8 = if opcode.instr == Instruction::RND {
            rand::random::<u8>()
        } else {
            0
        };
        self.step_with(random)
    }

    /// Sets the state of key `key`: pressed when `val` is not 0.
    pub fn set_key(&mut self, key: usize, val: u8)
        requires
            old(self).wf(),
            key < NUM_KEYS,
        ensures
            final(self).wf(),
            final(self)@ == (MachineState {
                keypad: old(self)@.keypad.update(key as int, val),
                ..old(self)@
            }),
    {
        self.keypad.set(key, val);
    }

    /// The value of register `V{i}`.
    pub fn register(&self, i: usize) -> (r: u8)
        requires
            self.wf(),
            i < NUM_REGISTERS,
        ensures
            r == self@.registers[i as int],
    {
        self.registers[i]
    }

    /// The program counter.
    pub fn program_counter(&self) -> (r: u16)
        ensures
            r == self@.pc,
    {
        self.program_counter
    }

    /// The index register.
    pub fn index(&self) -> (r: u16)
        ensures
            r == self@.idx,
    {
        self.idx
    }

    /// The delay timer.
    pub fn delay_timer(&self) -> (r: u8)
        ensures
            r == self@.delay,
    {
        self.delay_timer
    }

    /// The sound timer.
    pub fn sound_timer(&self) -> (r: u8)
        ensures
            r == self@.sound,
    {
        self.sound_timer
    }

    /// The number of pending return addresses.
    pub fn stack_depth(&self) -> (r: usize)
        ensures
            r == self@.stack.len(),
    {
        self.stack.depth()
    }

    /// The byte at `addr`, of which only the low 12 bits count.
    pub fn memory_at(&self, addr: u16) -> (r: u8)
        requires
            self.wf(),
        ensures
            r == self@.memory[cell_of(addr as int)],
    {
        self.memory.read(addr)
    }

    /// Whether the cell at column `x`, row `y` of the display is lit.
    pub fn pixel(&self, x: usize, y: usize) -> (r: bool)
        requires
            self.wf(),
            x < VIDEO_BUFFER_WIDTH,
            y < VIDEO_BUFFER_HEIGHT,
        ensures
            r == (self@.display[y * VIDEO_BUFFER_WIDTH + x] != 0),
    {
        self.video_buffer[y * VIDEO_BUFFER_WIDTH + x] != 0
    }

    /// The display cells, row after row: 0 for unlit, `LIT` for lit.
    pub fn display(&self) -> (r: &[u8])
        ensures
            r@ == self@.display,
    {
        self.video_buffer.as_slice()
    }
}

} // verus!
