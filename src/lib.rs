//! A Chip-8 virtual machine: addressable memory with the built-in glyph
//! table, a bounded call stack, the opcode decoder and the interpreter that
//! executes one instruction per step.
//!
//! Everything that touches a window, a keyboard or a file lives with the
//! host program; this library only holds the machine itself.
//!
//! `machine` states what each instruction does to the machine's state,
//! `emulator` is the interpreter proved against it, and `laws` gathers the
//! properties that follow.

pub mod emulator;
pub mod error;
pub mod laws;
pub mod machine;
pub mod memory;
pub mod opcode;
pub mod stack;

pub use emulator::Emulator;
pub use error::Keet8Error;
pub use machine::{
    MachineState, FLAG, LIT, NUM_KEYS, NUM_REGISTERS, VIDEO_BUFFER_HEIGHT, VIDEO_BUFFER_SIZE,
    VIDEO_BUFFER_WIDTH,
};
pub use memory::{load_font, Memory, FONTSET_SIZE, FONT_ADDR, MAX_ROM_SIZE, MEMORY_SIZE, PROG_ADDR};
pub use opcode::{AddressMode, Instruction, OpCode};
pub use stack::{CallStack, STACK_SIZE};
