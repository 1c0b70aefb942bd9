use vstd::prelude::*;

verus! {

/// The kind of an instruction, independent of its operands.
#[derive(Clone, Copy, Debug, PartialEq, Eq, Structural)]
pub enum Instruction {
    /// Fallback for a word that names no known instruction
    RAW,
    /// Clear the display
    CLS,
    /// Return from a subroutine
    RET,
    /// Machine-code routine call (ignored)
    SYS,
    /// Jump to an address
    JP,
    /// Call a subroutine
    CALL,
    /// Skip the next instruction if two values are equal
    SE,
    /// Skip the next instruction if two values differ
    SNE,
    /// Load a value
    LD,
    /// Add
    ADD,
    /// Bitwise or
    OR,
    /// Bitwise and
    AND,
    /// Bitwise exclusive or
    XOR,
    /// Subtract
    SUB,
    /// Shift right by one
    SHR,
    /// Reversed subtract
    SUBN,
    /// Shift left by one
    SHL,
    /// Random byte under a mask
    RND,
    /// Draw a sprite
    DRW,
    /// Skip the next instruction if a key is pressed
    SKP,
    /// Skip the next instruction if a key is not pressed
    SKNP,
}

/// The operands of an instruction, one variant per shape.
#[derive(Clone, Copy, Debug, PartialEq, Eq, Structural)]
pub enum AddressMode {
    /// No operands
    Implied,
    /// The whole raw word, for the fallback instruction
    OpCode { opcode: u16 },
    /// A memory address
    Addr { address: u16 },
    /// A register and an immediate byte
    VxByte { x: usize, byte: u8 },
    /// Two registers
    VxVy { x: usize, y: usize },
    /// The index register and an address
    IAddr { address: u16 },
    /// Register `V0` and an address
    V0Addr { address: u16 },
    /// Two registers and a nibble (sprite drawing)
    VxVyN { x: usize, y: usize, nibble: u8 },
    /// A single register
    Vx { x: usize },
    /// A register as destination, the delay timer as source
    VxDt { x: usize },
    /// A register as destination, a pressed key as source
    VxKey { x: usize },
    /// The delay timer as destination, a register as source
    DtVx { x: usize },
    /// The sound timer as destination, a register as source
    StVx { x: usize },
    /// The index register as destination, a register as source
    IVx { x: usize },
    /// The glyph of the digit held in a register
    FontVx { x: usize },
    /// The decimal digits of a register
    BcdVx { x: usize },
    /// Registers `V0..=Vx` stored to memory at the index register
    AddrIVx { x: usize },
    /// Registers `V0..=Vx` loaded from memory at the index register
    VxAddrI { x: usize },
}

/// A decoded instruction: its kind and its operands.
#[derive(Clone, Copy, Debug, PartialEq, Eq, Structural)]
pub struct OpCode {
    /// The kind of instruction
    pub instr: Instruction,
    /// The operands it acts on
    pub address_mode: AddressMode,
}

/// The register field `x` of a word: bits 8 to 11.
pub open spec fn field_x(w: u16) -> usize {
    ((w & 0x0F00) >> 8) as usize
}

/// The register field `y` of a word: bits 4 to 7.
pub open spec fn field_y(w: u16) -> usize {
    ((w & 0x00F0) >> 4) as usize
}

/// The nibble field `n` of a word: bits 0 to 3.
pub open spec fn field_n(w: u16) -> u8 {
    (w & 0x000F) as u8
}

/// The byte field `kk` of a word: bits 0 to 7.
pub open spec fn field_kk(w: u16) -> u8 {
    (w & 0x00FF) as u8
}

/// The address field `nnn` of a word: bits 0 to 11.
pub open spec fn field_nnn(w: u16) -> u16 {
    w & 0x0FFF
}

/// An instruction of the given kind whose operands are registers `x` and
/// `y` of `w`.
pub open spec fn with_vx_vy(instr: Instruction, w: u16) -> OpCode {
    OpCode { instr, address_mode: AddressMode::VxVy { x: field_x(w), y: field_y(w) } }
}

/// An instruction of the given kind whose operands are register `x` and the
/// byte `kk` of `w`.
pub open spec fn with_vx_byte(instr: Instruction, w: u16) -> OpCode {
    OpCode { instr, address_mode: AddressMode::VxByte { x: field_x(w), byte: field_kk(w) } }
}

/// The fallback instruction carrying the word itself.
pub open spec fn raw_spec(w: u16) -> OpCode {
    OpCode { instr: Instruction::RAW, address_mode: AddressMode::OpCode { opcode: w } }
}

/// The instruction that a 16-bit word encodes.
pub open spec fn decode_spec(w: u16) -> OpCode {
    let x = field_x(w);
    let nnn = field_nnn(w);
    match w & 0xF000 {
        0x0000u16 => match w & 0x00FF {
            0x00E0u16 => OpCode { instr: Instruction::CLS, address_mode: AddressMode::Implied },
            0x00EEu16 => OpCode { instr: Instruction::RET, address_mode: AddressMode::Implied },
            _ => raw_spec(w),
        },
        0x1000u16 => OpCode { instr: Instruction::JP, address_mode: AddressMode::Addr { address: nnn } },
        0x2000u16 => OpCode { instr: Instruction::CALL, address_mode: AddressMode::Addr { address: nnn } },
        0x3000u16 => with_vx_byte(Instruction::SE, w),
        0x4000u16 => with_vx_byte(Instruction::SNE, w),
        0x5000u16 => with_vx_vy(Instruction::SE, w),
        0x6000u16 => with_vx_byte(Instruction::LD, w),
        0x7000u16 => with_vx_byte(Instruction::ADD, w),
        0x8000u16 => match w & 0x000F {
            0x0u16 => with_vx_vy(Instruction::LD, w),
            0x1u16 => with_vx_vy(Instruction::OR, w),
            0x2u16 => with_vx_vy(Instruction::AND, w),
            0x3u16 => with_vx_vy(Instruction::XOR, w),
            0x4u16 => with_vx_vy(Instruction::ADD, w),
            0x5u16 => with_vx_vy(Instruction::SUB, w),
            0x6u16 => with_vx_vy(Instruction::SHR, w),
            0x7u16 => with_vx_vy(Instruction::SUBN, w),
            0xEu16 => with_vx_vy(Instruction::SHL, w),
            _ => raw_spec(w),
        },
        0x9000u16 => with_vx_vy(Instruction::SNE, w),
        0xA000u16 => OpCode { instr: Instruction::LD, address_mode: AddressMode::IAddr { address: nnn } },
        0xB000u16 => OpCode { instr: Instruction::JP, address_mode: AddressMode::V0Addr { address: nnn } },
        0xC000u16 => with_vx_byte(Instruction::RND, w),
        0xD000u16 => OpCode {
            instr: Instruction::DRW,
            address_mode: AddressMode::VxVyN { x, y: field_y(w), nibble: field_n(w) },
        },
        0xE000u16 => match w & 0x00FF {
            0x91u16 => OpCode { instr: Instruction::SKP, address_mode: AddressMode::Vx { x } },
            0xA1u16 => OpCode { instr: Instruction::SKNP, address_mode: AddressMode::Vx { x } },
            _ => raw_spec(w),
        },
        0xF000u16 => match w & 0x00FF {
            0x07u16 => OpCode { instr: Instruction::LD, address_mode: AddressMode::VxDt { x } },
            0x0Au16 => OpCode { instr: Instruction::LD, address_mode: AddressMode::VxKey { x } },
            0x15u16 => OpCode { instr: Instruction::LD, address_mode: AddressMode::DtVx { x } },
            0x18u16 => OpCode { instr: Instruction::LD, address_mode: AddressMode::StVx { x } },
            0x1Eu16 => OpCode { instr: Instruction::ADD, address_mode: AddressMode::IVx { x } },
            0x29u16 => OpCode { instr: Instruction::LD, address_mode: AddressMode::FontVx { x } },
            0x33u16 => OpCode { instr: Instruction::LD, address_mode: AddressMode::BcdVx { x } },
            0x55u16 => OpCode { instr: Instruction::LD, address_mode: AddressMode::AddrIVx { x } },
            0x65u16 => OpCode { instr: Instruction::LD, address_mode: AddressMode::VxAddrI { x } },
            _ => raw_spec(w),
        },
        _ => raw_spec(w),
    }
}

/// The fields of a word are as wide as their masks.
proof fn lemma_field_widths(w: u16)
    ensures
        field_x(w) < 16,
        field_y(w) < 16,
        field_n(w) < 16,
        field_nnn(w) < 0x1000,
{
    assert((w & 0x0F00) >> 8 < 16) by (bit_vector);
    assert((w & 0x00F0) >> 4 < 16) by (bit_vector);
    assert(w & 0x000F < 16) by (bit_vector);
    assert(w & 0x0FFF < 0x1000) by (bit_vector);
}

impl AddressMode {
    /// Every register index among the operands names one of the 16
    /// registers, every address has 12 bits and a sprite height 4.
    pub open spec fn wf(&self) -> bool {
        match *self {
            AddressMode::Addr { address } => address < 0x1000,
            AddressMode::IAddr { address } => address < 0x1000,
            AddressMode::V0Addr { address } => address < 0x1000,
            AddressMode::VxByte { x, .. } => x < 16,
            AddressMode::VxVy { x, y } => x < 16 && y < 16,
            AddressMode::VxVyN { x, y, nibble } => x < 16 && y < 16 && nibble < 16,
            AddressMode::Vx { x } => x < 16,
            AddressMode::VxDt { x } => x < 16,
            AddressMode::VxKey { x } => x < 16,
            AddressMode::DtVx { x } => x < 16,
            AddressMode::StVx { x } => x < 16,
            AddressMode::IVx { x } => x < 16,
            AddressMode::FontVx { x } => x < 16,
            AddressMode::BcdVx { x } => x < 16,
            AddressMode::AddrIVx { x } => x < 16,
            AddressMode::VxAddrI { x } => x < 16,
            _ => true,
        }
    }

    /// Each operand equals the field of `w` that it is read from: registers
    /// from `x` and `y`, immediates from `kk` and `n`, addresses from `nnn`,
    /// and the fallback's payload is `w` itself.
    pub open spec fn read_from(&self, w: u16) -> bool {
        match *self {
            AddressMode::Implied => true,
            AddressMode::OpCode { opcode } => opcode == w,
            AddressMode::Addr { address } => address == field_nnn(w),
            AddressMode::IAddr { address } => address == field_nnn(w),
            AddressMode::V0Addr { address } => address == field_nnn(w),
            AddressMode::VxByte { x, byte } => x == field_x(w) && byte == field_kk(w),
            AddressMode::VxVy { x, y } => x == field_x(w) && y == field_y(w),
            AddressMode::VxVyN { x, y, nibble } => x == field_x(w) && y == field_y(w) && nibble
                == field_n(w),
            AddressMode::Vx { x } => x == field_x(w),
            AddressMode::VxDt { x } => x == field_x(w),
            AddressMode::VxKey { x } => x == field_x(w),
            AddressMode::DtVx { x } => x == field_x(w),
            AddressMode::StVx { x } => x == field_x(w),
            AddressMode::IVx { x } => x == field_x(w),
            AddressMode::FontVx { x } => x == field_x(w),
            AddressMode::BcdVx { x } => x == field_x(w),
            AddressMode::AddrIVx { x } => x == field_x(w),
            AddressMode::VxAddrI { x } => x == field_x(w),
        }
    }
}

/// Decoding is total: every 16-bit word yields exactly one instruction, the
/// fallback (carrying the word) exactly when no other kind matches, and its
/// operands are the word's fields by the fixed extraction formulas, each in
/// range.
pub proof fn lemma_decode_fields(w: u16)
    ensures
        decode_spec(w).address_mode.read_from(w),
        decode_spec(w).address_mode.wf(),
        decode_spec(w).instr == Instruction::RAW <==> decode_spec(w) == raw_spec(w),
{
    lemma_field_widths(w);
}

impl OpCode {
    /// The fallback instruction, carrying a word that names no known
    /// instruction.
    pub fn raw(opcode: u16) -> (r: Self)
        ensures
            r == raw_spec(opcode),
    {
        OpCode { instr: Instruction::RAW, address_mode: AddressMode::OpCode { opcode } }
    }

    /// Decodes a 16-bit word. Every word decodes: one that names no known
    /// instruction gives the fallback instruction carrying the word.
    pub fn decode(raw: u16) -> (r: Self)
        ensures
            r == decode_spec(raw),
    {
        let x = ((raw & 0x0F00) >> 8) as usize;
        let y = ((raw & 0x00F0) >> 4) as usize;
        let n = (raw & 0x000F) as u8;
        let kk = (raw & 0x00FF) as u8;
        let nnn = raw & 0x0FFF;
        let vx_vy = AddressMode::VxVy { x, y };
        let vx_byte = AddressMode::VxByte { x, byte: kk };
        match raw & 0xF000 {
            0x0000 => match raw & 0x00FF {
                0x00E0 => OpCode { instr: Instruction::CLS, address_mode: AddressMode::Implied },
                0x00EE => OpCode { instr: Instruction::RET, address_mode: AddressMode::Implied },
                _ => Self::raw(raw),
            },
            0x1000 => OpCode { instr: Instruction::JP, address_mode: AddressMode::Addr { address: nnn } },
            0x2000 => OpCode { instr: Instruction::CALL, address_mode: AddressMode::Addr { address: nnn } },
            0x3000 => OpCode { instr: Instruction::SE, address_mode: vx_byte },
            0x4000 => OpCode { instr: Instruction::SNE, address_mode: vx_byte },
            0x5000 => OpCode { instr: Instruction::SE, address_mode: vx_vy },
            0x6000 => OpCode { instr: Instruction::LD, address_mode: vx_byte },
            0x7000 => OpCode { instr: Instruction::ADD, address_mode: vx_byte },
            0x8000 => match raw & 0x000F {
                0x0 => OpCode { instr: Instruction::LD, address_mode: vx_vy },
                0x1 => OpCode { instr: Instruction::OR, address_mode: vx_vy },
                0x2 => OpCode { instr: Instruction::AND, address_mode: vx_vy },
                0x3 => OpCode { instr: Instruction::XOR, address_mode: vx_vy },
                0x4 => OpCode { instr: Instruction::ADD, address_mode: vx_vy },
                0x5 => OpCode { instr: Instruction::SUB, address_mode: vx_vy },
                0x6 => OpCode { instr: Instruction::SHR, address_mode: vx_vy },
                0x7 => OpCode { instr: Instruction::SUBN, address_mode: vx_vy },
                0xE => OpCode { instr: Instruction::SHL, address_mode: vx_vy },
                _ => Self::raw(raw),
            },
            0x9000 => OpCode { instr: Instruction::SNE, address_mode: vx_vy },
            0xA000 => OpCode { instr: Instruction::LD, address_mode: AddressMode::IAddr { address: nnn } },
            0xB000 => OpCode { instr: Instruction::JP, address_mode: AddressMode::V0Addr { address: nnn } },
            0xC000 => OpCode { instr: Instruction::RND, address_mode: vx_byte },
            0xD000 => OpCode {
                instr: Instruction::DRW,
                address_mode: AddressMode::VxVyN { x, y, nibble: n },
            },
            0xE000 => match raw & 0x00FF {
                0x91 => OpCode { instr: Instruction::SKP, address_mode: AddressMode::Vx { x } },
                0xA1 => OpCode { instr: Instruction::SKNP, address_mode: AddressMode::Vx { x } },
                _ => Self::raw(raw),
            },
            0xF000 => match raw & 0x00FF {
                0x07 => OpCode { instr: Instruction::LD, address_mode: AddressMode::VxDt { x } },
                0x0A => OpCode { instr: Instruction::LD, address_mode: AddressMode::VxKey { x } },
                0x15 => OpCode { instr: Instruction::LD, address_mode: AddressMode::DtVx { x } },
                0x18 => OpCode { instr: Instruction::LD, address_mode: AddressMode::StVx { x } },
                0x1E => OpCode { instr: Instruction::ADD, address_mode: AddressMode::IVx { x } },
                0x29 => OpCode { instr: Instruction::LD, address_mode: AddressMode::FontVx { x } },
                0x33 => OpCode { instr: Instruction::LD, address_mode: AddressMode::BcdVx { x } },
                0x55 => OpCode { instr: Instruction::LD, address_mode: AddressMode::AddrIVx { x } },
                0x65 => OpCode { instr: Instruction::LD, address_mode: AddressMode::VxAddrI { x } },
                _ => Self::raw(raw),
            },
            _ => Self::raw(raw),
        }
    }
}

impl From<u16> for OpCode {
    /// Decodes a 16-bit word, as `OpCode::decode` does.
    fn from(raw: u16) -> (r: Self) {
        OpCode::decode(raw)
    }
}

impl vstd::std_specs::convert::FromSpecImpl<u16> for OpCode {
    open spec fn obeys_from_spec() -> bool {
        true
    }

    open spec fn from_spec(raw: u16) -> OpCode {
        decode_spec(raw)
    }
}

} // verus!
