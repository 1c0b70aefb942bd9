use keet_8::{AddressMode, Instruction, OpCode};

fn op(instr: Instruction, address_mode: AddressMode) -> OpCode {
    OpCode { instr, address_mode }
}

#[test]
fn decodes_register_arithmetic() {
    assert_eq!(OpCode::decode(0x8014), op(Instruction::ADD, AddressMode::VxVy { x: 0, y: 1 }));
    assert_eq!(OpCode::decode(0x8AB5), op(Instruction::SUB, AddressMode::VxVy { x: 0xA, y: 0xB }));
    assert_eq!(OpCode::decode(0x8376), op(Instruction::SHR, AddressMode::VxVy { x: 3, y: 7 }));
    assert_eq!(OpCode::decode(0x812E), op(Instruction::SHL, AddressMode::VxVy { x: 1, y: 2 }));
    assert_eq!(OpCode::decode(0x8127), op(Instruction::SUBN, AddressMode::VxVy { x: 1, y: 2 }));
}

#[test]
fn decodes_immediates_and_addresses() {
    assert_eq!(OpCode::decode(0x6A42), op(Instruction::LD, AddressMode::VxByte { x: 0xA, byte: 0x42 }));
    assert_eq!(OpCode::decode(0x7105), op(Instruction::ADD, AddressMode::VxByte { x: 1, byte: 5 }));
    assert_eq!(OpCode::decode(0x1ABC), op(Instruction::JP, AddressMode::Addr { address: 0xABC }));
    assert_eq!(OpCode::decode(0x2208), op(Instruction::CALL, AddressMode::Addr { address: 0x208 }));
    assert_eq!(OpCode::decode(0xA123), op(Instruction::LD, AddressMode::IAddr { address: 0x123 }));
    assert_eq!(OpCode::decode(0xB300), op(Instruction::JP, AddressMode::V0Addr { address: 0x300 }));
    assert_eq!(OpCode::decode(0xC7F0), op(Instruction::RND, AddressMode::VxByte { x: 7, byte: 0xF0 }));
    assert_eq!(
        OpCode::decode(0xD125),
        op(Instruction::DRW, AddressMode::VxVyN { x: 1, y: 2, nibble: 5 })
    );
}

#[test]
fn decodes_control_and_skips() {
    assert_eq!(OpCode::decode(0x00E0), op(Instruction::CLS, AddressMode::Implied));
    assert_eq!(OpCode::decode(0x00EE), op(Instruction::RET, AddressMode::Implied));
    assert_eq!(OpCode::decode(0x3A10), op(Instruction::SE, AddressMode::VxByte { x: 0xA, byte: 0x10 }));
    assert_eq!(OpCode::decode(0x4A10), op(Instruction::SNE, AddressMode::VxByte { x: 0xA, byte: 0x10 }));
    assert_eq!(OpCode::decode(0x5120), op(Instruction::SE, AddressMode::VxVy { x: 1, y: 2 }));
    assert_eq!(OpCode::decode(0x9120), op(Instruction::SNE, AddressMode::VxVy { x: 1, y: 2 }));
    assert_eq!(OpCode::decode(0xE391), op(Instruction::SKP, AddressMode::Vx { x: 3 }));
    assert_eq!(OpCode::decode(0xE3A1), op(Instruction::SKNP, AddressMode::Vx { x: 3 }));
}

#[test]
fn decodes_timer_and_memory_loads() {
    assert_eq!(OpCode::decode(0xF207), op(Instruction::LD, AddressMode::VxDt { x: 2 }));
    assert_eq!(OpCode::decode(0xF20A), op(Instruction::LD, AddressMode::VxKey { x: 2 }));
    assert_eq!(OpCode::decode(0xF215), op(Instruction::LD, AddressMode::DtVx { x: 2 }));
    assert_eq!(OpCode::decode(0xF218), op(Instruction::LD, AddressMode::StVx { x: 2 }));
    assert_eq!(OpCode::decode(0xF21E), op(Instruction::ADD, AddressMode::IVx { x: 2 }));
    assert_eq!(OpCode::decode(0xF229), op(Instruction::LD, AddressMode::FontVx { x: 2 }));
    assert_eq!(OpCode::decode(0xF233), op(Instruction::LD, AddressMode::BcdVx { x: 2 }));
    assert_eq!(OpCode::decode(0xF255), op(Instruction::LD, AddressMode::AddrIVx { x: 2 }));
    assert_eq!(OpCode::decode(0xF265), op(Instruction::LD, AddressMode::VxAddrI { x: 2 }));
}

#[test]
fn unknown_words_fall_back_to_raw() {
    for w in [0x0000u16, 0x0123, 0x8008, 0x800F, 0xE09E, 0xE0FF, 0xF0FF, 0xFFFF] {
        assert_eq!(OpCode::decode(w), op(Instruction::RAW, AddressMode::OpCode { opcode: w }));
        assert_eq!(OpCode::decode(w), OpCode::raw(w));
    }
}

#[test]
fn from_agrees_with_decode() {
    for w in [0x00E0u16, 0x1234, 0x8014, 0xD125, 0xF165, 0xBEEF] {
        assert_eq!(OpCode::from(w), OpCode::decode(w));
    }
}
