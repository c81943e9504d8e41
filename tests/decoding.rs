use gbcore::instr::{Addr, DecodeError, InstructionType, JumpTest, Reg16, Reg8, Source, Target};

fn fetch(opcode: u8) -> InstructionType {
    let (instruction, _) = InstructionType::from_byte(opcode).unwrap();
    instruction
}

#[test]
fn decode() {
    assert_eq!(format!("{:?}", fetch(0x3E)), "Load(ByteReg(A), ByteConst)");
    assert_eq!(format!("{:?}", fetch(0x76)), "Halt");
}

#[test]
fn decode_cycles() {
    assert_eq!(InstructionType::from_byte(0x00), Some((InstructionType::Nop, 4)));
    assert_eq!(InstructionType::from_byte(0x76), Some((InstructionType::Halt, 4)));
    assert_eq!(
        InstructionType::from_byte(0x3E),
        Some((InstructionType::Load(Target::ByteReg(Reg8::A), Source::ByteConst), 8))
    );
}

#[test]
fn self_loads_are_nop() {
    for op in [0x40u8, 0x49, 0x52, 0x5B, 0x64, 0x6D, 0x7F] {
        assert_eq!(InstructionType::from_byte(op), Some((InstructionType::Nop, 4)));
    }
}

#[test]
fn undefined_opcodes() {
    for op in [0xD3u8, 0xDB, 0xDD, 0xE3, 0xE4, 0xEB, 0xEC, 0xED, 0xF4, 0xFC, 0xFD] {
        assert_eq!(InstructionType::from_byte(op), None);
    }
    let mut defined = 0;
    for op in 0..=255u8 {
        if InstructionType::from_byte(op).is_some() {
            defined += 1;
        }
    }
    // 256 opcodes, 11 undefined, and the 0xCB escape
    assert_eq!(defined, 244);
}

#[test]
fn prefixed_table_is_unimplemented() {
    assert_eq!(
        InstructionType::from_byte_prefixed(0x00),
        Err(DecodeError::PrefixedUnimplemented { opcode: 0x00 })
    );
    assert_eq!(
        InstructionType::from_byte_prefixed(0x7C),
        Err(DecodeError::PrefixedUnimplemented { opcode: 0x7C })
    );
}

#[test]
fn decode_regular_blocks() {
    assert_eq!(
        InstructionType::from_byte(0x46),
        Some((
            InstructionType::Load(Target::ByteReg(Reg8::B), Source::Deref(Addr::WordReg(Reg16::Hl))),
            8
        ))
    );
    assert_eq!(
        InstructionType::from_byte(0x70),
        Some((
            InstructionType::Load(Target::Deref(Addr::WordReg(Reg16::Hl)), Source::ByteReg(Reg8::B)),
            8
        ))
    );
    assert_eq!(
        InstructionType::from_byte(0x9E),
        Some((InstructionType::Sbc(Source::Deref(Addr::WordReg(Reg16::Hl))), 8))
    );
    assert_eq!(InstructionType::from_byte(0xAF), Some((InstructionType::Xor(Source::ByteReg(Reg8::A)), 4)));
    assert_eq!(InstructionType::from_byte(0xB8), Some((InstructionType::Cp(Source::ByteReg(Reg8::B)), 4)));
}

#[test]
fn decode_irregular_rows() {
    assert_eq!(
        InstructionType::from_byte(0x12),
        Some((
            InstructionType::Load(Target::Deref(Addr::WordReg(Reg16::De)), Source::ByteReg(Reg8::A)),
            8
        ))
    );
    assert_eq!(
        InstructionType::from_byte(0x22),
        Some((
            InstructionType::LoadI(Target::Deref(Addr::WordReg(Reg16::Hl)), Source::ByteReg(Reg8::A)),
            8
        ))
    );
    assert_eq!(
        InstructionType::from_byte(0xC3),
        Some((InstructionType::Jp(JumpTest::Always, Source::WordConst), 12))
    );
    assert_eq!(InstructionType::from_byte(0xF1), Some((InstructionType::Pop(Reg16::Af), 12)));
    for op in [0xC7u8, 0xCF, 0xD7, 0xDF, 0xE7, 0xEF, 0xF7, 0xFF] {
        assert_eq!(InstructionType::from_byte(op), Some((InstructionType::Rst(Source::ByteConst), 32)));
    }
}
