use vstd::prelude::*;

verus! {

/// Condition under which a jump, call or return is taken.
#[derive(Debug, Clone, Copy, PartialEq, Eq, Structural)]
pub enum JumpTest {
    /// Taken when Z is set.
    Zero,
    /// Taken when Z is clear.
    NotZero,
    /// Taken when C is set.
    Carry,
    /// Taken when C is clear.
    NotCarry,
    /// Always taken.
    Always,
}

/// An 8-bit general register.
#[derive(Debug, Clone, Copy, PartialEq, Eq, Structural)]
pub enum Reg8 {
    A,
    B,
    C,
    D,
    E,
    H,
    L,
}

/// A 16-bit register pair, or the stack pointer.
#[derive(Debug, Clone, Copy, PartialEq, Eq, Structural)]
pub enum Reg16 {
    Af,
    Bc,
    De,
    Hl,
    Sp,
}

/// Where a memory operand lives.
#[derive(Debug, Clone, Copy, PartialEq, Eq, Structural)]
pub enum Addr {
    /// The address held in a register pair.
    WordReg(Reg16),
    /// A 16-bit immediate address.
    WordConst,
    /// 0xFF00 plus an 8-bit register.
    RegRel(Reg8),
    /// 0xFF00 plus an 8-bit immediate.
    ByteRel,
}

/// Where an instruction reads a value from.
#[derive(Debug, Clone, Copy, PartialEq, Eq, Structural)]
pub enum Source {
    ByteReg(Reg8),
    WordReg(Reg16),
    Deref(Addr),
    /// The byte after the opcode.
    ByteConst,
    /// The two bytes after the opcode, little-endian.
    WordConst,
}

/// Where an instruction writes a value to.
#[derive(Debug, Clone, Copy, PartialEq, Eq, Structural)]
pub enum Target {
    ByteReg(Reg8),
    WordReg(Reg16),
    Deref(Addr),
}

/// Why a prefixed opcode could not be decoded.
#[derive(Debug, Clone, Copy, PartialEq, Eq, Structural)]
pub enum DecodeError {
    /// The 0xCB-prefixed opcode `opcode` has no handler yet.
    PrefixedUnimplemented { opcode: u8 },
}

/// A decoded instruction.
#[derive(Debug, Clone, Copy, PartialEq, Eq, Structural)]
pub enum InstructionType {
    /// Increment the target.
    Inc(Target),
    /// Decrement the target.
    Dec(Target),
    /// Add the source to the target.
    Add(Target, Source),
    /// Add the source and the carry to the target.
    Adc(Target, Source),
    /// Subtract the source from A.
    Sub(Source),
    /// Subtract the source and the carry from A.
    Sbc(Source),
    /// A becomes A AND source.
    And(Source),
    /// A becomes A OR source.
    Or(Source),
    /// A becomes A XOR source.
    Xor(Source),
    /// Compare A with the source (a subtraction that only sets flags).
    Cp(Source),
    /// Complement the carry flag.
    Ccf,
    /// Set the carry flag.
    Scf,
    /// Rotate A right through the carry flag.
    Rra,
    /// Rotate A left through the carry flag.
    Rla,
    /// Rotate A right.
    Rrca,
    /// Rotate A left.
    Rlca,
    /// Complement A.
    Cpl,
    /// Decimal-adjust A.
    Daa,
    /// Jump to the source address if the test holds.
    Jp(JumpTest, Source),
    /// Jump relative by the signed source byte if the test holds.
    Jr(JumpTest, Source),
    /// Load the source into the target.
    Load(Target, Source),
    /// Load, then increment HL.
    LoadI(Target, Source),
    /// Load, then decrement HL.
    LoadD(Target, Source),
    /// Load through the high page 0xFF00-0xFFFF.
    LoadH(Target, Source),
    /// HL becomes SP plus the signed source byte.
    LoadHL(Target, Source),
    /// Push a register pair.
    Push(Reg16),
    /// Pop a register pair.
    Pop(Reg16),
    /// Call the source address if the test holds.
    Call(JumpTest, Source),
    /// Call a restart vector; the vector is given by the opcode.
    Rst(Source),
    /// Return if the test holds.
    Ret(JumpTest),
    /// Return and enable interrupts.
    Reti,
    /// Stop the processor.
    Stop(Source),
    /// Halt the processor.
    Halt,
    /// Do nothing.
    Nop,
    /// Disable interrupts.
    Di,
    /// Enable interrupts.
    Ei,
}

/// The operand that register code `code` (0 to 7) names in the regular
/// blocks of the opcode map: B, C, D, E, H, L, (HL), A.
pub open spec fn source_of_code(code: int) -> Source {
    if code == 0 {
        Source::ByteReg(Reg8::B)
    } else if code == 1 {
        Source::ByteReg(Reg8::C)
    } else if code == 2 {
        Source::ByteReg(Reg8::D)
    } else if code == 3 {
        Source::ByteReg(Reg8::E)
    } else if code == 4 {
        Source::ByteReg(Reg8::H)
    } else if code == 5 {
        Source::ByteReg(Reg8::L)
    } else if code == 6 {
        Source::Deref(Addr::WordReg(Reg16::Hl))
    } else {
        Source::ByteReg(Reg8::A)
    }
}

/// The target that register code `code` names; see `source_of_code`.
pub open spec fn target_of_code(code: int) -> Target {
    match source_of_code(code) {
        Source::ByteReg(r) => Target::ByteReg(r),
        _ => Target::Deref(Addr::WordReg(Reg16::Hl)),
    }
}

/// Opcodes 0x40 to 0x7F: LD r, r' where r is coded in bits 5-3 and r' in
/// bits 2-0; 0x76 (the place of LD (HL), (HL)) is HALT, and a register
/// loaded from itself is NOP.
pub open spec fn decode_load_block(op: u8) -> Option<(InstructionType, u8)> {
    let dst = (op - 0x40) / 8;
    let src = op % 8;
    if op == 0x76 {
        Some((InstructionType::Halt, 4))
    } else if dst == src {
        Some((InstructionType::Nop, 4))
    } else {
        Some((
            InstructionType::Load(target_of_code(dst as int), source_of_code(src as int)),
            if dst == 6 || src == 6 { 8 } else { 4 },
        ))
    }
}

/// Opcodes 0x80 to 0xBF: ADD, ADC, SUB, SBC, AND, XOR, OR, CP (bits 5-3)
/// of A with the operand coded in bits 2-0.
pub open spec fn decode_alu_block(op: u8) -> Option<(InstructionType, u8)> {
    let kind = (op - 0x80) / 8;
    let src = source_of_code((op % 8) as int);
    let cycles: u8 = if op % 8 == 6 { 8 } else { 4 };
    let instr = if kind == 0 {
        InstructionType::Add(Target::ByteReg(Reg8::A), src)
    } else if kind == 1 {
        InstructionType::Adc(Target::ByteReg(Reg8::A), src)
    } else if kind == 2 {
        InstructionType::Sub(src)
    } else if kind == 3 {
        InstructionType::Sbc(src)
    } else if kind == 4 {
        InstructionType::And(src)
    } else if kind == 5 {
        InstructionType::Xor(src)
    } else if kind == 6 {
        InstructionType::Or(src)
    } else {
        InstructionType::Cp(src)
    };
    Some((instr, cycles))
}

/// The irregular rows of the opcode map (0x00-0x3F and 0xC0-0xFF).
pub open spec fn decode_other(op: u8) -> Option<(InstructionType, u8)> {
    match op {
        // NOP
        0x00 => Some((InstructionType::Nop, 4)),
        // LD BC, nn
        0x01 => Some((InstructionType::Load(Target::WordReg(Reg16::Bc), Source::WordConst), 12)),
        // LD (BC), A
        0x02 => Some((InstructionType::Load(Target::Deref(Addr::WordReg(Reg16::Bc)), Source::ByteReg(Reg8::A)), 8)),
        // INC BC
        0x03 => Some((InstructionType::Inc(Target::WordReg(Reg16::Bc)), 8)),
        // INC B
        0x04 => Some((InstructionType::Inc(Target::ByteReg(Reg8::B)), 4)),
        // DEC B
        0x05 => Some((InstructionType::Dec(Target::ByteReg(Reg8::B)), 4)),
        // LD B, n
        0x06 => Some((InstructionType::Load(Target::ByteReg(Reg8::B), Source::ByteConst), 8)),
        // RLCA
        0x07 => Some((InstructionType::Rlca, 4)),
        // LD (nn), SP
        0x08 => Some((InstructionType::Load(Target::Deref(Addr::WordConst), Source::WordReg(Reg16::Sp)), 20)),
        // ADD HL, BC
        0x09 => Some((InstructionType::Add(Target::WordReg(Reg16::Hl), Source::WordReg(Reg16::Bc)), 8)),
        // LD A, (BC)
        0x0A => Some((InstructionType::Load(Target::ByteReg(Reg8::A), Source::Deref(Addr::WordReg(Reg16::Bc))), 8)),
        // DEC BC
        0x0B => Some((InstructionType::Dec(Target::WordReg(Reg16::Bc)), 8)),
        // INC C
        0x0C => Some((InstructionType::Inc(Target::ByteReg(Reg8::C)), 4)),
        // DEC C
        0x0D => Some((InstructionType::Dec(Target::ByteReg(Reg8::C)), 4)),
        // LD C, n
        0x0E => Some((InstructionType::Load(Target::ByteReg(Reg8::C), Source::ByteConst), 8)),
        // RRCA
        0x0F => Some((InstructionType::Rrca, 4)),
        // STOP
        0x10 => Some((InstructionType::Stop(Source::ByteConst), 4)),
        // LD DE, nn
        0x11 => Some((InstructionType::Load(Target::WordReg(Reg16::De), Source::WordConst), 12)),
        // LD (DE), A
        0x12 => Some((InstructionType::Load(Target::Deref(Addr::WordReg(Reg16::De)), Source::ByteReg(Reg8::A)), 8)),
        // INC DE
        0x13 => Some((InstructionType::Inc(Target::WordReg(Reg16::De)), 8)),
        // INC D
        0x14 => Some((InstructionType::Inc(Target::ByteReg(Reg8::D)), 4)),
        // DEC D
        0x15 => Some((InstructionType::Dec(Target::ByteReg(Reg8::D)), 4)),
        // LD D, n
        0x16 => Some((InstructionType::Load(Target::ByteReg(Reg8::D), Source::ByteConst), 8)),
        // RLA
        0x17 => Some((InstructionType::Rla, 4)),
        // JR n
        0x18 => Some((InstructionType::Jr(JumpTest::Always, Source::ByteConst), 8)),
        // ADD HL, DE
        0x19 => Some((InstructionType::Add(Target::WordReg(Reg16::Hl), Source::WordReg(Reg16::De)), 8)),
        // LD A, (DE)
        0x1A => Some((InstructionType::Load(Target::ByteReg(Reg8::A), Source::Deref(Addr::WordReg(Reg16::De))), 8)),
        // DEC DE
        0x1B => Some((InstructionType::Dec(Target::WordReg(Reg16::De)), 8)),
        // INC E
        0x1C => Some((InstructionType::Inc(Target::ByteReg(Reg8::E)), 4)),
        // DEC E
        0x1D => Some((InstructionType::Dec(Target::ByteReg(Reg8::E)), 4)),
        // LD E, n
        0x1E => Some((InstructionType::Load(Target::ByteReg(Reg8::E), Source::ByteConst), 8)),
        // RRA
        0x1F => Some((InstructionType::Rra, 4)),
        // JR NZ, n
        0x20 => Some((InstructionType::Jr(JumpTest::NotZero, Source::ByteConst), 8)),
        // LD HL, nn
        0x21 => Some((InstructionType::Load(Target::WordReg(Reg16::Hl), Source::WordConst), 12)),
        // LDI (HL), A
        0x22 => Some((InstructionType::LoadI(Target::Deref(Addr::WordReg(Reg16::Hl)), Source::ByteReg(Reg8::A)), 8)),
        // INC HL
        0x23 => Some((InstructionType::Inc(Target::WordReg(Reg16::Hl)), 8)),
        // INC H
        0x24 => Some((InstructionType::Inc(Target::ByteReg(Reg8::H)), 4)),
        // DEC H
        0x25 => Some((InstructionType::Dec(Target::ByteReg(Reg8::H)), 4)),
        // LD H, n
        0x26 => Some((InstructionType::Load(Target::ByteReg(Reg8::H), Source::ByteConst), 8)),
        // DAA
        0x27 => Some((InstructionType::Daa, 4)),
        // JR Z, n
        0x28 => Some((InstructionType::Jr(JumpTest::Zero, Source::ByteConst), 8)),
        // ADD HL, HL
        0x29 => Some((InstructionType::Add(Target::WordReg(Reg16::Hl), Source::WordReg(Reg16::Hl)), 8)),
        // LDI A, (HL)
        0x2A => Some((InstructionType::LoadI(Target::ByteReg(Reg8::A), Source::Deref(Addr::WordReg(Reg16::Hl))), 8)),
        // DEC HL
        0x2B => Some((InstructionType::Dec(Target::WordReg(Reg16::Hl)), 8)),
        // INC L
        0x2C => Some((InstructionType::Inc(Target::ByteReg(Reg8::L)), 4)),
        // DEC L
        0x2D => Some((InstructionType::Dec(Target::ByteReg(Reg8::L)), 4)),
        // LD L, n
        0x2E => Some((InstructionType::Load(Target::ByteReg(Reg8::L), Source::ByteConst), 8)),
        // CPL
        0x2F => Some((InstructionType::Cpl, 4)),
        // JR NC, n
        0x30 => Some((InstructionType::Jr(JumpTest::NotCarry, Source::ByteConst), 8)),
        // LD SP, nn
        0x31 => Some((InstructionType::Load(Target::WordReg(Reg16::Sp), Source::WordConst), 12)),
        // LDD (HL), A
        0x32 => Some((InstructionType::LoadD(Target::Deref(Addr::WordReg(Reg16::Hl)), Source::ByteReg(Reg8::A)), 8)),
        // INC SP
        0x33 => Some((InstructionType::Inc(Target::WordReg(Reg16::Sp)), 8)),
        // INC (HL)
        0x34 => Some((InstructionType::Inc(Target::Deref(Addr::WordReg(Reg16::Hl))), 12)),
        // DEC (HL)
        0x35 => Some((InstructionType::Dec(Target::Deref(Addr::WordReg(Reg16::Hl))), 12)),
        // LD (HL), n
        0x36 => Some((InstructionType::Load(Target::Deref(Addr::WordReg(Reg16::Hl)), Source::ByteConst), 12)),
        // SCF
        0x37 => Some((InstructionType::Scf, 4)),
        // JR C, n
        0x38 => Some((InstructionType::Jr(JumpTest::Carry, Source::ByteConst), 8)),
        // ADD HL, SP
        0x39 => Some((InstructionType::Add(Target::WordReg(Reg16::Hl), Source::WordReg(Reg16::Sp)), 8)),
        // LDD A, (HL)
        0x3A => Some((InstructionType::LoadD(Target::ByteReg(Reg8::A), Source::Deref(Addr::WordReg(Reg16::Hl))), 8)),
        // DEC SP
        0x3B => Some((InstructionType::Dec(Target::WordReg(Reg16::Sp)), 8)),
        // INC A
        0x3C => Some((InstructionType::Inc(Target::ByteReg(Reg8::A)), 4)),
        // DEC A
        0x3D => Some((InstructionType::Dec(Target::ByteReg(Reg8::A)), 4)),
        // LD A, n
        0x3E => Some((InstructionType::Load(Target::ByteReg(Reg8::A), Source::ByteConst), 8)),
        // CCF
        0x3F => Some((InstructionType::Ccf, 4)),
        // RET NZ
        0xC0 => Some((InstructionType::Ret(JumpTest::NotZero), 8)),
        // POP BC
        0xC1 => Some((InstructionType::Pop(Reg16::Bc), 12)),
        // JP NZ, nn
        0xC2 => Some((InstructionType::Jp(JumpTest::NotZero, Source::WordConst), 12)),
        // JP nn
        0xC3 => Some((InstructionType::Jp(JumpTest::Always, Source::WordConst), 12)),
        // CALL NZ, nn
        0xC4 => Some((InstructionType::Call(JumpTest::NotZero, Source::WordConst), 12)),
        // PUSH BC
        0xC5 => Some((InstructionType::Push(Reg16::Bc), 16)),
        // ADD A, n
        0xC6 => Some((InstructionType::Add(Target::ByteReg(Reg8::A), Source::ByteConst), 8)),
        // RST n
        0xC7 | 0xCF | 0xD7 | 0xDF | 0xE7 | 0xEF | 0xF7 | 0xFF => Some((InstructionType::Rst(Source::ByteConst), 32)),
        // RET Z
        0xC8 => Some((InstructionType::Ret(JumpTest::Zero), 8)),
        // RET
        0xC9 => Some((InstructionType::Ret(JumpTest::Always), 8)),
        // JP Z, nn
        0xCA => Some((InstructionType::Jp(JumpTest::Zero, Source::WordConst), 12)),
        // CALL Z, nn
        0xCC => Some((InstructionType::Call(JumpTest::Zero, Source::WordConst), 12)),
        // CALL nn
        0xCD => Some((InstructionType::Call(JumpTest::Always, Source::WordConst), 12)),
        // ADC A, n
        0xCE => Some((InstructionType::Adc(Target::ByteReg(Reg8::A), Source::ByteConst), 8)),
        // RET NC
        0xD0 => Some((InstructionType::Ret(JumpTest::NotCarry), 8)),
        // POP DE
        0xD1 => Some((InstructionType::Pop(Reg16::De), 12)),
        // JP NC, nn
        0xD2 => Some((InstructionType::Jp(JumpTest::NotCarry, Source::WordConst), 12)),
        // CALL NC, nn
        0xD4 => Some((InstructionType::Call(JumpTest::NotCarry, Source::WordConst), 12)),
        // PUSH DE
        0xD5 => Some((InstructionType::Push(Reg16::De), 16)),
        // SUB n
        0xD6 => Some((InstructionType::Sub(Source::ByteConst), 8)),
        // RET C
        0xD8 => Some((InstructionType::Ret(JumpTest::Carry), 8)),
        // RETI
        0xD9 => Some((InstructionType::Reti, 8)),
        // JP C, nn
        0xDA => Some((InstructionType::Jp(JumpTest::Carry, Source::WordConst), 12)),
        // CALL C, nn
        0xDC => Some((InstructionType::Call(JumpTest::Carry, Source::WordConst), 12)),
        // SBC A, n
        0xDE => Some((InstructionType::Sbc(Source::ByteConst), 8)),
        // LDH (n), A
        0xE0 => Some((InstructionType::LoadH(Target::Deref(Addr::ByteRel), Source::ByteReg(Reg8::A)), 12)),
        // POP HL
        0xE1 => Some((InstructionType::Pop(Reg16::Hl), 12)),
        // LD (C), A
        0xE2 => Some((InstructionType::LoadH(Target::Deref(Addr::RegRel(Reg8::C)), Source::ByteReg(Reg8::A)), 8)),
        // PUSH HL
        0xE5 => Some((InstructionType::Push(Reg16::Hl), 16)),
        // AND A, n
        0xE6 => Some((InstructionType::And(Source::ByteConst), 8)),
        // ADD SP, n
        0xE8 => Some((InstructionType::Add(Target::WordReg(Reg16::Sp), Source::ByteConst), 16)),
        // JP (HL)
        0xE9 => Some((InstructionType::Jp(JumpTest::Always, Source::Deref(Addr::WordReg(Reg16::Hl))), 4)),
        // LD (nn), A
        0xEA => Some((InstructionType::Load(Target::Deref(Addr::WordConst), Source::ByteReg(Reg8::A)), 16)),
        // XOR A, n
        0xEE => Some((InstructionType::Xor(Source::ByteConst), 8)),
        // LDH A, (n)
        0xF0 => Some((InstructionType::LoadH(Target::ByteReg(Reg8::A), Source::Deref(Addr::ByteRel)), 12)),
        // POP AF
        0xF1 => Some((InstructionType::Pop(Reg16::Af), 12)),
        // LD A, (C)
        0xF2 => Some((InstructionType::LoadH(Target::ByteReg(Reg8::A), Source::Deref(Addr::RegRel(Reg8::C))), 8)),
        // DI
        0xF3 => Some((InstructionType::Di, 4)),
        // PUSH AF
        0xF5 => Some((InstructionType::Push(Reg16::Af), 16)),
        // OR A, n
        0xF6 => Some((InstructionType::Or(Source::ByteConst), 8)),
        // LDHL SP, n
        0xF8 => Some((InstructionType::LoadHL(Target::WordReg(Reg16::Sp), Source::ByteConst), 12)),
        // LD SP, HL
        0xF9 => Some((InstructionType::Load(Target::WordReg(Reg16::Sp), Source::WordReg(Reg16::Hl)), 8)),
        // LD A, (nn)
        0xFA => Some((InstructionType::Load(Target::ByteReg(Reg8::A), Source::Deref(Addr::WordConst)), 16)),
        // EI
        0xFB => Some((InstructionType::Ei, 4)),
        // CP n
        0xFE => Some((InstructionType::Cp(Source::ByteConst), 8)),
        _ => None,
    }
}

/// The decoded instruction and base cycle count of an opcode, or `None`
/// where the opcode has no instruction.
pub open spec fn decode(op: u8) -> Option<(InstructionType, u8)> {
    if 0x40 <= op <= 0x7F {
        decode_load_block(op)
    } else if 0x80 <= op <= 0xBF {
        decode_alu_block(op)
    } else {
        decode_other(op)
    }
}

impl InstructionType {
    /// Decodes an unprefixed opcode into its instruction and base cycle
    /// count; an opcode with no instruction gives `None`.
    pub fn from_byte(opcode: u8) -> (r: Option<(InstructionType, u8)>)
        ensures
            r == decode(opcode),
    {
        match opcode {
            // NOP
            0x00 => Some((InstructionType::Nop, 4)),
            // LD BC, nn
            0x01 => Some((InstructionType::Load(Target::WordReg(Reg16::Bc), Source::WordConst), 12)),
            // LD (BC), A
            0x02 => Some((InstructionType::Load(Target::Deref(Addr::WordReg(Reg16::Bc)), Source::ByteReg(Reg8::A)), 8)),
            // INC BC
            0x03 => Some((InstructionType::Inc(Target::WordReg(Reg16::Bc)), 8)),
            // INC B
            0x04 => Some((InstructionType::Inc(Target::ByteReg(Reg8::B)), 4)),
            // DEC B
            0x05 => Some((InstructionType::Dec(Target::ByteReg(Reg8::B)), 4)),
            // LD B, n
            0x06 => Some((InstructionType::Load(Target::ByteReg(Reg8::B), Source::ByteConst), 8)),
            // RLCA
            0x07 => Some((InstructionType::Rlca, 4)),
            // LD (nn), SP
            0x08 => Some((InstructionType::Load(Target::Deref(Addr::WordConst), Source::WordReg(Reg16::Sp)), 20)),
            // ADD HL, BC
            0x09 => Some((InstructionType::Add(Target::WordReg(Reg16::Hl), Source::WordReg(Reg16::Bc)), 8)),
            // LD A, (BC)
            0x0A => Some((InstructionType::Load(Target::ByteReg(Reg8::A), Source::Deref(Addr::WordReg(Reg16::Bc))), 8)),
            // DEC BC
            0x0B => Some((InstructionType::Dec(Target::WordReg(Reg16::Bc)), 8)),
            // INC C
            0x0C => Some((InstructionType::Inc(Target::ByteReg(Reg8::C)), 4)),
            // DEC C
            0x0D => Some((InstructionType::Dec(Target::ByteReg(Reg8::C)), 4)),
            // LD C, n
            0x0E => Some((InstructionType::Load(Target::ByteReg(Reg8::C), Source::ByteConst), 8)),
            // RRCA
            0x0F => Some((InstructionType::Rrca, 4)),
            // STOP
            0x10 => Some((InstructionType::Stop(Source::ByteConst), 4)),
            // LD DE, nn
            0x11 => Some((InstructionType::Load(Target::WordReg(Reg16::De), Source::WordConst), 12)),
            // LD (DE), A
            0x12 => Some((InstructionType::Load(Target::Deref(Addr::WordReg(Reg16::De)), Source::ByteReg(Reg8::A)), 8)),
            // INC DE
            0x13 => Some((InstructionType::Inc(Target::WordReg(Reg16::De)), 8)),
            // INC D
            0x14 => Some((InstructionType::Inc(Target::ByteReg(Reg8::D)), 4)),
            // DEC D
            0x15 => Some((InstructionType::Dec(Target::ByteReg(Reg8::D)), 4)),
            // LD D, n
            0x16 => Some((InstructionType::Load(Target::ByteReg(Reg8::D), Source::ByteConst), 8)),
            // RLA
            0x17 => Some((InstructionType::Rla, 4)),
            // JR n
            0x18 => Some((InstructionType::Jr(JumpTest::Always, Source::ByteConst), 8)),
            // ADD HL, DE
            0x19 => Some((InstructionType::Add(Target::WordReg(Reg16::Hl), Source::WordReg(Reg16::De)), 8)),
            // LD A, (DE)
            0x1A => Some((InstructionType::Load(Target::ByteReg(Reg8::A), Source::Deref(Addr::WordReg(Reg16::De))), 8)),
            // DEC DE
            0x1B => Some((InstructionType::Dec(Target::WordReg(Reg16::De)), 8)),
            // INC E
            0x1C => Some((InstructionType::Inc(Target::ByteReg(Reg8::E)), 4)),
            // DEC E
            0x1D => Some((InstructionType::Dec(Target::ByteReg(Reg8::E)), 4)),
            // LD E, n
            0x1E => Some((InstructionType::Load(Target::ByteReg(Reg8::E), Source::ByteConst), 8)),
            // RRA
            0x1F => Some((InstructionType::Rra, 4)),
            // JR NZ, n
            0x20 => Some((InstructionType::Jr(JumpTest::NotZero, Source::ByteConst), 8)),
            // LD HL, nn
            0x21 => Some((InstructionType::Load(Target::WordReg(Reg16::Hl), Source::WordConst), 12)),
            // LDI (HL), A
            0x22 => Some((InstructionType::LoadI(Target::Deref(Addr::WordReg(Reg16::Hl)), Source::ByteReg(Reg8::A)), 8)),
            // INC HL
            0x23 => Some((InstructionType::Inc(Target::WordReg(Reg16::Hl)), 8)),
            // INC H
            0x24 => Some((InstructionType::Inc(Target::ByteReg(Reg8::H)), 4)),
            // DEC H
            0x25 => Some((InstructionType::Dec(Target::ByteReg(Reg8::H)), 4)),
            // LD H, n
            0x26 => Some((InstructionType::Load(Target::ByteReg(Reg8::H), Source::ByteConst), 8)),
            // DAA
            0x27 => Some((InstructionType::Daa, 4)),
            // JR Z, n
            0x28 => Some((InstructionType::Jr(JumpTest::Zero, Source::ByteConst), 8)),
            // ADD HL, HL
            0x29 => Some((InstructionType::Add(Target::WordReg(Reg16::Hl), Source::WordReg(Reg16::Hl)), 8)),
            // LDI A, (HL)
            0x2A => Some((InstructionType::LoadI(Target::ByteReg(Reg8::A), Source::Deref(Addr::WordReg(Reg16::Hl))), 8)),
            // DEC HL
            0x2B => Some((InstructionType::Dec(Target::WordReg(Reg16::Hl)), 8)),
            // INC L
            0x2C => Some((InstructionType::Inc(Target::ByteReg(Reg8::L)), 4)),
            // DEC L
            0x2D => Some((InstructionType::Dec(Target::ByteReg(Reg8::L)), 4)),
            // LD L, n
            0x2E => Some((InstructionType::Load(Target::ByteReg(Reg8::L), Source::ByteConst), 8)),
            // CPL
            0x2F => Some((InstructionType::Cpl, 4)),
            // JR NC, n
            0x30 => Some((InstructionType::Jr(JumpTest::NotCarry, Source::ByteConst), 8)),
            // LD SP, nn
            0x31 => Some((InstructionType::Load(Target::WordReg(Reg16::Sp), Source::WordConst), 12)),
            // LDD (HL), A
            0x32 => Some((InstructionType::LoadD(Target::Deref(Addr::WordReg(Reg16::Hl)), Source::ByteReg(Reg8::A)), 8)),
            // INC SP
            0x33 => Some((InstructionType::Inc(Target::WordReg(Reg16::Sp)), 8)),
            // INC (HL)
            0x34 => Some((InstructionType::Inc(Target::Deref(Addr::WordReg(Reg16::Hl))), 12)),
            // DEC (HL)
            0x35 => Some((InstructionType::Dec(Target::Deref(Addr::WordReg(Reg16::Hl))), 12)),
            // LD (HL), n
            0x36 => Some((InstructionType::Load(Target::Deref(Addr::WordReg(Reg16::Hl)), Source::ByteConst), 12)),
            // SCF
            0x37 => Some((InstructionType::Scf, 4)),
            // JR C, n
            0x38 => Some((InstructionType::Jr(JumpTest::Carry, Source::ByteConst), 8)),
            // ADD HL, SP
            0x39 => Some((InstructionType::Add(Target::WordReg(Reg16::Hl), Source::WordReg(Reg16::Sp)), 8)),
            // LDD A, (HL)
            0x3A => Some((InstructionType::LoadD(Target::ByteReg(Reg8::A), Source::Deref(Addr::WordReg(Reg16::Hl))), 8)),
            // DEC SP
            0x3B => Some((InstructionType::Dec(Target::WordReg(Reg16::Sp)), 8)),
            // INC A
            0x3C => Some((InstructionType::Inc(Target::ByteReg(Reg8::A)), 4)),
            // DEC A
            0x3D => Some((InstructionType::Dec(Target::ByteReg(Reg8::A)), 4)),
            // LD A, n
            0x3E => Some((InstructionType::Load(Target::ByteReg(Reg8::A), Source::ByteConst), 8)),
            // CCF
            0x3F => Some((InstructionType::Ccf, 4)),
            // LD B, B
            0x40 => Some((InstructionType::Nop, 4)),
            // LD B, C
            0x41 => Some((InstructionType::Load(Target::ByteReg(Reg8::B), Source::ByteReg(Reg8::C)), 4)),
            // LD B, D
            0x42 => Some((InstructionType::Load(Target::ByteReg(Reg8::B), Source::ByteReg(Reg8::D)), 4)),
            // LD B, E
            0x43 => Some((InstructionType::Load(Target::ByteReg(Reg8::B), Source::ByteReg(Reg8::E)), 4)),
            // LD B, H
            0x44 => Some((InstructionType::Load(Target::ByteReg(Reg8::B), Source::ByteReg(Reg8::H)), 4)),
            // LD B, L
            0x45 => Some((InstructionType::Load(Target::ByteReg(Reg8::B), Source::ByteReg(Reg8::L)), 4)),
            // LD B, (HL)
            0x46 => Some((InstructionType::Load(Target::ByteReg(Reg8::B), Source::Deref(Addr::WordReg(Reg16::Hl))), 8)),
            // LD B, A
            0x47 => Some((InstructionType::Load(Target::ByteReg(Reg8::B), Source::ByteReg(Reg8::A)), 4)),
            // LD C, B
            0x48 => Some((InstructionType::Load(Target::ByteReg(Reg8::C), Source::ByteReg(Reg8::B)), 4)),
            // LD C, C
            0x49 => Some((InstructionType::Nop, 4)),
            // LD C, D
            0x4A => Some((InstructionType::Load(Target::ByteReg(Reg8::C), Source::ByteReg(Reg8::D)), 4)),
            // LD C, E
            0x4B => Some((InstructionType::Load(Target::ByteReg(Reg8::C), Source::ByteReg(Reg8::E)), 4)),
            // LD C, H
            0x4C => Some((InstructionType::Load(Target::ByteReg(Reg8::C), Source::ByteReg(Reg8::H)), 4)),
            // LD C, L
            0x4D => Some((InstructionType::Load(Target::ByteReg(Reg8::C), Source::ByteReg(Reg8::L)), 4)),
            // LD C, (HL)
            0x4E => Some((InstructionType::Load(Target::ByteReg(Reg8::C), Source::Deref(Addr::WordReg(Reg16::Hl))), 8)),
            // LD C, A
            0x4F => Some((InstructionType::Load(Target::ByteReg(Reg8::C), Source::ByteReg(Reg8::A)), 4)),
            // LD D, B
            0x50 => Some((InstructionType::Load(Target::ByteReg(Reg8::D), Source::ByteReg(Reg8::B)), 4)),
            // LD D, C
            0x51 => Some((InstructionType::Load(Target::ByteReg(Reg8::D), Source::ByteReg(Reg8::C)), 4)),
            // LD D, D
            0x52 => Some((InstructionType::Nop, 4)),
            // LD D, E
            0x53 => Some((InstructionType::Load(Target::ByteReg(Reg8::D), Source::ByteReg(Reg8::E)), 4)),
            // LD D, H
            0x54 => Some((InstructionType::Load(Target::ByteReg(Reg8::D), Source::ByteReg(Reg8::H)), 4)),
            // LD D, L
            0x55 => Some((InstructionType::Load(Target::ByteReg(Reg8::D), Source::ByteReg(Reg8::L)), 4)),
            // LD D, (HL)
            0x56 => Some((InstructionType::Load(Target::ByteReg(Reg8::D), Source::Deref(Addr::WordReg(Reg16::Hl))), 8)),
            // LD D, A
            0x57 => Some((InstructionType::Load(Target::ByteReg(Reg8::D), Source::ByteReg(Reg8::A)), 4)),
            // LD E, B
            0x58 => Some((InstructionType::Load(Target::ByteReg(Reg8::E), Source::ByteReg(Reg8::B)), 4)),
            // LD E, C
            0x59 => Some((InstructionType::Load(Target::ByteReg(Reg8::E), Source::ByteReg(Reg8::C)), 4)),
            // LD E, D
            0x5A => Some((InstructionType::Load(Target::ByteReg(Reg8::E), Source::ByteReg(Reg8::D)), 4)),
            // LD E, E
            0x5B => Some((InstructionType::Nop, 4)),
            // LD E, H
            0x5C => Some((InstructionType::Load(Target::ByteReg(Reg8::E), Source::ByteReg(Reg8::H)), 4)),
            // LD E, L
            0x5D => Some((InstructionType::Load(Target::ByteReg(Reg8::E), Source::ByteReg(Reg8::L)), 4)),
            // LD E, (HL)
            0x5E => Some((InstructionType::Load(Target::ByteReg(Reg8::E), Source::Deref(Addr::WordReg(Reg16::Hl))), 8)),
            // LD E, A
            0x5F => Some((InstructionType::Load(Target::ByteReg(Reg8::E), Source::ByteReg(Reg8::A)), 4)),
            // LD H, B
            0x60 => Some((InstructionType::Load(Target::ByteReg(Reg8::H), Source::ByteReg(Reg8::B)), 4)),
            // LD H, C
            0x61 => Some((InstructionType::Load(Target::ByteReg(Reg8::H), Source::ByteReg(Reg8::C)), 4)),
            // LD H, D
            0x62 => Some((InstructionType::Load(Target::ByteReg(Reg8::H), Source::ByteReg(Reg8::D)), 4)),
            // LD H, E
            0x63 => Some((InstructionType::Load(Target::ByteReg(Reg8::H), Source::ByteReg(Reg8::E)), 4)),
            // LD H, H
            0x64 => Some((InstructionType::Nop, 4)),
            // LD H, L
            0x65 => Some((InstructionType::Load(Target::ByteReg(Reg8::H), Source::ByteReg(Reg8::L)), 4)),
            // LD H, (HL)
            0x66 => Some((InstructionType::Load(Target::ByteReg(Reg8::H), Source::Deref(Addr::WordReg(Reg16::Hl))), 8)),
            // LD H, A
            0x67 => Some((InstructionType::Load(Target::ByteReg(Reg8::H), Source::ByteReg(Reg8::A)), 4)),
            // LD L, B
            0x68 => Some((InstructionType::Load(Target::ByteReg(Reg8::L), Source::ByteReg(Reg8::B)), 4)),
            // LD L, C
            0x69 => Some((InstructionType::Load(Target::ByteReg(Reg8::L), Source::ByteReg(Reg8::C)), 4)),
            // LD L, D
            0x6A => Some((InstructionType::Load(Target::ByteReg(Reg8::L), Source::ByteReg(Reg8::D)), 4)),
            // LD L, E
            0x6B => Some((InstructionType::Load(Target::ByteReg(Reg8::L), Source::ByteReg(Reg8::E)), 4)),
            // LD L, H
            0x6C => Some((InstructionType::Load(Target::ByteReg(Reg8::L), Source::ByteReg(Reg8::H)), 4)),
            // LD L, L
            0x6D => Some((InstructionType::Nop, 4)),
            // LD L, (HL)
            0x6E => Some((InstructionType::Load(Target::ByteReg(Reg8::L), Source::Deref(Addr::WordReg(Reg16::Hl))), 8)),
            // LD L, A
            0x6F => Some((InstructionType::Load(Target::ByteReg(Reg8::L), Source::ByteReg(Reg8::A)), 4)),
            // LD (HL), B
            0x70 => Some((InstructionType::Load(Target::Deref(Addr::WordReg(Reg16::Hl)), Source::ByteReg(Reg8::B)), 8)),
            // LD (HL), C
            0x71 => Some((InstructionType::Load(Target::Deref(Addr::WordReg(Reg16::Hl)), Source::ByteReg(Reg8::C)), 8)),
            // LD (HL), D
            0x72 => Some((InstructionType::Load(Target::Deref(Addr::WordReg(Reg16::Hl)), Source::ByteReg(Reg8::D)), 8)),
            // LD (HL), E
            0x73 => Some((InstructionType::Load(Target::Deref(Addr::WordReg(Reg16::Hl)), Source::ByteReg(Reg8::E)), 8)),
            // LD (HL), H
            0x74 => Some((InstructionType::Load(Target::Deref(Addr::WordReg(Reg16::Hl)), Source::ByteReg(Reg8::H)), 8)),
            // LD (HL), L
            0x75 => Some((InstructionType::Load(Target::Deref(Addr::WordReg(Reg16::Hl)), Source::ByteReg(Reg8::L)), 8)),
            // HALT
            0x76 => Some((InstructionType::Halt, 4)),
            // LD (HL), A
            0x77 => Some((InstructionType::Load(Target::Deref(Addr::WordReg(Reg16::Hl)), Source::ByteReg(Reg8::A)), 8)),
            // LD A, B
            0x78 => Some((InstructionType::Load(Target::ByteReg(Reg8::A), Source::ByteReg(Reg8::B)), 4)),
            // LD A, C
            0x79 => Some((InstructionType::Load(Target::ByteReg(Reg8::A), Source::ByteReg(Reg8::C)), 4)),
            // LD A, D
            0x7A => Some((InstructionType::Load(Target::ByteReg(Reg8::A), Source::ByteReg(Reg8::D)), 4)),
            // LD A, E
            0x7B => Some((InstructionType::Load(Target::ByteReg(Reg8::A), Source::ByteReg(Reg8::E)), 4)),
            // LD A, H
            0x7C => Some((InstructionType::Load(Target::ByteReg(Reg8::A), Source::ByteReg(Reg8::H)), 4)),
            // LD A, L
            0x7D => Some((InstructionType::Load(Target::ByteReg(Reg8::A), Source::ByteReg(Reg8::L)), 4)),
            // LD A, (HL)
            0x7E => Some((InstructionType::Load(Target::ByteReg(Reg8::A), Source::Deref(Addr::WordReg(Reg16::Hl))), 8)),
            // LD A, A
            0x7F => Some((InstructionType::Nop, 4)),
            // ADD A, B
            0x80 => Some((InstructionType::Add(Target::ByteReg(Reg8::A), Source::ByteReg(Reg8::B)), 4)),
            // ADD A, C
            0x81 => Some((InstructionType::Add(Target::ByteReg(Reg8::A), Source::ByteReg(Reg8::C)), 4)),
            // ADD A, D
            0x82 => Some((InstructionType::Add(Target::ByteReg(Reg8::A), Source::ByteReg(Reg8::D)), 4)),
            // ADD A, E
            0x83 => Some((InstructionType::Add(Target::ByteReg(Reg8::A), Source::ByteReg(Reg8::E)), 4)),
            // ADD A, H
            0x84 => Some((InstructionType::Add(Target::ByteReg(Reg8::A), Source::ByteReg(Reg8::H)), 4)),
            // ADD A, L
            0x85 => Some((InstructionType::Add(Target::ByteReg(Reg8::A), Source::ByteReg(Reg8::L)), 4)),
            // ADD A, (HL)
            0x86 => Some((InstructionType::Add(Target::ByteReg(Reg8::A), Source::Deref(Addr::WordReg(Reg16::Hl))), 8)),
            // ADD A, A
            0x87 => Some((InstructionType::Add(Target::ByteReg(Reg8::A), Source::ByteReg(Reg8::A)), 4)),
            // ADC A, B
            0x88 => Some((InstructionType::Adc(Target::ByteReg(Reg8::A), Source::ByteReg(Reg8::B)), 4)),
            // ADC A, C
            0x89 => Some((InstructionType::Adc(Target::ByteReg(Reg8::A), Source::ByteReg(Reg8::C)), 4)),
            // ADC A, D
            0x8A => Some((InstructionType::Adc(Target::ByteReg(Reg8::A), Source::ByteReg(Reg8::D)), 4)),
            // ADC A, E
            0x8B => Some((InstructionType::Adc(Target::ByteReg(Reg8::A), Source::ByteReg(Reg8::E)), 4)),
            // ADC A, H
            0x8C => Some((InstructionType::Adc(Target::ByteReg(Reg8::A), Source::ByteReg(Reg8::H)), 4)),
            // ADC A, L
            0x8D => Some((InstructionType::Adc(Target::ByteReg(Reg8::A), Source::ByteReg(Reg8::L)), 4)),
            // ADC A, (HL)
            0x8E => Some((InstructionType::Adc(Target::ByteReg(Reg8::A), Source::Deref(Addr::WordReg(Reg16::Hl))), 8)),
            // ADC A, A
            0x8F => Some((InstructionType::Adc(Target::ByteReg(Reg8::A), Source::ByteReg(Reg8::A)), 4)),
            // SUB B
            0x90 => Some((InstructionType::Sub(Source::ByteReg(Reg8::B)), 4)),
            // SUB C
            0x91 => Some((InstructionType::Sub(Source::ByteReg(Reg8::C)), 4)),
            // SUB D
            0x92 => Some((InstructionType::Sub(Source::ByteReg(Reg8::D)), 4)),
            // SUB E
            0x93 => Some((InstructionType::Sub(Source::ByteReg(Reg8::E)), 4)),
            // SUB H
            0x94 => Some((InstructionType::Sub(Source::ByteReg(Reg8::H)), 4)),
            // SUB L
            0x95 => Some((InstructionType::Sub(Source::ByteReg(Reg8::L)), 4)),
            // SUB (HL)
            0x96 => Some((InstructionType::Sub(Source::Deref(Addr::WordReg(Reg16::Hl))), 8)),
            // SUB A
            0x97 => Some((InstructionType::Sub(Source::ByteReg(Reg8::A)), 4)),
            // SBC A, B
            0x98 => Some((InstructionType::Sbc(Source::ByteReg(Reg8::B)), 4)),
            // SBC A, C
            0x99 => Some((InstructionType::Sbc(Source::ByteReg(Reg8::C)), 4)),
            // SBC A, D
            0x9A => Some((InstructionType::Sbc(Source::ByteReg(Reg8::D)), 4)),
            // SBC A, E
            0x9B => Some((InstructionType::Sbc(Source::ByteReg(Reg8::E)), 4)),
            // SBC A, H
            0x9C => Some((InstructionType::Sbc(Source::ByteReg(Reg8::H)), 4)),
            // SBC A, L
            0x9D => Some((InstructionType::Sbc(Source::ByteReg(Reg8::L)), 4)),
            // SBC A, (HL)
            0x9E => Some((InstructionType::Sbc(Source::Deref(Addr::WordReg(Reg16::Hl))), 8)),
            // SBC A, A
            0x9F => Some((InstructionType::Sbc(Source::ByteReg(Reg8::A)), 4)),
            // AND A, B
            0xA0 => Some((InstructionType::And(Source::ByteReg(Reg8::B)), 4)),
            // AND A, C
            0xA1 => Some((InstructionType::And(Source::ByteReg(Reg8::C)), 4)),
            // AND A, D
            0xA2 => Some((InstructionType::And(Source::ByteReg(Reg8::D)), 4)),
            // AND A, E
            0xA3 => Some((InstructionType::And(Source::ByteReg(Reg8::E)), 4)),
            // AND A, H
            0xA4 => Some((InstructionType::And(Source::ByteReg(Reg8::H)), 4)),
            // AND A, L
            0xA5 => Some((InstructionType::And(Source::ByteReg(Reg8::L)), 4)),
            // AND A, (HL)
            0xA6 => Some((InstructionType::And(Source::Deref(Addr::WordReg(Reg16::Hl))), 8)),
            // AND A, A
            0xA7 => Some((InstructionType::And(Source::ByteReg(Reg8::A)), 4)),
            // XOR A, B
            0xA8 => Some((InstructionType::Xor(Source::ByteReg(Reg8::B)), 4)),
            // XOR A, C
            0xA9 => Some((InstructionType::Xor(Source::ByteReg(Reg8::C)), 4)),
            // XOR A, D
            0xAA => Some((InstructionType::Xor(Source::ByteReg(Reg8::D)), 4)),
            // XOR A, E
            0xAB => Some((InstructionType::Xor(Source::ByteReg(Reg8::E)), 4)),
            // XOR A, H
            0xAC => Some((InstructionType::Xor(Source::ByteReg(Reg8::H)), 4)),
            // XOR A, L
            0xAD => Some((InstructionType::Xor(Source::ByteReg(Reg8::L)), 4)),
            // XOR A, (HL)
            0xAE => Some((InstructionType::Xor(Source::Deref(Addr::WordReg(Reg16::Hl))), 8)),
            // XOR A, A
            0xAF => Some((InstructionType::Xor(Source::ByteReg(Reg8::A)), 4)),
            // OR A, B
            0xB0 => Some((InstructionType::Or(Source::ByteReg(Reg8::B)), 4)),
            // OR A, C
            0xB1 => Some((InstructionType::Or(Source::ByteReg(Reg8::C)), 4)),
            // OR A, D
            0xB2 => Some((InstructionType::Or(Source::ByteReg(Reg8::D)), 4)),
            // OR A, E
            0xB3 => Some((InstructionType::Or(Source::ByteReg(Reg8::E)), 4)),
            // OR A, H
            0xB4 => Some((InstructionType::Or(Source::ByteReg(Reg8::H)), 4)),
            // OR A, L
            0xB5 => Some((InstructionType::Or(Source::ByteReg(Reg8::L)), 4)),
            // OR A, (HL)
            0xB6 => Some((InstructionType::Or(Source::Deref(Addr::WordReg(Reg16::Hl))), 8)),
            // OR A, A
            0xB7 => Some((InstructionType::Or(Source::ByteReg(Reg8::A)), 4)),
            // CP A, B
            0xB8 => Some((InstructionType::Cp(Source::ByteReg(Reg8::B)), 4)),
            // CP A, C
            0xB9 => Some((InstructionType::Cp(Source::ByteReg(Reg8::C)), 4)),
            // CP A, D
            0xBA => Some((InstructionType::Cp(Source::ByteReg(Reg8::D)), 4)),
            // CP A, E
            0xBB => Some((InstructionType::Cp(Source::ByteReg(Reg8::E)), 4)),
            // CP A, H
            0xBC => Some((InstructionType::Cp(Source::ByteReg(Reg8::H)), 4)),
            // CP A, L
            0xBD => Some((InstructionType::Cp(Source::ByteReg(Reg8::L)), 4)),
            // CP A, (HL)
            0xBE => Some((InstructionType::Cp(Source::Deref(Addr::WordReg(Reg16::Hl))), 8)),
            // CP A, A
            0xBF => Some((InstructionType::Cp(Source::ByteReg(Reg8::A)), 4)),
            // RET NZ
            0xC0 => Some((InstructionType::Ret(JumpTest::NotZero), 8)),
            // POP BC
            0xC1 => Some((InstructionType::Pop(Reg16::Bc), 12)),
            // JP NZ, nn
            0xC2 => Some((InstructionType::Jp(JumpTest::NotZero, Source::WordConst), 12)),
            // JP nn
            0xC3 => Some((InstructionType::Jp(JumpTest::Always, Source::WordConst), 12)),
            // CALL NZ, nn
            0xC4 => Some((InstructionType::Call(JumpTest::NotZero, Source::WordConst), 12)),
            // PUSH BC
            0xC5 => Some((InstructionType::Push(Reg16::Bc), 16)),
            // ADD A, n
            0xC6 => Some((InstructionType::Add(Target::ByteReg(Reg8::A), Source::ByteConst), 8)),
            // RST n
            0xC7 | 0xCF | 0xD7 | 0xDF | 0xE7 | 0xEF | 0xF7 | 0xFF => Some((InstructionType::Rst(Source::ByteConst), 32)),
            // RET Z
            0xC8 => Some((InstructionType::Ret(JumpTest::Zero), 8)),
            // RET
            0xC9 => Some((InstructionType::Ret(JumpTest::Always), 8)),
            // JP Z, nn
            0xCA => Some((InstructionType::Jp(JumpTest::Zero, Source::WordConst), 12)),
            // CALL Z, nn
            0xCC => Some((InstructionType::Call(JumpTest::Zero, Source::WordConst), 12)),
            // CALL nn
            0xCD => Some((InstructionType::Call(JumpTest::Always, Source::WordConst), 12)),
            // ADC A, n
            0xCE => Some((InstructionType::Adc(Target::ByteReg(Reg8::A), Source::ByteConst), 8)),
            // RET NC
            0xD0 => Some((InstructionType::Ret(JumpTest::NotCarry), 8)),
            // POP DE
            0xD1 => Some((InstructionType::Pop(Reg16::De), 12)),
            // JP NC, nn
            0xD2 => Some((InstructionType::Jp(JumpTest::NotCarry, Source::WordConst), 12)),
            // CALL NC, nn
            0xD4 => Some((InstructionType::Call(JumpTest::NotCarry, Source::WordConst), 12)),
            // PUSH DE
            0xD5 => Some((InstructionType::Push(Reg16::De), 16)),
            // SUB n
            0xD6 => Some((InstructionType::Sub(Source::ByteConst), 8)),
            // RET C
            0xD8 => Some((InstructionType::Ret(JumpTest::Carry), 8)),
            // RETI
            0xD9 => Some((InstructionType::Reti, 8)),
            // JP C, nn
            0xDA => Some((InstructionType::Jp(JumpTest::Carry, Source::WordConst), 12)),
            // CALL C, nn
            0xDC => Some((InstructionType::Call(JumpTest::Carry, Source::WordConst), 12)),
            // SBC A, n
            0xDE => Some((InstructionType::Sbc(Source::ByteConst), 8)),
            // LDH (n), A
            0xE0 => Some((InstructionType::LoadH(Target::Deref(Addr::ByteRel), Source::ByteReg(Reg8::A)), 12)),
            // POP HL
            0xE1 => Some((InstructionType::Pop(Reg16::Hl), 12)),
            // LD (C), A
            0xE2 => Some((InstructionType::LoadH(Target::Deref(Addr::RegRel(Reg8::C)), Source::ByteReg(Reg8::A)), 8)),
            // PUSH HL
            0xE5 => Some((InstructionType::Push(Reg16::Hl), 16)),
            // AND A, n
            0xE6 => Some((InstructionType::And(Source::ByteConst), 8)),
            // ADD SP, n
            0xE8 => Some((InstructionType::Add(Target::WordReg(Reg16::Sp), Source::ByteConst), 16)),
            // JP (HL)
            0xE9 => Some((InstructionType::Jp(JumpTest::Always, Source::Deref(Addr::WordReg(Reg16::Hl))), 4)),
            // LD (nn), A
            0xEA => Some((InstructionType::Load(Target::Deref(Addr::WordConst), Source::ByteReg(Reg8::A)), 16)),
            // XOR A, n
            0xEE => Some((InstructionType::Xor(Source::ByteConst), 8)),
            // LDH A, (n)
            0xF0 => Some((InstructionType::LoadH(Target::ByteReg(Reg8::A), Source::Deref(Addr::ByteRel)), 12)),
            // POP AF
            0xF1 => Some((InstructionType::Pop(Reg16::Af), 12)),
            // LD A, (C)
            0xF2 => Some((InstructionType::LoadH(Target::ByteReg(Reg8::A), Source::Deref(Addr::RegRel(Reg8::C))), 8)),
            // DI
            0xF3 => Some((InstructionType::Di, 4)),
            // PUSH AF
            0xF5 => Some((InstructionType::Push(Reg16::Af), 16)),
            // OR A, n
            0xF6 => Some((InstructionType::Or(Source::ByteConst), 8)),
            // LDHL SP, n
            0xF8 => Some((InstructionType::LoadHL(Target::WordReg(Reg16::Sp), Source::ByteConst), 12)),
            // LD SP, HL
            0xF9 => Some((InstructionType::Load(Target::WordReg(Reg16::Sp), Source::WordReg(Reg16::Hl)), 8)),
            // LD A, (nn)
            0xFA => Some((InstructionType::Load(Target::ByteReg(Reg8::A), Source::Deref(Addr::WordConst)), 16)),
            // EI
            0xFB => Some((InstructionType::Ei, 4)),
            // CP n
            0xFE => Some((InstructionType::Cp(Source::ByteConst), 8)),
            _ => None,
        }
    }

    /// Decodes an opcode of the 0xCB-prefixed table. No entry of that table
    /// is implemented, so every opcode is reported as unimplemented, which
    /// callers can tell apart from an undefined opcode.
    pub fn from_byte_prefixed(opcode: u8) -> (r: Result<(InstructionType, u8), DecodeError>)
        ensures
            r == Err::<(InstructionType, u8), DecodeError>(DecodeError::PrefixedUnimplemented { opcode }),
    {
        Err(DecodeError::PrefixedUnimplemented { opcode })
    }
}

/// Exactly eleven opcodes have no instruction on the hardware, and 0xCB is
/// the escape to the prefixed table: those and no others decode to `None`.
pub proof fn lemma_undefined_opcodes(op: u8)
    ensures
        decode(op).is_none() <==> (op == 0xD3 || op == 0xDB || op == 0xDD || op == 0xE3 || op == 0xE4
            || op == 0xEB || op == 0xEC || op == 0xED || op == 0xF4 || op == 0xFC || op == 0xFD
            || op == 0xCB),
{
}

} // verus!
