//! What executing an instruction does, stated over plain values: the
//! register file, a map from readable addresses to bytes, and the two
//! state bits.
use vstd::prelude::*;
use crate::alu::{alu_add, alu_add16, alu_add_offset, alu_and, alu_cpl, alu_daa, alu_dec, alu_inc, alu_or, alu_rla, alu_rlca, alu_rra, alu_rrca, alu_sub, alu_xor, signed};
use crate::instr::{Addr, InstructionType, JumpTest, Reg16, Reg8, Source, Target, decode};
use crate::regs::{CpuFlag, Registers, hi, lo, pair};

verus! {

/// A fatal condition that ends a run.
#[derive(Debug, Clone, Copy, PartialEq, Eq, Structural)]
pub enum CpuError {
    /// The bus was asked for an address outside its mapped regions.
    InvalidAddress { addr: u16 },
    /// The opcode at `addr` has no instruction.
    UndefinedOpcode { opcode: u8, addr: u16 },
    /// The instruction at `addr` is known but has no handler.
    Unimplemented { opcode: u8, addr: u16 },
}

/// A value read from a source: a byte or a word.
#[derive(Debug, Clone, Copy, PartialEq, Eq, Structural)]
pub enum Operand {
    Byte(u8),
    Word(u16),
}

/// The processor as plain values.
pub struct CpuState {
    pub regs: Registers,
    /// The byte at each readable address.
    pub mem: Map<u16, u8>,
    /// Interrupt master enable.
    pub ime: bool,
    pub halted: bool,
}

pub open spec fn with_regs(s: CpuState, regs: Registers) -> CpuState {
    CpuState { regs, ..s }
}

pub open spec fn with_pc(s: CpuState, pc: u16) -> CpuState {
    CpuState { regs: Registers { pc, ..s.regs }, ..s }
}

/// `v + k` modulo 2^16.
pub open spec fn add16w(v: u16, k: int) -> u16 {
    ((v + k + 65536) % 65536) as u16
}

/// The byte at `addr`, or the bus fault.
pub open spec fn read8(s: CpuState, addr: u16) -> Result<u8, CpuError> {
    if s.mem.dom().contains(addr) {
        Ok(s.mem[addr])
    } else {
        Err(CpuError::InvalidAddress { addr })
    }
}

/// `s` with `v` stored at `addr`, or the bus fault.
pub open spec fn write8(s: CpuState, addr: u16, v: u8) -> Result<CpuState, CpuError> {
    if s.mem.dom().contains(addr) {
        Ok(CpuState { mem: s.mem.insert(addr, v), ..s })
    } else {
        Err(CpuError::InvalidAddress { addr })
    }
}

/// `s` with `v` stored little-endian at `addr` and `addr + 1`.
pub open spec fn write16(s: CpuState, addr: u16, v: u16) -> Result<CpuState, CpuError> {
    match write8(s, addr, lo(v)) {
        Ok(s1) => write8(s1, add16w(addr, 1), hi(v)),
        Err(e) => Err(e),
    }
}

/// The byte at PC, with PC moved past it.
pub open spec fn imm8(s: CpuState) -> Result<(CpuState, u8), CpuError> {
    match read8(s, s.regs.pc) {
        Ok(v) => Ok((with_pc(s, add16w(s.regs.pc, 1)), v)),
        Err(e) => Err(e),
    }
}

/// The little-endian word at PC, with PC moved past it.
pub open spec fn imm16(s: CpuState) -> Result<(CpuState, u16), CpuError> {
    match imm8(s) {
        Ok((s1, low)) => match imm8(s1) {
            Ok((s2, high)) => Ok((s2, pair(high, low))),
            Err(e) => Err(e),
        },
        Err(e) => Err(e),
    }
}

/// The address that `a` designates, consuming immediates.
pub open spec fn resolve_addr(s: CpuState, a: Addr) -> Result<(CpuState, u16), CpuError> {
    match a {
        Addr::WordReg(r) => Ok((s, s.regs.r16(r))),
        Addr::WordConst => imm16(s),
        Addr::RegRel(r) => Ok((s, (0xFF00 + s.regs.r8(r)) as u16)),
        Addr::ByteRel => match imm8(s) {
            Ok((s1, n)) => Ok((s1, (0xFF00 + n) as u16)),
            Err(e) => Err(e),
        },
    }
}

/// The value that `src` designates, consuming immediates.
pub open spec fn read_source(s: CpuState, src: Source) -> Result<(CpuState, Operand), CpuError> {
    match src {
        Source::ByteReg(r) => Ok((s, Operand::Byte(s.regs.r8(r)))),
        Source::WordReg(r) => Ok((s, Operand::Word(s.regs.r16(r)))),
        Source::Deref(a) => match resolve_addr(s, a) {
            Ok((s1, addr)) => match read8(s1, addr) {
                Ok(v) => Ok((s1, Operand::Byte(v))),
                Err(e) => Err(e),
            },
            Err(e) => Err(e),
        },
        Source::ByteConst => match imm8(s) {
            Ok((s1, v)) => Ok((s1, Operand::Byte(v))),
            Err(e) => Err(e),
        },
        Source::WordConst => match imm16(s) {
            Ok((s1, v)) => Ok((s1, Operand::Word(v))),
            Err(e) => Err(e),
        },
    }
}

/// `s` with `v` written to `t`; a word written to memory goes little-endian.
pub open spec fn write_target(s: CpuState, t: Target, v: Operand) -> Result<CpuState, CpuError> {
    match (t, v) {
        (Target::ByteReg(r), Operand::Byte(b)) => Ok(with_regs(s, s.regs.with_r8(r, b))),
        (Target::WordReg(r), Operand::Word(w)) => Ok(with_regs(s, s.regs.with_r16(r, w))),
        (Target::Deref(a), Operand::Byte(b)) => match resolve_addr(s, a) {
            Ok((s1, addr)) => write8(s1, addr, b),
            Err(e) => Err(e),
        },
        (Target::Deref(a), Operand::Word(w)) => match resolve_addr(s, a) {
            Ok((s1, addr)) => write16(s1, addr, w),
            Err(e) => Err(e),
        },
        _ => Ok(s),
    }
}

pub open spec fn byte_source(src: Source) -> bool {
    src is ByteReg || src is Deref || src is ByteConst
}

pub open spec fn word_source(src: Source) -> bool {
    src is WordReg || src is WordConst
}

/// Whether a load from `src` to `t` moves a value of one width.
pub open spec fn load_fits(t: Target, src: Source) -> bool {
    (byte_source(src) && !(t is WordReg)) || (word_source(src) && !(t is ByteReg))
}

/// The instruction shapes that the engine executes; any other shape is
/// reported as unimplemented before anything changes.
pub open spec fn supported(instr: InstructionType) -> bool {
    match instr {
        InstructionType::Load(t, src) => load_fits(t, src),
        InstructionType::LoadI(t, src) => load_fits(t, src),
        InstructionType::LoadD(t, src) => load_fits(t, src),
        InstructionType::LoadH(t, src) => load_fits(t, src),
        InstructionType::LoadHL(t, src) => t is WordReg && byte_source(src),
        InstructionType::Add(t, src) => match t {
            Target::ByteReg(_) => byte_source(src),
            Target::WordReg(Reg16::Sp) => byte_source(src),
            Target::WordReg(_) => word_source(src),
            Target::Deref(_) => false,
        },
        InstructionType::Adc(t, src) => t is ByteReg && byte_source(src),
        InstructionType::Sub(src) => byte_source(src),
        InstructionType::Sbc(src) => byte_source(src),
        InstructionType::And(src) => byte_source(src),
        InstructionType::Or(src) => byte_source(src),
        InstructionType::Xor(src) => byte_source(src),
        InstructionType::Cp(src) => byte_source(src),
        InstructionType::Jp(_, src) => word_source(src) || src == Source::Deref(
            Addr::WordReg(Reg16::Hl),
        ),
        InstructionType::Jr(_, src) => byte_source(src),
        InstructionType::Call(_, src) => word_source(src),
        InstructionType::Stop(src) => byte_source(src),
        _ => true,
    }
}

/// Whether a jump condition holds for the flags in `regs`.
pub open spec fn test_holds(regs: Registers, t: JumpTest) -> bool {
    match t {
        JumpTest::Zero => regs.flag(CpuFlag::Z),
        JumpTest::NotZero => !regs.flag(CpuFlag::Z),
        JumpTest::Carry => regs.flag(CpuFlag::C),
        JumpTest::NotCarry => !regs.flag(CpuFlag::C),
        JumpTest::Always => true,
    }
}

/// `s` with `v` pushed: SP moves down by two, the high byte above the low.
pub open spec fn push16(s: CpuState, v: u16) -> Result<CpuState, CpuError> {
    let sp1 = add16w(s.regs.sp, -1);
    let sp2 = add16w(s.regs.sp, -2);
    match write8(s, sp1, hi(v)) {
        Ok(s1) => match write8(s1, sp2, lo(v)) {
            Ok(s2) => Ok(CpuState { regs: Registers { sp: sp2, ..s2.regs }, ..s2 }),
            Err(e) => Err(e),
        },
        Err(e) => Err(e),
    }
}

/// The word popped from the stack, with SP moved up by two.
pub open spec fn pop16(s: CpuState) -> Result<(CpuState, u16), CpuError> {
    match read8(s, s.regs.sp) {
        Ok(low) => match read8(s, add16w(s.regs.sp, 1)) {
            Ok(high) => Ok(
                (
                    CpuState { regs: Registers { sp: add16w(s.regs.sp, 2), ..s.regs }, ..s },
                    pair(high, low),
                ),
            ),
            Err(e) => Err(e),
        },
        Err(e) => Err(e),
    }
}

/// `s` with A and F replaced by an operation's result and flags.
pub open spec fn set_a_f(s: CpuState, res: (u8, u8)) -> CpuState {
    with_regs(s, Registers { a: res.0, ..s.regs }.with_f(res.1))
}

/// `s` with F replaced.
pub open spec fn set_f(s: CpuState, f: u8) -> CpuState {
    with_regs(s, s.regs.with_f(f))
}

/// A load of `src` into `t`.
pub open spec fn exec_load(s: CpuState, t: Target, src: Source) -> Result<CpuState, CpuError> {
    match read_source(s, src) {
        Ok((s1, v)) => write_target(s1, t, v),
        Err(e) => Err(e),
    }
}

/// A load followed by HL moving by `delta`.
pub open spec fn exec_load_step(s: CpuState, t: Target, src: Source, delta: int) -> Result<
    CpuState,
    CpuError,
> {
    match exec_load(s, t, src) {
        Ok(s1) => Ok(
            with_regs(s1, s1.regs.with_r16(Reg16::Hl, add16w(s1.regs.r16(Reg16::Hl), delta))),
        ),
        Err(e) => Err(e),
    }
}

/// INC or DEC (`up` tells which) of a target.
pub open spec fn exec_inc_dec(s: CpuState, t: Target, up: bool) -> Result<CpuState, CpuError> {
    match t {
        Target::ByteReg(r) => {
            let res = if up { alu_inc(s.regs.r8(r), s.regs.f) } else { alu_dec(s.regs.r8(r), s.regs.f) };
            Ok(with_regs(s, s.regs.with_r8(r, res.0).with_f(res.1)))
        },
        Target::WordReg(r) => Ok(
            with_regs(s, s.regs.with_r16(r, add16w(s.regs.r16(r), if up { 1 } else { -1 }))),
        ),
        Target::Deref(a) => match resolve_addr(s, a) {
            Ok((s1, addr)) => match read8(s1, addr) {
                Ok(v) => {
                    let res = if up { alu_inc(v, s1.regs.f) } else { alu_dec(v, s1.regs.f) };
                    match write8(s1, addr, res.0) {
                        Ok(s2) => Ok(set_f(s2, res.1)),
                        Err(e) => Err(e),
                    }
                },
                Err(e) => Err(e),
            },
            Err(e) => Err(e),
        },
    }
}

/// The 8-bit operation of an accumulator instruction, given A, the operand
/// and F; `None` for the other instructions.
pub open spec fn acc_op(instr: InstructionType, a: u8, v: u8, f: u8) -> (u8, u8) {
    let c = crate::regs::flag_of(f, CpuFlag::C);
    match instr {
        InstructionType::Adc(_, _) => alu_add(a, v, c),
        InstructionType::Sub(_) => alu_sub(a, v, false),
        InstructionType::Sbc(_) => alu_sub(a, v, c),
        InstructionType::And(_) => alu_and(a, v),
        InstructionType::Or(_) => alu_or(a, v),
        InstructionType::Xor(_) => alu_xor(a, v),
        InstructionType::Cp(_) => alu_sub(a, v, false),
        _ => alu_add(a, v, false),
    }
}

/// An 8-bit ALU instruction on register `dst` with operand `src`; CP only
/// sets the flags.
pub open spec fn exec_acc(s: CpuState, instr: InstructionType, dst: Reg8, src: Source) -> Result<
    CpuState,
    CpuError,
> {
    match read_source(s, src) {
        Ok((s1, Operand::Byte(v))) => {
            let res = acc_op(instr, s1.regs.r8(dst), v, s1.regs.f);
            if instr is Cp {
                Ok(set_f(s1, res.1))
            } else {
                Ok(with_regs(s1, s1.regs.with_r8(dst, res.0).with_f(res.1)))
            }
        },
        Ok((s1, Operand::Word(_))) => Ok(s1),
        Err(e) => Err(e),
    }
}

/// ADD into a 16-bit register: a pair plus a word, or SP plus a signed byte.
pub open spec fn exec_add16(s: CpuState, r: Reg16, src: Source) -> Result<CpuState, CpuError> {
    match read_source(s, src) {
        Ok((s1, Operand::Word(v))) => {
            let res = alu_add16(s1.regs.r16(r), v, s1.regs.f);
            Ok(with_regs(s1, s1.regs.with_r16(r, res.0).with_f(res.1)))
        },
        Ok((s1, Operand::Byte(e))) => {
            let res = alu_add_offset(s1.regs.r16(r), e);
            Ok(with_regs(s1, s1.regs.with_r16(r, res.0).with_f(res.1)))
        },
        Err(e) => Err(e),
    }
}

/// HL becomes register `r` plus the signed byte of `src`.
pub open spec fn exec_load_hl(s: CpuState, r: Reg16, src: Source) -> Result<CpuState, CpuError> {
    match read_source(s, src) {
        Ok((s1, Operand::Byte(e))) => {
            let res = alu_add_offset(s1.regs.r16(r), e);
            Ok(with_regs(s1, s1.regs.with_r16(Reg16::Hl, res.0).with_f(res.1)))
        },
        Ok((s1, Operand::Word(_))) => Ok(s1),
        Err(e) => Err(e),
    }
}

/// A rotate or flag instruction on A and F.
pub open spec fn exec_acc_unary(s: CpuState, instr: InstructionType) -> CpuState {
    let a = s.regs.a;
    let f = s.regs.f;
    match instr {
        InstructionType::Rlca => set_a_f(s, alu_rlca(a)),
        InstructionType::Rrca => set_a_f(s, alu_rrca(a)),
        InstructionType::Rla => set_a_f(s, alu_rla(a, f)),
        InstructionType::Rra => set_a_f(s, alu_rra(a, f)),
        InstructionType::Cpl => set_a_f(s, alu_cpl(a, f)),
        InstructionType::Daa => set_a_f(s, alu_daa(a, f)),
        InstructionType::Scf => set_f(
            s,
            crate::regs::flag_bits(s.regs.flag(CpuFlag::Z), false, false, true),
        ),
        _ => set_f(
            s,
            crate::regs::flag_bits(s.regs.flag(CpuFlag::Z), false, false, !s.regs.flag(CpuFlag::C)),
        ),
    }
}

/// JP: the target is an immediate word, a register pair, or the address
/// held in HL (JP (HL)).
pub open spec fn exec_jp(s: CpuState, t: JumpTest, src: Source) -> Result<CpuState, CpuError> {
    let target = match src {
        Source::Deref(Addr::WordReg(r)) => Ok((s, s.regs.r16(r))),
        _ => match read_source(s, src) {
            Ok((s1, Operand::Word(w))) => Ok((s1, w)),
            Ok((s1, Operand::Byte(b))) => Ok((s1, b as u16)),
            Err(e) => Err(e),
        },
    };
    match target {
        Ok((s1, dest)) => Ok(if test_holds(s1.regs, t) { with_pc(s1, dest) } else { s1 }),
        Err(e) => Err(e),
    }
}

/// JR: PC moves by the signed byte when the test holds.
pub open spec fn exec_jr(s: CpuState, t: JumpTest, src: Source) -> Result<CpuState, CpuError> {
    match read_source(s, src) {
        Ok((s1, Operand::Byte(e))) => Ok(
            if test_holds(s1.regs, t) {
                with_pc(s1, add16w(s1.regs.pc, signed(e)))
            } else {
                s1
            },
        ),
        Ok((s1, Operand::Word(_))) => Ok(s1),
        Err(e) => Err(e),
    }
}

/// CALL: when the test holds, PC is pushed and replaced by the word.
pub open spec fn exec_call(s: CpuState, t: JumpTest, src: Source) -> Result<CpuState, CpuError> {
    match read_source(s, src) {
        Ok((s1, Operand::Word(dest))) => if test_holds(s1.regs, t) {
            match push16(s1, s1.regs.pc) {
                Ok(s2) => Ok(with_pc(s2, dest)),
                Err(e) => Err(e),
            }
        } else {
            Ok(s1)
        },
        Ok((s1, Operand::Byte(_))) => Ok(s1),
        Err(e) => Err(e),
    }
}

/// RET: when the test holds, PC is popped; RETI also enables interrupts.
pub open spec fn exec_ret(s: CpuState, t: JumpTest, enable: bool) -> Result<CpuState, CpuError> {
    if test_holds(s.regs, t) {
        match pop16(s) {
            Ok((s1, dest)) => Ok(CpuState { ime: s1.ime || enable, ..with_pc(s1, dest) }),
            Err(e) => Err(e),
        }
    } else {
        Ok(s)
    }
}

/// The effect of `instr`, fetched as `opcode`, on `s`, whose PC already
/// points past the opcode. Meaningful for supported shapes only.
pub open spec fn execute(s: CpuState, instr: InstructionType, opcode: u8) -> Result<CpuState, CpuError> {
    match instr {
        InstructionType::Nop => Ok(s),
        InstructionType::Halt => Ok(CpuState { halted: true, ..s }),
        InstructionType::Di => Ok(CpuState { ime: false, ..s }),
        InstructionType::Ei => Ok(CpuState { ime: true, ..s }),
        InstructionType::Stop(src) => match read_source(s, src) {
            Ok((s1, _)) => Ok(s1),
            Err(e) => Err(e),
        },
        InstructionType::Load(t, src) => exec_load(s, t, src),
        InstructionType::LoadH(t, src) => exec_load(s, t, src),
        InstructionType::LoadI(t, src) => exec_load_step(s, t, src, 1),
        InstructionType::LoadD(t, src) => exec_load_step(s, t, src, -1),
        InstructionType::LoadHL(t, src) => match t {
            Target::WordReg(r) => exec_load_hl(s, r, src),
            _ => Ok(s),
        },
        InstructionType::Inc(t) => exec_inc_dec(s, t, true),
        InstructionType::Dec(t) => exec_inc_dec(s, t, false),
        InstructionType::Add(t, src) => match t {
            Target::ByteReg(r) => exec_acc(s, instr, r, src),
            Target::WordReg(r) => exec_add16(s, r, src),
            _ => Ok(s),
        },
        InstructionType::Adc(t, src) => match t {
            Target::ByteReg(r) => exec_acc(s, instr, r, src),
            _ => Ok(s),
        },
        InstructionType::Sub(src) => exec_acc(s, instr, Reg8::A, src),
        InstructionType::Sbc(src) => exec_acc(s, instr, Reg8::A, src),
        InstructionType::And(src) => exec_acc(s, instr, Reg8::A, src),
        InstructionType::Or(src) => exec_acc(s, instr, Reg8::A, src),
        InstructionType::Xor(src) => exec_acc(s, instr, Reg8::A, src),
        InstructionType::Cp(src) => exec_acc(s, instr, Reg8::A, src),
        InstructionType::Jp(t, src) => exec_jp(s, t, src),
        InstructionType::Jr(t, src) => exec_jr(s, t, src),
        InstructionType::Call(t, src) => exec_call(s, t, src),
        InstructionType::Ret(t) => exec_ret(s, t, false),
        InstructionType::Reti => exec_ret(s, JumpTest::Always, true),
        InstructionType::Rst(_) => match push16(s, s.regs.pc) {
            Ok(s1) => Ok(with_pc(s1, (opcode & 0x38) as u16)),
            Err(e) => Err(e),
        },
        InstructionType::Push(r) => push16(s, s.regs.r16(r)),
        InstructionType::Pop(r) => match pop16(s) {
            Ok((s1, v)) => Ok(with_regs(s1, s1.regs.with_r16(r, v))),
            Err(e) => Err(e),
        },
        _ => Ok(exec_acc_unary(s, instr)),
    }
}

/// One fetch/decode/execute cycle from `s`.
pub open spec fn step(s: CpuState) -> Result<CpuState, CpuError> {
    let at = s.regs.pc;
    match imm8(s) {
        Ok((s1, opcode)) => if opcode == 0xCB {
            match imm8(s1) {
                Ok(_) => Err(CpuError::Unimplemented { opcode, addr: at }),
                Err(e) => Err(e),
            }
        } else {
            match decode(opcode) {
                None => Err(CpuError::UndefinedOpcode { opcode, addr: at }),
                Some((instr, _)) => if supported(instr) {
                    execute(s1, instr, opcode)
                } else {
                    Err(CpuError::Unimplemented { opcode, addr: at })
                },
            }
        },
        Err(e) => Err(e),
    }
}

/// Runs `step` until the processor halts, a fault occurs, or `fuel`
/// instructions have run.
pub open spec fn run(s: CpuState, fuel: nat) -> Result<CpuState, CpuError>
    decreases fuel,
{
    if s.halted || fuel == 0 {
        Ok(s)
    } else {
        match step(s) {
            Ok(s1) => run(s1, (fuel - 1) as nat),
            Err(e) => Err(e),
        }
    }
}

/// Executing any instruction but HALT leaves the run state as it was.
pub proof fn lemma_execute_keeps_running(s: CpuState, instr: InstructionType, opcode: u8)
    requires
        instr != InstructionType::Halt,
        execute(s, instr, opcode) is Ok,
    ensures
        execute(s, instr, opcode)->Ok_0.halted == s.halted,
{
    lemma_read_source_keeps_halted(s);
    match instr {
        InstructionType::Load(t, src) | InstructionType::LoadH(t, src) | InstructionType::LoadI(t, src)
        | InstructionType::LoadD(t, src) => {
            if let Ok((s1, v)) = read_source(s, src) {
                lemma_write_target_keeps_halted(s1, t, v);
            }
        },
        InstructionType::Inc(t) | InstructionType::Dec(t) => {
            lemma_resolve_keeps_halted(s);
        },
        InstructionType::Call(_, src) => {
            if let Ok((s1, v)) = read_source(s, src) {
                lemma_push_keeps_halted(s1, s1.regs.pc);
            }
        },
        InstructionType::Rst(_) => {
            lemma_push_keeps_halted(s, s.regs.pc);
        },
        InstructionType::Push(r) => {
            lemma_push_keeps_halted(s, s.regs.r16(r));
        },
        _ => {},
    }
}

proof fn lemma_resolve_keeps_halted(s: CpuState)
    ensures
        forall|a: Addr| #[trigger] resolve_addr(s, a) is Ok ==> resolve_addr(s, a)->Ok_0.0.halted == s.halted,
{
}

proof fn lemma_read_source_keeps_halted(s: CpuState)
    ensures
        forall|src: Source| #[trigger] read_source(s, src) is Ok ==> read_source(s, src)->Ok_0.0.halted == s.halted,
{
    lemma_resolve_keeps_halted(s);
}

proof fn lemma_write_target_keeps_halted(s: CpuState, t: Target, v: Operand)
    ensures
        write_target(s, t, v) is Ok ==> write_target(s, t, v)->Ok_0.halted == s.halted,
{
    lemma_resolve_keeps_halted(s);
}

proof fn lemma_push_keeps_halted(s: CpuState, v: u16)
    ensures
        push16(s, v) is Ok ==> push16(s, v)->Ok_0.halted == s.halted,
{
}

/// The processor enters the halted state only by executing HALT: a step
/// from a running state that ends halted decoded opcode 0x76.
pub proof fn lemma_only_halt_halts(s: CpuState)
    requires
        !s.halted,
        step(s) is Ok,
        step(s)->Ok_0.halted,
    ensures
        imm8(s) is Ok,
        imm8(s)->Ok_0.1 == 0x76,
{
    let (s1, opcode) = imm8(s)->Ok_0;
    if let Some((instr, _)) = decode(opcode) {
        if instr != InstructionType::Halt {
            lemma_execute_keeps_running(s1, instr, opcode);
        } else {
            assert(decode(opcode) == Some((InstructionType::Halt, 4u8)));
        }
    }
}

/// Every instruction in the decode table has a shape that the engine
/// executes.
pub proof fn lemma_decoded_supported(op: u8)
    ensures
        decode(op) is Some ==> supported(decode(op)->Some_0.0),
{
}

} // verus!
