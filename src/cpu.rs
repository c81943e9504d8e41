//! The execution engine: fetches, decodes and executes instructions against
//! the register file and the bus.
use vstd::prelude::*;
use crate::alu::{
    add16, add8, add_offset, and8, cpl8, daa8, dec8, inc8, make_flags, or8, rla8, rlca8, rra8, rrca8,
    sub8, test_flag, xor8,
};
use crate::cartridge::CartContext;
use crate::instr::{Addr, DecodeError, InstructionType, JumpTest, Reg16, Reg8, Source, Target};
use crate::memory::{Memory, Mmu, lemma_mmu_domain, mapped};
use crate::regs::{CpuFlag, Registers, hi, lo, pair};
use crate::semantics::{CpuError, CpuState, Operand, supported};
use crate::semantics;

verus! {

/// What a call left behind: `r` and the state `after` agree with the
/// expected outcome; on a fault only the fault is fixed.
pub open spec fn outcome<T>(r: Result<T, CpuError>, after: CpuState, expected: Result<(CpuState, T), CpuError>) -> bool {
    match expected {
        Ok((s, v)) => r == Ok::<T, CpuError>(v) && after == s,
        Err(e) => r == Err::<T, CpuError>(e),
    }
}

/// `outcome` for calls that return no value.
pub open spec fn outcome_state(r: Result<(), CpuError>, after: CpuState, expected: Result<CpuState, CpuError>) -> bool {
    match expected {
        Ok(s) => r == Ok::<(), CpuError>(()) && after == s,
        Err(e) => r == Err::<(), CpuError>(e),
    }
}

/// `v + 1` modulo 2^16.
fn inc16w(v: u16) -> (r: u16)
    ensures
        r == semantics::add16w(v, 1),
{
    if v == 0xFFFF { 0 } else { v + 1 }
}

/// `v - 1` modulo 2^16.
fn dec16w(v: u16) -> (r: u16)
    ensures
        r == semantics::add16w(v, -1),
{
    if v == 0 { 0xFFFF } else { v - 1 }
}

/// `v` plus the signed byte `e`, modulo 2^16.
fn offset16w(v: u16, e: u8) -> (r: u16)
    ensures
        r == semantics::add16w(v, crate::alu::signed(e)),
{
    if e < 128 {
        ((v as u32 + e as u32) % 65536) as u16
    } else {
        ((v as u32 + 65536 + e as u32 - 256) % 65536) as u16
    }
}

/// Whether the jump condition holds for the flags in `regs`.
fn test_holds(regs: &Registers, t: JumpTest) -> (r: bool)
    ensures
        r == semantics::test_holds(*regs, t),
{
    match t {
        JumpTest::Zero => regs.get_flag(CpuFlag::Z),
        JumpTest::NotZero => !regs.get_flag(CpuFlag::Z),
        JumpTest::Carry => regs.get_flag(CpuFlag::C),
        JumpTest::NotCarry => !regs.get_flag(CpuFlag::C),
        JumpTest::Always => true,
    }
}

/// The processor: register file, bus, interrupt-enable bit and run state.
pub struct Cpu {
    pub regs: Registers,
    pub mmu: Mmu,
    /// Interrupt master enable.
    pub ime: bool,
    pub halted: bool,
}

impl Cpu {
    /// The processor as plain values.
    pub open spec fn state(&self) -> CpuState {
        CpuState { regs: self.regs, mem: self.mmu.bytes(), ime: self.ime, halted: self.halted }
    }

    /// The bus is consistent and F's low nibble is clear.
    pub open spec fn inv(&self) -> bool {
        self.mmu.inv() && self.regs.wf()
    }

    /// A processor with the power-up register values, running, interrupts
    /// enabled, over a bus built from `cartridge`.
    pub fn new(cartridge: &CartContext) -> (r: Cpu)
        ensures
            r.inv(),
            r.regs == Registers::power_up(),
            r.ime,
            !r.halted,
            forall|a: u16| #[trigger] r.state().mem.dom().contains(a) <==> mapped(a),
            forall|a: u16|
                a <= 0x7FFF ==> #[trigger] r.state().mem[a] == (if (a as int)
                    < cartridge.rom_data@.len() {
                    cartridge.rom_data@[a as int]
                } else {
                    0u8
                }),
            forall|a: u16| 0xC000 <= a <= 0xDFFF ==> #[trigger] r.state().mem[a] == 0,
            forall|a: u16| 0xFF80 <= a <= 0xFFFE ==> #[trigger] r.state().mem[a] == 0,
    {
        Cpu { regs: Registers::new(), mmu: Mmu::new(cartridge), ime: true, halted: false }
    }

    /// The byte at `addr`; an address outside the mapped regions gives
    /// `InvalidAddress`.
    pub fn bus_read(&self, addr: u16) -> (r: Result<u8, CpuError>)
        requires
            self.inv(),
        ensures
            r == semantics::read8(self.state(), addr),
    {
        proof {
            lemma_mmu_domain(&self.mmu);
        }
        if addr <= 0x7FFF || (0xC000 <= addr && addr <= 0xDFFF) || (0xFF80 <= addr && addr <= 0xFFFE) {
            Ok(self.mmu.fetch_byte(addr))
        } else {
            Err(CpuError::InvalidAddress { addr })
        }
    }

    /// Stores `v` at `addr`; an address outside the mapped regions gives
    /// `InvalidAddress` and changes nothing.
    pub fn bus_write(&mut self, addr: u16, v: u8) -> (r: Result<(), CpuError>)
        requires
            old(self).inv(),
        ensures
            final(self).inv(),
            outcome_state(r, final(self).state(), semantics::write8(old(self).state(), addr, v)),
    {
        proof {
            lemma_mmu_domain(&self.mmu);
        }
        if addr <= 0x7FFF || (0xC000 <= addr && addr <= 0xDFFF) || (0xFF80 <= addr && addr <= 0xFFFE) {
            self.mmu.set_byte(addr, v);
            Ok(())
        } else {
            Err(CpuError::InvalidAddress { addr })
        }
    }

    fn bus_write16(&mut self, addr: u16, v: u16) -> (r: Result<(), CpuError>)
        requires
            old(self).inv(),
        ensures
            final(self).inv(),
            outcome_state(r, final(self).state(), semantics::write16(old(self).state(), addr, v)),
    {
        match self.bus_write(addr, (v % 256) as u8) {
            Ok(()) => self.bus_write(inc16w(addr), (v / 256) as u8),
            Err(e) => Err(e),
        }
    }

    /// The byte at PC; PC moves past it.
    pub(crate) fn fetch_imm8(&mut self) -> (r: Result<u8, CpuError>)
        requires
            old(self).inv(),
        ensures
            final(self).inv(),
            outcome(r, final(self).state(), semantics::imm8(old(self).state())),
    {
        match self.bus_read(self.regs.pc) {
            Ok(v) => {
                self.regs.pc = inc16w(self.regs.pc);
                Ok(v)
            },
            Err(e) => Err(e),
        }
    }

    /// The little-endian word at PC; PC moves past it.
    fn fetch_imm16(&mut self) -> (r: Result<u16, CpuError>)
        requires
            old(self).inv(),
        ensures
            final(self).inv(),
            outcome(r, final(self).state(), semantics::imm16(old(self).state())),
    {
        match self.fetch_imm8() {
            Ok(low) => match self.fetch_imm8() {
                Ok(high) => Ok((high as u16) * 256 + low as u16),
                Err(e) => Err(e),
            },
            Err(e) => Err(e),
        }
    }

    fn resolve(&mut self, a: Addr) -> (r: Result<u16, CpuError>)
        requires
            old(self).inv(),
        ensures
            final(self).inv(),
            outcome(r, final(self).state(), semantics::resolve_addr(old(self).state(), a)),
    {
        match a {
            Addr::WordReg(r) => Ok(self.regs.read16(r)),
            Addr::WordConst => self.fetch_imm16(),
            Addr::RegRel(r) => Ok(0xFF00 + self.regs.read8(r) as u16),
            Addr::ByteRel => match self.fetch_imm8() {
                Ok(n) => Ok(0xFF00 + n as u16),
                Err(e) => Err(e),
            },
        }
    }

    fn read_src(&mut self, src: Source) -> (r: Result<Operand, CpuError>)
        requires
            old(self).inv(),
        ensures
            final(self).inv(),
            outcome(r, final(self).state(), semantics::read_source(old(self).state(), src)),
    {
        match src {
            Source::ByteReg(r) => Ok(Operand::Byte(self.regs.read8(r))),
            Source::WordReg(r) => Ok(Operand::Word(self.regs.read16(r))),
            Source::Deref(a) => match self.resolve(a) {
                Ok(addr) => match self.bus_read(addr) {
                    Ok(v) => Ok(Operand::Byte(v)),
                    Err(e) => Err(e),
                },
                Err(e) => Err(e),
            },
            Source::ByteConst => match self.fetch_imm8() {
                Ok(v) => Ok(Operand::Byte(v)),
                Err(e) => Err(e),
            },
            Source::WordConst => match self.fetch_imm16() {
                Ok(v) => Ok(Operand::Word(v)),
                Err(e) => Err(e),
            },
        }
    }

    fn write_dst(&mut self, t: Target, v: Operand) -> (r: Result<(), CpuError>)
        requires
            old(self).inv(),
        ensures
            final(self).inv(),
            outcome_state(r, final(self).state(), semantics::write_target(old(self).state(), t, v)),
    {
        match (t, v) {
            (Target::ByteReg(r), Operand::Byte(b)) => {
                self.regs.write8(r, b);
                Ok(())
            },
            (Target::WordReg(r), Operand::Word(w)) => {
                self.regs.write16(r, w);
                Ok(())
            },
            (Target::Deref(a), Operand::Byte(b)) => match self.resolve(a) {
                Ok(addr) => self.bus_write(addr, b),
                Err(e) => Err(e),
            },
            (Target::Deref(a), Operand::Word(w)) => match self.resolve(a) {
                Ok(addr) => self.bus_write16(addr, w),
                Err(e) => Err(e),
            },
            _ => Ok(()),
        }
    }

    fn push16(&mut self, v: u16) -> (r: Result<(), CpuError>)
        requires
            old(self).inv(),
        ensures
            final(self).inv(),
            outcome_state(r, final(self).state(), semantics::push16(old(self).state(), v)),
    {
        let sp1 = dec16w(self.regs.sp);
        let sp2 = dec16w(sp1);
        assert(sp2 == semantics::add16w(old(self).regs.sp, -2));
        match self.bus_write(sp1, (v / 256) as u8) {
            Ok(()) => match self.bus_write(sp2, (v % 256) as u8) {
                Ok(()) => {
                    self.regs.sp = sp2;
                    Ok(())
                },
                Err(e) => Err(e),
            },
            Err(e) => Err(e),
        }
    }

    fn pop16(&mut self) -> (r: Result<u16, CpuError>)
        requires
            old(self).inv(),
        ensures
            final(self).inv(),
            outcome(r, final(self).state(), semantics::pop16(old(self).state())),
    {
        let sp = self.regs.sp;
        match self.bus_read(sp) {
            Ok(low) => match self.bus_read(inc16w(sp)) {
                Ok(high) => {
                    self.regs.sp = inc16w(inc16w(sp));
                    assert(self.regs.sp == semantics::add16w(sp, 2));
                    Ok((high as u16) * 256 + low as u16)
                },
                Err(e) => Err(e),
            },
            Err(e) => Err(e),
        }
    }

    fn exec_load(&mut self, t: Target, src: Source) -> (r: Result<(), CpuError>)
        requires
            old(self).inv(),
        ensures
            final(self).inv(),
            outcome_state(r, final(self).state(), semantics::exec_load(old(self).state(), t, src)),
    {
        match self.read_src(src) {
            Ok(v) => self.write_dst(t, v),
            Err(e) => Err(e),
        }
    }

    fn exec_load_step(&mut self, t: Target, src: Source, up: bool) -> (r: Result<(), CpuError>)
        requires
            old(self).inv(),
        ensures
            final(self).inv(),
            outcome_state(
                r,
                final(self).state(),
                semantics::exec_load_step(old(self).state(), t, src, if up { 1 } else { -1 }),
            ),
    {
        match self.exec_load(t, src) {
            Ok(()) => {
                let hl = self.regs.hl();
                let moved = if up { inc16w(hl) } else { dec16w(hl) };
                self.regs.set_hl(moved);
                Ok(())
            },
            Err(e) => Err(e),
        }
    }

    fn exec_inc_dec(&mut self, t: Target, up: bool) -> (r: Result<(), CpuError>)
        requires
            old(self).inv(),
        ensures
            final(self).inv(),
            outcome_state(r, final(self).state(), semantics::exec_inc_dec(old(self).state(), t, up)),
    {
        match t {
            Target::ByteReg(r) => {
                let v = self.regs.read8(r);
                let res = if up { inc8(v, self.regs.f) } else { dec8(v, self.regs.f) };
                self.regs.write8(r, res.0);
                self.regs.set_flags(res.1);
                Ok(())
            },
            Target::WordReg(r) => {
                let v = self.regs.read16(r);
                let moved = if up { inc16w(v) } else { dec16w(v) };
                self.regs.write16(r, moved);
                Ok(())
            },
            Target::Deref(a) => match self.resolve(a) {
                Ok(addr) => match self.bus_read(addr) {
                    Ok(v) => {
                        let res = if up { inc8(v, self.regs.f) } else { dec8(v, self.regs.f) };
                        match self.bus_write(addr, res.0) {
                            Ok(()) => {
                                self.regs.set_flags(res.1);
                                Ok(())
                            },
                            Err(e) => Err(e),
                        }
                    },
                    Err(e) => Err(e),
                },
                Err(e) => Err(e),
            },
        }
    }

    fn exec_acc(&mut self, instr: InstructionType, dst: Reg8, src: Source) -> (r: Result<(), CpuError>)
        requires
            old(self).inv(),
        ensures
            final(self).inv(),
            outcome_state(r, final(self).state(), semantics::exec_acc(old(self).state(), instr, dst, src)),
    {
        match self.read_src(src) {
            Ok(Operand::Byte(v)) => {
                let res = acc_op(instr, self.regs.read8(dst), v, self.regs.f);
                if !matches!(instr, InstructionType::Cp(_)) {
                    self.regs.write8(dst, res.0);
                }
                self.regs.set_flags(res.1);
                Ok(())
            },
            Ok(Operand::Word(_)) => Ok(()),
            Err(e) => Err(e),
        }
    }

    fn exec_add16(&mut self, r: Reg16, src: Source) -> (res: Result<(), CpuError>)
        requires
            old(self).inv(),
        ensures
            final(self).inv(),
            outcome_state(res, final(self).state(), semantics::exec_add16(old(self).state(), r, src)),
    {
        match self.read_src(src) {
            Ok(Operand::Word(v)) => {
                let out = add16(self.regs.read16(r), v, self.regs.f);
                self.regs.write16(r, out.0);
                self.regs.set_flags(out.1);
                Ok(())
            },
            Ok(Operand::Byte(e)) => {
                let out = add_offset(self.regs.read16(r), e);
                self.regs.write16(r, out.0);
                self.regs.set_flags(out.1);
                Ok(())
            },
            Err(e) => Err(e),
        }
    }

    fn exec_load_hl(&mut self, r: Reg16, src: Source) -> (res: Result<(), CpuError>)
        requires
            old(self).inv(),
        ensures
            final(self).inv(),
            outcome_state(res, final(self).state(), semantics::exec_load_hl(old(self).state(), r, src)),
    {
        match self.read_src(src) {
            Ok(Operand::Byte(e)) => {
                let out = add_offset(self.regs.read16(r), e);
                self.regs.set_hl(out.0);
                self.regs.set_flags(out.1);
                Ok(())
            },
            Ok(Operand::Word(_)) => Ok(()),
            Err(e) => Err(e),
        }
    }

    fn exec_acc_unary(&mut self, instr: InstructionType)
        requires
            old(self).inv(),
        ensures
            final(self).inv(),
            final(self).state() == semantics::exec_acc_unary(old(self).state(), instr),
    {
        let a = self.regs.a;
        let f = self.regs.f;
        let res = match instr {
            InstructionType::Rlca => rlca8(a),
            InstructionType::Rrca => rrca8(a),
            InstructionType::Rla => rla8(a, f),
            InstructionType::Rra => rra8(a, f),
            InstructionType::Cpl => cpl8(a, f),
            InstructionType::Daa => daa8(a, f),
            InstructionType::Scf => (a, make_flags(test_flag(f, CpuFlag::Z), false, false, true)),
            _ => (a, make_flags(test_flag(f, CpuFlag::Z), false, false, !test_flag(f, CpuFlag::C))),
        };
        self.regs.a = res.0;
        self.regs.set_flags(res.1);
    }

    fn exec_jp(&mut self, t: JumpTest, src: Source) -> (r: Result<(), CpuError>)
        requires
            old(self).inv(),
        ensures
            final(self).inv(),
            outcome_state(r, final(self).state(), semantics::exec_jp(old(self).state(), t, src)),
    {
        let dest = match src {
            Source::Deref(Addr::WordReg(r)) => self.regs.read16(r),
            _ => match self.read_src(src) {
                Ok(Operand::Word(w)) => w,
                Ok(Operand::Byte(b)) => b as u16,
                Err(e) => {
                    return Err(e);
                },
            },
        };
        if test_holds(&self.regs, t) {
            self.regs.pc = dest;
        }
        Ok(())
    }

    fn exec_jr(&mut self, t: JumpTest, src: Source) -> (r: Result<(), CpuError>)
        requires
            old(self).inv(),
        ensures
            final(self).inv(),
            outcome_state(r, final(self).state(), semantics::exec_jr(old(self).state(), t, src)),
    {
        match self.read_src(src) {
            Ok(Operand::Byte(e)) => {
                if test_holds(&self.regs, t) {
                    self.regs.pc = offset16w(self.regs.pc, e);
                }
                Ok(())
            },
            Ok(Operand::Word(_)) => Ok(()),
            Err(e) => Err(e),
        }
    }

    fn exec_call(&mut self, t: JumpTest, src: Source) -> (r: Result<(), CpuError>)
        requires
            old(self).inv(),
        ensures
            final(self).inv(),
            outcome_state(r, final(self).state(), semantics::exec_call(old(self).state(), t, src)),
    {
        match self.read_src(src) {
            Ok(Operand::Word(dest)) => {
                if test_holds(&self.regs, t) {
                    let pc = self.regs.pc;
                    match self.push16(pc) {
                        Ok(()) => {
                            self.regs.pc = dest;
                            Ok(())
                        },
                        Err(e) => Err(e),
                    }
                } else {
                    Ok(())
                }
            },
            Ok(Operand::Byte(_)) => Ok(()),
            Err(e) => Err(e),
        }
    }

    fn exec_ret(&mut self, t: JumpTest, enable: bool) -> (r: Result<(), CpuError>)
        requires
            old(self).inv(),
        ensures
            final(self).inv(),
            outcome_state(r, final(self).state(), semantics::exec_ret(old(self).state(), t, enable)),
    {
        if test_holds(&self.regs, t) {
            match self.pop16() {
                Ok(dest) => {
                    self.regs.pc = dest;
                    self.ime = self.ime || enable;
                    Ok(())
                },
                Err(e) => Err(e),
            }
        } else {
            Ok(())
        }
    }

    /// Executes `instr`, fetched as `opcode`, with PC already past the
    /// opcode. Only shapes that have a handler are accepted; `step` reports
    /// any other shape as `Unimplemented`.
    #[verifier::rlimit(60)]
    pub fn execute(&mut self, instr: InstructionType, opcode: u8) -> (r: Result<(), CpuError>)
        requires
            old(self).inv(),
            supported(instr),
        ensures
            final(self).inv(),
            outcome_state(r, final(self).state(), semantics::execute(old(self).state(), instr, opcode)),
    {
        match instr {
            InstructionType::Nop => Ok(()),
            InstructionType::Halt => {
                self.halted = true;
                Ok(())
            },
            InstructionType::Di => {
                self.ime = false;
                Ok(())
            },
            InstructionType::Ei => {
                self.ime = true;
                Ok(())
            },
            InstructionType::Stop(src) => match self.read_src(src) {
                Ok(_) => Ok(()),
                Err(e) => Err(e),
            },
            InstructionType::Load(t, src) => self.exec_load(t, src),
            InstructionType::LoadH(t, src) => self.exec_load(t, src),
            InstructionType::LoadI(t, src) => self.exec_load_step(t, src, true),
            InstructionType::LoadD(t, src) => self.exec_load_step(t, src, false),
            InstructionType::LoadHL(t, src) => match t {
                Target::WordReg(r) => self.exec_load_hl(r, src),
                _ => Ok(()),
            },
            InstructionType::Inc(t) => self.exec_inc_dec(t, true),
            InstructionType::Dec(t) => self.exec_inc_dec(t, false),
            InstructionType::Add(t, src) => match t {
                Target::ByteReg(r) => self.exec_acc(instr, r, src),
                Target::WordReg(r) => self.exec_add16(r, src),
                _ => Ok(()),
            },
            InstructionType::Adc(t, src) => match t {
                Target::ByteReg(r) => self.exec_acc(instr, r, src),
                _ => Ok(()),
            },
            InstructionType::Sub(src) => self.exec_acc(instr, Reg8::A, src),
            InstructionType::Sbc(src) => self.exec_acc(instr, Reg8::A, src),
            InstructionType::And(src) => self.exec_acc(instr, Reg8::A, src),
            InstructionType::Or(src) => self.exec_acc(instr, Reg8::A, src),
            InstructionType::Xor(src) => self.exec_acc(instr, Reg8::A, src),
            InstructionType::Cp(src) => self.exec_acc(instr, Reg8::A, src),
            InstructionType::Jp(t, src) => self.exec_jp(t, src),
            InstructionType::Jr(t, src) => self.exec_jr(t, src),
            InstructionType::Call(t, src) => self.exec_call(t, src),
            InstructionType::Ret(t) => self.exec_ret(t, false),
            InstructionType::Reti => self.exec_ret(JumpTest::Always, true),
            InstructionType::Rst(_) => {
                let pc = self.regs.pc;
                match self.push16(pc) {
                    Ok(()) => {
                        self.regs.pc = (opcode & 0x38) as u16;
                        Ok(())
                    },
                    Err(e) => Err(e),
                }
            },
            InstructionType::Push(r) => {
                let v = self.regs.read16(r);
                self.push16(v)
            },
            InstructionType::Pop(r) => match self.pop16() {
                Ok(v) => {
                    self.regs.write16(r, v);
                    Ok(())
                },
                Err(e) => Err(e),
            },
            _ => {
                self.exec_acc_unary(instr);
                Ok(())
            },
        }
    }
}

/// The 8-bit operation of an accumulator instruction.
fn acc_op(instr: InstructionType, a: u8, v: u8, f: u8) -> (r: (u8, u8))
    ensures
        r == semantics::acc_op(instr, a, v, f),
{
    let c = test_flag(f, CpuFlag::C);
    match instr {
        InstructionType::Adc(_, _) => add8(a, v, c),
        InstructionType::Sub(_) => sub8(a, v, false),
        InstructionType::Sbc(_) => sub8(a, v, c),
        InstructionType::And(_) => and8(a, v),
        InstructionType::Or(_) => or8(a, v),
        InstructionType::Xor(_) => xor8(a, v),
        InstructionType::Cp(_) => sub8(a, v, false),
        _ => add8(a, v, false),
    }
}

/// Whether the engine executes instructions of this shape.
#[verifier::rlimit(50)]
pub fn is_supported(instr: InstructionType) -> (r: bool)
    ensures
        r == supported(instr),
{
    match instr {
        InstructionType::Load(t, src) => load_fits(t, src),
        InstructionType::LoadI(t, src) => load_fits(t, src),
        InstructionType::LoadD(t, src) => load_fits(t, src),
        InstructionType::LoadH(t, src) => load_fits(t, src),
        InstructionType::LoadHL(t, src) => matches!(t, Target::WordReg(_)) && byte_source(src),
        InstructionType::Add(t, src) => match t {
            Target::ByteReg(_) => byte_source(src),
            Target::WordReg(Reg16::Sp) => byte_source(src),
            Target::WordReg(_) => word_source(src),
            Target::Deref(_) => false,
        },
        InstructionType::Adc(t, src) => matches!(t, Target::ByteReg(_)) && byte_source(src),
        InstructionType::Sub(src) => byte_source(src),
        InstructionType::Sbc(src) => byte_source(src),
        InstructionType::And(src) => byte_source(src),
        InstructionType::Or(src) => byte_source(src),
        InstructionType::Xor(src) => byte_source(src),
        InstructionType::Cp(src) => byte_source(src),
        InstructionType::Jp(_, src) => word_source(src) || matches!(
            src,
            Source::Deref(Addr::WordReg(Reg16::Hl))
        ),
        InstructionType::Jr(_, src) => byte_source(src),
        InstructionType::Call(_, src) => word_source(src),
        InstructionType::Stop(src) => byte_source(src),
        _ => true,
    }
}

fn byte_source(src: Source) -> (r: bool)
    ensures
        r == semantics::byte_source(src),
{
    matches!(src, Source::ByteReg(_) | Source::Deref(_) | Source::ByteConst)
}

fn word_source(src: Source) -> (r: bool)
    ensures
        r == semantics::word_source(src),
{
    matches!(src, Source::WordReg(_) | Source::WordConst)
}

fn load_fits(t: Target, src: Source) -> (r: bool)
    ensures
        r == semantics::load_fits(t, src),
{
    (byte_source(src) && !matches!(t, Target::WordReg(_))) || (word_source(src) && !matches!(
        t,
        Target::ByteReg(_)
    ))
}

impl Cpu {
    /// Fetches, decodes and executes one instruction. An opcode with no
    /// instruction gives `UndefinedOpcode`, an 0xCB-prefixed instruction or
    /// a shape without a handler gives `Unimplemented`, both with the
    /// opcode's address.
    pub fn step(&mut self) -> (r: Result<(), CpuError>)
        requires
            old(self).inv(),
        ensures
            final(self).inv(),
            outcome_state(r, final(self).state(), semantics::step(old(self).state())),
    {
        let at = self.regs.pc;
        match self.fetch_imm8() {
            Ok(opcode) => if opcode == 0xCB {
                match self.fetch_imm8() {
                    Ok(sub) => match InstructionType::from_byte_prefixed(sub) {
                        Ok((instr, _)) => self.execute(instr, sub),
                        Err(DecodeError::PrefixedUnimplemented { .. }) => Err(
                            CpuError::Unimplemented { opcode, addr: at },
                        ),
                    },
                    Err(e) => Err(e),
                }
            } else {
                match InstructionType::from_byte(opcode) {
                    None => Err(CpuError::UndefinedOpcode { opcode, addr: at }),
                    Some((instr, _cycles)) => if is_supported(instr) {
                        self.execute(instr, opcode)
                    } else {
                        Err(CpuError::Unimplemented { opcode, addr: at })
                    },
                }
            },
            Err(e) => Err(e),
        }
    }

    /// Runs instructions until the processor halts or a fault occurs. An
    /// emulated program that never halts is stopped, still running, after
    /// `u64::MAX` instructions.
    pub fn run(&mut self) -> (r: Result<(), CpuError>)
        requires
            old(self).inv(),
        ensures
            final(self).inv(),
            outcome_state(r, final(self).state(), semantics::run(old(self).state(), u64::MAX as nat)),
    {
        let mut fuel: u64 = u64::MAX;
        while !self.halted && fuel > 0
            invariant
                self.inv(),
                semantics::run(old(self).state(), u64::MAX as nat) == semantics::run(
                    self.state(),
                    fuel as nat,
                ),
            decreases fuel,
        {
            match self.step() {
                Ok(()) => {},
                Err(e) => {
                    return Err(e);
                },
            }
            fuel = fuel - 1;
        }
        Ok(())
    }

    /// Puts PC back at the cartridge entry point, 0x0100, and leaves the
    /// halted state.
    pub fn reset(&mut self)
        ensures
            final(self).regs == (Registers { pc: 0x0100, ..old(self).regs }),
            final(self).mmu == old(self).mmu,
            final(self).ime == old(self).ime,
            !final(self).halted,
    {
        self.regs.pc = 0x100;
        self.halted = false;
    }

    /// The byte at a mapped address.
    pub fn fetch_byte(&self, addr: u16) -> (r: u8)
        requires
            self.inv(),
            mapped(addr),
        ensures
            r == self.state().mem[addr],
    {
        proof {
            lemma_mmu_domain(&self.mmu);
        }
        self.mmu.fetch_byte(addr)
    }

    /// The little-endian word at `addr` and `addr + 1`, both mapped.
    pub fn fetch_word(&self, addr: u16) -> (r: u16)
        requires
            self.inv(),
            addr < 0xFFFF,
            mapped(addr),
            mapped((addr + 1) as u16),
        ensures
            r == pair(self.state().mem[(addr + 1) as u16], self.state().mem[addr]),
    {
        proof {
            lemma_mmu_domain(&self.mmu);
        }
        self.mmu.fetch_word(addr)
    }

    /// Stores a byte at a mapped address.
    pub fn set_byte(&mut self, addr: u16, val: u8)
        requires
            old(self).inv(),
            mapped(addr),
        ensures
            final(self).inv(),
            final(self).state() == (CpuState { mem: old(self).state().mem.insert(addr, val), ..old(self).state() }),
    {
        proof {
            lemma_mmu_domain(&self.mmu);
        }
        self.mmu.set_byte(addr, val);
    }

    /// Copies `program` into the cartridge region from 0x0100 on, then
    /// resets.
    pub fn load_rom(&mut self, program: Vec<u8>)
        requires
            old(self).inv(),
            program@.len() <= 0x7F00,
        ensures
            final(self).inv(),
            final(self).regs == (Registers { pc: 0x0100, ..old(self).regs }),
            final(self).ime == old(self).ime,
            !final(self).halted,
            final(self).state().mem == old(self).state().mem.union_prefer_right(
                Map::new(
                    |a: u16| 0x100 <= a < 0x100 + program@.len(),
                    |a: u16| program@[a - 0x100],
                ),
            ),
    {
        let mut i: usize = 0;
        while i < program.len()
            invariant
                self.inv(),
                i <= program@.len() <= 0x7F00,
                self.regs == old(self).regs,
                self.ime == old(self).ime,
                self.halted == old(self).halted,
                self.state().mem == old(self).state().mem.union_prefer_right(
                    Map::new(|a: u16| 0x100 <= a < 0x100 + i, |a: u16| program@[a - 0x100]),
                ),
            decreases program@.len() - i,
        {
            let addr: u16 = 0x100 + i as u16;
            self.set_byte(addr, program[i]);
            i = i + 1;
            assert(self.state().mem =~= old(self).state().mem.union_prefer_right(
                Map::new(|a: u16| 0x100 <= a < 0x100 + i, |a: u16| program@[a - 0x100]),
            ));
        }
        assert(self.state().mem =~= old(self).state().mem.union_prefer_right(
            Map::new(|a: u16| 0x100 <= a < 0x100 + program@.len(), |a: u16| program@[a - 0x100]),
        ));
        self.reset();
    }
}

/// One of the four condition flags.
#[derive(Debug, Clone, Copy, PartialEq, Eq, Structural)]
pub enum Flag {
    Z,
    N,
    H,
    C,
}

impl Flag {
    pub open spec fn cpu_flag(self) -> CpuFlag {
        match self {
            Flag::Z => CpuFlag::Z,
            Flag::N => CpuFlag::N,
            Flag::H => CpuFlag::H,
            Flag::C => CpuFlag::C,
        }
    }

    fn to_cpu_flag(self) -> (r: CpuFlag)
        ensures
            r == self.cpu_flag(),
    {
        match self {
            Flag::Z => CpuFlag::Z,
            Flag::N => CpuFlag::N,
            Flag::H => CpuFlag::H,
            Flag::C => CpuFlag::C,
        }
    }
}

impl Cpu {
    /// The bus and the two state bits are those of `other`.
    pub open spec fn same_but_regs(&self, other: &Cpu) -> bool {
        self.mmu == other.mmu && self.ime == other.ime && self.halted == other.halted
    }

    pub fn get_a(&self) -> (r: u8)
        ensures
            r == self.regs.a,
    {
        self.regs.a
    }

    pub fn get_f(&self) -> (r: u8)
        ensures
            r == self.regs.f,
    {
        self.regs.f
    }

    pub fn get_b(&self) -> (r: u8)
        ensures
            r == self.regs.b,
    {
        self.regs.b
    }

    pub fn get_c(&self) -> (r: u8)
        ensures
            r == self.regs.c,
    {
        self.regs.c
    }

    pub fn get_d(&self) -> (r: u8)
        ensures
            r == self.regs.d,
    {
        self.regs.d
    }

    pub fn get_e(&self) -> (r: u8)
        ensures
            r == self.regs.e,
    {
        self.regs.e
    }

    pub fn get_h(&self) -> (r: u8)
        ensures
            r == self.regs.h,
    {
        self.regs.h
    }

    pub fn get_l(&self) -> (r: u8)
        ensures
            r == self.regs.l,
    {
        self.regs.l
    }

    pub fn get_af(&self) -> (r: u16)
        ensures
            r == pair(self.regs.a, self.regs.f),
    {
        Cpu::get_u16(&self.regs.a, &self.regs.f)
    }

    pub fn get_bc(&self) -> (r: u16)
        ensures
            r == pair(self.regs.b, self.regs.c),
    {
        Cpu::get_u16(&self.regs.b, &self.regs.c)
    }

    pub fn get_de(&self) -> (r: u16)
        ensures
            r == pair(self.regs.d, self.regs.e),
    {
        Cpu::get_u16(&self.regs.d, &self.regs.e)
    }

    pub fn get_hl(&self) -> (r: u16)
        ensures
            r == pair(self.regs.h, self.regs.l),
    {
        Cpu::get_u16(&self.regs.h, &self.regs.l)
    }

    pub fn get_sp(&self) -> (r: u16)
        ensures
            r == self.regs.sp,
    {
        self.regs.sp
    }

    pub fn get_pc(&self) -> (r: u16)
        ensures
            r == self.regs.pc,
    {
        self.regs.pc
    }

    /// The interrupt master enable bit.
    pub fn get_mie(&self) -> (r: bool)
        ensures
            r == self.ime,
    {
        self.ime
    }

    fn get_u16(h: &u8, l: &u8) -> (r: u16)
        ensures
            r == pair(*h, *l),
    {
        (*h as u16) * 256 + *l as u16
    }

    fn set_u16(high: &mut u8, low: &mut u8, n: u16)
        ensures
            *final(high) == hi(n),
            *final(low) == lo(n),
    {
        *high = (n / 256) as u8;
        *low = (n % 256) as u8;
    }

    pub fn set_a(&mut self, n: u8)
        ensures
            final(self).regs == (Registers { a: n, ..old(self).regs }),
            final(self).same_but_regs(old(self)),
    {
        self.regs.a = n;
    }

    pub fn set_b(&mut self, n: u8)
        ensures
            final(self).regs == (Registers { b: n, ..old(self).regs }),
            final(self).same_but_regs(old(self)),
    {
        self.regs.b = n;
    }

    pub fn set_c(&mut self, n: u8)
        ensures
            final(self).regs == (Registers { c: n, ..old(self).regs }),
            final(self).same_but_regs(old(self)),
    {
        self.regs.c = n;
    }

    pub fn set_d(&mut self, n: u8)
        ensures
            final(self).regs == (Registers { d: n, ..old(self).regs }),
            final(self).same_but_regs(old(self)),
    {
        self.regs.d = n;
    }

    pub fn set_e(&mut self, n: u8)
        ensures
            final(self).regs == (Registers { e: n, ..old(self).regs }),
            final(self).same_but_regs(old(self)),
    {
        self.regs.e = n;
    }

    pub fn set_h(&mut self, n: u8)
        ensures
            final(self).regs == (Registers { h: n, ..old(self).regs }),
            final(self).same_but_regs(old(self)),
    {
        self.regs.h = n;
    }

    pub fn set_l(&mut self, n: u8)
        ensures
            final(self).regs == (Registers { l: n, ..old(self).regs }),
            final(self).same_but_regs(old(self)),
    {
        self.regs.l = n;
    }

    /// Writes the pair AF. The low byte keeps only its upper nibble.
    pub fn set_af(&mut self, n: u16)
        ensures
            final(self).regs == (Registers { a: hi(n), f: lo(n) & 0xF0, ..old(self).regs }),
            old(self).regs.wf() ==> final(self).regs.wf(),
            final(self).same_but_regs(old(self)),
    {
        let mut f: u8 = 0;
        Cpu::set_u16(&mut self.regs.a, &mut f, n);
        self.set_f(f);
    }

    /// Writes the pair BC.
    pub fn set_bc(&mut self, n: u16)
        ensures
            final(self).regs == (Registers { b: hi(n), c: lo(n), ..old(self).regs }),
            final(self).same_but_regs(old(self)),
    {
        Cpu::set_u16(&mut self.regs.b, &mut self.regs.c, n);
    }

    /// Writes the pair DE.
    pub fn set_de(&mut self, n: u16)
        ensures
            final(self).regs == (Registers { d: hi(n), e: lo(n), ..old(self).regs }),
            final(self).same_but_regs(old(self)),
    {
        Cpu::set_u16(&mut self.regs.d, &mut self.regs.e, n);
    }

    /// Writes the pair HL.
    pub fn set_hl(&mut self, n: u16)
        ensures
            final(self).regs == (Registers { h: hi(n), l: lo(n), ..old(self).regs }),
            final(self).same_but_regs(old(self)),
    {
        Cpu::set_u16(&mut self.regs.h, &mut self.regs.l, n);
    }

    /// Writes F; its low nibble is cleared.
    pub fn set_f(&mut self, n: u8)
        ensures
            final(self).regs == old(self).regs.with_f(n),
            final(self).regs.wf(),
            final(self).same_but_regs(old(self)),
    {
        self.regs.set_flags(n);
    }

    pub fn set_sp(&mut self, n: u16)
        ensures
            final(self).regs == (Registers { sp: n, ..old(self).regs }),
            final(self).same_but_regs(old(self)),
    {
        self.regs.sp = n;
    }

    pub fn set_pc(&mut self, n: u16)
        ensures
            final(self).regs == (Registers { pc: n, ..old(self).regs }),
            final(self).same_but_regs(old(self)),
    {
        self.regs.pc = n;
    }

    /// Writes the interrupt master enable bit.
    pub fn set_mie(&mut self, b: bool)
        ensures
            final(self).ime == b,
            final(self).regs == old(self).regs,
            final(self).mmu == old(self).mmu,
            final(self).halted == old(self).halted,
    {
        self.ime = b;
    }

    /// Whether flag `f` is set.
    pub fn get_flags(&self, f: Flag) -> (r: bool)
        ensures
            r == self.regs.flag(f.cpu_flag()),
    {
        self.regs.get_flag(f.to_cpu_flag())
    }

    /// Sets flag `f`.
    pub fn set_flag(&mut self, f: Flag)
        ensures
            final(self).regs == old(self).regs.with_flag(f.cpu_flag(), true),
            final(self).regs.wf(),
            final(self).same_but_regs(old(self)),
    {
        self.regs.set_flag(f.to_cpu_flag(), true);
    }

    /// Clears flag `f`.
    pub fn clear_flag(&mut self, f: Flag)
        ensures
            final(self).regs == old(self).regs.with_flag(f.cpu_flag(), false),
            final(self).regs.wf(),
            final(self).same_but_regs(old(self)),
    {
        self.regs.set_flag(f.to_cpu_flag(), false);
    }
}

/// At the engine's bus: a store to a mapped address followed by a load from
/// it gives the byte stored and leaves every other address as it was; any
/// other address faults with `InvalidAddress` on load and on store.
pub proof fn lemma_engine_bus(cpu: &Cpu, addr: u16, v: u8)
    requires
        cpu.inv(),
    ensures
        mapped(addr) ==> {
            &&& semantics::write8(cpu.state(), addr, v) is Ok
            &&& semantics::read8(semantics::write8(cpu.state(), addr, v)->Ok_0, addr) == Ok::<
                u8,
                CpuError,
            >(v)
            &&& forall|b: u16|
                b != addr ==> #[trigger] semantics::read8(
                    semantics::write8(cpu.state(), addr, v)->Ok_0,
                    b,
                ) == semantics::read8(cpu.state(), b)
        },
        !mapped(addr) ==> {
            &&& semantics::read8(cpu.state(), addr) == Err::<u8, CpuError>(
                CpuError::InvalidAddress { addr },
            )
            &&& semantics::write8(cpu.state(), addr, v) == Err::<CpuState, CpuError>(
                CpuError::InvalidAddress { addr },
            )
        },
{
    lemma_mmu_domain(&cpu.mmu);
}

} // verus!
