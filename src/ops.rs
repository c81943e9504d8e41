//! One handler per opcode. A handler without operands runs the instruction
//! that its opcode decodes to, reading any immediate bytes at PC; a handler
//! that takes the immediate as an argument applies it directly and leaves PC
//! as it is.
use vstd::prelude::*;
use crate::alu::signed;
use crate::cpu::Cpu;
use crate::instr::{DecodeError, InstructionType, decode};
use crate::regs::{CpuFlag, Registers};
use crate::semantics::{CpuError, CpuState, add16w, with_regs};
use crate::semantics;

verus! {

/// The effect of the instruction that `opcode` decodes to, on a state whose
/// PC points past the opcode.
pub open spec fn opcode_effect(s: CpuState, opcode: u8) -> Result<CpuState, CpuError> {
    match decode(opcode) {
        Some((instr, _)) => semantics::execute(s, instr, opcode),
        None => Err(CpuError::UndefinedOpcode { opcode, addr: s.regs.pc }),
    }
}

/// Whether the instruction of `opcode` runs from `s` without a bus fault.
pub open spec fn can_perform(s: CpuState, opcode: u8) -> bool {
    opcode_effect(s, opcode) is Ok
}

/// Whether running the instruction of `opcode` from `s` gives `t`.
pub open spec fn performs(s: CpuState, t: CpuState, opcode: u8) -> bool {
    opcode_effect(s, opcode) == Ok::<CpuState, CpuError>(t)
}

/// Runs the instruction that `opcode` decodes to.
fn perform(cpu: &mut Cpu, opcode: u8)
    requires
        old(cpu).inv(),
        can_perform(old(cpu).state(), opcode),
    ensures
        final(cpu).inv(),
        performs(old(cpu).state(), final(cpu).state(), opcode),
{
    proof {
        semantics::lemma_decoded_supported(opcode);
    }
    if let Some((instr, _)) = InstructionType::from_byte(opcode) {
        let _ = cpu.execute(instr, opcode);
    }
}

/// PC after a relative jump by `offset` that is taken when `taken`.
pub open spec fn jump_rel(pc: u16, offset: int, taken: bool) -> u16 {
    if taken {
        add16w(pc, offset)
    } else {
        pc
    }
}

fn jump_rel_exec(pc: u16, offset: i32, taken: bool) -> (r: u16)
    requires
        -128 <= offset < 128,
    ensures
        r == jump_rel(pc, offset as int, taken),
{
    if taken {
        ((pc as i32 + offset + 65536) % 65536) as u16
    } else {
        pc
    }
}

/// 0x00: NOP.
pub fn nop(cpu: &mut Cpu)
    requires
        old(cpu).inv(),
        can_perform(old(cpu).state(), 0x00),
    ensures
        final(cpu).inv(),
        performs(old(cpu).state(), final(cpu).state(), 0x00),
{
    perform(cpu, 0x00)
}

/// 0x01: LD BC, nn, with the immediate bytes `h` (high) and `l` (low).
pub fn ld_bc_d16(cpu: &mut Cpu, h: u8, l: u8)
    requires
        old(cpu).inv(),
    ensures
        final(cpu).inv(),
        final(cpu).state() == with_regs(old(cpu).state(), Registers { b: h, c: l, ..old(cpu).regs }),
{
    cpu.regs.b = h;
    cpu.regs.c = l;
}

/// 0x03: INC BC.
pub fn inc_bc(cpu: &mut Cpu)
    requires
        old(cpu).inv(),
        can_perform(old(cpu).state(), 0x03),
    ensures
        final(cpu).inv(),
        performs(old(cpu).state(), final(cpu).state(), 0x03),
{
    perform(cpu, 0x03)
}

/// 0x04: INC B.
pub fn inc_b(cpu: &mut Cpu)
    requires
        old(cpu).inv(),
        can_perform(old(cpu).state(), 0x04),
    ensures
        final(cpu).inv(),
        performs(old(cpu).state(), final(cpu).state(), 0x04),
{
    perform(cpu, 0x04)
}

/// 0x05: DEC B.
pub fn dec_b(cpu: &mut Cpu)
    requires
        old(cpu).inv(),
        can_perform(old(cpu).state(), 0x05),
    ensures
        final(cpu).inv(),
        performs(old(cpu).state(), final(cpu).state(), 0x05),
{
    perform(cpu, 0x05)
}

/// 0x06: LD B, n, with the immediate byte `n`.
pub fn ld_b_d8(cpu: &mut Cpu, n: u8)
    requires
        old(cpu).inv(),
    ensures
        final(cpu).inv(),
        final(cpu).state() == with_regs(old(cpu).state(), Registers { b: n, ..old(cpu).regs }),
{
    cpu.regs.b = n;
}

/// 0x07: RLCA.
pub fn rlca(cpu: &mut Cpu)
    requires
        old(cpu).inv(),
        can_perform(old(cpu).state(), 0x07),
    ensures
        final(cpu).inv(),
        performs(old(cpu).state(), final(cpu).state(), 0x07),
{
    perform(cpu, 0x07)
}

/// 0x08: LD (nn), SP.
pub fn ld_addr16_sp(cpu: &mut Cpu)
    requires
        old(cpu).inv(),
        can_perform(old(cpu).state(), 0x08),
    ensures
        final(cpu).inv(),
        performs(old(cpu).state(), final(cpu).state(), 0x08),
{
    perform(cpu, 0x08)
}

/// 0x09: ADD HL, BC.
pub fn add_hl_bc(cpu: &mut Cpu)
    requires
        old(cpu).inv(),
        can_perform(old(cpu).state(), 0x09),
    ensures
        final(cpu).inv(),
        performs(old(cpu).state(), final(cpu).state(), 0x09),
{
    perform(cpu, 0x09)
}

/// 0x0A: LD A, (BC).
pub fn ld_a_addr_bc(cpu: &mut Cpu)
    requires
        old(cpu).inv(),
        can_perform(old(cpu).state(), 0x0A),
    ensures
        final(cpu).inv(),
        performs(old(cpu).state(), final(cpu).state(), 0x0A),
{
    perform(cpu, 0x0A)
}

/// 0x0B: DEC BC.
pub fn dec_bc(cpu: &mut Cpu)
    requires
        old(cpu).inv(),
        can_perform(old(cpu).state(), 0x0B),
    ensures
        final(cpu).inv(),
        performs(old(cpu).state(), final(cpu).state(), 0x0B),
{
    perform(cpu, 0x0B)
}

/// 0x0C: INC C.
pub fn inc_c(cpu: &mut Cpu)
    requires
        old(cpu).inv(),
        can_perform(old(cpu).state(), 0x0C),
    ensures
        final(cpu).inv(),
        performs(old(cpu).state(), final(cpu).state(), 0x0C),
{
    perform(cpu, 0x0C)
}

/// 0x0D: DEC C.
pub fn dec_c(cpu: &mut Cpu)
    requires
        old(cpu).inv(),
        can_perform(old(cpu).state(), 0x0D),
    ensures
        final(cpu).inv(),
        performs(old(cpu).state(), final(cpu).state(), 0x0D),
{
    perform(cpu, 0x0D)
}

/// 0x0E: LD C, n, with the immediate byte `n`.
pub fn ld_c_u8(cpu: &mut Cpu, n: u8)
    requires
        old(cpu).inv(),
    ensures
        final(cpu).inv(),
        final(cpu).state() == with_regs(old(cpu).state(), Registers { c: n, ..old(cpu).regs }),
{
    cpu.regs.c = n;
}

/// 0x0F: RRCA.
pub fn RRCA(cpu: &mut Cpu)
    requires
        old(cpu).inv(),
        can_perform(old(cpu).state(), 0x0F),
    ensures
        final(cpu).inv(),
        performs(old(cpu).state(), final(cpu).state(), 0x0F),
{
    perform(cpu, 0x0F)
}

/// 0x10: STOP.
pub fn STOP(cpu: &mut Cpu)
    requires
        old(cpu).inv(),
        can_perform(old(cpu).state(), 0x10),
    ensures
        final(cpu).inv(),
        performs(old(cpu).state(), final(cpu).state(), 0x10),
{
    perform(cpu, 0x10)
}

/// 0x11: LD DE, nn, with the immediate bytes `h` (high) and `l` (low).
pub fn ld_de_u16(cpu: &mut Cpu, h: u8, l: u8)
    requires
        old(cpu).inv(),
    ensures
        final(cpu).inv(),
        final(cpu).state() == with_regs(old(cpu).state(), Registers { d: h, e: l, ..old(cpu).regs }),
{
    cpu.regs.d = h;
    cpu.regs.e = l;
}

/// 0x12: LD (DE), A.
pub fn ld_de_addr_a(cpu: &mut Cpu)
    requires
        old(cpu).inv(),
        can_perform(old(cpu).state(), 0x12),
    ensures
        final(cpu).inv(),
        performs(old(cpu).state(), final(cpu).state(), 0x12),
{
    perform(cpu, 0x12)
}

/// 0x13: INC DE.
pub fn inc_de(cpu: &mut Cpu)
    requires
        old(cpu).inv(),
        can_perform(old(cpu).state(), 0x13),
    ensures
        final(cpu).inv(),
        performs(old(cpu).state(), final(cpu).state(), 0x13),
{
    perform(cpu, 0x13)
}

/// 0x14: INC D.
pub fn inc_d(cpu: &mut Cpu)
    requires
        old(cpu).inv(),
        can_perform(old(cpu).state(), 0x14),
    ensures
        final(cpu).inv(),
        performs(old(cpu).state(), final(cpu).state(), 0x14),
{
    perform(cpu, 0x14)
}

/// 0x15: DEC D.
pub fn dec_d(cpu: &mut Cpu)
    requires
        old(cpu).inv(),
        can_perform(old(cpu).state(), 0x15),
    ensures
        final(cpu).inv(),
        performs(old(cpu).state(), final(cpu).state(), 0x15),
{
    perform(cpu, 0x15)
}

/// 0x16: LD D, n, with the immediate byte `n`.
pub fn ld_d_d8(cpu: &mut Cpu, n: u8)
    requires
        old(cpu).inv(),
    ensures
        final(cpu).inv(),
        final(cpu).state() == with_regs(old(cpu).state(), Registers { d: n, ..old(cpu).regs }),
{
    cpu.regs.d = n;
}

/// 0x17: RLA.
pub fn rla(cpu: &mut Cpu)
    requires
        old(cpu).inv(),
        can_perform(old(cpu).state(), 0x17),
    ensures
        final(cpu).inv(),
        performs(old(cpu).state(), final(cpu).state(), 0x17),
{
    perform(cpu, 0x17)
}

/// 0x18: JR n.
pub fn jr_r8(cpu: &mut Cpu)
    requires
        old(cpu).inv(),
        can_perform(old(cpu).state(), 0x18),
    ensures
        final(cpu).inv(),
        performs(old(cpu).state(), final(cpu).state(), 0x18),
{
    perform(cpu, 0x18)
}

/// 0x19: ADD HL, DE.
pub fn add_hl_de(cpu: &mut Cpu)
    requires
        old(cpu).inv(),
        can_perform(old(cpu).state(), 0x19),
    ensures
        final(cpu).inv(),
        performs(old(cpu).state(), final(cpu).state(), 0x19),
{
    perform(cpu, 0x19)
}

/// 0x1A: LD A, (DE).
pub fn ld_a_addr_de(cpu: &mut Cpu)
    requires
        old(cpu).inv(),
        can_perform(old(cpu).state(), 0x1A),
    ensures
        final(cpu).inv(),
        performs(old(cpu).state(), final(cpu).state(), 0x1A),
{
    perform(cpu, 0x1A)
}

/// 0x1B: DEC DE.
pub fn dec_de(cpu: &mut Cpu)
    requires
        old(cpu).inv(),
        can_perform(old(cpu).state(), 0x1B),
    ensures
        final(cpu).inv(),
        performs(old(cpu).state(), final(cpu).state(), 0x1B),
{
    perform(cpu, 0x1B)
}

/// 0x1C: INC E.
pub fn inc_e(cpu: &mut Cpu)
    requires
        old(cpu).inv(),
        can_perform(old(cpu).state(), 0x1C),
    ensures
        final(cpu).inv(),
        performs(old(cpu).state(), final(cpu).state(), 0x1C),
{
    perform(cpu, 0x1C)
}

/// 0x1D: DEC E.
pub fn dec_e(cpu: &mut Cpu)
    requires
        old(cpu).inv(),
        can_perform(old(cpu).state(), 0x1D),
    ensures
        final(cpu).inv(),
        performs(old(cpu).state(), final(cpu).state(), 0x1D),
{
    perform(cpu, 0x1D)
}

/// 0x1E: LD E, n, with the immediate byte `n`.
pub fn ld_e_d8(cpu: &mut Cpu, n: u8)
    requires
        old(cpu).inv(),
    ensures
        final(cpu).inv(),
        final(cpu).state() == with_regs(old(cpu).state(), Registers { e: n, ..old(cpu).regs }),
{
    cpu.regs.e = n;
}

/// 0x1F: RRA.
pub fn RRA(cpu: &mut Cpu)
    requires
        old(cpu).inv(),
        can_perform(old(cpu).state(), 0x1F),
    ensures
        final(cpu).inv(),
        performs(old(cpu).state(), final(cpu).state(), 0x1F),
{
    perform(cpu, 0x1F)
}

/// 0x20: JR NZ, n, with the offset `r8` given as an argument.
pub fn jr_nz_r8(cpu: &mut Cpu, r8: u8)
    requires
        old(cpu).inv(),
    ensures
        final(cpu).inv(),
        final(cpu).state() == with_regs(
            old(cpu).state(),
            Registers { pc: jump_rel(old(cpu).regs.pc, signed(r8), !old(cpu).regs.flag(CpuFlag::Z)), ..old(cpu).regs },
        ),
{
    let taken = !cpu.regs.get_flag(CpuFlag::Z);
    cpu.regs.pc = jump_rel_exec(cpu.regs.pc, (if r8 < 128 { r8 as i32 } else { r8 as i32 - 256 }), taken);
}

/// 0x21: LD HL, nn, with the immediate bytes `h` (high) and `l` (low).
pub fn ld_hl_u16(cpu: &mut Cpu, h: u8, l: u8)
    requires
        old(cpu).inv(),
    ensures
        final(cpu).inv(),
        final(cpu).state() == with_regs(old(cpu).state(), Registers { h: h, l: l, ..old(cpu).regs }),
{
    cpu.regs.h = h;
    cpu.regs.l = l;
}

/// 0x22: LDI (HL), A.
pub fn ld_addr_hl_plus_A(cpu: &mut Cpu)
    requires
        old(cpu).inv(),
        can_perform(old(cpu).state(), 0x22),
    ensures
        final(cpu).inv(),
        performs(old(cpu).state(), final(cpu).state(), 0x22),
{
    perform(cpu, 0x22)
}

/// 0x23: INC HL.
pub fn inc_hl(cpu: &mut Cpu)
    requires
        old(cpu).inv(),
        can_perform(old(cpu).state(), 0x23),
    ensures
        final(cpu).inv(),
        performs(old(cpu).state(), final(cpu).state(), 0x23),
{
    perform(cpu, 0x23)
}

/// 0x24: INC H.
pub fn inc_h(cpu: &mut Cpu)
    requires
        old(cpu).inv(),
        can_perform(old(cpu).state(), 0x24),
    ensures
        final(cpu).inv(),
        performs(old(cpu).state(), final(cpu).state(), 0x24),
{
    perform(cpu, 0x24)
}

/// 0x25: DEC H.
pub fn dec_h(cpu: &mut Cpu)
    requires
        old(cpu).inv(),
        can_perform(old(cpu).state(), 0x25),
    ensures
        final(cpu).inv(),
        performs(old(cpu).state(), final(cpu).state(), 0x25),
{
    perform(cpu, 0x25)
}

/// 0x26: LD H, n, with the immediate byte `n`.
pub fn ld_h_u8(cpu: &mut Cpu, n: u8)
    requires
        old(cpu).inv(),
    ensures
        final(cpu).inv(),
        final(cpu).state() == with_regs(old(cpu).state(), Registers { h: n, ..old(cpu).regs }),
{
    cpu.regs.h = n;
}

/// 0x27: DAA.
pub fn aa(cpu: &mut Cpu)
    requires
        old(cpu).inv(),
        can_perform(old(cpu).state(), 0x27),
    ensures
        final(cpu).inv(),
        performs(old(cpu).state(), final(cpu).state(), 0x27),
{
    perform(cpu, 0x27)
}

/// 0x28: JR Z, n, with the offset `s8` given as an argument.
pub fn jr_z_s8(cpu: &mut Cpu, s8: i8)
    requires
        old(cpu).inv(),
    ensures
        final(cpu).inv(),
        final(cpu).state() == with_regs(
            old(cpu).state(),
            Registers { pc: jump_rel(old(cpu).regs.pc, s8 as int, old(cpu).regs.flag(CpuFlag::Z)), ..old(cpu).regs },
        ),
{
    let taken = cpu.regs.get_flag(CpuFlag::Z);
    cpu.regs.pc = jump_rel_exec(cpu.regs.pc, s8 as i32, taken);
}

/// 0x29: ADD HL, HL.
pub fn add_hl_hl(cpu: &mut Cpu)
    requires
        old(cpu).inv(),
        can_perform(old(cpu).state(), 0x29),
    ensures
        final(cpu).inv(),
        performs(old(cpu).state(), final(cpu).state(), 0x29),
{
    perform(cpu, 0x29)
}

/// 0x2A: LDI A, (HL).
pub fn ld_a_addr_de_plus(cpu: &mut Cpu)
    requires
        old(cpu).inv(),
        can_perform(old(cpu).state(), 0x2A),
    ensures
        final(cpu).inv(),
        performs(old(cpu).state(), final(cpu).state(), 0x2A),
{
    perform(cpu, 0x2A)
}

/// 0x2B: DEC HL.
pub fn dec_hl(cpu: &mut Cpu)
    requires
        old(cpu).inv(),
        can_perform(old(cpu).state(), 0x2B),
    ensures
        final(cpu).inv(),
        performs(old(cpu).state(), final(cpu).state(), 0x2B),
{
    perform(cpu, 0x2B)
}

/// 0x2C: INC L.
pub fn inc_l(cpu: &mut Cpu)
    requires
        old(cpu).inv(),
        can_perform(old(cpu).state(), 0x2C),
    ensures
        final(cpu).inv(),
        performs(old(cpu).state(), final(cpu).state(), 0x2C),
{
    perform(cpu, 0x2C)
}

/// 0x2D: DEC L.
pub fn dec_l(cpu: &mut Cpu)
    requires
        old(cpu).inv(),
        can_perform(old(cpu).state(), 0x2D),
    ensures
        final(cpu).inv(),
        performs(old(cpu).state(), final(cpu).state(), 0x2D),
{
    perform(cpu, 0x2D)
}

/// 0x2E: LD L, n, with the immediate byte `n`.
pub fn ld_l_u8(cpu: &mut Cpu, n: u8)
    requires
        old(cpu).inv(),
    ensures
        final(cpu).inv(),
        final(cpu).state() == with_regs(old(cpu).state(), Registers { l: n, ..old(cpu).regs }),
{
    cpu.regs.l = n;
}

/// 0x2F: CPL.
pub fn CPL(cpu: &mut Cpu)
    requires
        old(cpu).inv(),
        can_perform(old(cpu).state(), 0x2F),
    ensures
        final(cpu).inv(),
        performs(old(cpu).state(), final(cpu).state(), 0x2F),
{
    perform(cpu, 0x2F)
}

/// 0x30: JR NC, n, with the offset `r8` given as an argument.
pub fn jr_nc_r8(cpu: &mut Cpu, r8: u8)
    requires
        old(cpu).inv(),
    ensures
        final(cpu).inv(),
        final(cpu).state() == with_regs(
            old(cpu).state(),
            Registers { pc: jump_rel(old(cpu).regs.pc, signed(r8), !old(cpu).regs.flag(CpuFlag::C)), ..old(cpu).regs },
        ),
{
    let taken = !cpu.regs.get_flag(CpuFlag::C);
    cpu.regs.pc = jump_rel_exec(cpu.regs.pc, (if r8 < 128 { r8 as i32 } else { r8 as i32 - 256 }), taken);
}

/// 0x31: LD SP, nn, with the immediate word `n`.
pub fn ld_sp_d16(cpu: &mut Cpu, n: u16)
    requires
        old(cpu).inv(),
    ensures
        final(cpu).inv(),
        final(cpu).state() == with_regs(old(cpu).state(), Registers { sp: n, ..old(cpu).regs }),
{
    cpu.regs.sp = n;
}

/// 0x32: LDD (HL), A.
pub fn ld_addr_hl_minus_A(cpu: &mut Cpu)
    requires
        old(cpu).inv(),
        can_perform(old(cpu).state(), 0x32),
    ensures
        final(cpu).inv(),
        performs(old(cpu).state(), final(cpu).state(), 0x32),
{
    perform(cpu, 0x32)
}

/// 0x33: INC SP.
pub fn inc_sp(cpu: &mut Cpu)
    requires
        old(cpu).inv(),
        can_perform(old(cpu).state(), 0x33),
    ensures
        final(cpu).inv(),
        performs(old(cpu).state(), final(cpu).state(), 0x33),
{
    perform(cpu, 0x33)
}

/// 0x34: INC (HL).
pub fn inc_hl_addr(cpu: &mut Cpu)
    requires
        old(cpu).inv(),
        can_perform(old(cpu).state(), 0x34),
    ensures
        final(cpu).inv(),
        performs(old(cpu).state(), final(cpu).state(), 0x34),
{
    perform(cpu, 0x34)
}

/// 0x35: DEC (HL).
pub fn dec_hl_addr(cpu: &mut Cpu)
    requires
        old(cpu).inv(),
        can_perform(old(cpu).state(), 0x35),
    ensures
        final(cpu).inv(),
        performs(old(cpu).state(), final(cpu).state(), 0x35),
{
    perform(cpu, 0x35)
}

/// 0x36: LD (HL), n, with the immediate byte `n`; HL must be mapped.
pub fn ld_hl_d8(cpu: &mut Cpu, n: u8)
    requires
        old(cpu).inv(),
        crate::memory::mapped(old(cpu).regs.r16(crate::instr::Reg16::Hl)),
    ensures
        final(cpu).inv(),
        final(cpu).state() == (CpuState {
            mem: old(cpu).state().mem.insert(old(cpu).regs.r16(crate::instr::Reg16::Hl), n),
            ..old(cpu).state()
        }),
{
    let hl = cpu.regs.hl();
    cpu.set_byte(hl, n);
}

/// 0x37: SCF.
pub fn scf(cpu: &mut Cpu)
    requires
        old(cpu).inv(),
        can_perform(old(cpu).state(), 0x37),
    ensures
        final(cpu).inv(),
        performs(old(cpu).state(), final(cpu).state(), 0x37),
{
    perform(cpu, 0x37)
}

/// 0x38: JR C, n, with the offset `r8` given as an argument.
pub fn jr_c_r8(cpu: &mut Cpu, r8: i8)
    requires
        old(cpu).inv(),
    ensures
        final(cpu).inv(),
        final(cpu).state() == with_regs(
            old(cpu).state(),
            Registers { pc: jump_rel(old(cpu).regs.pc, r8 as int, old(cpu).regs.flag(CpuFlag::C)), ..old(cpu).regs },
        ),
{
    let taken = cpu.regs.get_flag(CpuFlag::C);
    cpu.regs.pc = jump_rel_exec(cpu.regs.pc, r8 as i32, taken);
}

/// 0x39: ADD HL, SP.
pub fn add_hl_sp(cpu: &mut Cpu)
    requires
        old(cpu).inv(),
        can_perform(old(cpu).state(), 0x39),
    ensures
        final(cpu).inv(),
        performs(old(cpu).state(), final(cpu).state(), 0x39),
{
    perform(cpu, 0x39)
}

/// 0x3A: LDD A, (HL).
pub fn ld_a_addr_hl_minus(cpu: &mut Cpu)
    requires
        old(cpu).inv(),
        can_perform(old(cpu).state(), 0x3A),
    ensures
        final(cpu).inv(),
        performs(old(cpu).state(), final(cpu).state(), 0x3A),
{
    perform(cpu, 0x3A)
}

/// 0x3B: DEC SP.
pub fn dec_sp(cpu: &mut Cpu)
    requires
        old(cpu).inv(),
        can_perform(old(cpu).state(), 0x3B),
    ensures
        final(cpu).inv(),
        performs(old(cpu).state(), final(cpu).state(), 0x3B),
{
    perform(cpu, 0x3B)
}

/// 0x3C: INC A.
pub fn inc_a(cpu: &mut Cpu)
    requires
        old(cpu).inv(),
        can_perform(old(cpu).state(), 0x3C),
    ensures
        final(cpu).inv(),
        performs(old(cpu).state(), final(cpu).state(), 0x3C),
{
    perform(cpu, 0x3C)
}

/// 0x3D: DEC A.
pub fn dec_a(cpu: &mut Cpu)
    requires
        old(cpu).inv(),
        can_perform(old(cpu).state(), 0x3D),
    ensures
        final(cpu).inv(),
        performs(old(cpu).state(), final(cpu).state(), 0x3D),
{
    perform(cpu, 0x3D)
}

/// 0x3E: LD A, n, with the immediate byte `n`.
pub fn ld_a_d8(cpu: &mut Cpu, n: u8)
    requires
        old(cpu).inv(),
    ensures
        final(cpu).inv(),
        final(cpu).state() == with_regs(old(cpu).state(), Registers { a: n, ..old(cpu).regs }),
{
    cpu.regs.a = n;
}

/// 0x3F: CCF.
pub fn CCF(cpu: &mut Cpu)
    requires
        old(cpu).inv(),
        can_perform(old(cpu).state(), 0x3F),
    ensures
        final(cpu).inv(),
        performs(old(cpu).state(), final(cpu).state(), 0x3F),
{
    perform(cpu, 0x3F)
}

/// 0x40: LD B, B.
pub fn ld_b_b(cpu: &mut Cpu)
    requires
        old(cpu).inv(),
        can_perform(old(cpu).state(), 0x40),
    ensures
        final(cpu).inv(),
        performs(old(cpu).state(), final(cpu).state(), 0x40),
{
    perform(cpu, 0x40)
}

/// 0x41: LD B, C.
pub fn ld_b_c(cpu: &mut Cpu)
    requires
        old(cpu).inv(),
        can_perform(old(cpu).state(), 0x41),
    ensures
        final(cpu).inv(),
        performs(old(cpu).state(), final(cpu).state(), 0x41),
{
    perform(cpu, 0x41)
}

/// 0x42: LD B, D.
pub fn ld_b_d(cpu: &mut Cpu)
    requires
        old(cpu).inv(),
        can_perform(old(cpu).state(), 0x42),
    ensures
        final(cpu).inv(),
        performs(old(cpu).state(), final(cpu).state(), 0x42),
{
    perform(cpu, 0x42)
}

/// 0x43: LD B, E.
pub fn ld_b_e(cpu: &mut Cpu)
    requires
        old(cpu).inv(),
        can_perform(old(cpu).state(), 0x43),
    ensures
        final(cpu).inv(),
        performs(old(cpu).state(), final(cpu).state(), 0x43),
{
    perform(cpu, 0x43)
}

/// 0x44: LD B, H.
pub fn ld_b_h(cpu: &mut Cpu)
    requires
        old(cpu).inv(),
        can_perform(old(cpu).state(), 0x44),
    ensures
        final(cpu).inv(),
        performs(old(cpu).state(), final(cpu).state(), 0x44),
{
    perform(cpu, 0x44)
}

/// 0x45: LD B, L.
pub fn ld_b_l(cpu: &mut Cpu)
    requires
        old(cpu).inv(),
        can_perform(old(cpu).state(), 0x45),
    ensures
        final(cpu).inv(),
        performs(old(cpu).state(), final(cpu).state(), 0x45),
{
    perform(cpu, 0x45)
}

/// 0x47: LD B, A.
pub fn ld_b_a(cpu: &mut Cpu)
    requires
        old(cpu).inv(),
        can_perform(old(cpu).state(), 0x47),
    ensures
        final(cpu).inv(),
        performs(old(cpu).state(), final(cpu).state(), 0x47),
{
    perform(cpu, 0x47)
}

/// 0x48: LD C, B.
pub fn ld_c_b(cpu: &mut Cpu)
    requires
        old(cpu).inv(),
        can_perform(old(cpu).state(), 0x48),
    ensures
        final(cpu).inv(),
        performs(old(cpu).state(), final(cpu).state(), 0x48),
{
    perform(cpu, 0x48)
}

/// 0x49: LD C, C.
pub fn ld_c_c(cpu: &mut Cpu)
    requires
        old(cpu).inv(),
        can_perform(old(cpu).state(), 0x49),
    ensures
        final(cpu).inv(),
        performs(old(cpu).state(), final(cpu).state(), 0x49),
{
    perform(cpu, 0x49)
}

/// 0x4A: LD C, D.
pub fn ld_c_d(cpu: &mut Cpu)
    requires
        old(cpu).inv(),
        can_perform(old(cpu).state(), 0x4A),
    ensures
        final(cpu).inv(),
        performs(old(cpu).state(), final(cpu).state(), 0x4A),
{
    perform(cpu, 0x4A)
}

/// 0x4B: LD C, E.
pub fn ld_c_e(cpu: &mut Cpu)
    requires
        old(cpu).inv(),
        can_perform(old(cpu).state(), 0x4B),
    ensures
        final(cpu).inv(),
        performs(old(cpu).state(), final(cpu).state(), 0x4B),
{
    perform(cpu, 0x4B)
}

/// 0x4C: LD C, H.
pub fn ld_c_h(cpu: &mut Cpu)
    requires
        old(cpu).inv(),
        can_perform(old(cpu).state(), 0x4C),
    ensures
        final(cpu).inv(),
        performs(old(cpu).state(), final(cpu).state(), 0x4C),
{
    perform(cpu, 0x4C)
}

/// 0x4D: LD C, L.
pub fn ld_c_l(cpu: &mut Cpu)
    requires
        old(cpu).inv(),
        can_perform(old(cpu).state(), 0x4D),
    ensures
        final(cpu).inv(),
        performs(old(cpu).state(), final(cpu).state(), 0x4D),
{
    perform(cpu, 0x4D)
}

/// 0x4E: LD C, (HL).
pub fn ld_c_addr_hl(cpu: &mut Cpu)
    requires
        old(cpu).inv(),
        can_perform(old(cpu).state(), 0x4E),
    ensures
        final(cpu).inv(),
        performs(old(cpu).state(), final(cpu).state(), 0x4E),
{
    perform(cpu, 0x4E)
}

/// 0x4F: LD C, A.
pub fn ld_c_a(cpu: &mut Cpu)
    requires
        old(cpu).inv(),
        can_perform(old(cpu).state(), 0x4F),
    ensures
        final(cpu).inv(),
        performs(old(cpu).state(), final(cpu).state(), 0x4F),
{
    perform(cpu, 0x4F)
}

/// 0x50: LD D, B.
pub fn ld_d_b(cpu: &mut Cpu)
    requires
        old(cpu).inv(),
        can_perform(old(cpu).state(), 0x50),
    ensures
        final(cpu).inv(),
        performs(old(cpu).state(), final(cpu).state(), 0x50),
{
    perform(cpu, 0x50)
}

/// 0x51: LD D, C.
pub fn ld_d_c(cpu: &mut Cpu)
    requires
        old(cpu).inv(),
        can_perform(old(cpu).state(), 0x51),
    ensures
        final(cpu).inv(),
        performs(old(cpu).state(), final(cpu).state(), 0x51),
{
    perform(cpu, 0x51)
}

/// 0x52: LD D, D.
pub fn ld_d_d(cpu: &mut Cpu)
    requires
        old(cpu).inv(),
        can_perform(old(cpu).state(), 0x52),
    ensures
        final(cpu).inv(),
        performs(old(cpu).state(), final(cpu).state(), 0x52),
{
    perform(cpu, 0x52)
}

/// 0x53: LD D, E.
pub fn ld_d_e(cpu: &mut Cpu)
    requires
        old(cpu).inv(),
        can_perform(old(cpu).state(), 0x53),
    ensures
        final(cpu).inv(),
        performs(old(cpu).state(), final(cpu).state(), 0x53),
{
    perform(cpu, 0x53)
}

/// 0x54: LD D, H.
pub fn ld_d_h(cpu: &mut Cpu)
    requires
        old(cpu).inv(),
        can_perform(old(cpu).state(), 0x54),
    ensures
        final(cpu).inv(),
        performs(old(cpu).state(), final(cpu).state(), 0x54),
{
    perform(cpu, 0x54)
}

/// 0x55: LD D, L.
pub fn ld_d_l(cpu: &mut Cpu)
    requires
        old(cpu).inv(),
        can_perform(old(cpu).state(), 0x55),
    ensures
        final(cpu).inv(),
        performs(old(cpu).state(), final(cpu).state(), 0x55),
{
    perform(cpu, 0x55)
}

/// 0x56: LD D, (HL).
pub fn ld_d_hlp(cpu: &mut Cpu)
    requires
        old(cpu).inv(),
        can_perform(old(cpu).state(), 0x56),
    ensures
        final(cpu).inv(),
        performs(old(cpu).state(), final(cpu).state(), 0x56),
{
    perform(cpu, 0x56)
}

/// 0x57: LD D, A.
pub fn ld_d_a(cpu: &mut Cpu)
    requires
        old(cpu).inv(),
        can_perform(old(cpu).state(), 0x57),
    ensures
        final(cpu).inv(),
        performs(old(cpu).state(), final(cpu).state(), 0x57),
{
    perform(cpu, 0x57)
}

/// 0x58: LD E, B.
pub fn ld_e_b(cpu: &mut Cpu)
    requires
        old(cpu).inv(),
        can_perform(old(cpu).state(), 0x58),
    ensures
        final(cpu).inv(),
        performs(old(cpu).state(), final(cpu).state(), 0x58),
{
    perform(cpu, 0x58)
}

/// 0x59: LD E, C.
pub fn ld_e_c(cpu: &mut Cpu)
    requires
        old(cpu).inv(),
        can_perform(old(cpu).state(), 0x59),
    ensures
        final(cpu).inv(),
        performs(old(cpu).state(), final(cpu).state(), 0x59),
{
    perform(cpu, 0x59)
}

/// 0x5A: LD E, D.
pub fn ld_e_d(cpu: &mut Cpu)
    requires
        old(cpu).inv(),
        can_perform(old(cpu).state(), 0x5A),
    ensures
        final(cpu).inv(),
        performs(old(cpu).state(), final(cpu).state(), 0x5A),
{
    perform(cpu, 0x5A)
}

/// 0x5B: LD E, E.
pub fn ld_e_e(cpu: &mut Cpu)
    requires
        old(cpu).inv(),
        can_perform(old(cpu).state(), 0x5B),
    ensures
        final(cpu).inv(),
        performs(old(cpu).state(), final(cpu).state(), 0x5B),
{
    perform(cpu, 0x5B)
}

/// 0x5C: LD E, H.
pub fn ld_e_h(cpu: &mut Cpu)
    requires
        old(cpu).inv(),
        can_perform(old(cpu).state(), 0x5C),
    ensures
        final(cpu).inv(),
        performs(old(cpu).state(), final(cpu).state(), 0x5C),
{
    perform(cpu, 0x5C)
}

/// 0x5D: LD E, L.
pub fn ld_e_l(cpu: &mut Cpu)
    requires
        old(cpu).inv(),
        can_perform(old(cpu).state(), 0x5D),
    ensures
        final(cpu).inv(),
        performs(old(cpu).state(), final(cpu).state(), 0x5D),
{
    perform(cpu, 0x5D)
}

/// 0x5E: LD E, (HL).
pub fn ld_e_hlp(cpu: &mut Cpu)
    requires
        old(cpu).inv(),
        can_perform(old(cpu).state(), 0x5E),
    ensures
        final(cpu).inv(),
        performs(old(cpu).state(), final(cpu).state(), 0x5E),
{
    perform(cpu, 0x5E)
}

/// 0x5F: LD E, A.
pub fn ld_e_a(cpu: &mut Cpu)
    requires
        old(cpu).inv(),
        can_perform(old(cpu).state(), 0x5F),
    ensures
        final(cpu).inv(),
        performs(old(cpu).state(), final(cpu).state(), 0x5F),
{
    perform(cpu, 0x5F)
}

/// 0x60: LD H, B.
pub fn ld_h_b(cpu: &mut Cpu)
    requires
        old(cpu).inv(),
        can_perform(old(cpu).state(), 0x60),
    ensures
        final(cpu).inv(),
        performs(old(cpu).state(), final(cpu).state(), 0x60),
{
    perform(cpu, 0x60)
}

/// 0x61: LD H, C.
pub fn ld_h_c(cpu: &mut Cpu)
    requires
        old(cpu).inv(),
        can_perform(old(cpu).state(), 0x61),
    ensures
        final(cpu).inv(),
        performs(old(cpu).state(), final(cpu).state(), 0x61),
{
    perform(cpu, 0x61)
}

/// 0x62: LD H, D.
pub fn ld_h_d(cpu: &mut Cpu)
    requires
        old(cpu).inv(),
        can_perform(old(cpu).state(), 0x62),
    ensures
        final(cpu).inv(),
        performs(old(cpu).state(), final(cpu).state(), 0x62),
{
    perform(cpu, 0x62)
}

/// 0x63: LD H, E.
pub fn ld_h_e(cpu: &mut Cpu)
    requires
        old(cpu).inv(),
        can_perform(old(cpu).state(), 0x63),
    ensures
        final(cpu).inv(),
        performs(old(cpu).state(), final(cpu).state(), 0x63),
{
    perform(cpu, 0x63)
}

/// 0x64: LD H, H.
pub fn ld_h_h(cpu: &mut Cpu)
    requires
        old(cpu).inv(),
        can_perform(old(cpu).state(), 0x64),
    ensures
        final(cpu).inv(),
        performs(old(cpu).state(), final(cpu).state(), 0x64),
{
    perform(cpu, 0x64)
}

/// 0x65: LD H, L.
pub fn ld_h_l(cpu: &mut Cpu)
    requires
        old(cpu).inv(),
        can_perform(old(cpu).state(), 0x65),
    ensures
        final(cpu).inv(),
        performs(old(cpu).state(), final(cpu).state(), 0x65),
{
    perform(cpu, 0x65)
}

/// 0x66: LD H, (HL).
pub fn ld_h_hlp(cpu: &mut Cpu)
    requires
        old(cpu).inv(),
        can_perform(old(cpu).state(), 0x66),
    ensures
        final(cpu).inv(),
        performs(old(cpu).state(), final(cpu).state(), 0x66),
{
    perform(cpu, 0x66)
}

/// 0x67: LD H, A.
pub fn ld_h_a(cpu: &mut Cpu)
    requires
        old(cpu).inv(),
        can_perform(old(cpu).state(), 0x67),
    ensures
        final(cpu).inv(),
        performs(old(cpu).state(), final(cpu).state(), 0x67),
{
    perform(cpu, 0x67)
}

/// 0x68: LD L, B.
pub fn ld_l_b(cpu: &mut Cpu)
    requires
        old(cpu).inv(),
        can_perform(old(cpu).state(), 0x68),
    ensures
        final(cpu).inv(),
        performs(old(cpu).state(), final(cpu).state(), 0x68),
{
    perform(cpu, 0x68)
}

/// 0x69: LD L, C.
pub fn ld_l_c(cpu: &mut Cpu)
    requires
        old(cpu).inv(),
        can_perform(old(cpu).state(), 0x69),
    ensures
        final(cpu).inv(),
        performs(old(cpu).state(), final(cpu).state(), 0x69),
{
    perform(cpu, 0x69)
}

/// 0x6A: LD L, D.
pub fn ld_l_d(cpu: &mut Cpu)
    requires
        old(cpu).inv(),
        can_perform(old(cpu).state(), 0x6A),
    ensures
        final(cpu).inv(),
        performs(old(cpu).state(), final(cpu).state(), 0x6A),
{
    perform(cpu, 0x6A)
}

/// 0x6B: LD L, E.
pub fn ld_l_e(cpu: &mut Cpu)
    requires
        old(cpu).inv(),
        can_perform(old(cpu).state(), 0x6B),
    ensures
        final(cpu).inv(),
        performs(old(cpu).state(), final(cpu).state(), 0x6B),
{
    perform(cpu, 0x6B)
}

/// 0x6C: LD L, H.
pub fn ld_l_h(cpu: &mut Cpu)
    requires
        old(cpu).inv(),
        can_perform(old(cpu).state(), 0x6C),
    ensures
        final(cpu).inv(),
        performs(old(cpu).state(), final(cpu).state(), 0x6C),
{
    perform(cpu, 0x6C)
}

/// 0x6D: LD L, L.
pub fn ld_l_l(cpu: &mut Cpu)
    requires
        old(cpu).inv(),
        can_perform(old(cpu).state(), 0x6D),
    ensures
        final(cpu).inv(),
        performs(old(cpu).state(), final(cpu).state(), 0x6D),
{
    perform(cpu, 0x6D)
}

/// 0x6E: LD L, (HL).
pub fn ld_l_hlp(cpu: &mut Cpu)
    requires
        old(cpu).inv(),
        can_perform(old(cpu).state(), 0x6E),
    ensures
        final(cpu).inv(),
        performs(old(cpu).state(), final(cpu).state(), 0x6E),
{
    perform(cpu, 0x6E)
}

/// 0x6F: LD L, A.
pub fn ld_l_a(cpu: &mut Cpu)
    requires
        old(cpu).inv(),
        can_perform(old(cpu).state(), 0x6F),
    ensures
        final(cpu).inv(),
        performs(old(cpu).state(), final(cpu).state(), 0x6F),
{
    perform(cpu, 0x6F)
}

/// 0x70: LD (HL), B.
pub fn ld_addr_hl_b(cpu: &mut Cpu)
    requires
        old(cpu).inv(),
        can_perform(old(cpu).state(), 0x70),
    ensures
        final(cpu).inv(),
        performs(old(cpu).state(), final(cpu).state(), 0x70),
{
    perform(cpu, 0x70)
}

/// 0x71: LD (HL), C.
pub fn ld_addr_hl_c(cpu: &mut Cpu)
    requires
        old(cpu).inv(),
        can_perform(old(cpu).state(), 0x71),
    ensures
        final(cpu).inv(),
        performs(old(cpu).state(), final(cpu).state(), 0x71),
{
    perform(cpu, 0x71)
}

/// 0x72: LD (HL), D.
pub fn ld_addr_hl_d(cpu: &mut Cpu)
    requires
        old(cpu).inv(),
        can_perform(old(cpu).state(), 0x72),
    ensures
        final(cpu).inv(),
        performs(old(cpu).state(), final(cpu).state(), 0x72),
{
    perform(cpu, 0x72)
}

/// 0x73: LD (HL), E.
pub fn ld_addr_hl_e(cpu: &mut Cpu)
    requires
        old(cpu).inv(),
        can_perform(old(cpu).state(), 0x73),
    ensures
        final(cpu).inv(),
        performs(old(cpu).state(), final(cpu).state(), 0x73),
{
    perform(cpu, 0x73)
}

/// 0x74: LD (HL), H.
pub fn ld_addr_hl_h(cpu: &mut Cpu)
    requires
        old(cpu).inv(),
        can_perform(old(cpu).state(), 0x74),
    ensures
        final(cpu).inv(),
        performs(old(cpu).state(), final(cpu).state(), 0x74),
{
    perform(cpu, 0x74)
}

/// 0x75: LD (HL), L.
pub fn ld_addr_hl_l(cpu: &mut Cpu)
    requires
        old(cpu).inv(),
        can_perform(old(cpu).state(), 0x75),
    ensures
        final(cpu).inv(),
        performs(old(cpu).state(), final(cpu).state(), 0x75),
{
    perform(cpu, 0x75)
}

/// 0x76: HALT.
pub fn halt(cpu: &mut Cpu)
    requires
        old(cpu).inv(),
        can_perform(old(cpu).state(), 0x76),
    ensures
        final(cpu).inv(),
        performs(old(cpu).state(), final(cpu).state(), 0x76),
{
    perform(cpu, 0x76)
}

/// 0x77: LD (HL), A.
pub fn ld_addr_hl_a(cpu: &mut Cpu)
    requires
        old(cpu).inv(),
        can_perform(old(cpu).state(), 0x77),
    ensures
        final(cpu).inv(),
        performs(old(cpu).state(), final(cpu).state(), 0x77),
{
    perform(cpu, 0x77)
}

/// 0x78: LD A, B.
pub fn ld_a_b(cpu: &mut Cpu)
    requires
        old(cpu).inv(),
        can_perform(old(cpu).state(), 0x78),
    ensures
        final(cpu).inv(),
        performs(old(cpu).state(), final(cpu).state(), 0x78),
{
    perform(cpu, 0x78)
}

/// 0x79: LD A, C.
pub fn ld_a_c(cpu: &mut Cpu)
    requires
        old(cpu).inv(),
        can_perform(old(cpu).state(), 0x79),
    ensures
        final(cpu).inv(),
        performs(old(cpu).state(), final(cpu).state(), 0x79),
{
    perform(cpu, 0x79)
}

/// 0x7A: LD A, D.
pub fn ld_a_d(cpu: &mut Cpu)
    requires
        old(cpu).inv(),
        can_perform(old(cpu).state(), 0x7A),
    ensures
        final(cpu).inv(),
        performs(old(cpu).state(), final(cpu).state(), 0x7A),
{
    perform(cpu, 0x7A)
}

/// 0x7B: LD A, E.
pub fn ld_a_e(cpu: &mut Cpu)
    requires
        old(cpu).inv(),
        can_perform(old(cpu).state(), 0x7B),
    ensures
        final(cpu).inv(),
        performs(old(cpu).state(), final(cpu).state(), 0x7B),
{
    perform(cpu, 0x7B)
}

/// 0x7C: LD A, H.
pub fn ld_a_h(cpu: &mut Cpu)
    requires
        old(cpu).inv(),
        can_perform(old(cpu).state(), 0x7C),
    ensures
        final(cpu).inv(),
        performs(old(cpu).state(), final(cpu).state(), 0x7C),
{
    perform(cpu, 0x7C)
}

/// 0x7D: LD A, L.
pub fn ld_a_l(cpu: &mut Cpu)
    requires
        old(cpu).inv(),
        can_perform(old(cpu).state(), 0x7D),
    ensures
        final(cpu).inv(),
        performs(old(cpu).state(), final(cpu).state(), 0x7D),
{
    perform(cpu, 0x7D)
}

/// 0x7E: LD A, (HL).
pub fn ld_a_addr_hl(cpu: &mut Cpu)
    requires
        old(cpu).inv(),
        can_perform(old(cpu).state(), 0x7E),
    ensures
        final(cpu).inv(),
        performs(old(cpu).state(), final(cpu).state(), 0x7E),
{
    perform(cpu, 0x7E)
}

/// 0x7F: LD A, A.
pub fn ld_a_a(cpu: &mut Cpu)
    requires
        old(cpu).inv(),
        can_perform(old(cpu).state(), 0x7F),
    ensures
        final(cpu).inv(),
        performs(old(cpu).state(), final(cpu).state(), 0x7F),
{
    perform(cpu, 0x7F)
}

/// 0x80: ADD A, B.
pub fn add_a_b(cpu: &mut Cpu)
    requires
        old(cpu).inv(),
        can_perform(old(cpu).state(), 0x80),
    ensures
        final(cpu).inv(),
        performs(old(cpu).state(), final(cpu).state(), 0x80),
{
    perform(cpu, 0x80)
}

/// 0x81: ADD A, C.
pub fn add_a_c(cpu: &mut Cpu)
    requires
        old(cpu).inv(),
        can_perform(old(cpu).state(), 0x81),
    ensures
        final(cpu).inv(),
        performs(old(cpu).state(), final(cpu).state(), 0x81),
{
    perform(cpu, 0x81)
}

/// 0x82: ADD A, D.
pub fn add_a_d(cpu: &mut Cpu)
    requires
        old(cpu).inv(),
        can_perform(old(cpu).state(), 0x82),
    ensures
        final(cpu).inv(),
        performs(old(cpu).state(), final(cpu).state(), 0x82),
{
    perform(cpu, 0x82)
}

/// 0x83: ADD A, E.
pub fn add_a_e(cpu: &mut Cpu)
    requires
        old(cpu).inv(),
        can_perform(old(cpu).state(), 0x83),
    ensures
        final(cpu).inv(),
        performs(old(cpu).state(), final(cpu).state(), 0x83),
{
    perform(cpu, 0x83)
}

/// 0x84: ADD A, H.
pub fn add_a_h(cpu: &mut Cpu)
    requires
        old(cpu).inv(),
        can_perform(old(cpu).state(), 0x84),
    ensures
        final(cpu).inv(),
        performs(old(cpu).state(), final(cpu).state(), 0x84),
{
    perform(cpu, 0x84)
}

/// 0x85: ADD A, L.
pub fn add_a_l(cpu: &mut Cpu)
    requires
        old(cpu).inv(),
        can_perform(old(cpu).state(), 0x85),
    ensures
        final(cpu).inv(),
        performs(old(cpu).state(), final(cpu).state(), 0x85),
{
    perform(cpu, 0x85)
}

/// 0x86: ADD A, (HL).
pub fn add_a_addr_hl(cpu: &mut Cpu)
    requires
        old(cpu).inv(),
        can_perform(old(cpu).state(), 0x86),
    ensures
        final(cpu).inv(),
        performs(old(cpu).state(), final(cpu).state(), 0x86),
{
    perform(cpu, 0x86)
}

/// 0x87: ADD A, A.
pub fn add_a_a(cpu: &mut Cpu)
    requires
        old(cpu).inv(),
        can_perform(old(cpu).state(), 0x87),
    ensures
        final(cpu).inv(),
        performs(old(cpu).state(), final(cpu).state(), 0x87),
{
    perform(cpu, 0x87)
}

/// 0x88: ADC A, B.
pub fn addc_a_b(cpu: &mut Cpu)
    requires
        old(cpu).inv(),
        can_perform(old(cpu).state(), 0x88),
    ensures
        final(cpu).inv(),
        performs(old(cpu).state(), final(cpu).state(), 0x88),
{
    perform(cpu, 0x88)
}

/// 0x89: ADC A, C.
pub fn addc_a_c(cpu: &mut Cpu)
    requires
        old(cpu).inv(),
        can_perform(old(cpu).state(), 0x89),
    ensures
        final(cpu).inv(),
        performs(old(cpu).state(), final(cpu).state(), 0x89),
{
    perform(cpu, 0x89)
}

/// 0x8A: ADC A, D.
pub fn addc_a_d(cpu: &mut Cpu)
    requires
        old(cpu).inv(),
        can_perform(old(cpu).state(), 0x8A),
    ensures
        final(cpu).inv(),
        performs(old(cpu).state(), final(cpu).state(), 0x8A),
{
    perform(cpu, 0x8A)
}

/// 0x8B: ADC A, E.
pub fn addc_a_e(cpu: &mut Cpu)
    requires
        old(cpu).inv(),
        can_perform(old(cpu).state(), 0x8B),
    ensures
        final(cpu).inv(),
        performs(old(cpu).state(), final(cpu).state(), 0x8B),
{
    perform(cpu, 0x8B)
}

/// 0x8C: ADC A, H.
pub fn addc_a_h(cpu: &mut Cpu)
    requires
        old(cpu).inv(),
        can_perform(old(cpu).state(), 0x8C),
    ensures
        final(cpu).inv(),
        performs(old(cpu).state(), final(cpu).state(), 0x8C),
{
    perform(cpu, 0x8C)
}

/// 0x8D: ADC A, L.
pub fn addc_a_l(cpu: &mut Cpu)
    requires
        old(cpu).inv(),
        can_perform(old(cpu).state(), 0x8D),
    ensures
        final(cpu).inv(),
        performs(old(cpu).state(), final(cpu).state(), 0x8D),
{
    perform(cpu, 0x8D)
}

/// 0x8E: ADC A, (HL).
pub fn addc_a_addr_hl(cpu: &mut Cpu)
    requires
        old(cpu).inv(),
        can_perform(old(cpu).state(), 0x8E),
    ensures
        final(cpu).inv(),
        performs(old(cpu).state(), final(cpu).state(), 0x8E),
{
    perform(cpu, 0x8E)
}

/// 0x8F: ADC A, A.
pub fn addc_a_a(cpu: &mut Cpu)
    requires
        old(cpu).inv(),
        can_perform(old(cpu).state(), 0x8F),
    ensures
        final(cpu).inv(),
        performs(old(cpu).state(), final(cpu).state(), 0x8F),
{
    perform(cpu, 0x8F)
}

/// 0x90: SUB B.
pub fn sub_b(cpu: &mut Cpu)
    requires
        old(cpu).inv(),
        can_perform(old(cpu).state(), 0x90),
    ensures
        final(cpu).inv(),
        performs(old(cpu).state(), final(cpu).state(), 0x90),
{
    perform(cpu, 0x90)
}

/// 0x91: SUB C.
pub fn sub_c(cpu: &mut Cpu)
    requires
        old(cpu).inv(),
        can_perform(old(cpu).state(), 0x91),
    ensures
        final(cpu).inv(),
        performs(old(cpu).state(), final(cpu).state(), 0x91),
{
    perform(cpu, 0x91)
}

/// 0x92: SUB D.
pub fn sub_d(cpu: &mut Cpu)
    requires
        old(cpu).inv(),
        can_perform(old(cpu).state(), 0x92),
    ensures
        final(cpu).inv(),
        performs(old(cpu).state(), final(cpu).state(), 0x92),
{
    perform(cpu, 0x92)
}

/// 0x93: SUB E.
pub fn sub_e(cpu: &mut Cpu)
    requires
        old(cpu).inv(),
        can_perform(old(cpu).state(), 0x93),
    ensures
        final(cpu).inv(),
        performs(old(cpu).state(), final(cpu).state(), 0x93),
{
    perform(cpu, 0x93)
}

/// 0x94: SUB H.
pub fn sub_h(cpu: &mut Cpu)
    requires
        old(cpu).inv(),
        can_perform(old(cpu).state(), 0x94),
    ensures
        final(cpu).inv(),
        performs(old(cpu).state(), final(cpu).state(), 0x94),
{
    perform(cpu, 0x94)
}

/// 0x95: SUB L.
pub fn sub_l(cpu: &mut Cpu)
    requires
        old(cpu).inv(),
        can_perform(old(cpu).state(), 0x95),
    ensures
        final(cpu).inv(),
        performs(old(cpu).state(), final(cpu).state(), 0x95),
{
    perform(cpu, 0x95)
}

/// 0x96: SUB (HL).
pub fn sub_addr_hl(cpu: &mut Cpu)
    requires
        old(cpu).inv(),
        can_perform(old(cpu).state(), 0x96),
    ensures
        final(cpu).inv(),
        performs(old(cpu).state(), final(cpu).state(), 0x96),
{
    perform(cpu, 0x96)
}

/// 0x97: SUB A.
pub fn sub_a(cpu: &mut Cpu)
    requires
        old(cpu).inv(),
        can_perform(old(cpu).state(), 0x97),
    ensures
        final(cpu).inv(),
        performs(old(cpu).state(), final(cpu).state(), 0x97),
{
    perform(cpu, 0x97)
}

/// 0x98: SBC A, B.
pub fn sbc_a_b(cpu: &mut Cpu)
    requires
        old(cpu).inv(),
        can_perform(old(cpu).state(), 0x98),
    ensures
        final(cpu).inv(),
        performs(old(cpu).state(), final(cpu).state(), 0x98),
{
    perform(cpu, 0x98)
}

/// 0x99: SBC A, C.
pub fn subc_a_c(cpu: &mut Cpu)
    requires
        old(cpu).inv(),
        can_perform(old(cpu).state(), 0x99),
    ensures
        final(cpu).inv(),
        performs(old(cpu).state(), final(cpu).state(), 0x99),
{
    perform(cpu, 0x99)
}

/// 0x9A: SBC A, D.
pub fn subc_a_d(cpu: &mut Cpu)
    requires
        old(cpu).inv(),
        can_perform(old(cpu).state(), 0x9A),
    ensures
        final(cpu).inv(),
        performs(old(cpu).state(), final(cpu).state(), 0x9A),
{
    perform(cpu, 0x9A)
}

/// 0x9B: SBC A, E.
pub fn subc_a_e(cpu: &mut Cpu)
    requires
        old(cpu).inv(),
        can_perform(old(cpu).state(), 0x9B),
    ensures
        final(cpu).inv(),
        performs(old(cpu).state(), final(cpu).state(), 0x9B),
{
    perform(cpu, 0x9B)
}

/// 0x9C: SBC A, H.
pub fn subc_a_h(cpu: &mut Cpu)
    requires
        old(cpu).inv(),
        can_perform(old(cpu).state(), 0x9C),
    ensures
        final(cpu).inv(),
        performs(old(cpu).state(), final(cpu).state(), 0x9C),
{
    perform(cpu, 0x9C)
}

/// 0x9D: SBC A, L.
pub fn subc_a_l(cpu: &mut Cpu)
    requires
        old(cpu).inv(),
        can_perform(old(cpu).state(), 0x9D),
    ensures
        final(cpu).inv(),
        performs(old(cpu).state(), final(cpu).state(), 0x9D),
{
    perform(cpu, 0x9D)
}

/// 0x9E: SBC A, (HL).
pub fn subc_a_addr_hl(cpu: &mut Cpu)
    requires
        old(cpu).inv(),
        can_perform(old(cpu).state(), 0x9E),
    ensures
        final(cpu).inv(),
        performs(old(cpu).state(), final(cpu).state(), 0x9E),
{
    perform(cpu, 0x9E)
}

/// 0x9F: SBC A, A.
pub fn subc_a_a(cpu: &mut Cpu)
    requires
        old(cpu).inv(),
        can_perform(old(cpu).state(), 0x9F),
    ensures
        final(cpu).inv(),
        performs(old(cpu).state(), final(cpu).state(), 0x9F),
{
    perform(cpu, 0x9F)
}

/// 0xA0: AND A, B.
pub fn and_b(cpu: &mut Cpu)
    requires
        old(cpu).inv(),
        can_perform(old(cpu).state(), 0xA0),
    ensures
        final(cpu).inv(),
        performs(old(cpu).state(), final(cpu).state(), 0xA0),
{
    perform(cpu, 0xA0)
}

/// 0xA1: AND A, C.
pub fn and_c(cpu: &mut Cpu)
    requires
        old(cpu).inv(),
        can_perform(old(cpu).state(), 0xA1),
    ensures
        final(cpu).inv(),
        performs(old(cpu).state(), final(cpu).state(), 0xA1),
{
    perform(cpu, 0xA1)
}

/// 0xA2: AND A, D.
pub fn and_d(cpu: &mut Cpu)
    requires
        old(cpu).inv(),
        can_perform(old(cpu).state(), 0xA2),
    ensures
        final(cpu).inv(),
        performs(old(cpu).state(), final(cpu).state(), 0xA2),
{
    perform(cpu, 0xA2)
}

/// 0xA3: AND A, E.
pub fn and_e(cpu: &mut Cpu)
    requires
        old(cpu).inv(),
        can_perform(old(cpu).state(), 0xA3),
    ensures
        final(cpu).inv(),
        performs(old(cpu).state(), final(cpu).state(), 0xA3),
{
    perform(cpu, 0xA3)
}

/// 0xA4: AND A, H.
pub fn and_h(cpu: &mut Cpu)
    requires
        old(cpu).inv(),
        can_perform(old(cpu).state(), 0xA4),
    ensures
        final(cpu).inv(),
        performs(old(cpu).state(), final(cpu).state(), 0xA4),
{
    perform(cpu, 0xA4)
}

/// 0xA5: AND A, L.
pub fn and_l(cpu: &mut Cpu)
    requires
        old(cpu).inv(),
        can_perform(old(cpu).state(), 0xA5),
    ensures
        final(cpu).inv(),
        performs(old(cpu).state(), final(cpu).state(), 0xA5),
{
    perform(cpu, 0xA5)
}

/// 0xA6: AND A, (HL).
pub fn and_addr_hl(cpu: &mut Cpu)
    requires
        old(cpu).inv(),
        can_perform(old(cpu).state(), 0xA6),
    ensures
        final(cpu).inv(),
        performs(old(cpu).state(), final(cpu).state(), 0xA6),
{
    perform(cpu, 0xA6)
}

/// 0xA7: AND A, A.
pub fn and_a(cpu: &mut Cpu)
    requires
        old(cpu).inv(),
        can_perform(old(cpu).state(), 0xA7),
    ensures
        final(cpu).inv(),
        performs(old(cpu).state(), final(cpu).state(), 0xA7),
{
    perform(cpu, 0xA7)
}

/// 0xA8: XOR A, B.
pub fn xor_b(cpu: &mut Cpu)
    requires
        old(cpu).inv(),
        can_perform(old(cpu).state(), 0xA8),
    ensures
        final(cpu).inv(),
        performs(old(cpu).state(), final(cpu).state(), 0xA8),
{
    perform(cpu, 0xA8)
}

/// 0xA9: XOR A, C.
pub fn xor_c(cpu: &mut Cpu)
    requires
        old(cpu).inv(),
        can_perform(old(cpu).state(), 0xA9),
    ensures
        final(cpu).inv(),
        performs(old(cpu).state(), final(cpu).state(), 0xA9),
{
    perform(cpu, 0xA9)
}

/// 0xAA: XOR A, D.
pub fn xor_d(cpu: &mut Cpu)
    requires
        old(cpu).inv(),
        can_perform(old(cpu).state(), 0xAA),
    ensures
        final(cpu).inv(),
        performs(old(cpu).state(), final(cpu).state(), 0xAA),
{
    perform(cpu, 0xAA)
}

/// 0xAB: XOR A, E.
pub fn xor_e(cpu: &mut Cpu)
    requires
        old(cpu).inv(),
        can_perform(old(cpu).state(), 0xAB),
    ensures
        final(cpu).inv(),
        performs(old(cpu).state(), final(cpu).state(), 0xAB),
{
    perform(cpu, 0xAB)
}

/// 0xAC: XOR A, H.
pub fn xor_h(cpu: &mut Cpu)
    requires
        old(cpu).inv(),
        can_perform(old(cpu).state(), 0xAC),
    ensures
        final(cpu).inv(),
        performs(old(cpu).state(), final(cpu).state(), 0xAC),
{
    perform(cpu, 0xAC)
}

/// 0xAD: XOR A, L.
pub fn xor_l(cpu: &mut Cpu)
    requires
        old(cpu).inv(),
        can_perform(old(cpu).state(), 0xAD),
    ensures
        final(cpu).inv(),
        performs(old(cpu).state(), final(cpu).state(), 0xAD),
{
    perform(cpu, 0xAD)
}

/// 0xAE: XOR A, (HL).
pub fn xor_addr_hl(cpu: &mut Cpu)
    requires
        old(cpu).inv(),
        can_perform(old(cpu).state(), 0xAE),
    ensures
        final(cpu).inv(),
        performs(old(cpu).state(), final(cpu).state(), 0xAE),
{
    perform(cpu, 0xAE)
}

/// 0xAF: XOR A, A.
pub fn xor_a(cpu: &mut Cpu)
    requires
        old(cpu).inv(),
        can_perform(old(cpu).state(), 0xAF),
    ensures
        final(cpu).inv(),
        performs(old(cpu).state(), final(cpu).state(), 0xAF),
{
    perform(cpu, 0xAF)
}

/// 0xB0: OR A, B.
pub fn or_b(cpu: &mut Cpu)
    requires
        old(cpu).inv(),
        can_perform(old(cpu).state(), 0xB0),
    ensures
        final(cpu).inv(),
        performs(old(cpu).state(), final(cpu).state(), 0xB0),
{
    perform(cpu, 0xB0)
}

/// 0xB1: OR A, C.
pub fn or_c(cpu: &mut Cpu)
    requires
        old(cpu).inv(),
        can_perform(old(cpu).state(), 0xB1),
    ensures
        final(cpu).inv(),
        performs(old(cpu).state(), final(cpu).state(), 0xB1),
{
    perform(cpu, 0xB1)
}

/// 0xB2: OR A, D.
pub fn or_d(cpu: &mut Cpu)
    requires
        old(cpu).inv(),
        can_perform(old(cpu).state(), 0xB2),
    ensures
        final(cpu).inv(),
        performs(old(cpu).state(), final(cpu).state(), 0xB2),
{
    perform(cpu, 0xB2)
}

/// 0xB3: OR A, E.
pub fn or_e(cpu: &mut Cpu)
    requires
        old(cpu).inv(),
        can_perform(old(cpu).state(), 0xB3),
    ensures
        final(cpu).inv(),
        performs(old(cpu).state(), final(cpu).state(), 0xB3),
{
    perform(cpu, 0xB3)
}

/// 0xB4: OR A, H.
pub fn or_h(cpu: &mut Cpu)
    requires
        old(cpu).inv(),
        can_perform(old(cpu).state(), 0xB4),
    ensures
        final(cpu).inv(),
        performs(old(cpu).state(), final(cpu).state(), 0xB4),
{
    perform(cpu, 0xB4)
}

/// 0xB5: OR A, L.
pub fn or_l(cpu: &mut Cpu)
    requires
        old(cpu).inv(),
        can_perform(old(cpu).state(), 0xB5),
    ensures
        final(cpu).inv(),
        performs(old(cpu).state(), final(cpu).state(), 0xB5),
{
    perform(cpu, 0xB5)
}

/// 0xB6: OR A, (HL).
pub fn or_addr_hl(cpu: &mut Cpu)
    requires
        old(cpu).inv(),
        can_perform(old(cpu).state(), 0xB6),
    ensures
        final(cpu).inv(),
        performs(old(cpu).state(), final(cpu).state(), 0xB6),
{
    perform(cpu, 0xB6)
}

/// 0xB7: OR A, A.
pub fn or_a(cpu: &mut Cpu)
    requires
        old(cpu).inv(),
        can_perform(old(cpu).state(), 0xB7),
    ensures
        final(cpu).inv(),
        performs(old(cpu).state(), final(cpu).state(), 0xB7),
{
    perform(cpu, 0xB7)
}

/// 0xB8: CP A, B.
pub fn cp_b(cpu: &mut Cpu)
    requires
        old(cpu).inv(),
        can_perform(old(cpu).state(), 0xB8),
    ensures
        final(cpu).inv(),
        performs(old(cpu).state(), final(cpu).state(), 0xB8),
{
    perform(cpu, 0xB8)
}

/// 0xB9: CP A, C.
pub fn cp_c(cpu: &mut Cpu)
    requires
        old(cpu).inv(),
        can_perform(old(cpu).state(), 0xB9),
    ensures
        final(cpu).inv(),
        performs(old(cpu).state(), final(cpu).state(), 0xB9),
{
    perform(cpu, 0xB9)
}

/// 0xBA: CP A, D.
pub fn cp_d(cpu: &mut Cpu)
    requires
        old(cpu).inv(),
        can_perform(old(cpu).state(), 0xBA),
    ensures
        final(cpu).inv(),
        performs(old(cpu).state(), final(cpu).state(), 0xBA),
{
    perform(cpu, 0xBA)
}

/// 0xBB: CP A, E.
pub fn cp_e(cpu: &mut Cpu)
    requires
        old(cpu).inv(),
        can_perform(old(cpu).state(), 0xBB),
    ensures
        final(cpu).inv(),
        performs(old(cpu).state(), final(cpu).state(), 0xBB),
{
    perform(cpu, 0xBB)
}

/// 0xBC: CP A, H.
pub fn cp_h(cpu: &mut Cpu)
    requires
        old(cpu).inv(),
        can_perform(old(cpu).state(), 0xBC),
    ensures
        final(cpu).inv(),
        performs(old(cpu).state(), final(cpu).state(), 0xBC),
{
    perform(cpu, 0xBC)
}

/// 0xBD: CP A, L.
pub fn cp_l(cpu: &mut Cpu)
    requires
        old(cpu).inv(),
        can_perform(old(cpu).state(), 0xBD),
    ensures
        final(cpu).inv(),
        performs(old(cpu).state(), final(cpu).state(), 0xBD),
{
    perform(cpu, 0xBD)
}

/// 0xBE: CP A, (HL).
pub fn cp_addr_hl(cpu: &mut Cpu)
    requires
        old(cpu).inv(),
        can_perform(old(cpu).state(), 0xBE),
    ensures
        final(cpu).inv(),
        performs(old(cpu).state(), final(cpu).state(), 0xBE),
{
    perform(cpu, 0xBE)
}

/// 0xBF: CP A, A.
pub fn cp_a(cpu: &mut Cpu)
    requires
        old(cpu).inv(),
        can_perform(old(cpu).state(), 0xBF),
    ensures
        final(cpu).inv(),
        performs(old(cpu).state(), final(cpu).state(), 0xBF),
{
    perform(cpu, 0xBF)
}

/// 0xC0: RET NZ.
pub fn ret_nz(cpu: &mut Cpu)
    requires
        old(cpu).inv(),
        can_perform(old(cpu).state(), 0xC0),
    ensures
        final(cpu).inv(),
        performs(old(cpu).state(), final(cpu).state(), 0xC0),
{
    perform(cpu, 0xC0)
}

/// 0xC1: POP BC.
pub fn pop_bc(cpu: &mut Cpu)
    requires
        old(cpu).inv(),
        can_perform(old(cpu).state(), 0xC1),
    ensures
        final(cpu).inv(),
        performs(old(cpu).state(), final(cpu).state(), 0xC1),
{
    perform(cpu, 0xC1)
}

/// 0xC2: JP NZ, nn.
pub fn jp_nz_addr16(cpu: &mut Cpu)
    requires
        old(cpu).inv(),
        can_perform(old(cpu).state(), 0xC2),
    ensures
        final(cpu).inv(),
        performs(old(cpu).state(), final(cpu).state(), 0xC2),
{
    perform(cpu, 0xC2)
}

/// 0xC3: JP nn.
pub fn jp_addr16(cpu: &mut Cpu)
    requires
        old(cpu).inv(),
        can_perform(old(cpu).state(), 0xC3),
    ensures
        final(cpu).inv(),
        performs(old(cpu).state(), final(cpu).state(), 0xC3),
{
    perform(cpu, 0xC3)
}

/// 0xC4: CALL NZ, nn.
pub fn call_nz_addr16(cpu: &mut Cpu)
    requires
        old(cpu).inv(),
        can_perform(old(cpu).state(), 0xC4),
    ensures
        final(cpu).inv(),
        performs(old(cpu).state(), final(cpu).state(), 0xC4),
{
    perform(cpu, 0xC4)
}

/// 0xC5: PUSH BC.
pub fn push_bc(cpu: &mut Cpu)
    requires
        old(cpu).inv(),
        can_perform(old(cpu).state(), 0xC5),
    ensures
        final(cpu).inv(),
        performs(old(cpu).state(), final(cpu).state(), 0xC5),
{
    perform(cpu, 0xC5)
}

/// 0xC6: ADD A, n.
pub fn add_addr_d8(cpu: &mut Cpu)
    requires
        old(cpu).inv(),
        can_perform(old(cpu).state(), 0xC6),
    ensures
        final(cpu).inv(),
        performs(old(cpu).state(), final(cpu).state(), 0xC6),
{
    perform(cpu, 0xC6)
}

/// 0xC7: RST n.
pub fn rst_00h(cpu: &mut Cpu)
    requires
        old(cpu).inv(),
        can_perform(old(cpu).state(), 0xC7),
    ensures
        final(cpu).inv(),
        performs(old(cpu).state(), final(cpu).state(), 0xC7),
{
    perform(cpu, 0xC7)
}

/// 0xC8: RET Z.
pub fn ret_z(cpu: &mut Cpu)
    requires
        old(cpu).inv(),
        can_perform(old(cpu).state(), 0xC8),
    ensures
        final(cpu).inv(),
        performs(old(cpu).state(), final(cpu).state(), 0xC8),
{
    perform(cpu, 0xC8)
}

/// 0xC9: RET.
pub fn ret(cpu: &mut Cpu)
    requires
        old(cpu).inv(),
        can_perform(old(cpu).state(), 0xC9),
    ensures
        final(cpu).inv(),
        performs(old(cpu).state(), final(cpu).state(), 0xC9),
{
    perform(cpu, 0xC9)
}

/// 0xCA: JP Z, nn.
pub fn jp_z_addr16(cpu: &mut Cpu)
    requires
        old(cpu).inv(),
        can_perform(old(cpu).state(), 0xCA),
    ensures
        final(cpu).inv(),
        performs(old(cpu).state(), final(cpu).state(), 0xCA),
{
    perform(cpu, 0xCA)
}

/// 0xCC: CALL Z, nn.
pub fn call_z_addr16(cpu: &mut Cpu)
    requires
        old(cpu).inv(),
        can_perform(old(cpu).state(), 0xCC),
    ensures
        final(cpu).inv(),
        performs(old(cpu).state(), final(cpu).state(), 0xCC),
{
    perform(cpu, 0xCC)
}

/// 0xCD: CALL nn.
pub fn call_a16(cpu: &mut Cpu)
    requires
        old(cpu).inv(),
        can_perform(old(cpu).state(), 0xCD),
    ensures
        final(cpu).inv(),
        performs(old(cpu).state(), final(cpu).state(), 0xCD),
{
    perform(cpu, 0xCD)
}

/// 0xCE: ADC A, n.
pub fn adc_addr_d8(cpu: &mut Cpu)
    requires
        old(cpu).inv(),
        can_perform(old(cpu).state(), 0xCE),
    ensures
        final(cpu).inv(),
        performs(old(cpu).state(), final(cpu).state(), 0xCE),
{
    perform(cpu, 0xCE)
}

/// 0xCF: RST n.
pub fn rst_98h(cpu: &mut Cpu)
    requires
        old(cpu).inv(),
        can_perform(old(cpu).state(), 0xCF),
    ensures
        final(cpu).inv(),
        performs(old(cpu).state(), final(cpu).state(), 0xCF),
{
    perform(cpu, 0xCF)
}

/// 0xD0: RET NC.
pub fn ret_nc(cpu: &mut Cpu)
    requires
        old(cpu).inv(),
        can_perform(old(cpu).state(), 0xD0),
    ensures
        final(cpu).inv(),
        performs(old(cpu).state(), final(cpu).state(), 0xD0),
{
    perform(cpu, 0xD0)
}

/// 0xD1: POP DE.
pub fn pop_de(cpu: &mut Cpu)
    requires
        old(cpu).inv(),
        can_perform(old(cpu).state(), 0xD1),
    ensures
        final(cpu).inv(),
        performs(old(cpu).state(), final(cpu).state(), 0xD1),
{
    perform(cpu, 0xD1)
}

/// 0xD2: JP NC, nn.
pub fn jp_nc_addr16(cpu: &mut Cpu)
    requires
        old(cpu).inv(),
        can_perform(old(cpu).state(), 0xD2),
    ensures
        final(cpu).inv(),
        performs(old(cpu).state(), final(cpu).state(), 0xD2),
{
    perform(cpu, 0xD2)
}

/// 0xD4: CALL NC, nn.
pub fn call_nc_addr16(cpu: &mut Cpu)
    requires
        old(cpu).inv(),
        can_perform(old(cpu).state(), 0xD4),
    ensures
        final(cpu).inv(),
        performs(old(cpu).state(), final(cpu).state(), 0xD4),
{
    perform(cpu, 0xD4)
}

/// 0xD5: PUSH DE.
pub fn push_de(cpu: &mut Cpu)
    requires
        old(cpu).inv(),
        can_perform(old(cpu).state(), 0xD5),
    ensures
        final(cpu).inv(),
        performs(old(cpu).state(), final(cpu).state(), 0xD5),
{
    perform(cpu, 0xD5)
}

/// 0xD6: SUB n.
pub fn sub_d8(cpu: &mut Cpu)
    requires
        old(cpu).inv(),
        can_perform(old(cpu).state(), 0xD6),
    ensures
        final(cpu).inv(),
        performs(old(cpu).state(), final(cpu).state(), 0xD6),
{
    perform(cpu, 0xD6)
}

/// 0xD7: RST n.
pub fn rst_10h(cpu: &mut Cpu)
    requires
        old(cpu).inv(),
        can_perform(old(cpu).state(), 0xD7),
    ensures
        final(cpu).inv(),
        performs(old(cpu).state(), final(cpu).state(), 0xD7),
{
    perform(cpu, 0xD7)
}

/// 0xD8: RET C.
pub fn ret_c(cpu: &mut Cpu)
    requires
        old(cpu).inv(),
        can_perform(old(cpu).state(), 0xD8),
    ensures
        final(cpu).inv(),
        performs(old(cpu).state(), final(cpu).state(), 0xD8),
{
    perform(cpu, 0xD8)
}

/// 0xD9: RETI.
pub fn reti(cpu: &mut Cpu)
    requires
        old(cpu).inv(),
        can_perform(old(cpu).state(), 0xD9),
    ensures
        final(cpu).inv(),
        performs(old(cpu).state(), final(cpu).state(), 0xD9),
{
    perform(cpu, 0xD9)
}

/// 0xDA: JP C, nn.
pub fn jp_c_addr16(cpu: &mut Cpu)
    requires
        old(cpu).inv(),
        can_perform(old(cpu).state(), 0xDA),
    ensures
        final(cpu).inv(),
        performs(old(cpu).state(), final(cpu).state(), 0xDA),
{
    perform(cpu, 0xDA)
}

/// 0xDC: CALL C, nn.
pub fn call_c_addr16(cpu: &mut Cpu)
    requires
        old(cpu).inv(),
        can_perform(old(cpu).state(), 0xDC),
    ensures
        final(cpu).inv(),
        performs(old(cpu).state(), final(cpu).state(), 0xDC),
{
    perform(cpu, 0xDC)
}

/// 0xDE: SBC A, n.
pub fn sbc_a_addr8(cpu: &mut Cpu)
    requires
        old(cpu).inv(),
        can_perform(old(cpu).state(), 0xDE),
    ensures
        final(cpu).inv(),
        performs(old(cpu).state(), final(cpu).state(), 0xDE),
{
    perform(cpu, 0xDE)
}

/// 0xDF: RST n.
pub fn rst_18h(cpu: &mut Cpu)
    requires
        old(cpu).inv(),
        can_perform(old(cpu).state(), 0xDF),
    ensures
        final(cpu).inv(),
        performs(old(cpu).state(), final(cpu).state(), 0xDF),
{
    perform(cpu, 0xDF)
}

/// 0xE0: LDH (n), A.
pub fn lda_addr8_a(cpu: &mut Cpu)
    requires
        old(cpu).inv(),
        can_perform(old(cpu).state(), 0xE0),
    ensures
        final(cpu).inv(),
        performs(old(cpu).state(), final(cpu).state(), 0xE0),
{
    perform(cpu, 0xE0)
}

/// 0xE1: POP HL.
pub fn pop_hl(cpu: &mut Cpu)
    requires
        old(cpu).inv(),
        can_perform(old(cpu).state(), 0xE1),
    ensures
        final(cpu).inv(),
        performs(old(cpu).state(), final(cpu).state(), 0xE1),
{
    perform(cpu, 0xE1)
}

/// 0xE2: LD (C), A.
pub fn ld_addr_c_a(cpu: &mut Cpu)
    requires
        old(cpu).inv(),
        can_perform(old(cpu).state(), 0xE2),
    ensures
        final(cpu).inv(),
        performs(old(cpu).state(), final(cpu).state(), 0xE2),
{
    perform(cpu, 0xE2)
}

/// 0xE5: PUSH HL.
pub fn push_hl(cpu: &mut Cpu)
    requires
        old(cpu).inv(),
        can_perform(old(cpu).state(), 0xE5),
    ensures
        final(cpu).inv(),
        performs(old(cpu).state(), final(cpu).state(), 0xE5),
{
    perform(cpu, 0xE5)
}

/// 0xE6: AND A, n.
pub fn and_d8(cpu: &mut Cpu)
    requires
        old(cpu).inv(),
        can_perform(old(cpu).state(), 0xE6),
    ensures
        final(cpu).inv(),
        performs(old(cpu).state(), final(cpu).state(), 0xE6),
{
    perform(cpu, 0xE6)
}

/// 0xE7: RST n.
pub fn rst_20h(cpu: &mut Cpu)
    requires
        old(cpu).inv(),
        can_perform(old(cpu).state(), 0xE7),
    ensures
        final(cpu).inv(),
        performs(old(cpu).state(), final(cpu).state(), 0xE7),
{
    perform(cpu, 0xE7)
}

/// 0xE8: ADD SP, n.
pub fn add_sp_r8(cpu: &mut Cpu)
    requires
        old(cpu).inv(),
        can_perform(old(cpu).state(), 0xE8),
    ensures
        final(cpu).inv(),
        performs(old(cpu).state(), final(cpu).state(), 0xE8),
{
    perform(cpu, 0xE8)
}

/// 0xE9: JP (HL).
pub fn jp_addr_hl(cpu: &mut Cpu)
    requires
        old(cpu).inv(),
        can_perform(old(cpu).state(), 0xE9),
    ensures
        final(cpu).inv(),
        performs(old(cpu).state(), final(cpu).state(), 0xE9),
{
    perform(cpu, 0xE9)
}

/// 0xEA: LD (nn), A.
pub fn ld_addr16_a(cpu: &mut Cpu)
    requires
        old(cpu).inv(),
        can_perform(old(cpu).state(), 0xEA),
    ensures
        final(cpu).inv(),
        performs(old(cpu).state(), final(cpu).state(), 0xEA),
{
    perform(cpu, 0xEA)
}

/// 0xEE: XOR A, n.
pub fn xor_d8(cpu: &mut Cpu)
    requires
        old(cpu).inv(),
        can_perform(old(cpu).state(), 0xEE),
    ensures
        final(cpu).inv(),
        performs(old(cpu).state(), final(cpu).state(), 0xEE),
{
    perform(cpu, 0xEE)
}

/// 0xEF: RST n.
pub fn rst_28h(cpu: &mut Cpu)
    requires
        old(cpu).inv(),
        can_perform(old(cpu).state(), 0xEF),
    ensures
        final(cpu).inv(),
        performs(old(cpu).state(), final(cpu).state(), 0xEF),
{
    perform(cpu, 0xEF)
}

/// 0xF0: LDH A, (n).
pub fn lda_a_addr8(cpu: &mut Cpu)
    requires
        old(cpu).inv(),
        can_perform(old(cpu).state(), 0xF0),
    ensures
        final(cpu).inv(),
        performs(old(cpu).state(), final(cpu).state(), 0xF0),
{
    perform(cpu, 0xF0)
}

/// 0xF1: POP AF.
pub fn pop_af(cpu: &mut Cpu)
    requires
        old(cpu).inv(),
        can_perform(old(cpu).state(), 0xF1),
    ensures
        final(cpu).inv(),
        performs(old(cpu).state(), final(cpu).state(), 0xF1),
{
    perform(cpu, 0xF1)
}

/// 0xF2: LD A, (C).
pub fn ld_a_addr_c(cpu: &mut Cpu)
    requires
        old(cpu).inv(),
        can_perform(old(cpu).state(), 0xF2),
    ensures
        final(cpu).inv(),
        performs(old(cpu).state(), final(cpu).state(), 0xF2),
{
    perform(cpu, 0xF2)
}

/// 0xF3: DI.
pub fn di(cpu: &mut Cpu)
    requires
        old(cpu).inv(),
        can_perform(old(cpu).state(), 0xF3),
    ensures
        final(cpu).inv(),
        performs(old(cpu).state(), final(cpu).state(), 0xF3),
{
    perform(cpu, 0xF3)
}

/// 0xF5: PUSH AF.
pub fn push_af(cpu: &mut Cpu)
    requires
        old(cpu).inv(),
        can_perform(old(cpu).state(), 0xF5),
    ensures
        final(cpu).inv(),
        performs(old(cpu).state(), final(cpu).state(), 0xF5),
{
    perform(cpu, 0xF5)
}

/// 0xF6: OR A, n.
pub fn or_d8(cpu: &mut Cpu)
    requires
        old(cpu).inv(),
        can_perform(old(cpu).state(), 0xF6),
    ensures
        final(cpu).inv(),
        performs(old(cpu).state(), final(cpu).state(), 0xF6),
{
    perform(cpu, 0xF6)
}

/// 0xF7: RST n.
pub fn rst_30h(cpu: &mut Cpu)
    requires
        old(cpu).inv(),
        can_perform(old(cpu).state(), 0xF7),
    ensures
        final(cpu).inv(),
        performs(old(cpu).state(), final(cpu).state(), 0xF7),
{
    perform(cpu, 0xF7)
}

/// 0xF8: LDHL SP, n.
pub fn add_sp_plus_r8(cpu: &mut Cpu)
    requires
        old(cpu).inv(),
        can_perform(old(cpu).state(), 0xF8),
    ensures
        final(cpu).inv(),
        performs(old(cpu).state(), final(cpu).state(), 0xF8),
{
    perform(cpu, 0xF8)
}

/// 0xF9: LD SP, HL.
pub fn ld_sp_hl(cpu: &mut Cpu)
    requires
        old(cpu).inv(),
        can_perform(old(cpu).state(), 0xF9),
    ensures
        final(cpu).inv(),
        performs(old(cpu).state(), final(cpu).state(), 0xF9),
{
    perform(cpu, 0xF9)
}

/// 0xFA: LD A, (nn).
pub fn ld_a_addr16(cpu: &mut Cpu)
    requires
        old(cpu).inv(),
        can_perform(old(cpu).state(), 0xFA),
    ensures
        final(cpu).inv(),
        performs(old(cpu).state(), final(cpu).state(), 0xFA),
{
    perform(cpu, 0xFA)
}

/// 0xFB: EI.
pub fn ei(cpu: &mut Cpu)
    requires
        old(cpu).inv(),
        can_perform(old(cpu).state(), 0xFB),
    ensures
        final(cpu).inv(),
        performs(old(cpu).state(), final(cpu).state(), 0xFB),
{
    perform(cpu, 0xFB)
}

/// 0xFE: CP n.
pub fn cp_d8(cpu: &mut Cpu)
    requires
        old(cpu).inv(),
        can_perform(old(cpu).state(), 0xFE),
    ensures
        final(cpu).inv(),
        performs(old(cpu).state(), final(cpu).state(), 0xFE),
{
    perform(cpu, 0xFE)
}

/// 0xFF: RST n.
pub fn rst_38h(cpu: &mut Cpu)
    requires
        old(cpu).inv(),
        can_perform(old(cpu).state(), 0xFF),
    ensures
        final(cpu).inv(),
        performs(old(cpu).state(), final(cpu).state(), 0xFF),
{
    perform(cpu, 0xFF)
}

/// 0xCB: the escape to the prefixed table, which has no implemented
/// instruction. The byte after the escape is consumed and the call reports
/// `Unimplemented` at the escape's address, the byte before PC.
pub fn prefix_cb(cpu: &mut Cpu) -> (r: Result<(), CpuError>)
    requires
        old(cpu).inv(),
    ensures
        final(cpu).inv(),
        match semantics::imm8(old(cpu).state()) {
            Ok((s1, _)) => final(cpu).state() == s1 && r == Err::<(), CpuError>(
                CpuError::Unimplemented { opcode: 0xCB, addr: add16w(old(cpu).regs.pc, -1) },
            ),
            Err(e) => r == Err::<(), CpuError>(e),
        },
{
    let at: u16 = if cpu.regs.pc == 0 { 0xFFFF } else { cpu.regs.pc - 1 };
    match cpu.fetch_imm8() {
        Ok(sub) => match InstructionType::from_byte_prefixed(sub) {
            Ok(_) => Ok(()),
            Err(DecodeError::PrefixedUnimplemented { .. }) => Err(
                CpuError::Unimplemented { opcode: 0xCB, addr: at },
            ),
        },
        Err(e) => Err(e),
    }
}

} // verus!
