use vstd::prelude::*;
use crate::instr::{Reg8, Reg16};

verus! {

/// One of the four condition flags kept in the upper nibble of F.
#[derive(Debug, Clone, Copy, PartialEq, Eq, Structural)]
pub enum CpuFlag {
    /// Zero.
    Z,
    /// Subtract.
    N,
    /// Half-carry.
    H,
    /// Carry.
    C,
}

impl CpuFlag {
    /// The bit of F that holds this flag.
    pub open spec fn bit(self) -> u8 {
        match self {
            CpuFlag::Z => 0x80,
            CpuFlag::N => 0x40,
            CpuFlag::H => 0x20,
            CpuFlag::C => 0x10,
        }
    }

    pub fn mask(self) -> (r: u8)
        ensures
            r == self.bit(),
    {
        match self {
            CpuFlag::Z => 0x80,
            CpuFlag::N => 0x40,
            CpuFlag::H => 0x20,
            CpuFlag::C => 0x10,
        }
    }
}

/// The value of F for the given four flags.
pub open spec fn flag_bits(z: bool, n: bool, h: bool, c: bool) -> u8 {
    ((if z { 0x80int } else { 0 }) + (if n { 0x40int } else { 0 }) + (if h { 0x20int } else { 0 })
        + (if c { 0x10int } else { 0 })) as u8
}

/// Whether flag `fl` is set in the flag byte `f`.
pub open spec fn flag_of(f: u8, fl: CpuFlag) -> bool {
    f & fl.bit() != 0
}

/// The 16-bit value whose high byte is `high` and low byte is `low`.
pub open spec fn pair(high: u8, low: u8) -> u16 {
    (high as int * 256 + low as int) as u16
}

/// The high byte of a 16-bit value.
pub open spec fn hi(v: u16) -> u8 {
    (v / 256) as u8
}

/// The low byte of a 16-bit value.
pub open spec fn lo(v: u16) -> u8 {
    (v % 256) as u8
}

impl Registers {
    /// F never has a bit of its low nibble set.
    pub open spec fn wf(self) -> bool {
        self.f & 0x0F == 0
    }

    pub open spec fn flag(self, fl: CpuFlag) -> bool {
        flag_of(self.f, fl)
    }

    pub open spec fn r8(self, r: Reg8) -> u8 {
        match r {
            Reg8::A => self.a,
            Reg8::B => self.b,
            Reg8::C => self.c,
            Reg8::D => self.d,
            Reg8::E => self.e,
            Reg8::H => self.h,
            Reg8::L => self.l,
        }
    }

    pub open spec fn with_r8(self, r: Reg8, v: u8) -> Registers {
        match r {
            Reg8::A => Registers { a: v, ..self },
            Reg8::B => Registers { b: v, ..self },
            Reg8::C => Registers { c: v, ..self },
            Reg8::D => Registers { d: v, ..self },
            Reg8::E => Registers { e: v, ..self },
            Reg8::H => Registers { h: v, ..self },
            Reg8::L => Registers { l: v, ..self },
        }
    }

    pub open spec fn r16(self, r: Reg16) -> u16 {
        match r {
            Reg16::Af => pair(self.a, self.f),
            Reg16::Bc => pair(self.b, self.c),
            Reg16::De => pair(self.d, self.e),
            Reg16::Hl => pair(self.h, self.l),
            Reg16::Sp => self.sp,
        }
    }

    /// Writing a pair splits the value into its high and low byte; the low
    /// byte of AF keeps only its upper nibble.
    pub open spec fn with_r16(self, r: Reg16, v: u16) -> Registers {
        match r {
            Reg16::Af => Registers { a: hi(v), f: lo(v) & 0xF0, ..self },
            Reg16::Bc => Registers { b: hi(v), c: lo(v), ..self },
            Reg16::De => Registers { d: hi(v), e: lo(v), ..self },
            Reg16::Hl => Registers { h: hi(v), l: lo(v), ..self },
            Reg16::Sp => Registers { sp: v, ..self },
        }
    }

    /// F after setting (`set`) or clearing flag `fl`.
    pub open spec fn with_flag(self, fl: CpuFlag, set: bool) -> Registers {
        Registers {
            f: (if set { self.f | fl.bit() } else { self.f & !fl.bit() }) & 0xF0,
            ..self
        }
    }

    pub open spec fn with_f(self, f: u8) -> Registers {
        Registers { f: f & 0xF0, ..self }
    }
}

/// The register file: seven 8-bit registers, the flag register F, the
/// program counter and the stack pointer.
#[derive(Debug, Clone, Copy)]
pub struct Registers {
    /// Accumulator.
    pub a: u8,
    pub b: u8,
    pub c: u8,
    pub d: u8,
    pub e: u8,
    /// Flags (Z, N, H, C from bit 7 down); the low nibble stays clear
    /// when F is written through the methods below.
    pub f: u8,
    pub h: u8,
    pub l: u8,
    /// Program counter.
    pub pc: u16,
    /// Stack pointer.
    pub sp: u16,
}

/// Composes a big-endian pair.
fn get_wide_reg(high: u8, low: u8) -> (r: u16)
    ensures
        r == pair(high, low),
{
    let r = ((high as u16) << 8) | (low as u16);
    assert(((high as u16) << 8) | (low as u16) == high as u16 * 256 + low as u16) by (bit_vector);
    r
}

/// Splits a value into its high and low byte.
fn split_wide(v: u16) -> (r: (u8, u8))
    ensures
        r.0 == hi(v),
        r.1 == lo(v),
{
    assert(v >> 8 == v / 256 && v & 0xFF == v % 256) by (bit_vector);
    ((v >> 8) as u8, (v & 0xFF) as u8)
}

impl Registers {
    /// The values that the boot ROM leaves behind.
    pub open spec fn power_up() -> Registers {
        Registers {
            a: 0x01,
            b: 0x00,
            c: 0x13,
            d: 0x00,
            e: 0xD8,
            f: 0xB0,
            h: 0x01,
            l: 0x4D,
            pc: 0x0100,
            sp: 0xFFFE,
        }
    }

    pub fn new() -> (r: Registers)
        ensures
            r == Registers::power_up(),
            r.wf(),
    {
        let r = Registers {
            a: 0x01,
            b: 0x00,
            c: 0x13,
            d: 0x00,
            e: 0xD8,
            f: 0xB0,
            h: 0x01,
            l: 0x4D,
            pc: 0x0100,
            sp: 0xFFFE,
        };
        assert(0xB0u8 & 0x0F == 0) by (bit_vector);
        r
    }

    pub fn af(&self) -> (r: u16)
        ensures
            r == self.r16(Reg16::Af),
    {
        get_wide_reg(self.a, self.f)
    }

    pub fn bc(&self) -> (r: u16)
        ensures
            r == self.r16(Reg16::Bc),
    {
        get_wide_reg(self.b, self.c)
    }

    pub fn de(&self) -> (r: u16)
        ensures
            r == self.r16(Reg16::De),
    {
        get_wide_reg(self.d, self.e)
    }

    pub fn hl(&self) -> (r: u16)
        ensures
            r == self.r16(Reg16::Hl),
    {
        get_wide_reg(self.h, self.l)
    }

    pub fn get_flag(&self, flag: CpuFlag) -> (r: bool)
        ensures
            r == self.flag(flag),
    {
        (self.f & flag.mask()) > 0
    }

    pub fn set_af(&mut self, value: u16)
        ensures
            (*final(self)) == (*old(self)).with_r16(Reg16::Af, value),
            (*final(self)).wf(),
    {
        let (h, l) = split_wide(value);
        self.a = h;
        self.f = l & 0xF0;
        assert(l & 0xF0 & 0x0F == 0) by (bit_vector);
    }

    pub fn set_bc(&mut self, value: u16)
        ensures
            (*final(self)) == (*old(self)).with_r16(Reg16::Bc, value),
    {
        let (h, l) = split_wide(value);
        self.b = h;
        self.c = l;
    }

    pub fn set_de(&mut self, value: u16)
        ensures
            (*final(self)) == (*old(self)).with_r16(Reg16::De, value),
    {
        let (h, l) = split_wide(value);
        self.d = h;
        self.e = l;
    }

    pub fn set_hl(&mut self, value: u16)
        ensures
            (*final(self)) == (*old(self)).with_r16(Reg16::Hl, value),
    {
        let (h, l) = split_wide(value);
        self.h = h;
        self.l = l;
    }

    /// Sets or clears one flag; F's low nibble is cleared as well.
    pub fn set_flag(&mut self, flag: CpuFlag, set: bool)
        ensures
            (*final(self)) == (*old(self)).with_flag(flag, set),
            (*final(self)).wf(),
    {
        let mask = flag.mask();
        let g = if set {
            self.f | mask
        } else {
            self.f & !mask
        };
        self.f = g & 0xF0;
        assert(g & 0xF0 & 0x0F == 0) by (bit_vector);
    }

    /// Replaces F, keeping only its upper nibble.
    pub fn set_flags(&mut self, value: u8)
        ensures
            (*final(self)) == (*old(self)).with_f(value),
            (*final(self)).wf(),
    {
        self.f = value & 0xF0;
        assert(value & 0xF0 & 0x0F == 0) by (bit_vector);
    }

    pub fn read8(&self, r: Reg8) -> (v: u8)
        ensures
            v == self.r8(r),
    {
        match r {
            Reg8::A => self.a,
            Reg8::B => self.b,
            Reg8::C => self.c,
            Reg8::D => self.d,
            Reg8::E => self.e,
            Reg8::H => self.h,
            Reg8::L => self.l,
        }
    }

    pub fn write8(&mut self, r: Reg8, v: u8)
        ensures
            (*final(self)) == (*old(self)).with_r8(r, v),
    {
        match r {
            Reg8::A => self.a = v,
            Reg8::B => self.b = v,
            Reg8::C => self.c = v,
            Reg8::D => self.d = v,
            Reg8::E => self.e = v,
            Reg8::H => self.h = v,
            Reg8::L => self.l = v,
        }
    }

    pub fn read16(&self, r: Reg16) -> (v: u16)
        ensures
            v == self.r16(r),
    {
        match r {
            Reg16::Af => self.af(),
            Reg16::Bc => self.bc(),
            Reg16::De => self.de(),
            Reg16::Hl => self.hl(),
            Reg16::Sp => self.sp,
        }
    }

    pub fn write16(&mut self, r: Reg16, v: u16)
        ensures
            (*final(self)) == (*old(self)).with_r16(r, v),
            (*old(self)).wf() ==> (*final(self)).wf(),
    {
        match r {
            Reg16::Af => self.set_af(v),
            Reg16::Bc => self.set_bc(v),
            Reg16::De => self.set_de(v),
            Reg16::Hl => self.set_hl(v),
            Reg16::Sp => self.sp = v,
        }
    }
}

/// Setting or clearing a flag and reading it back gives the value just
/// written, leaves the other three flags as they were, and leaves F's low
/// nibble clear.
pub proof fn lemma_flag_round_trip(r: Registers, fl: CpuFlag, set: bool)
    ensures
        r.with_flag(fl, set).flag(fl) == set,
        r.with_flag(fl, set).wf(),
        forall|g: CpuFlag| g != fl ==> r.with_flag(fl, set).flag(g) == r.flag(g),
{
    let f = r.f;
    assert(((f | 0x80u8) & 0xF0) & 0x80 != 0 && ((f & !0x80u8) & 0xF0) & 0x80 == 0) by (bit_vector);
    assert(((f | 0x40u8) & 0xF0) & 0x40 != 0 && ((f & !0x40u8) & 0xF0) & 0x40 == 0) by (bit_vector);
    assert(((f | 0x20u8) & 0xF0) & 0x20 != 0 && ((f & !0x20u8) & 0xF0) & 0x20 == 0) by (bit_vector);
    assert(((f | 0x10u8) & 0xF0) & 0x10 != 0 && ((f & !0x10u8) & 0xF0) & 0x10 == 0) by (bit_vector);
    let g = if set { f | fl.bit() } else { f & !fl.bit() };
    assert((g & 0xF0) & 0x0F == 0) by (bit_vector);
    assert forall|g: CpuFlag| g != fl implies r.with_flag(fl, set).flag(g) == r.flag(g) by {
        let m = fl.bit();
        let b = g.bit();
        assert((m == 0x80u8 || m == 0x40u8 || m == 0x20u8 || m == 0x10u8)
            && (b == 0x80u8 || b == 0x40u8 || b == 0x20u8 || b == 0x10u8) && m != b
            ==> (((f | m) & 0xF0) & b != 0) == (f & b != 0)
            && (((f & !m) & 0xF0) & b != 0) == (f & b != 0)) by (bit_vector);
    }
}

/// Writing a pair and composing it back gives the value written; for AF the
/// low byte keeps only its upper nibble.
pub proof fn lemma_pair_round_trip(r: Registers, v: u16)
    ensures
        r.with_r16(Reg16::Bc, v).r16(Reg16::Bc) == v,
        r.with_r16(Reg16::De, v).r16(Reg16::De) == v,
        r.with_r16(Reg16::Hl, v).r16(Reg16::Hl) == v,
        r.with_r16(Reg16::Sp, v).r16(Reg16::Sp) == v,
        r.with_r16(Reg16::Af, v).r16(Reg16::Af) == v & 0xFFF0,
{
    assert(pair(hi(v), lo(v)) == v);
    let l = lo(v);
    assert(l == v & 0xFF) by {
        assert(v & 0xFF == v % 256) by (bit_vector);
    }
    assert(pair(hi(v), l & 0xF0) == v & 0xFFF0) by {
        assert((v / 256) * 256 + ((v & 0xFF) as u8 & 0xF0) as int == (v & 0xFFF0) as int) by (bit_vector);
    }
}

} // verus!
