//! Arithmetic and logic of the processor: each operation gives its result
//! and the new value of F.
use vstd::prelude::*;
use crate::regs::{flag_bits, flag_of, CpuFlag};

verus! {

pub open spec fn bit(b: bool) -> int {
    if b { 1 } else { 0 }
}

/// The signed value of a byte read as two's complement.
pub open spec fn signed(e: u8) -> int {
    if e < 128 { e as int } else { e as int - 256 }
}

/// ADD / ADC: `a + b + carry`; H on a carry out of bit 3, C out of bit 7.
pub open spec fn alu_add(a: u8, b: u8, carry: bool) -> (u8, u8) {
    let sum = a + b + bit(carry);
    let r = (sum % 256) as u8;
    (r, flag_bits(r == 0, false, a % 16 + b % 16 + bit(carry) > 15, sum > 255))
}

/// SUB / SBC / CP: `a - b - carry`; H on a borrow from bit 4, C from bit 8.
pub open spec fn alu_sub(a: u8, b: u8, carry: bool) -> (u8, u8) {
    let diff = a - b - bit(carry);
    let r = ((diff + 256) % 256) as u8;
    (r, flag_bits(r == 0, true, a % 16 < b % 16 + bit(carry), diff < 0))
}

pub open spec fn alu_and(a: u8, b: u8) -> (u8, u8) {
    let r = a & b;
    (r, flag_bits(r == 0, false, true, false))
}

pub open spec fn alu_or(a: u8, b: u8) -> (u8, u8) {
    let r = a | b;
    (r, flag_bits(r == 0, false, false, false))
}

pub open spec fn alu_xor(a: u8, b: u8) -> (u8, u8) {
    let r = a ^ b;
    (r, flag_bits(r == 0, false, false, false))
}

/// INC of a byte: C is kept from `f`.
pub open spec fn alu_inc(v: u8, f: u8) -> (u8, u8) {
    let r = ((v + 1) % 256) as u8;
    (r, flag_bits(r == 0, false, v % 16 == 15, flag_of(f, CpuFlag::C)))
}

/// DEC of a byte: C is kept from `f`.
pub open spec fn alu_dec(v: u8, f: u8) -> (u8, u8) {
    let r = ((v + 255) % 256) as u8;
    (r, flag_bits(r == 0, true, v % 16 == 0, flag_of(f, CpuFlag::C)))
}

/// 16-bit ADD: Z is kept; H on a carry out of bit 11, C out of bit 15.
pub open spec fn alu_add16(a: u16, b: u16, f: u8) -> (u16, u8) {
    let sum = a + b;
    (
        (sum % 65536) as u16,
        flag_bits(flag_of(f, CpuFlag::Z), false, a % 4096 + b % 4096 > 4095, sum > 65535),
    )
}

/// A 16-bit value plus a signed byte offset (ADD SP, e and LD HL, SP + e):
/// Z and N clear, H and C from the unsigned addition of the low bytes.
pub open spec fn alu_add_offset(a: u16, e: u8) -> (u16, u8) {
    (
        ((a + signed(e) + 65536) % 65536) as u16,
        flag_bits(false, false, a % 16 + e % 16 > 15, a % 256 + e > 255),
    )
}

/// RLCA: rotate left, bit 7 into bit 0 and C.
pub open spec fn alu_rlca(a: u8) -> (u8, u8) {
    let out = a / 128;
    (((a * 2) % 256 + out) as u8, flag_bits(false, false, false, out == 1))
}

/// RRCA: rotate right, bit 0 into bit 7 and C.
pub open spec fn alu_rrca(a: u8) -> (u8, u8) {
    let out = a % 2;
    ((a / 2 + out * 128) as u8, flag_bits(false, false, false, out == 1))
}

/// RLA: rotate left through C.
pub open spec fn alu_rla(a: u8, f: u8) -> (u8, u8) {
    let out = a / 128;
    (((a * 2) % 256 + bit(flag_of(f, CpuFlag::C))) as u8, flag_bits(false, false, false, out == 1))
}

/// RRA: rotate right through C.
pub open spec fn alu_rra(a: u8, f: u8) -> (u8, u8) {
    let out = a % 2;
    ((a / 2 + bit(flag_of(f, CpuFlag::C)) * 128) as u8, flag_bits(false, false, false, out == 1))
}

/// CPL: complement A; N and H set, Z and C kept.
pub open spec fn alu_cpl(a: u8, f: u8) -> (u8, u8) {
    (!a, flag_bits(flag_of(f, CpuFlag::Z), true, true, flag_of(f, CpuFlag::C)))
}

/// DAA: adjusts A to binary-coded decimal after an addition (N clear) or a
/// subtraction (N set); H clear, N kept, C set when the adjustment carried.
pub open spec fn alu_daa(a: u8, f: u8) -> (u8, u8) {
    let n = flag_of(f, CpuFlag::N);
    let h = flag_of(f, CpuFlag::H);
    let c = flag_of(f, CpuFlag::C);
    if !n {
        let carry = c || a > 0x99;
        let hi_adj: int = if carry { 0x60 } else { 0 };
        let lo_adj: int = if h || a % 16 > 9 { 0x06 } else { 0 };
        let r = ((a + hi_adj + lo_adj) % 256) as u8;
        (r, flag_bits(r == 0, n, false, carry))
    } else {
        let hi_adj: int = if c { 0x60 } else { 0 };
        let lo_adj: int = if h { 0x06 } else { 0 };
        let r = ((a - hi_adj - lo_adj + 256) % 256) as u8;
        (r, flag_bits(r == 0, n, false, c))
    }
}

/// F built from four flag values.
pub fn make_flags(z: bool, n: bool, h: bool, c: bool) -> (r: u8)
    ensures
        r == flag_bits(z, n, h, c),
{
    let mut r: u8 = 0;
    if z {
        r = r + 0x80;
    }
    if n {
        r = r + 0x40;
    }
    if h {
        r = r + 0x20;
    }
    if c {
        r = r + 0x10;
    }
    r
}

/// Whether flag `fl` is set in `f`.
pub fn test_flag(f: u8, fl: CpuFlag) -> (r: bool)
    ensures
        r == flag_of(f, fl),
{
    f & fl.mask() != 0
}

pub fn add8(a: u8, b: u8, carry: bool) -> (r: (u8, u8))
    ensures
        r == alu_add(a, b, carry),
{
    let cin: u16 = if carry { 1 } else { 0 };
    let sum: u16 = a as u16 + b as u16 + cin;
    let r = (sum % 256) as u8;
    let half = (a % 16) as u16 + (b % 16) as u16 + cin > 15;
    (r, make_flags(r == 0, false, half, sum > 255))
}

pub fn sub8(a: u8, b: u8, carry: bool) -> (r: (u8, u8))
    ensures
        r == alu_sub(a, b, carry),
{
    let cin: u16 = if carry { 1 } else { 0 };
    let r = ((a as u16 + 256 - b as u16 - cin) % 256) as u8;
    let half = ((a % 16) as u16) < (b % 16) as u16 + cin;
    let borrow = (a as u16) < b as u16 + cin;
    (r, make_flags(r == 0, true, half, borrow))
}

pub fn and8(a: u8, b: u8) -> (r: (u8, u8))
    ensures
        r == alu_and(a, b),
{
    let r = a & b;
    (r, make_flags(r == 0, false, true, false))
}

pub fn or8(a: u8, b: u8) -> (r: (u8, u8))
    ensures
        r == alu_or(a, b),
{
    let r = a | b;
    (r, make_flags(r == 0, false, false, false))
}

pub fn xor8(a: u8, b: u8) -> (r: (u8, u8))
    ensures
        r == alu_xor(a, b),
{
    let r = a ^ b;
    (r, make_flags(r == 0, false, false, false))
}

pub fn inc8(v: u8, f: u8) -> (r: (u8, u8))
    ensures
        r == alu_inc(v, f),
{
    let r = ((v as u16 + 1) % 256) as u8;
    (r, make_flags(r == 0, false, v % 16 == 15, test_flag(f, CpuFlag::C)))
}

pub fn dec8(v: u8, f: u8) -> (r: (u8, u8))
    ensures
        r == alu_dec(v, f),
{
    let r = ((v as u16 + 255) % 256) as u8;
    (r, make_flags(r == 0, true, v % 16 == 0, test_flag(f, CpuFlag::C)))
}

pub fn add16(a: u16, b: u16, f: u8) -> (r: (u16, u8))
    ensures
        r == alu_add16(a, b, f),
{
    let sum: u32 = a as u32 + b as u32;
    let half = (a % 4096) as u32 + (b % 4096) as u32 > 4095;
    ((sum % 65536) as u16, make_flags(test_flag(f, CpuFlag::Z), false, half, sum > 65535))
}

pub fn add_offset(a: u16, e: u8) -> (r: (u16, u8))
    ensures
        r == alu_add_offset(a, e),
{
    let v: u32 = if e < 128 {
        (a as u32 + e as u32) % 65536
    } else {
        (a as u32 + 65536 + e as u32 - 256) % 65536
    };
    let half = (a % 16) as u32 + (e % 16) as u32 > 15;
    let carry = (a % 256) as u32 + e as u32 > 255;
    (v as u16, make_flags(false, false, half, carry))
}

pub fn rlca8(a: u8) -> (r: (u8, u8))
    ensures
        r == alu_rlca(a),
{
    let out = a / 128;
    ((((a as u16 * 2) % 256) as u8 + out), make_flags(false, false, false, out == 1))
}

pub fn rrca8(a: u8) -> (r: (u8, u8))
    ensures
        r == alu_rrca(a),
{
    let out = a % 2;
    (a / 2 + out * 128, make_flags(false, false, false, out == 1))
}

pub fn rla8(a: u8, f: u8) -> (r: (u8, u8))
    ensures
        r == alu_rla(a, f),
{
    let out = a / 128;
    let cin: u8 = if test_flag(f, CpuFlag::C) { 1 } else { 0 };
    ((((a as u16 * 2) % 256) as u8 + cin), make_flags(false, false, false, out == 1))
}

pub fn rra8(a: u8, f: u8) -> (r: (u8, u8))
    ensures
        r == alu_rra(a, f),
{
    let out = a % 2;
    let cin: u8 = if test_flag(f, CpuFlag::C) { 1 } else { 0 };
    (a / 2 + cin * 128, make_flags(false, false, false, out == 1))
}

pub fn cpl8(a: u8, f: u8) -> (r: (u8, u8))
    ensures
        r == alu_cpl(a, f),
{
    (!a, make_flags(test_flag(f, CpuFlag::Z), true, true, test_flag(f, CpuFlag::C)))
}

pub fn daa8(a: u8, f: u8) -> (r: (u8, u8))
    ensures
        r == alu_daa(a, f),
{
    let n = test_flag(f, CpuFlag::N);
    let h = test_flag(f, CpuFlag::H);
    let c = test_flag(f, CpuFlag::C);
    if !n {
        let carry = c || a > 0x99;
        let hi_adj: u16 = if carry { 0x60 } else { 0 };
        let lo_adj: u16 = if h || a % 16 > 9 { 0x06 } else { 0 };
        let r = ((a as u16 + hi_adj + lo_adj) % 256) as u8;
        (r, make_flags(r == 0, n, false, carry))
    } else {
        let hi_adj: u16 = if c { 0x60 } else { 0 };
        let lo_adj: u16 = if h { 0x06 } else { 0 };
        let r = ((a as u16 + 256 - hi_adj - lo_adj) % 256) as u8;
        (r, make_flags(r == 0, n, false, c))
    }
}

} // verus!
