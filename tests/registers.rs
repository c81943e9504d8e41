use gbcore::regs::CpuFlag::{C, H, N, Z};
use gbcore::regs::{CpuFlag, Registers};

#[test]
fn regs_wide_registers() {
    let mut regs = Registers::new();

    regs.a = 0x12;
    regs.set_flag(Z, false);
    regs.set_flag(N, false);
    regs.set_flag(C, false);
    regs.set_flag(H, true);
    assert_eq!(regs.af(), 0x1220);
    regs.set_af(0x1111);
    assert_eq!(regs.af(), 0x1110);

    regs.b = 0x34;
    regs.c = 0x45;
    assert_eq!(regs.bc(), 0x3445);
    regs.set_bc(0x1111);
    assert_eq!(regs.bc(), 0x1111);

    regs.d = 0x56;
    regs.e = 0x67;
    assert_eq!(regs.de(), 0x5667);
    regs.set_de(0x1111);
    assert_eq!(regs.de(), 0x1111);

    regs.h = 0x78;
    regs.l = 0x89;
    assert_eq!(regs.hl(), 0x7889);
    regs.set_hl(0x1111);
    assert_eq!(regs.hl(), 0x1111);
}

#[test]
fn registers_wide_registers() {
    let mut regs = Registers::new();

    regs.a = 0x12;
    regs.set_flag(Z, false);
    regs.set_flag(N, false);
    regs.set_flag(C, false);
    regs.set_flag(H, true);
    assert_eq!(regs.af(), 0x1220);
    regs.set_af(0x1111);
    assert_eq!(regs.af(), 0x1110);

    regs.b = 0x34;
    regs.c = 0x45;
    assert_eq!(regs.bc(), 0x3445);
    regs.set_bc(0x1111);
    assert_eq!(regs.bc(), 0x1111);

    regs.d = 0x56;
    regs.e = 0x67;
    assert_eq!(regs.de(), 0x5667);
    regs.set_de(0x1111);
    assert_eq!(regs.de(), 0x1111);

    regs.h = 0x78;
    regs.l = 0x89;
    assert_eq!(regs.hl(), 0x7889);
    regs.set_hl(0x1111);
    assert_eq!(regs.hl(), 0x1111);
}

#[test]
fn flags() {
    let mut regs = Registers::new();

    // only the upper nibble of F may be set
    assert_eq!(regs.f & 0x0F, 0);

    regs.set_flag(Z, false);
    regs.set_flag(N, false);
    regs.set_flag(H, false);
    regs.set_flag(C, false);

    let flags = [Z, N, H, C];

    for i in 0..4 {
        let mask = flags[i];
        assert_eq!(regs.get_flag(mask), false);
        regs.set_flag(mask, true);
        assert_eq!(regs.get_flag(mask), true);
        regs.set_flag(mask, false);
        assert_eq!(regs.get_flag(mask), false);
    }
}

#[test]
fn power_up_values() {
    let regs = Registers::new();
    assert_eq!(regs.a, 0x01);
    assert_eq!(regs.f, 0xB0);
    assert_eq!(regs.bc(), 0x0013);
    assert_eq!(regs.de(), 0x00D8);
    assert_eq!(regs.hl(), 0x014D);
    assert_eq!(regs.sp, 0xFFFE);
    assert_eq!(regs.pc, 0x0100);
    assert_eq!(regs.af(), 0x01B0);
}

#[test]
fn set_flag_clears_low_nibble() {
    let mut regs = Registers::new();
    regs.f = 0x0F;
    regs.set_flag(CpuFlag::Z, true);
    assert_eq!(regs.f, 0x80);
    assert!(regs.get_flag(CpuFlag::Z));
    regs.f = 0xFF;
    regs.set_flag(CpuFlag::C, false);
    assert_eq!(regs.f, 0xE0);
    assert!(!regs.get_flag(CpuFlag::C));
    assert!(regs.get_flag(CpuFlag::N));
    assert!(regs.get_flag(CpuFlag::H));
}

#[test]
fn set_flag_keeps_other_flags() {
    let mut regs = Registers::new();
    regs.set_flags(0x50);
    regs.set_flag(CpuFlag::H, true);
    assert_eq!(regs.f, 0x70);
    regs.set_flag(CpuFlag::N, false);
    assert_eq!(regs.f, 0x30);
}

#[test]
fn pair_round_trips() {
    let mut regs = Registers::new();
    for v in [0x0000u16, 0x00FF, 0xFF00, 0xABCD, 0xFFFF] {
        regs.set_bc(v);
        assert_eq!(regs.bc(), v);
        assert_eq!(regs.b, (v >> 8) as u8);
        assert_eq!(regs.c, v as u8);
        regs.set_de(v);
        assert_eq!(regs.de(), v);
        regs.set_hl(v);
        assert_eq!(regs.hl(), v);
        regs.set_af(v);
        assert_eq!(regs.af(), v & 0xFFF0);
        assert_eq!(regs.f & 0x0F, 0);
    }
}
