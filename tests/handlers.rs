use gbcore::cartridge::CartContext;
use gbcore::cpu::{Cpu, Flag};
use gbcore::ops;
use gbcore::semantics::CpuError;

fn cpu() -> Cpu {
    let mut cpu = Cpu::new(&CartContext::new());
    cpu.set_f(0);
    cpu
}

#[test]
fn inc_b_sets_half_carry_and_keeps_carry() {
    let mut cpu = cpu();
    cpu.set_flag(Flag::C);
    cpu.set_b(0x0F);
    ops::inc_b(&mut cpu);
    assert_eq!(cpu.get_b(), 0x10);
    assert_eq!(cpu.get_f(), 0x30);
    cpu.set_b(0xFF);
    ops::inc_b(&mut cpu);
    assert_eq!(cpu.get_b(), 0x00);
    assert_eq!(cpu.get_f(), 0xB0);
}

#[test]
fn dec_b_sets_subtract() {
    let mut cpu = cpu();
    cpu.set_b(0x10);
    ops::dec_b(&mut cpu);
    assert_eq!(cpu.get_b(), 0x0F);
    assert_eq!(cpu.get_f(), 0x60);
    cpu.set_b(0x01);
    ops::dec_b(&mut cpu);
    assert_eq!(cpu.get_b(), 0x00);
    assert_eq!(cpu.get_f(), 0xC0);
}

#[test]
fn add_hl_bc_carries_out_of_bit_eleven() {
    let mut cpu = cpu();
    cpu.set_hl(0x0FFF);
    cpu.set_bc(0x0001);
    ops::add_hl_bc(&mut cpu);
    assert_eq!(cpu.get_hl(), 0x1000);
    assert_eq!(cpu.get_f(), 0x20);
    cpu.set_hl(0xFFFF);
    cpu.set_bc(0x0001);
    ops::add_hl_bc(&mut cpu);
    assert_eq!(cpu.get_hl(), 0x0000);
    assert_eq!(cpu.get_f(), 0x30);
}

#[test]
fn sixteen_bit_inc_dec_wrap() {
    let mut cpu = cpu();
    cpu.set_de(0xFFFF);
    ops::inc_de(&mut cpu);
    assert_eq!(cpu.get_de(), 0x0000);
    ops::dec_de(&mut cpu);
    assert_eq!(cpu.get_de(), 0xFFFF);
    assert_eq!(cpu.get_f(), 0x00);
}

#[test]
fn sub_and_compare() {
    let mut cpu = cpu();
    cpu.set_a(0x10);
    cpu.set_b(0x01);
    ops::sub_b(&mut cpu);
    assert_eq!(cpu.get_a(), 0x0F);
    assert_eq!(cpu.get_f(), 0x60);
    cpu.set_c(0x20);
    ops::cp_c(&mut cpu);
    assert_eq!(cpu.get_a(), 0x0F);
    assert_eq!(cpu.get_f(), 0x50);
    ops::sub_a(&mut cpu);
    assert_eq!(cpu.get_a(), 0x00);
    assert_eq!(cpu.get_f(), 0xC0);
}

#[test]
fn adc_and_sbc_use_carry() {
    let mut cpu = cpu();
    cpu.set_a(0xFF);
    cpu.set_b(0x00);
    cpu.set_flag(Flag::C);
    ops::addc_a_b(&mut cpu);
    assert_eq!(cpu.get_a(), 0x00);
    assert_eq!(cpu.get_f(), 0xB0);
    cpu.set_a(0x00);
    ops::sbc_a_b(&mut cpu);
    assert_eq!(cpu.get_a(), 0xFF);
    assert_eq!(cpu.get_f(), 0x70);
}

#[test]
fn logic_ops() {
    let mut cpu = cpu();
    cpu.set_a(0xF0);
    cpu.set_b(0x3C);
    ops::and_b(&mut cpu);
    assert_eq!(cpu.get_a(), 0x30);
    assert_eq!(cpu.get_f(), 0x20);
    ops::xor_a(&mut cpu);
    assert_eq!(cpu.get_a(), 0x00);
    assert_eq!(cpu.get_f(), 0x80);
    cpu.set_c(0x81);
    ops::or_c(&mut cpu);
    assert_eq!(cpu.get_a(), 0x81);
    assert_eq!(cpu.get_f(), 0x00);
}

#[test]
fn rotates() {
    let mut cpu = cpu();
    cpu.set_a(0x85);
    ops::rlca(&mut cpu);
    assert_eq!(cpu.get_a(), 0x0B);
    assert_eq!(cpu.get_f(), 0x10);
    ops::RRCA(&mut cpu);
    assert_eq!(cpu.get_a(), 0x85);
    assert_eq!(cpu.get_f(), 0x10);
    ops::rla(&mut cpu);
    assert_eq!(cpu.get_a(), 0x0B);
    assert_eq!(cpu.get_f(), 0x10);
    ops::RRA(&mut cpu);
    assert_eq!(cpu.get_a(), 0x85);
    assert_eq!(cpu.get_f(), 0x10);
}

#[test]
fn daa_after_addition() {
    let mut cpu = cpu();
    cpu.set_a(0x45);
    cpu.set_b(0x38);
    ops::add_a_b(&mut cpu);
    assert_eq!(cpu.get_a(), 0x7D);
    ops::aa(&mut cpu);
    assert_eq!(cpu.get_a(), 0x83);
    assert_eq!(cpu.get_f(), 0x00);
    cpu.set_a(0x99);
    cpu.set_b(0x01);
    ops::add_a_b(&mut cpu);
    ops::aa(&mut cpu);
    assert_eq!(cpu.get_a(), 0x00);
    assert_eq!(cpu.get_f(), 0x90);
}

#[test]
fn flag_instructions() {
    let mut cpu = cpu();
    cpu.set_a(0x35);
    ops::CPL(&mut cpu);
    assert_eq!(cpu.get_a(), 0xCA);
    assert_eq!(cpu.get_f(), 0x60);
    ops::scf(&mut cpu);
    assert_eq!(cpu.get_f(), 0x10);
    ops::CCF(&mut cpu);
    assert_eq!(cpu.get_f(), 0x00);
}

#[test]
fn immediate_handlers() {
    let mut cpu = cpu();
    ops::ld_bc_d16(&mut cpu, 0x12, 0x34);
    assert_eq!(cpu.get_bc(), 0x1234);
    ops::ld_a_d8(&mut cpu, 0x99);
    assert_eq!(cpu.get_a(), 0x99);
    ops::ld_sp_d16(&mut cpu, 0xC100);
    assert_eq!(cpu.get_sp(), 0xC100);
    ops::ld_hl_u16(&mut cpu, 0xC0, 0x00);
    ops::ld_hl_d8(&mut cpu, 0x5A);
    assert_eq!(cpu.fetch_byte(0xC000), 0x5A);
    let pc = cpu.get_pc();
    ops::jr_nz_r8(&mut cpu, 0xFE);
    assert_eq!(cpu.get_pc(), pc - 2);
    cpu.set_flag(Flag::Z);
    ops::jr_nz_r8(&mut cpu, 0x10);
    assert_eq!(cpu.get_pc(), pc - 2);
    ops::jr_z_s8(&mut cpu, 5);
    assert_eq!(cpu.get_pc(), pc + 3);
}

#[test]
fn memory_handlers() {
    let mut cpu = cpu();
    cpu.set_hl(0xC000);
    cpu.set_a(0x77);
    ops::ld_addr_hl_plus_A(&mut cpu);
    assert_eq!(cpu.fetch_byte(0xC000), 0x77);
    assert_eq!(cpu.get_hl(), 0xC001);
    ops::ld_addr_hl_minus_A(&mut cpu);
    assert_eq!(cpu.fetch_byte(0xC001), 0x77);
    assert_eq!(cpu.get_hl(), 0xC000);
    ops::inc_hl_addr(&mut cpu);
    assert_eq!(cpu.fetch_byte(0xC000), 0x78);
}

#[test]
fn legacy_accessors() {
    let mut cpu = cpu();
    cpu.set_af(0x12FF);
    assert_eq!(cpu.get_af(), 0x12F0);
    cpu.set_f(0xFF);
    assert_eq!(cpu.get_f(), 0xF0);
    assert!(cpu.get_flags(Flag::Z));
    cpu.clear_flag(Flag::Z);
    assert!(!cpu.get_flags(Flag::Z));
    assert_eq!(cpu.get_f(), 0x70);
    cpu.set_mie(false);
    assert!(!cpu.get_mie());
    cpu.set_pc(0x1234);
    assert_eq!(cpu.get_pc(), 0x1234);
    cpu.set_d(1);
    cpu.set_e(2);
    assert_eq!(cpu.get_de(), 0x0102);
    cpu.set_h(3);
    cpu.set_l(4);
    assert_eq!(cpu.get_hl(), 0x0304);
}

#[test]
fn stack_handlers() {
    let mut cpu = cpu();
    cpu.set_sp(0xD000);
    cpu.set_bc(0xBEEF);
    ops::push_bc(&mut cpu);
    assert_eq!(cpu.get_sp(), 0xCFFE);
    assert_eq!(cpu.fetch_word(0xCFFE), 0xBEEF);
    ops::pop_de(&mut cpu);
    assert_eq!(cpu.get_de(), 0xBEEF);
    assert_eq!(cpu.get_sp(), 0xD000);
}

#[test]
fn halt_and_interrupt_handlers() {
    let mut cpu = cpu();
    ops::di(&mut cpu);
    assert!(!cpu.get_mie());
    ops::ei(&mut cpu);
    assert!(cpu.get_mie());
    ops::halt(&mut cpu);
    assert!(cpu.halted);
}

#[test]
fn prefix_escape_is_unimplemented() {
    let mut cpu = cpu();
    cpu.load_rom(vec![0xCB, 0x11]);
    cpu.set_pc(0x0101);
    assert_eq!(ops::prefix_cb(&mut cpu), Err(CpuError::Unimplemented { opcode: 0xCB, addr: 0x0100 }));
    assert_eq!(cpu.get_pc(), 0x0102);
}

#[test]
fn handlers_read_immediates_at_pc() {
    let mut cpu = cpu();
    cpu.load_rom(vec![0x34, 0x12, 0x05]);
    ops::jp_addr16(&mut cpu);
    assert_eq!(cpu.get_pc(), 0x1234);
    cpu.set_pc(0x0102);
    cpu.set_a(0x03);
    ops::add_addr_d8(&mut cpu);
    assert_eq!(cpu.get_a(), 0x08);
    assert_eq!(cpu.get_pc(), 0x0103);
}
