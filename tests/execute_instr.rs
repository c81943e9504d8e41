use gbcore::cartridge::CartContext;
use gbcore::cpu::Cpu;
use gbcore::semantics::CpuError;

#[test]
fn mod_exec_instr() {
    let cart = CartContext::new();
    let mut cpu = Cpu::new(&cart);

    cpu.load_rom(vec![
        0x3E, // LD A, n
        0x12, // 18
        0x47, // LD B, A
        0x48, // LD C, B
        0x51, // LD D, C
        0x5A, // LD E, D
        0x63, // LD H, E
        0x6C, // LD L, H
        0x76, // HALT
    ]);
    cpu.run().unwrap();

    assert_eq!(cpu.regs.a, 18);
    assert_eq!(cpu.regs.l, 18);

    cpu.load_rom(vec![
        0x21, // LD HL, nn
        0x64, 0x00, // 100
        0x36, // LD (HL), n
        0x30, // 48
        0x7E, // LD A, (HL)
        0x76, // HALT
    ]);
    cpu.run().unwrap();

    assert_eq!(cpu.regs.hl(), 100);
    assert_eq!(cpu.regs.a, 48);

    cpu.load_rom(vec![
        0x3E, // LD A, n
        0x22, // 34
        0xEA, // LD (nn), A
        0x64, 0x00, // 100
        0x3E, // LD A, n
        0x38, // 56
        0xFA, // LD A, (nn)
        0x64, 0x00, // 100
        0x76, // HALT
    ]);
    cpu.run().unwrap();

    assert_eq!(cpu.regs.a, 34);
}

#[test]
fn execute_instr_exec_instr() {
    let cart = CartContext::new();
    let mut cpu = Cpu::new(&cart);

    cpu.set_byte(0x0100, 0x3E); // LD A, n
    cpu.set_byte(0x0101, 0x12); // 18
    cpu.set_byte(0x0102, 0x47); // LD B, A
    cpu.set_byte(0x0103, 0x48); // LD C, B
    cpu.set_byte(0x0104, 0x51); // LD D, C
    cpu.set_byte(0x0105, 0x5A); // LD E, D
    cpu.set_byte(0x0106, 0x63); // LD H, E
    cpu.set_byte(0x0107, 0x6C); // LD L, H
    cpu.set_byte(0x0108, 0x76); // HALT

    cpu.run().unwrap();

    assert_eq!(cpu.regs.a, 18);
    assert_eq!(cpu.regs.l, 18);
}

#[test]
fn scenario_chain_through_registers() {
    let mut cpu = Cpu::new(&CartContext::new());
    cpu.load_rom(vec![0x3E, 0x12, 0x47, 0x48, 0x51, 0x5A, 0x63, 0x6C, 0x76]);
    assert_eq!(cpu.run(), Ok(()));
    assert!(cpu.halted);
    assert_eq!(cpu.regs.a, 0x12);
    assert_eq!(cpu.regs.b, 0x12);
    assert_eq!(cpu.regs.c, 0x12);
    assert_eq!(cpu.regs.d, 0x12);
    assert_eq!(cpu.regs.e, 0x12);
    assert_eq!(cpu.regs.h, 0x12);
    assert_eq!(cpu.regs.l, 0x12);
    assert_eq!(cpu.regs.pc, 0x0109);
}

#[test]
fn scenario_pointer_round_trip() {
    let mut cpu = Cpu::new(&CartContext::new());
    cpu.load_rom(vec![0x21, 0x64, 0x00, 0x36, 0x30, 0x7E, 0x76]);
    assert_eq!(cpu.run(), Ok(()));
    assert_eq!(cpu.regs.hl(), 0x0064);
    assert_eq!(cpu.regs.a, 0x30);
    assert_eq!(cpu.fetch_byte(0x0064), 0x30);
}

#[test]
fn scenario_absolute_store_and_reload() {
    let mut cpu = Cpu::new(&CartContext::new());
    cpu.load_rom(vec![0x3E, 0x22, 0xEA, 0x64, 0x00, 0x3E, 0x38, 0xFA, 0x64, 0x00, 0x76]);
    assert_eq!(cpu.run(), Ok(()));
    assert_eq!(cpu.regs.a, 0x22);
    assert_eq!(cpu.fetch_byte(0x0064), 0x22);
}

#[test]
fn undefined_opcode_is_reported() {
    let mut cpu = Cpu::new(&CartContext::new());
    cpu.load_rom(vec![0x00, 0xD3]);
    assert_eq!(cpu.run(), Err(CpuError::UndefinedOpcode { opcode: 0xD3, addr: 0x0101 }));
}

#[test]
fn prefixed_opcode_is_unimplemented() {
    let mut cpu = Cpu::new(&CartContext::new());
    cpu.load_rom(vec![0xCB, 0x7C]);
    assert_eq!(cpu.run(), Err(CpuError::Unimplemented { opcode: 0xCB, addr: 0x0100 }));
}

#[test]
fn invalid_address_is_reported() {
    let mut cpu = Cpu::new(&CartContext::new());
    // LD A, (nn) with nn = 0x8000, which no region maps
    cpu.load_rom(vec![0xFA, 0x00, 0x80, 0x76]);
    assert_eq!(cpu.run(), Err(CpuError::InvalidAddress { addr: 0x8000 }));
}

#[test]
fn run_stays_halted() {
    let mut cpu = Cpu::new(&CartContext::new());
    cpu.load_rom(vec![0x76, 0x3C]);
    assert_eq!(cpu.run(), Ok(()));
    assert_eq!(cpu.regs.pc, 0x0101);
    assert_eq!(cpu.run(), Ok(()));
    assert_eq!(cpu.regs.pc, 0x0101);
    assert_eq!(cpu.regs.a, 0x01);
}

#[test]
fn arithmetic_program() {
    let mut cpu = Cpu::new(&CartContext::new());
    cpu.load_rom(vec![
        0x3E, 0x0F, // LD A, 0x0F
        0xC6, 0x01, // ADD A, 1 -> 0x10, H
        0x06, 0xF0, // LD B, 0xF0
        0x80, // ADD A, B -> 0x00, Z C
        0x76,
    ]);
    assert_eq!(cpu.run(), Ok(()));
    assert_eq!(cpu.regs.a, 0x00);
    assert_eq!(cpu.regs.f, 0x90);
}

#[test]
fn call_and_return() {
    let mut cpu = Cpu::new(&CartContext::new());
    cpu.regs.sp = 0xDFFF;
    cpu.load_rom(vec![
        0xCD, 0x10, 0x01, // CALL 0x0110
        0x76, // HALT
    ]);
    cpu.set_byte(0x0110, 0x3E); // LD A, 0x42
    cpu.set_byte(0x0111, 0x42);
    cpu.set_byte(0x0112, 0xC9); // RET
    assert_eq!(cpu.run(), Ok(()));
    assert_eq!(cpu.regs.a, 0x42);
    assert_eq!(cpu.regs.sp, 0xDFFF);
    assert_eq!(cpu.regs.pc, 0x0104);
    assert_eq!(cpu.fetch_byte(0xDFFE), 0x01);
    assert_eq!(cpu.fetch_byte(0xDFFD), 0x03);
}

#[test]
fn relative_jump_loop() {
    let mut cpu = Cpu::new(&CartContext::new());
    cpu.load_rom(vec![
        0x06, 0x03, // LD B, 3
        0x3C, // INC A
        0x05, // DEC B
        0x20, 0xFC, // JR NZ, -4
        0x76,
    ]);
    assert_eq!(cpu.run(), Ok(()));
    assert_eq!(cpu.regs.a, 0x04);
    assert_eq!(cpu.regs.b, 0x00);
    assert!(cpu.regs.f & 0x80 != 0);
}

#[test]
fn push_pop_masks_af() {
    let mut cpu = Cpu::new(&CartContext::new());
    cpu.regs.sp = 0xFFFE;
    cpu.load_rom(vec![
        0x01, 0xFF, 0x12, // LD BC, 0x12FF
        0xC5, // PUSH BC
        0xF1, // POP AF
        0x76,
    ]);
    assert_eq!(cpu.run(), Ok(()));
    assert_eq!(cpu.regs.af(), 0x12F0);
    assert_eq!(cpu.regs.sp, 0xFFFE);
}

#[test]
fn rst_uses_the_opcode_vector() {
    let mut cpu = Cpu::new(&CartContext::new());
    cpu.regs.sp = 0xD000;
    cpu.load_rom(vec![0xEF]); // RST 28h
    cpu.set_byte(0x0028, 0x76);
    assert_eq!(cpu.run(), Ok(()));
    assert_eq!(cpu.regs.pc, 0x0029);
    assert_eq!(cpu.regs.sp, 0xCFFE);
}
