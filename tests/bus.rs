use gbcore::cpu::Cpu;
use gbcore::semantics::CpuError;
use gbcore::cartridge::CartContext;
use gbcore::memory::{Memory, Mmu};

#[test]
fn ram_round_trip() {
    let mut mmu = Mmu::new(&CartContext::new());
    for addr in [0xC000u16, 0xC123, 0xDFFF, 0xFF80, 0xFFA0, 0xFFFE] {
        for v in [0x00u8, 0x5A, 0xFF] {
            mmu.set_byte(addr, v);
            assert_eq!(mmu.fetch_byte(addr), v);
        }
    }
}

#[test]
fn ram_starts_zeroed() {
    let mmu = Mmu::new(&CartContext::new());
    assert_eq!(mmu.fetch_byte(0xC000), 0);
    assert_eq!(mmu.fetch_byte(0xFFFE), 0);
}

#[test]
fn cartridge_image_is_mapped() {
    let mut cart = CartContext::new();
    cart.write(0x0150, 0xAB);
    cart.write(0x7FFF, 0xCD);
    let mut mmu = Mmu::new(&cart);
    assert_eq!(mmu.fetch_byte(0x0150), 0xAB);
    assert_eq!(mmu.fetch_byte(0x7FFF), 0xCD);
    mmu.set_byte(0x0150, 0x11);
    assert_eq!(mmu.fetch_byte(0x0150), 0x11);
}

#[test]
fn word_access_is_little_endian() {
    let mut mmu = Mmu::new(&CartContext::new());
    mmu.set_word(0xC010, 0xBEEF);
    assert_eq!(mmu.fetch_byte(0xC010), 0xEF);
    assert_eq!(mmu.fetch_byte(0xC011), 0xBE);
    assert_eq!(mmu.fetch_word(0xC010), 0xBEEF);
}

#[test]
fn regions_do_not_alias() {
    let mut mmu = Mmu::new(&CartContext::new());
    mmu.set_byte(0xC000, 1);
    mmu.set_byte(0xD000, 2);
    mmu.set_byte(0xFF80, 3);
    mmu.set_byte(0x0000, 4);
    assert_eq!(mmu.fetch_byte(0xC000), 1);
    assert_eq!(mmu.fetch_byte(0xD000), 2);
    assert_eq!(mmu.fetch_byte(0xFF80), 3);
    assert_eq!(mmu.fetch_byte(0x0000), 4);
}

#[test]
fn engine_bus_faults_outside_mapped_regions() {
    let mut cpu = Cpu::new(&CartContext::new());
    for addr in [0x8000u16, 0xBFFF, 0xE000, 0xFF00, 0xFF7F, 0xFFFF] {
        assert_eq!(cpu.bus_read(addr), Err(CpuError::InvalidAddress { addr }));
        assert_eq!(cpu.bus_write(addr, 0x12), Err(CpuError::InvalidAddress { addr }));
    }
    assert_eq!(cpu.bus_write(0xC000, 0x12), Ok(()));
    assert_eq!(cpu.bus_read(0xC000), Ok(0x12));
    assert_eq!(cpu.bus_read(0xC001), Ok(0x00));
}

#[test]
fn emu_context_default() {
    let ctx = gbcore::emu::EmuContext::default();
    assert!(!ctx.paused);
    assert!(!ctx.running);
    assert_eq!(ctx.ticks, 0);
}
