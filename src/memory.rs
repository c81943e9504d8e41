use vstd::prelude::*;
use crate::cartridge::{CartContext, CART_REGION_SIZE, zeroed};
use crate::regs::{pair, hi, lo};

verus! {

/// Size of high memory, 0xFF80-0xFFFE.
pub const HRAM_SIZE: usize = 0x7F;

/// Size of the working-memory store.
pub const WRAM_SIZE: usize = 0x8000;

/// Whether `addr` falls in one of the mapped regions: the cartridge
/// (0x0000-0x7FFF), working memory (0xC000-0xDFFF) or high memory
/// (0xFF80-0xFFFE).
pub open spec fn mapped(addr: u16) -> bool {
    addr <= 0x7FFF || (0xC000 <= addr <= 0xDFFF) || (0xFF80 <= addr <= 0xFFFE)
}

/// A byte-addressed memory over 16-bit addresses.
pub trait Memory {
    /// The memory's internal consistency.
    spec fn inv(&self) -> bool;

    /// What each readable address holds.
    spec fn bytes(&self) -> Map<u16, u8>;

    fn fetch_byte(&self, addr: u16) -> (r: u8)
        requires
            self.inv(),
            self.bytes().dom().contains(addr),
        ensures
            r == self.bytes()[addr],
    ;

    fn set_byte(&mut self, addr: u16, value: u8)
        requires
            old(self).inv(),
            old(self).bytes().dom().contains(addr),
        ensures
            final(self).inv(),
            final(self).bytes() == old(self).bytes().insert(addr, value),
    ;

    /// The little-endian word at `addr` and `addr + 1`.
    fn fetch_word(&self, addr: u16) -> (r: u16)
        requires
            self.inv(),
            addr < 0xFFFF,
            self.bytes().dom().contains(addr),
            self.bytes().dom().contains((addr + 1) as u16),
        ensures
            r == pair(self.bytes()[(addr + 1) as u16], self.bytes()[addr]),
    {
        let low = self.fetch_byte(addr);
        let high = self.fetch_byte(addr + 1);
        (high as u16) * 256 + (low as u16)
    }

    /// Stores `value` little-endian at `addr` and `addr + 1`.
    fn set_word(&mut self, addr: u16, value: u16)
        requires
            old(self).inv(),
            addr < 0xFFFF,
            old(self).bytes().dom().contains(addr),
            old(self).bytes().dom().contains((addr + 1) as u16),
        ensures
            final(self).inv(),
            final(self).bytes() == old(self).bytes().insert(addr, lo(value)).insert(
                (addr + 1) as u16,
                hi(value),
            ),
    {
        self.set_byte(addr, (value % 256) as u8);
        self.set_byte(addr + 1, (value / 256) as u8);
    }
}

/// The memory bus: routes each address to the cartridge image, working
/// memory or high memory.
pub struct Mmu {
    rom: Vec<u8>,
    hram: Vec<u8>,
    wram: Vec<u8>,
}

impl Mmu {
    /// The stores have their fixed sizes.
    pub closed spec fn wf(&self) -> bool {
        &&& self.rom@.len() == CART_REGION_SIZE
        &&& self.hram@.len() == HRAM_SIZE
        &&& self.wram@.len() == WRAM_SIZE
    }

    /// The byte that a mapped address reads.
    pub closed spec fn byte_at(&self, addr: u16) -> u8 {
        if addr <= 0x7FFF {
            self.rom@[addr as int]
        } else if addr <= 0xDFFF {
            self.wram@[addr - 0xC000]
        } else {
            self.hram@[addr - 0xFF80]
        }
    }

    /// The bus over `cartridge`'s image: its first 32 KiB fill the cartridge
    /// region (zeros where the image is shorter); working and high memory
    /// start zeroed.
    pub fn new(cartridge: &CartContext) -> (r: Mmu)
        ensures
            r.inv(),
            forall|a: u16| #[trigger] r.bytes().dom().contains(a) <==> mapped(a),
            forall|a: u16|
                a <= 0x7FFF ==> #[trigger] r.bytes()[a] == (if (a as int) < cartridge.rom_data@.len() {
                    cartridge.rom_data@[a as int]
                } else {
                    0u8
                }),
            forall|a: u16| 0xC000 <= a <= 0xDFFF ==> #[trigger] r.bytes()[a] == 0,
            forall|a: u16| 0xFF80 <= a <= 0xFFFE ==> #[trigger] r.bytes()[a] == 0,
    {
        let src = &cartridge.rom_data;
        let mut rom: Vec<u8> = Vec::new();
        let mut i: usize = 0;
        while i < CART_REGION_SIZE
            invariant
                i <= CART_REGION_SIZE,
                rom@.len() == i,
                forall|j: int|
                    0 <= j < i ==> #[trigger] rom@[j] == (if j < src@.len() {
                        src@[j]
                    } else {
                        0u8
                    }),
            decreases CART_REGION_SIZE - i,
        {
            if i < src.len() {
                rom.push(src[i]);
            } else {
                rom.push(0);
            }
            i += 1;
        }
        let r = Mmu { rom, hram: zeroed(HRAM_SIZE), wram: zeroed(WRAM_SIZE) };
        r
    }
}

/// For an address of working memory, masking with 0x1FFF gives its offset
/// from 0xC000.
proof fn lemma_wram_index(addr: u16)
    requires
        0xC000 <= addr <= 0xDFFF,
    ensures
        addr & 0x1FFF == addr - 0xC000,
{
    assert(0xC000 <= addr <= 0xDFFF ==> addr & 0x1FFF == addr - 0xC000) by (bit_vector);
}

impl Memory for Mmu {
    closed spec fn inv(&self) -> bool {
        self.wf()
    }

    closed spec fn bytes(&self) -> Map<u16, u8> {
        Map::new(|a: u16| mapped(a), |a: u16| self.byte_at(a))
    }

    fn fetch_byte(&self, addr: u16) -> (r: u8) {
        if addr <= 0x7FFF {
            self.rom[addr as usize]
        } else if 0xC000 <= addr && addr <= 0xDFFF {
            proof {
                lemma_wram_index(addr);
            }
            self.wram[(addr & 0x1FFF) as usize]
        } else {
            self.hram[(addr - 0xFF80) as usize]
        }
    }

    fn set_byte(&mut self, addr: u16, value: u8) {
        if addr <= 0x7FFF {
            self.rom.set(addr as usize, value);
        } else if 0xC000 <= addr && addr <= 0xDFFF {
            proof {
                lemma_wram_index(addr);
            }
            self.wram.set((addr & 0x1FFF) as usize, value);
        } else {
            self.hram.set((addr - 0xFF80) as usize, value);
        }
        assert(self.bytes() =~= old(self).bytes().insert(addr, value));
    }
}

/// Every bus has exactly the three regions readable.
pub proof fn lemma_mmu_domain(m: &Mmu)
    ensures
        forall|a: u16| #[trigger] m.bytes().dom().contains(a) <==> mapped(a),
{
}

/// Storing a byte at a mapped address and reading that address back gives
/// the byte stored; every other address keeps its byte, and the set of
/// readable addresses does not change.
pub proof fn lemma_bus_round_trip(m: &Mmu, addr: u16, value: u8)
    requires
        mapped(addr),
    ensures
        m.bytes().dom().contains(addr),
        m.bytes().insert(addr, value)[addr] == value,
        m.bytes().insert(addr, value).dom() == m.bytes().dom(),
        forall|b: u16| b != addr ==> #[trigger] m.bytes().insert(addr, value)[b] == m.bytes()[b],
{
    assert(m.bytes().insert(addr, value).dom() =~= m.bytes().dom());
}

} // verus!
