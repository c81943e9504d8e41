use vstd::prelude::*;

verus! {

/// Size of the cartridge region of the address space, 0x0000-0x7FFF.
pub const CART_REGION_SIZE: usize = 0x8000;

/// A zero-filled byte vector of length `n`.
pub fn zeroed(n: usize) -> (v: Vec<u8>)
    ensures
        v@ == Seq::new(n as nat, |i: int| 0u8),
{
    let mut v: Vec<u8> = Vec::new();
    let mut i: usize = 0;
    while i < n
        invariant
            i <= n,
            v@ == Seq::new(i as nat, |j: int| 0u8),
        decreases n - i,
    {
        v.push(0);
        i += 1;
        assert(v@ =~= Seq::new(i as nat, |j: int| 0u8));
    }
    v
}

/// A cartridge image: its header and its raw bytes.
pub struct CartContext {
    pub header: RomHeader,
    pub rom_size: usize,
    pub rom_data: Vec<u8>,
}

impl CartContext {
    /// A blank cartridge: 32 KiB of zeros and an empty header.
    pub fn new() -> (r: CartContext)
        ensures
            r.rom_data@ == Seq::new(CART_REGION_SIZE as nat, |i: int| 0u8),
            r.rom_size == CART_REGION_SIZE,
            r.header.is_empty(),
    {
        CartContext { header: RomHeader::new(), rom_data: zeroed(CART_REGION_SIZE), rom_size: CART_REGION_SIZE }
    }

    /// The byte of the image at `address`.
    pub fn read(&self, address: u16) -> (r: u8)
        requires
            (address as int) < self.rom_data@.len(),
        ensures
            r == self.rom_data@[address as int],
    {
        self.rom_data[address as usize]
    }

    /// Overwrites the byte of the image at `address`.
    pub fn write(&mut self, address: u16, value: u8)
        requires
            (address as int) < old(self).rom_data@.len(),
        ensures
            final(self).rom_data@ == old(self).rom_data@.update(address as int, value),
            final(self).rom_size == old(self).rom_size,
    {
        self.rom_data.set(address as usize, value);
    }

    /// Same as `read`.
    pub fn cart_read(&self, address: u16) -> (r: u8)
        requires
            (address as int) < self.rom_data@.len(),
        ensures
            r == self.rom_data@[address as int],
    {
        self.read(address)
    }

    /// Same as `write`.
    pub fn cart_write(&mut self, address: u16, value: u8)
        requires
            (address as int) < old(self).rom_data@.len(),
        ensures
            final(self).rom_data@ == old(self).rom_data@.update(address as int, value),
            final(self).rom_size == old(self).rom_size,
    {
        self.write(address, value)
    }
}

/// The fields of the cartridge header, bytes 0x100-0x14F of the image.
pub struct RomHeader {
    pub entry: Vec<u8>,
    pub logo: Vec<u8>,
    pub title: Vec<u8>,
    pub new_lic_code: Vec<u8>,
    pub sgb_flag: u8,
    pub cart_type: u8,
    pub rom_size: u8,
    pub ram_size: u8,
    pub dest_code: u8,
    pub lic_code: u8,
    pub version: u8,
    pub checksum: u8,
    pub global_checksum: u16,
}

impl RomHeader {
    /// Every byte field is empty and every numeric field is zero.
    pub open spec fn is_empty(&self) -> bool {
        &&& self.entry@.len() == 0
        &&& self.logo@.len() == 0
        &&& self.title@.len() == 0
        &&& self.new_lic_code@.len() == 0
        &&& self.sgb_flag == 0 && self.cart_type == 0 && self.rom_size == 0 && self.ram_size == 0
        &&& self.dest_code == 0 && self.lic_code == 0 && self.version == 0 && self.checksum == 0
        &&& self.global_checksum == 0
    }

    /// The fields of the header held in `h`, its first byte being that of
    /// address 0x100.
    pub open spec fn read_from(&self, h: Seq<u8>) -> bool {
        &&& self.entry@ == h.subrange(0x00, 0x04)
        &&& self.logo@ == h.subrange(0x04, 0x34)
        &&& self.title@ == h.subrange(0x34, 0x43)
        &&& self.new_lic_code@ == h.subrange(0x44, 0x46)
        &&& self.sgb_flag == h[0x46]
        &&& self.cart_type == h[0x47]
        &&& self.rom_size == h[0x48]
        &&& self.ram_size == h[0x49]
        &&& self.dest_code == h[0x4A]
        &&& self.lic_code == h[0x4B]
        &&& self.version == h[0x4C]
        &&& self.checksum == h[0x4D]
        &&& self.global_checksum == h[0x4F] as int * 256 + h[0x4E] as int
    }

    /// An empty header.
    pub fn new() -> (r: RomHeader)
        ensures
            r.is_empty(),
    {
        RomHeader {
            entry: Vec::new(),
            logo: Vec::new(),
            title: Vec::new(),
            new_lic_code: Vec::new(),
            sgb_flag: 0,
            cart_type: 0,
            rom_size: 0,
            ram_size: 0,
            dest_code: 0,
            lic_code: 0,
            version: 0,
            checksum: 0,
            global_checksum: 0,
        }
    }
}

/// The bytes `data[start..end]` as a vector.
fn copy_range(data: &[u8], start: usize, end: usize) -> (r: Vec<u8>)
    requires
        start <= end <= data@.len(),
    ensures
        r@ == data@.subrange(start as int, end as int),
{
    let mut r: Vec<u8> = Vec::new();
    let mut i: usize = start;
    while i < end
        invariant
            start <= i <= end <= data@.len(),
            r@ == data@.subrange(start as int, i as int),
        decreases end - i,
    {
        r.push(data[i]);
        i += 1;
        assert(r@ =~= data@.subrange(start as int, i as int));
    }
    r
}

/// Size in bytes of a cartridge header, 0x100-0x14F.
pub const HEADER_LEN: usize = 0x50;

impl RomHeader {
    /// Reads the header fields from its 0x50 bytes.
    pub fn load(&mut self, header: &[u8]) -> (r: Result<(), ()>)
        requires
            header@.len() >= HEADER_LEN,
        ensures
            r is Ok,
            final(self).read_from(header@),
    {
        self.entry = copy_range(header, 0x00, 0x04);
        self.logo = copy_range(header, 0x04, 0x34);
        self.title = copy_range(header, 0x34, 0x43);
        self.new_lic_code = copy_range(header, 0x44, 0x46);
        self.sgb_flag = header[0x46];
        self.cart_type = header[0x47];
        self.rom_size = header[0x48];
        self.ram_size = header[0x49];
        self.dest_code = header[0x4A];
        self.lic_code = header[0x4B];
        self.version = header[0x4C];
        self.checksum = header[0x4D];
        self.global_checksum = (header[0x4F] as u16) * 256 + header[0x4E] as u16;
        Ok(())
    }
}

/// The header checksum over `data[0x134..=i)`: starting from 0, each byte
/// subtracts itself and one, modulo 256.
pub open spec fn checksum_upto(data: Seq<u8>, i: int) -> u8
    decreases i - 0x134,
{
    if i <= 0x134 {
        0
    } else {
        ((checksum_upto(data, i - 1) - data[i - 1] - 1 + 512) % 256) as u8
    }
}

/// The header checksum of an image: bytes 0x134 to 0x14C.
pub open spec fn header_checksum_spec(data: Seq<u8>) -> u8 {
    checksum_upto(data, 0x14D)
}

/// Computes the header checksum of an image of at least 0x14D bytes.
pub fn header_checksum(data: &[u8]) -> (r: u8)
    requires
        data@.len() >= 0x14D,
    ensures
        r == header_checksum_spec(data@),
{
    let mut x: u8 = 0;
    let mut i: usize = 0x134;
    while i < 0x14D
        invariant
            0x134 <= i <= 0x14D,
            data@.len() >= 0x14D,
            x == checksum_upto(data@, i as int),
        decreases 0x14D - i,
    {
        x = x.wrapping_sub(data[i]).wrapping_sub(1);
        i += 1;
    }
    x
}

impl CartContext {
    /// Takes `image` as the cartridge: its bytes, its size and its header.
    /// Fails when the header checksum (byte 0x14D) does not match the
    /// checksum of bytes 0x134-0x14C; the image is taken either way.
    pub fn load_image(&mut self, image: Vec<u8>) -> (r: Result<(), ()>)
        requires
            image@.len() >= 0x150,
        ensures
            final(self).rom_data@ == image@,
            final(self).rom_size == image@.len(),
            final(self).header.read_from(image@.subrange(0x100, 0x150)),
            r is Ok <==> image@[0x14D] == header_checksum_spec(image@),
    {
        let header = copy_range(image.as_slice(), 0x100, 0x150);
        let _ = self.header.load(header.as_slice());
        let sum = header_checksum(image.as_slice());
        self.rom_size = image.len();
        self.rom_data = image;
        if self.header.checksum == sum {
            Ok(())
        } else {
            Err(())
        }
    }
}

} // verus!
