use gbcore::cartridge::{header_checksum, CartContext, RomHeader};

fn image() -> Vec<u8> {
    let mut img = vec![0u8; 0x8000];
    let title = b"TESTGAME";
    for (i, b) in title.iter().enumerate() {
        img[0x134 + i] = *b;
    }
    img[0x147] = 0x01;
    img[0x148] = 0x02;
    img[0x149] = 0x03;
    img[0x14E] = 0x12;
    img[0x14F] = 0x34;
    let mut x: u8 = 0;
    for i in 0x134..=0x14C {
        x = x.wrapping_sub(img[i]).wrapping_sub(1);
    }
    img[0x14D] = x;
    img
}

#[test]
fn blank_cartridge() {
    let cart = CartContext::new();
    assert_eq!(cart.rom_size, 0x8000);
    assert_eq!(cart.rom_data.len(), 0x8000);
    assert_eq!(cart.read(0x0100), 0);
    assert_eq!(cart.cart_read(0x7FFF), 0);
    assert!(cart.header.title.is_empty());
    assert!(cart.header.entry.is_empty());
    assert_eq!(cart.header.cart_type, 0);
    assert_eq!(cart.header.global_checksum, 0);
}

#[test]
fn cartridge_write_then_read() {
    let mut cart = CartContext::new();
    cart.write(0x0200, 0x42);
    assert_eq!(cart.read(0x0200), 0x42);
    cart.cart_write(0x0201, 0x43);
    assert_eq!(cart.cart_read(0x0201), 0x43);
}

#[test]
fn header_fields() {
    let img = image();
    let mut header = RomHeader::new();
    assert_eq!(header.load(&img[0x100..0x150]), Ok(()));
    assert_eq!(&header.title[0..8], b"TESTGAME");
    assert_eq!(header.title.len(), 15);
    assert_eq!(header.cart_type, 0x01);
    assert_eq!(header.global_checksum, 0x3412);
    assert_eq!(header.entry.len(), 4);
    assert_eq!(header.logo.len(), 0x30);
}

#[test]
fn checksum_of_blank_header() {
    // 25 bytes of zero: 0 - 25 * 1 = 0xE7
    let img = vec![0u8; 0x150];
    assert_eq!(header_checksum(&img), 0xE7);
}

#[test]
fn load_image_checks_checksum() {
    let mut cart = CartContext::new();
    let mut img = image();
    assert_eq!(cart.load_image(img.clone()), Ok(()));
    assert_eq!(cart.header.cart_type, 0x01);
    assert_eq!(cart.header.rom_size, 0x02);
    assert_eq!(cart.header.ram_size, 0x03);
    assert_eq!(&cart.header.title[0..8], b"TESTGAME");
    assert_eq!(cart.rom_size, 0x8000);
    img[0x14D] = img[0x14D].wrapping_add(1);
    assert_eq!(cart.load_image(img), Err(()));
}
