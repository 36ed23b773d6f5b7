use gb_emu::cartridge::{
    ensure_header_checksum, ensure_logo, mbc_info, power_up, ram_size, rom_size,
    rtc_anchor_from_bytes, rtc_anchor_to_bytes, Cartridge, CartridgeError, Mapper, Mbc1,
    RealTimeClock, RomOnly, Stable, NINTENDO_LOGO,
};
use gb_emu::convention::Term;
use gb_emu::memory::Memory;

fn fix_checksum(rom: &mut Vec<u8>) {
    let mut x: u8 = 0;
    for i in 0x0134..0x014d {
        x = x.wrapping_sub(rom[i]).wrapping_sub(1);
    }
    rom[0x014d] = x;
}

/// A valid image of `banks` ROM banks, each byte of the switchable banks
/// holding its bank number.
fn rom(kind: u8, rom_code: u8, ram_code: u8, banks: usize) -> Vec<u8> {
    let mut rom = vec![0u8; banks * 0x4000];
    for b in 1..banks {
        for i in 0..0x4000 {
            rom[b * 0x4000 + i] = b as u8;
        }
    }
    for i in 0..48 {
        rom[0x0104 + i] = NINTENDO_LOGO[i];
    }
    rom[0x0134] = b'T';
    rom[0x0135] = b'E';
    rom[0x0136] = b'S';
    rom[0x0137] = b'T';
    rom[0x0147] = kind;
    rom[0x0148] = rom_code;
    rom[0x0149] = ram_code;
    fix_checksum(&mut rom);
    rom
}

fn is_err(r: Result<Mapper, CartridgeError>, e: CartridgeError) -> bool {
    match r {
        Ok(_) => false,
        Err(f) => f == e,
    }
}

#[test]
fn rom_and_ram_size_codes() {
    assert_eq!(rom_size(0x00), Some(32 * 1024));
    assert_eq!(rom_size(0x01), Some(64 * 1024));
    assert_eq!(rom_size(0x05), Some(1024 * 1024));
    assert_eq!(rom_size(0x08), Some(8 * 1024 * 1024));
    assert_eq!(rom_size(0x52), Some(1152 * 1024));
    assert_eq!(rom_size(0x53), Some(1280 * 1024));
    assert_eq!(rom_size(0x54), Some(1536 * 1024));
    assert_eq!(rom_size(0x09), None);
    assert_eq!(rom_size(0x51), None);
    assert_eq!(ram_size(0), Some(0));
    assert_eq!(ram_size(1), Some(2 * 1024));
    assert_eq!(ram_size(2), Some(8 * 1024));
    assert_eq!(ram_size(3), Some(32 * 1024));
    assert_eq!(ram_size(4), Some(128 * 1024));
    assert_eq!(ram_size(5), Some(64 * 1024));
    assert_eq!(ram_size(6), None);
}

#[test]
fn kind_names() {
    assert_eq!(mbc_info(0x00), Some("ROM ONLY"));
    assert_eq!(mbc_info(0x03), Some("MBC1+RAM+BATTERY"));
    assert_eq!(mbc_info(0x10), Some("MBC3+TIMER+RAM+BATTERY"));
    assert_eq!(mbc_info(0x1b), Some("MBC5+RAM+BATTERY"));
    assert_eq!(mbc_info(0xfe), Some("HuC3"));
    assert_eq!(mbc_info(0x04), None);
    assert_eq!(mbc_info(0xff), None);
}

#[test]
fn valid_plain_rom_is_accepted() {
    let image = rom(0x00, 0x00, 0x00, 2);
    assert!(ensure_logo(&image).is_ok());
    assert!(ensure_header_checksum(&image).is_ok());
    let cart = power_up(image, None, None, 0).unwrap();
    assert!(matches!(cart, Mapper::RomOnly(_)));
    assert_eq!(cart.title(), b"TEST".to_vec());
    assert_eq!(cart.term(), Term::GB);
    assert_eq!(cart.get(0x0134), b'T');
    assert_eq!(cart.get(0x4000), 1);
    assert_eq!(cart.get(0xa000), 0);
    let saved = cart.save();
    assert!(saved.ram.is_none());
    assert!(saved.rtc.is_none());
}

#[test]
fn plain_rom_ignores_stores() {
    let mut cart = RomOnly::power_up(rom(0x00, 0x00, 0x00, 2));
    let before = cart.get(0x2000);
    cart.set(0x2000, 0x55);
    assert_eq!(cart.get(0x2000), before);
    assert_eq!(cart.get(0x7fff), 1);
}

#[test]
fn short_image_is_refused() {
    assert!(is_err(power_up(vec![0u8; 0x14f], None, None, 0), CartridgeError::MissingHeader));
    assert!(is_err(power_up(vec![], None, None, 0), CartridgeError::MissingHeader));
}

#[test]
fn unknown_rom_size_code_is_refused() {
    let mut image = rom(0x00, 0x00, 0x00, 2);
    image[0x0148] = 0x09;
    fix_checksum(&mut image);
    assert!(is_err(power_up(image, None, None, 0), CartridgeError::UnsupportedRomSize));
}

#[test]
fn image_larger_than_declared_is_refused() {
    let image = rom(0x00, 0x00, 0x00, 3);
    assert!(is_err(power_up(image, None, None, 0), CartridgeError::RomTooLarge));
}

#[test]
fn unsupported_mapper_is_refused() {
    for kind in [0x04u8, 0x08, 0x09, 0x0b, 0x15, 0x1c, 0xfc, 0xff] {
        let image = rom(kind, 0x00, 0x00, 2);
        assert!(is_err(power_up(image, None, None, 0), CartridgeError::UnsupportedMapper));
    }
}

#[test]
fn unknown_ram_size_code_is_refused() {
    let image = rom(0x03, 0x00, 0x06, 2);
    assert!(is_err(power_up(image, None, None, 0), CartridgeError::UnsupportedRamSize));
    // a kind without declared RAM does not look at the code
    let image = rom(0x01, 0x00, 0x06, 2);
    assert!(power_up(image, None, None, 0).is_ok());
}

#[test]
fn bad_header_checksum_is_refused() {
    let mut image = rom(0x00, 0x00, 0x00, 2);
    image[0x014d] = image[0x014d].wrapping_add(1);
    assert_eq!(ensure_header_checksum(&image), Err(CartridgeError::BadHeaderChecksum));
    assert!(is_err(power_up(image, None, None, 0), CartridgeError::BadHeaderChecksum));
    let mut image = rom(0x00, 0x00, 0x00, 2);
    image[0x0140] ^= 0x01;
    assert!(is_err(power_up(image, None, None, 0), CartridgeError::BadHeaderChecksum));
}

#[test]
fn bad_logo_is_refused() {
    for i in [0usize, 17, 47] {
        let mut image = rom(0x00, 0x00, 0x00, 2);
        image[0x0104 + i] ^= 0x80;
        assert_eq!(ensure_logo(&image), Err(CartridgeError::BadLogo));
        assert!(is_err(power_up(image, None, None, 0), CartridgeError::BadLogo));
    }
}

#[test]
fn checksum_algorithm_value() {
    // 25 zero bytes: 0 - 25 * 1 modulo 256
    let mut image = vec![0u8; 0x150];
    image[0x014d] = 0xe7;
    assert!(ensure_header_checksum(&image).is_ok());
    image[0x0134] = 0x10;
    assert!(ensure_header_checksum(&image).is_err());
    image[0x014d] = 0xd7;
    assert!(ensure_header_checksum(&image).is_ok());
}

#[test]
fn title_and_model() {
    let mut image = rom(0x00, 0x00, 0x00, 2);
    for (i, b) in b"ABCDEFGHIJKLMNO".iter().enumerate() {
        image[0x0134 + i] = *b;
    }
    fix_checksum(&mut image);
    let cart = power_up(image.clone(), None, None, 0).unwrap();
    assert_eq!(cart.title(), b"ABCDEFGHIJKLMNO".to_vec());
    assert_eq!(cart.term(), Term::GB);
    image[0x0143] = 0x80;
    fix_checksum(&mut image);
    let cart = power_up(image.clone(), None, None, 0).unwrap();
    assert_eq!(cart.title(), b"ABCDEFGHIJ".to_vec());
    assert_eq!(cart.term(), Term::GBC);
    image[0x0143] = 0xc0;
    image[0x0136] = 0x00;
    fix_checksum(&mut image);
    let cart = power_up(image, None, None, 0).unwrap();
    assert_eq!(cart.title(), b"AB".to_vec());
    assert_eq!(cart.term(), Term::GBC);
}

#[test]
fn mbc1_bank_zero_reads_as_bank_one() {
    let mut cart = power_up(rom(0x01, 0x05, 0x00, 64), None, None, 0).unwrap();
    assert_eq!(cart.get(0x4000), 1);
    cart.set(0x2000, 0x00);
    assert_eq!(cart.get(0x4000), 1);
    assert_eq!(cart.get(0x7fff), 1);
    cart.set(0x2000, 0x05);
    assert_eq!(cart.get(0x4000), 5);
    cart.set(0x3fff, 0xe7);
    assert_eq!(cart.get(0x4000), 7);
    // upper bits 1, low bits written as 0: bank 0x21, not 0x20
    cart.set(0x4000, 0x01);
    cart.set(0x2000, 0x20);
    assert_eq!(cart.get(0x4000), 0x21);
    if let Mapper::Mbc1(m) = &cart {
        assert_eq!(m.rom_bank(), 0x21);
        assert_eq!(m.ram_bank(), 0);
    } else {
        panic!("not an MBC1");
    }
    // fixed window always shows bank 0
    assert_eq!(cart.get(0x0134), b'T');
}

#[test]
fn mbc1_ram_needs_enabling_and_banks_in_ram_mode() {
    let mut cart = power_up(rom(0x02, 0x00, 0x03, 2), None, None, 0).unwrap();
    cart.set(0xa000, 0x11);
    assert_eq!(cart.get(0xa000), 0x00);
    cart.set(0x0000, 0x0a);
    cart.set(0xa000, 0x11);
    assert_eq!(cart.get(0xa000), 0x11);
    cart.set(0x6000, 0x01);
    cart.set(0x4000, 0x02);
    assert_eq!(cart.get(0xa000), 0x00);
    cart.set(0xa000, 0x22);
    cart.set(0xbfff, 0x33);
    assert_eq!(cart.get(0xa000), 0x22);
    assert_eq!(cart.get(0xbfff), 0x33);
    cart.set(0x4000, 0x00);
    assert_eq!(cart.get(0xa000), 0x11);
    if let Mapper::Mbc1(m) = &cart {
        assert_eq!(m.ram[0x4000], 0x22);
        assert_eq!(m.ram[0x5fff], 0x33);
        assert_eq!(m.ram.len(), 0x8000);
    } else {
        panic!("not an MBC1");
    }
    cart.set(0x0000, 0x1b);
    assert_eq!(cart.get(0xa000), 0x00);
    // no battery: nothing to persist
    assert!(!cart.take_save_request());
    assert!(cart.save().ram.is_none());
}

#[test]
fn save_is_requested_when_ram_is_disabled_and_restored_on_power_up() {
    let image = rom(0x03, 0x00, 0x02, 2);
    let mut cart = power_up(image.clone(), None, None, 0).unwrap();
    assert!(!cart.take_save_request());
    cart.set(0x0000, 0x0a);
    assert!(!cart.take_save_request());
    for (i, b) in b"SIGNATURE".iter().enumerate() {
        cart.set(0xa000 + i as u16, *b);
    }
    cart.set(0x0000, 0x00);
    assert!(cart.take_save_request());
    assert!(!cart.take_save_request());
    let saved = cart.save().ram.unwrap();
    assert_eq!(saved.len(), 8 * 1024);
    assert_eq!(&saved[..9], b"SIGNATURE");

    let mut again = power_up(image, Some(saved), None, 0).unwrap();
    again.set(0x0000, 0x0a);
    for (i, b) in b"SIGNATURE".iter().enumerate() {
        assert_eq!(again.get(0xa000 + i as u16), *b);
    }
}

#[test]
fn mbc1_power_up_state() {
    let m = Mbc1::power_up(vec![0u8; 0x8000], vec![0u8; 0x2000], true);
    assert_eq!(m.rom_bank(), 1);
    assert_eq!(m.ram_bank(), 0);
    assert!(!m.regs.ram_enable);
    assert!(m.regs.battery);
}

#[test]
fn mbc2_ram_is_four_bits_wide_and_address_bit_8_selects_the_port() {
    let mut cart = power_up(rom(0x06, 0x02, 0x00, 8), None, None, 0).unwrap();
    cart.set(0x0100, 0x0a); // bit 8 set: not the enable port
    cart.set(0xa000, 0xff);
    assert_eq!(cart.get(0xa000), 0x00);
    cart.set(0x0000, 0x0a);
    cart.set(0xa000, 0xff);
    cart.set(0xa1ff, 0x37);
    assert_eq!(cart.get(0xa000), 0x0f);
    assert_eq!(cart.get(0xa1ff), 0x07);
    assert_eq!(cart.get(0xa200), 0x00);
    cart.set(0x2000, 0x03); // bit 8 clear: not the bank port
    assert_eq!(cart.get(0x4000), 1);
    cart.set(0x2100, 0x13);
    assert_eq!(cart.get(0x4000), 3);
    let saved = cart.save().ram.unwrap();
    assert_eq!(saved.len(), 512);
    assert_eq!(saved[0], 0x0f);
}

#[test]
fn mbc3_banks_and_clock() {
    let mut cart = power_up(rom(0x10, 0x05, 0x03, 64), None, Some(rtc_anchor_to_bytes(1000)), 5000)
        .unwrap();
    cart.set(0x2000, 0x00);
    assert_eq!(cart.get(0x4000), 1);
    cart.set(0x2000, 0x80);
    assert_eq!(cart.get(0x4000), 1);
    cart.set(0x2000, 0x3f);
    assert_eq!(cart.get(0x4000), 0x3f);
    cart.set(0x0000, 0x0a);
    cart.set(0x4000, 0x03);
    cart.set(0xa000, 0x99);
    assert_eq!(cart.get(0xa000), 0x99);
    // 100000 s after the anchor: 1 day, 3 h, 46 min, 40 s
    cart.set_wall_clock(101_000);
    cart.set(0x6000, 0x01); // no 0 before it: no latch
    cart.set(0x4000, 0x08);
    assert_eq!(cart.get(0xa000), 0);
    cart.set(0x6000, 0x00);
    cart.set(0x6000, 0x01);
    assert_eq!(cart.get(0xa000), 40);
    cart.set(0x4000, 0x09);
    assert_eq!(cart.get(0xa000), 46);
    cart.set(0x4000, 0x0a);
    assert_eq!(cart.get(0xa000), 3);
    cart.set(0x4000, 0x0b);
    assert_eq!(cart.get(0xa000), 1);
    cart.set(0x4000, 0x0c);
    assert_eq!(cart.get(0xa000), 0);
    cart.set(0xa000, 0x40);
    assert_eq!(cart.get(0xa000), 0x40);
    cart.set(0x4000, 0x05);
    assert_eq!(cart.get(0xa000), 0);
    let saved = cart.save();
    assert_eq!(saved.rtc, Some(vec![0, 0, 0, 0, 0, 0, 0x03, 0xe8]));
    assert_eq!(saved.ram.unwrap().len(), 32 * 1024);
    cart.set(0x0000, 0x00);
    assert!(cart.take_save_request());
}

#[test]
fn real_time_clock_day_counter() {
    let mut rtc = RealTimeClock::power_up(None, 77, true);
    assert_eq!(rtc.zero, 77);
    rtc.now = 77 + 255 * 86400 + 23 * 3600 + 59 * 60 + 59;
    rtc.tick();
    assert_eq!((rtc.s, rtc.m, rtc.h, rtc.dl, rtc.dh), (59, 59, 23, 255, 0));
    rtc.now += 1;
    rtc.tick();
    assert_eq!((rtc.s, rtc.m, rtc.h, rtc.dl, rtc.dh), (0, 0, 0, 0, 0x01));
    rtc.now = 77 + 512 * 86400;
    rtc.tick();
    assert_eq!((rtc.dl, rtc.dh), (0, 0x81));
    rtc.now = 0;
    rtc.tick();
    assert_eq!((rtc.s, rtc.m, rtc.h, rtc.dl), (0, 0, 0, 0));
    assert_eq!(rtc.get(0x0c), 0x81);
    rtc.set(0x08, 12);
    assert_eq!(rtc.get(0x08), 12);
    assert_eq!(rtc.get(0x07), 0);
}

#[test]
fn clock_anchor_file_format() {
    assert_eq!(rtc_anchor_to_bytes(0x0102_0304_0506_0708), vec![1, 2, 3, 4, 5, 6, 7, 8]);
    assert_eq!(rtc_anchor_from_bytes(&vec![1, 2, 3, 4, 5, 6, 7, 8]), Some(0x0102_0304_0506_0708));
    assert_eq!(rtc_anchor_from_bytes(&vec![0xff; 8]), Some(u64::MAX));
    assert_eq!(rtc_anchor_from_bytes(&vec![1, 2, 3]), None);
    assert_eq!(rtc_anchor_from_bytes(&vec![0; 9]), None);
    for z in [0u64, 1, 1_700_000_000, u64::MAX] {
        assert_eq!(rtc_anchor_from_bytes(&rtc_anchor_to_bytes(z)), Some(z));
    }
}

#[test]
fn mbc3_without_clock_file_starts_now() {
    let cart = power_up(rom(0x0f, 0x00, 0x00, 2), None, None, 4242).unwrap();
    let saved = cart.save();
    assert_eq!(saved.rtc, Some(rtc_anchor_to_bytes(4242)));
    assert_eq!(saved.ram, Some(vec![]));
    let cart = power_up(rom(0x13, 0x00, 0x02, 2), None, Some(rtc_anchor_to_bytes(1)), 4242).unwrap();
    let saved = cart.save();
    assert_eq!(saved.rtc, None);
    assert_eq!(saved.ram.unwrap().len(), 8 * 1024);
    let cart = power_up(rom(0x11, 0x00, 0x00, 2), None, None, 0).unwrap();
    assert!(cart.save().ram.is_none());
}

#[test]
fn mbc5_selects_bank_zero_and_nine_bit_banks() {
    let mut image = rom(0x1b, 0x08, 0x03, 512);
    let last = 0x100 * 0x4000;
    image[last] = 0xaa;
    let mut cart = power_up(image, None, None, 0).unwrap();
    assert_eq!(cart.get(0x4000), 1);
    cart.set(0x2000, 0x00);
    assert_eq!(cart.get(0x4134), b'T');
    cart.set(0x3000, 0x01);
    assert_eq!(cart.get(0x4000), 0xaa);
    cart.set(0x2000, 0x02);
    assert_eq!(cart.get(0x4000), 0x02); // bank 0x102 holds its number modulo 256
    cart.set(0x3000, 0x00);
    assert_eq!(cart.get(0x4000), 0x02);
    cart.set(0x0000, 0x0a);
    cart.set(0x4000, 0x03);
    cart.set(0xa010, 0x5a);
    cart.set(0x4000, 0x00);
    assert_eq!(cart.get(0xa010), 0x00);
    cart.set(0x4000, 0x13);
    assert_eq!(cart.get(0xa010), 0x5a);
    cart.set(0x0000, 0x00);
    assert!(cart.take_save_request());
}

#[test]
fn reads_past_the_image_are_zero() {
    let mut cart = power_up(rom(0x01, 0x05, 0x00, 2), None, None, 0).unwrap();
    cart.set(0x2000, 0x1f);
    assert_eq!(cart.get(0x4000), 0);
    let mut cart = power_up(rom(0x03, 0x00, 0x02, 2), Some(vec![1, 2, 3]), None, 0).unwrap();
    cart.set(0x0000, 0x0a);
    assert_eq!(cart.get(0xa002), 3);
    assert_eq!(cart.get(0xa003), 0);
    cart.set(0xa003, 9);
    assert_eq!(cart.get(0xa003), 0);
}
