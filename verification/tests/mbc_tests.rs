use rustyboy_core::cartridge::{Cartridge, CartridgeType};
use rustyboy_core::mbc::from_cartridge;
use rustyboy_core::mbc::mbc1::MBC1;
use rustyboy_core::mbc::rom_only::RomOnly;
use rustyboy_core::mbc::MemoryBankController;

#[test]
fn read_rom_no_banking() {
    let mut data = vec![0; 0x4000]; // 16 KiB
    data[0x0] = 0xA;
    data[0x100] = 0xB;
    data[0x3FFF] = 0xC;
    let mbc = MBC1::new(Cartridge::from_data(data), false, false);
    assert_eq!(mbc.read8(0x0), 0xA);
    assert_eq!(mbc.read8(0x100), 0xB);
    assert_eq!(mbc.read8(0x3FFF), 0xC);
}

#[test]
fn read_rom_banks_5_bit_bank_number() {
    let mut data = vec![0; 0x10000]; // 64 KiB
    data[0x4000] = 0xA; // bank 1
    data[0x8100] = 0xB; // bank 2
    let mut mbc = MBC1::new(Cartridge::from_data(data), false, false);
    mbc.write8(0x2000, 1); // select bank 1
    assert_eq!(mbc.read8(0x4000), 0xA);
    mbc.write8(0x2500, 0); // 0 still selects bank 1
    assert_eq!(mbc.read8(0x4000), 0xA);
    mbc.write8(0x3000, 0b11100010); // higher bits discarded: bank 2
    assert_eq!(mbc.read8(0x4100), 0xB);
}

#[test]
fn read_rom_banks_7_bit_bank_number() {
    let mut data = vec![0; 0x200000]; // 2048 KiB
    data[0x84000] = 0xA; // bank 33
    data[0x1FC000] = 0xB; // bank 127
    let mut mbc = MBC1::new(Cartridge::from_data(data), false, false);

    mbc.write8(0x2000, 1);
    mbc.write8(0x4000, 1);
    assert_eq!(mbc.read8(0x4000), 0xA);

    mbc.write8(0x2000, 0xFF);
    mbc.write8(0x4000, 0xFF);
    assert_eq!(mbc.read8(0x4000), 0xB);
}

#[test]
fn read_rom_banks_advanced_banking_mode() {
    let mut data = vec![0; 0x200000]; // 2048 KiB
    data[0x80000] = 0xA; // bank 32
    data[0x84000] = 0xB; // bank 33

    let mut mbc = MBC1::new(Cartridge::from_data(data), false, false);
    mbc.write8(0x6000, 1); // advanced banking mode

    mbc.write8(0x2000, 1);
    mbc.write8(0x4000, 1);

    assert_eq!(mbc.read8(0x4000), 0xB); // bank 33
    assert_eq!(mbc.read8(0x0000), 0xA); // bank 32
}

#[test]
fn read_ram_no_banking() {
    let mut data = vec![0; 0x200];
    data[0x149] = 2; // 1 RAM bank
    let mut mbc = MBC1::new(Cartridge::from_data(data), true, false);
    mbc.write8(0, 0xA); // enable RAM
    mbc.write8(0xA000, 0xAB);
    assert_eq!(mbc.read8(0xA000), 0xAB);
    mbc.write8(0xBFFF, 0xCD);
    assert_eq!(mbc.read8(0xBFFF), 0xCD);
}

#[test]
fn read_ram_banks() {
    let mut data = vec![0; 0x200];
    data[0x149] = 3; // 4 RAM banks
    let mut mbc = MBC1::new(Cartridge::from_data(data), true, false);
    mbc.write8(0, 0xA); // enable RAM
    mbc.write8(0x6000, 1); // RAM banking mode

    mbc.write8(0x4000, 1); // bank 1
    mbc.write8(0xA000, 0xA);
    assert_eq!(mbc.read8(0xA000), 0xA);

    mbc.write8(0x5000, 2); // bank 2
    assert_ne!(mbc.read8(0xA000), 0xA);
    mbc.write8(0xA500, 0xB);
    assert_eq!(mbc.read8(0xA500), 0xB);

    mbc.write8(0x5FFF, 3); // bank 3
    assert_ne!(mbc.read8(0xA500), 0xB);
    mbc.write8(0xB000, 0xC);
    assert_eq!(mbc.read8(0xB000), 0xC);

    mbc.write8(0x4000, 0b11100); // bank 0: only the two lowest bits count
    assert_ne!(mbc.read8(0xB000), 0xC);
    mbc.write8(0xBFFF, 0xC);
    assert_eq!(mbc.read8(0xBFFF), 0xC);
}

#[test]
fn try_read_ram_banks_simple_banking_mode() {
    let mut data = vec![0; 0x200];
    data[0x149] = 3; // 4 RAM banks
    let mut mbc = MBC1::new(Cartridge::from_data(data), true, false);
    mbc.write8(0, 0xA); // enable RAM
    mbc.write8(0x6000, 0); // simple banking mode

    mbc.write8(0x4000, 0);
    mbc.write8(0xA000, 0xAB);

    mbc.write8(0x4000, 1); // attempt to select bank 1
    assert_eq!(mbc.read8(0xA000), 0xAB); // still bank 0

    mbc.write8(0x7000, 1); // RAM banking mode
    assert_ne!(mbc.read8(0xA000), 0xAB);
}

#[test]
fn enable_disable_ram() {
    let mut data = vec![0; 0x200];
    data[0x149] = 2; // 1 RAM bank
    let mut mbc = MBC1::new(Cartridge::from_data(data), true, false);

    mbc.write8(0, 0xA); // enable RAM
    mbc.write8(0xA000, 123);
    assert_eq!(mbc.read8(0xA000), 123);

    mbc.write8(0, 0); // disable RAM
    assert_eq!(mbc.read8(0xA000), 0xFF);

    mbc.write8(0, 0xEA); // enable RAM
    mbc.write8(0xBBBB, 101);
    assert_eq!(mbc.read8(0xBBBB), 101);

    mbc.write8(0, 0xAE); // disable RAM
    assert_eq!(mbc.read8(0xBBBB), 0xFF);

    mbc.write8(0x1FFF, 0xA); // enable RAM
    mbc.write8(0xBFFF, 123);
    assert_eq!(mbc.read8(0xBFFF), 123);
}

#[test]
fn every_low_bank_number_selects_its_bank() {
    let mut data = vec![0u8; 32 * 0x4000];
    for bank in 0..32usize {
        data[bank * 0x4000] = bank as u8;
    }
    let mut mbc = MBC1::new(Cartridge::from_data(data), false, false);
    for n in 1..=31u8 {
        mbc.write8(0x2000, n);
        assert_eq!(mbc.read8(0x4000), n);
    }
    mbc.write8(0x2000, 0);
    assert_eq!(mbc.read8(0x4000), 1);
    mbc.write8(0x2000, 0x20);
    assert_eq!(mbc.read8(0x4000), 1);
}

#[test]
fn reads_behind_the_image_and_without_ram() {
    let data = vec![0u8; 0x8000];
    let mut mbc = MBC1::new(Cartridge::from_data(data), false, false);
    mbc.write8(0x2000, 5);
    assert_eq!(mbc.read8(0x4000), 0xFF);
    mbc.write8(0, 0xA);
    mbc.write8(0xA000, 1);
    assert_eq!(mbc.read8(0xA000), 0xFF);
    assert_eq!(mbc.read8(0x9000), 0);
}

#[test]
fn rom_only_maps_the_image_and_drops_writes() {
    let mut data = vec![0u8; 0x8000];
    data[0x1234] = 0x56;
    data[0x7FFF] = 0x78;
    let mut rom = RomOnly::new(Cartridge::from_data(data));
    assert_eq!(rom.read8(0x1234), 0x56);
    assert_eq!(rom.read8(0x7FFF), 0x78);
    rom.write8(0x1234, 0xAA);
    assert_eq!(rom.read8(0x1234), 0x56);
    assert_eq!(rom.read8(0xA000), 0xFF);
}

fn image_of_type(code: u8) -> Vec<u8> {
    let mut data = vec![0u8; 0x8000];
    data[0x147] = code;
    data
}

#[test]
fn factory_by_mapper_type() {
    assert!(matches!(
        from_cartridge(Cartridge::from_data(image_of_type(0x00))),
        Some(MemoryBankController::RomOnly(_))
    ));
    assert!(matches!(
        from_cartridge(Cartridge::from_data(image_of_type(0x01))),
        Some(MemoryBankController::Mbc1(_))
    ));
    assert!(matches!(
        from_cartridge(Cartridge::from_data(image_of_type(0x03))),
        Some(MemoryBankController::Mbc1(_))
    ));
    assert!(from_cartridge(Cartridge::from_data(image_of_type(0x13))).is_none());
    assert!(from_cartridge(Cartridge::from_data(image_of_type(0xFC))).is_none());
    assert!(from_cartridge(Cartridge::from_data(vec![0u8; 0x14F])).is_none());
    assert!(from_cartridge(Cartridge::from_data(Vec::new())).is_none());
}

#[test]
fn header_fields() {
    let mut data = vec![0u8; 0x150];
    let title = b"TETRIS";
    for (i, byte) in title.iter().enumerate() {
        data[0x134 + i] = *byte;
    }
    data[0x147] = 0x02;
    data[0x148] = 2;
    data[0x149] = 3;
    data[0x14A] = 1;
    let cart = Cartridge::from_data(data);
    assert!(cart.has_header());
    assert_eq!(cart.game_title(), "TETRIS");
    assert_eq!(cart.cart_type(), CartridgeType::MBC1 { ram: true, battery: false });
    assert_eq!(cart.rom_size(), 0x20000);
    assert_eq!(cart.ram_size(), 0x8000);
    assert!(!cart.sold_in_japan());
    assert_eq!(cart.read8(0x134), b'T');
    assert_eq!(cart.len(), 0x150);
}

#[test]
fn header_codes() {
    let mut data = vec![0u8; 0x150];
    for i in 0..16 {
        data[0x134 + i] = b'A' + i as u8;
    }
    let cases = [(0u8, 0usize), (1, 0), (2, 0x2000), (3, 0x8000), (4, 0x20000), (5, 0x10000), (6, 0)];
    for (code, size) in cases {
        data[0x149] = code;
        assert_eq!(Cartridge::from_data(data.clone()).ram_size(), size);
    }
    data[0x148] = 0;
    assert_eq!(Cartridge::from_data(data.clone()).rom_size(), 0x8000);
    data[0x148] = 8;
    assert_eq!(Cartridge::from_data(data.clone()).rom_size(), 0x800000);
    let cart = Cartridge::from_data(data.clone());
    assert_eq!(cart.game_title(), "ABCDEFGHIJKLMNOP");
    assert!(cart.sold_in_japan());
    assert_eq!(cart.cart_type(), CartridgeType::RomOnly);
    data[0x147] = 0x0F;
    assert_eq!(
        Cartridge::from_data(data.clone()).cart_type(),
        CartridgeType::MBC3 { timer: true, ram: false, battery: true }
    );
    data[0x147] = 0x20;
    assert_eq!(Cartridge::from_data(data.clone()).cart_type(), CartridgeType::Unsupported(0x20));
    data[0x134] = 0;
    assert_eq!(Cartridge::from_data(data).game_title(), "");
    assert!(!Cartridge::from_data(vec![0u8; 0x100]).has_header());
}
