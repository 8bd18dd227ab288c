use gbc::Gameboy;
use gbc::cartridge::{Cartridge, Error, MbcKind};

/// A minimal valid ROM image: `banks` 16 KiB banks, the CGB flag set, MBC
/// type and RAM size codes as given, and a correct header checksum.
fn make_rom(banks: usize, mbc_code: u8, ram_code: u8) -> Vec<u8> {
    let mut rom = vec![0u8; banks * 0x4000];
    rom[0x143] = 0x80;
    rom[0x147] = mbc_code;
    rom[0x149] = ram_code;
    let mut sum: u32 = 0;
    for i in 0x134..=0x14C {
        sum = (sum + 0xFF - rom[i] as u32) % 256;
    }
    rom[0x14D] = sum as u8;
    rom
}

#[test]
fn post_boot_register_state() {
    let gb = Gameboy::init(Some(make_rom(2, 0, 0))).unwrap();
    let r = &gb.cpu.regs;
    assert_eq!(r.a, 0x11);
    assert_eq!(r.f, 0x80);
    assert_eq!(r.b, 0x00);
    assert_eq!(r.c, 0x00);
    assert_eq!(r.d, 0xFF);
    assert_eq!(r.e, 0x56);
    assert_eq!(r.h, 0x00);
    assert_eq!(r.l, 0x0D);
    assert_eq!(r.sp, 0xFFFE);
    assert_eq!(r.pc, 0x0100);
}

#[test]
fn init_rejects_bad_size() {
    let rom = vec![0u8; 0x4001];
    assert_eq!(Gameboy::init(Some(rom)).err().unwrap(), Error::InvalidRom);
    let small = vec![0u8; 0x100];
    assert_eq!(Gameboy::init(Some(small)).err().unwrap(), Error::InvalidRom);
}

#[test]
fn init_rejects_bad_checksum() {
    let mut rom = make_rom(2, 0, 0);
    rom[0x14D] = rom[0x14D].wrapping_add(1);
    assert_eq!(Gameboy::init(Some(rom)).err().unwrap(), Error::BadChecksum);
}

#[test]
fn init_rejects_unsupported_mbc() {
    let rom = make_rom(2, 0xFF, 0);
    assert_eq!(
        Gameboy::init(Some(rom)).err().unwrap(),
        Error::UnsupportedMbc(0xFF)
    );
}

#[test]
fn init_without_rom_is_ok() {
    let gb = Gameboy::init(None).unwrap();
    assert!(gb.cpu.memory.cartridge.is_none());
}

#[test]
fn frame_cadence() {
    let mut gb = Gameboy::init(Some(make_rom(2, 0, 0))).unwrap();
    for _ in 0..60 {
        gb.frame(None);
    }
    assert_eq!(gb.frame_counter, 60);
    // One frame budget (~69.7k cycles) is slightly under one 70224-dot
    // screen, so 60 frames see at least 59 VBlank entries.
    assert!(gb.cpu.memory.ppu.vblank_count >= 59);
    // The cycle books balance: every component saw what the CPU spent.
    assert_eq!(gb.frame_cycles_ppu, gb.frame_cycles_cpu);
    assert_eq!(gb.frame_cycles_dma, gb.frame_cycles_cpu);
    assert_eq!(gb.frame_cycles_timer, gb.frame_cycles_cpu);
    assert!(gb.frame_cycles_cpu > 0);
}

#[test]
fn insert_eject_reset() {
    let mut gb = Gameboy::init(None).unwrap();
    gb.frame(None);
    assert_eq!(gb.frame_counter, 1);
    gb.insert(make_rom(2, 0x01, 2)).unwrap();
    assert_eq!(gb.frame_counter, 0);
    assert!(gb.cpu.memory.cartridge.is_some());
    gb.frame(None);
    gb.reset();
    assert_eq!(gb.frame_counter, 0);
    assert!(gb.cpu.memory.cartridge.is_some());
    assert_eq!(gb.cpu.regs.pc, 0x0100);
    gb.eject();
    assert!(gb.cpu.memory.cartridge.is_none());
}

#[test]
fn cartridge_parsing_and_battery() {
    let cart = Cartridge::from_bytes(make_rom(2, 0x03, 2)).unwrap();
    assert_eq!(cart.mbc, MbcKind::Mbc1);
    assert!(cart.has_battery());
    assert!(cart.cgb);
    assert_eq!(cart.ram.len(), 0x2000);
    let plain = Cartridge::from_bytes(make_rom(2, 0x19, 0)).unwrap();
    assert_eq!(plain.mbc, MbcKind::Mbc5);
    assert!(!plain.has_battery());
}

#[test]
fn cartridge_ram_dump_and_load() {
    let mut cart = Cartridge::from_bytes(make_rom(2, 0x03, 2)).unwrap();
    cart.write(0x0000, 0x0A);
    cart.write(0xA000, 0x5A);
    let dump = cart.dump_ram();
    assert_eq!(dump.len(), 0x2000);
    assert_eq!(dump[0], 0x5A);
    let mut other = Cartridge::from_bytes(make_rom(2, 0x03, 2)).unwrap();
    assert!(other.load_ram(&dump));
    other.write(0x0000, 0x0A);
    assert_eq!(other.read(0xA000), 0x5A);
    let wrong = vec![0u8; 3];
    assert!(!other.load_ram(&wrong));
}

#[test]
fn mbc1_rom_banking() {
    let mut rom = make_rom(8, 0x01, 0);
    rom[2 * 0x4000] = 0x42;
    rom[3 * 0x4000] = 0x43;
    let mut gb = Gameboy::init(Some(rom)).unwrap();
    // Bank 1 is mapped at reset.
    assert_eq!(gb.cpu.memory.read8(0x4000), 0x00);
    gb.cpu.memory.write8(0x2000, 2);
    assert_eq!(gb.cpu.memory.read8(0x4000), 0x42);
    gb.cpu.memory.write8(0x2000, 3);
    assert_eq!(gb.cpu.memory.read8(0x4000), 0x43);
    // Writing 0 selects bank 1.
    gb.cpu.memory.write8(0x2000, 0);
    assert_eq!(gb.cpu.memory.read8(0x4000), 0x00);
}

#[test]
fn renders_dmg_background_shade() {
    // A DMG cartridge: clear the CGB flag and refresh the checksum.
    let mut rom = make_rom(2, 0, 0);
    rom[0x143] = 0x00;
    let mut sum: u32 = 0;
    for i in 0x134..=0x14C {
        sum = (sum + 0xFF - rom[i] as u32) % 256;
    }
    rom[0x14D] = sum as u8;
    let mut gb = Gameboy::init(Some(rom)).unwrap();
    assert!(!gb.cpu.memory.cgb);
    // Tile 0: every pixel colour index 3; BGP's power-on value maps
    // index 3 to the darkest shade.
    for row in 0..8u16 {
        gb.cpu.memory.write8(0x8000 + row * 2, 0xFF);
        gb.cpu.memory.write8(0x8000 + row * 2 + 1, 0xFF);
    }
    gb.cpu.memory.ppu.step(456, false);
    let p = gb.cpu.memory.ppu.frame_buffer().read(80, 0);
    assert_eq!((p.red, p.green, p.blue, p.alpha), (0, 0, 0, 255));
}

#[test]
fn cart_ram_enable_gate() {
    let mut gb = Gameboy::init(Some(make_rom(2, 0x01, 2))).unwrap();
    // Disabled RAM reads 0xFF and ignores writes.
    assert_eq!(gb.cpu.memory.read8(0xA000), 0xFF);
    gb.cpu.memory.write8(0xA000, 0x77);
    gb.cpu.memory.write8(0x0000, 0x0A);
    assert_eq!(gb.cpu.memory.read8(0xA000), 0x00);
    gb.cpu.memory.write8(0xA000, 0x77);
    assert_eq!(gb.cpu.memory.read8(0xA000), 0x77);
    gb.cpu.memory.write8(0x0000, 0x00);
    assert_eq!(gb.cpu.memory.read8(0xA000), 0xFF);
}
