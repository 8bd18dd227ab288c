use gbc::cpu::{Cpu, Interrupt};
use gbc::joypad::{JoypadEvent, JoypadInput};
use gbc::memory::MemoryBus;
use gbc::ppu::{rgb555_to_rgba, FrameBuffer, GameboyRgba};

fn fresh() -> Cpu {
    Cpu::new(MemoryBus::new(None))
}

#[test]
fn echo_ram_mirrors_reads_and_writes() {
    let mut cpu = fresh();
    cpu.memory.write8(0xC123, 0xAB);
    assert_eq!(cpu.memory.read8(0xE123), 0xAB);
    cpu.memory.write8(0xE200, 0x55);
    assert_eq!(cpu.memory.read8(0xC200), 0x55);
    cpu.memory.write8(0xFDFF, 0x99);
    assert_eq!(cpu.memory.read8(0xDDFF), 0x99);
}

#[test]
fn wram_round_trip_and_banking() {
    let mut cpu = fresh();
    cpu.memory.write8(0xC000, 0x11);
    assert_eq!(cpu.memory.read8(0xC000), 0x11);
    // SVBK bank 3 at 0xD000.
    cpu.memory.write8(0xFF70, 3);
    cpu.memory.write8(0xD000, 0x77);
    assert_eq!(cpu.memory.read8(0xD000), 0x77);
    cpu.memory.write8(0xFF70, 4);
    assert_eq!(cpu.memory.read8(0xD000), 0x00);
    cpu.memory.write8(0xFF70, 3);
    assert_eq!(cpu.memory.read8(0xD000), 0x77);
    // SVBK value 0 maps to bank 1.
    cpu.memory.write8(0xFF70, 1);
    cpu.memory.write8(0xD123, 0x31);
    cpu.memory.write8(0xFF70, 0);
    assert_eq!(cpu.memory.read8(0xD123), 0x31);
}

#[test]
fn hram_round_trip() {
    let mut cpu = fresh();
    cpu.memory.write8(0xFF80, 0x42);
    cpu.memory.write8(0xFFFE, 0x43);
    assert_eq!(cpu.memory.read8(0xFF80), 0x42);
    assert_eq!(cpu.memory.read8(0xFFFE), 0x43);
}

#[test]
fn div_write_resets_counter() {
    let mut cpu = fresh();
    cpu.memory.timer.counter = 0x1234;
    assert_eq!(cpu.memory.read8(0xFF04), 0x12);
    cpu.memory.write8(0xFF04, 0xDE);
    assert_eq!(cpu.memory.timer.counter, 0);
    assert_eq!(cpu.memory.read8(0xFF04), 0);
}

#[test]
fn div_write_spurious_timer_tick() {
    let mut cpu = fresh();
    // TAC: enabled, 262144 Hz (watched bit has period 16).
    cpu.memory.write8(0xFF07, 0x05);
    cpu.memory.write8(0xFF05, 5);
    cpu.memory.timer.counter = 8;
    cpu.memory.write8(0xFF04, 0);
    assert_eq!(cpu.memory.timer.tima, 6);
}

#[test]
fn timer_overflow_reloads_and_interrupts() {
    let mut cpu = fresh();
    cpu.memory.write8(0xFF0F, 0x00);
    cpu.memory.write8(0xFF07, 0x05);
    cpu.memory.write8(0xFF06, 0xAB);
    cpu.memory.write8(0xFF05, 0xFF);
    cpu.memory.write8(0xFF04, 0);
    let fired = cpu.memory.timer.step(16);
    assert_eq!(cpu.memory.timer.tima, 0xAB);
    assert!(fired);
    cpu.trigger_interrupt(Interrupt::Timer);
    assert_eq!(cpu.memory.read8(0xFF0F) & 0x04, 0x04);
}

#[test]
fn oam_dma_locks_bus_and_copies() {
    let mut cpu = fresh();
    for i in 0..160u16 {
        cpu.memory.write8(0xC100 + i, i as u8);
    }
    cpu.memory.write8(0xFF46, 0xC1);
    assert!(cpu.memory.dma.oam_active);
    // Under the lockout only HRAM and IE are served.
    assert_eq!(cpu.memory.read8(0xC100), 0xFF);
    cpu.memory.write8(0xFF85, 0x66);
    assert_eq!(cpu.memory.read8(0xFF85), 0x66);
    // 640 T-cycles later the copy is complete.
    cpu.memory.dma_step(640);
    assert!(!cpu.memory.dma.oam_active);
    assert_eq!(cpu.memory.ppu.oam[0], 0);
    assert_eq!(cpu.memory.ppu.oam[159], 159);
    assert_eq!(cpu.memory.read8(0xC100), 0x00);
}

#[test]
fn cgb_palette_round_trip() {
    let mut cpu = fresh();
    cpu.memory.write8(0xFF68, 0x80);
    cpu.memory.write8(0xFF69, 0x1F);
    cpu.memory.write8(0xFF69, 0x00);
    assert_eq!(cpu.memory.read8(0xFF68), 0x82);
    let c = cpu.memory.ppu.bg_palette_rgba(0, 0);
    assert_eq!(c.red, 255);
    assert_eq!(c.green, 0);
    assert_eq!(c.blue, 0);
    assert_eq!(c.alpha, 255);
}

#[test]
fn object_palette_autoincrement() {
    let mut cpu = fresh();
    cpu.memory.write8(0xFF6A, 0x82);
    cpu.memory.write8(0xFF6B, 0x34);
    assert_eq!(cpu.memory.read8(0xFF6A), 0x83);
    cpu.memory.write8(0xFF6A, 0x02);
    assert_eq!(cpu.memory.read8(0xFF6B), 0x34);
}

#[test]
fn rgb555_expansion() {
    assert_eq!(
        rgb555_to_rgba(31),
        GameboyRgba { red: 255, green: 0, blue: 0, alpha: 255 }
    );
    assert_eq!(
        rgb555_to_rgba(0x7FFF),
        GameboyRgba { red: 255, green: 255, blue: 255, alpha: 255 }
    );
    assert_eq!(
        rgb555_to_rgba(32),
        GameboyRgba { red: 0, green: 8, blue: 0, alpha: 255 }
    );
}

#[test]
fn frame_buffer_packing() {
    let mut fb = FrameBuffer { pixels: [0u32; 23040] };
    fb.pixels[5] = 0x01020304;
    let p = fb.read(5, 0);
    assert_eq!(p, GameboyRgba { red: 1, green: 2, blue: 3, alpha: 4 });
}

#[test]
fn vram_banking_and_mode_block() {
    let mut cpu = fresh();
    cpu.memory.ppu.mode = 0;
    cpu.memory.write8(0x8000, 0x21);
    cpu.memory.write8(0xFF4F, 1);
    assert_eq!(cpu.memory.read8(0x8000), 0x00);
    cpu.memory.write8(0x8000, 0x22);
    cpu.memory.write8(0xFF4F, 0);
    assert_eq!(cpu.memory.read8(0x8000), 0x21);
    assert_eq!(cpu.memory.read8(0xFF4F), 0xFE);
    // Mode 3 blocks CPU access to VRAM.
    cpu.memory.ppu.mode = 3;
    assert_eq!(cpu.memory.read8(0x8000), 0xFF);
    cpu.memory.write8(0x8000, 0x99);
    cpu.memory.ppu.mode = 0;
    assert_eq!(cpu.memory.read8(0x8000), 0x21);
}

#[test]
fn renders_cgb_background_pixel() {
    let mut cpu = fresh();
    assert!(cpu.memory.cgb);
    // Tile 0: every pixel colour index 1 (low plane set, high plane
    // clear). The background map is already all zeroes, pointing every
    // cell at tile 0 with palette 0.
    for row in 0..8u16 {
        cpu.memory.write8(0x8000 + row * 2, 0xFF);
        cpu.memory.write8(0x8000 + row * 2 + 1, 0x00);
    }
    // Background palette 0, colour 1 = pure red (RGB555 0x001F).
    cpu.memory.write8(0xFF68, 0x02);
    cpu.memory.write8(0xFF69, 0x1F);
    cpu.memory.write8(0xFF68, 0x03);
    cpu.memory.write8(0xFF69, 0x00);
    // One whole scanline of dots renders line 0.
    cpu.memory.ppu.step(456, false);
    let p = cpu.memory.ppu.frame_buffer().read(0, 0);
    assert_eq!((p.red, p.green, p.blue, p.alpha), (255, 0, 0, 255));
    let q = cpu.memory.ppu.frame_buffer().read(159, 0);
    assert_eq!(q.red, 255);
}

#[test]
fn joypad_select_and_interrupt() {
    let mut cpu = fresh();
    // Select the action group (bit 5 low).
    cpu.memory.write8(0xFF00, 0x10);
    let hit = cpu.memory.joypad.handle_event(JoypadEvent::Down(JoypadInput::A));
    assert!(hit);
    assert_eq!(cpu.memory.read8(0xFF00), 0xDE);
    let up = cpu.memory.joypad.handle_event(JoypadEvent::Up(JoypadInput::A));
    assert!(!up);
    assert_eq!(cpu.memory.read8(0xFF00), 0xDF);
    // A direction press while only the action group is selected does not
    // interrupt.
    let miss = cpu.memory.joypad.handle_event(JoypadEvent::Down(JoypadInput::Left));
    assert!(!miss);
}

#[test]
fn serial_stub_collects_bytes() {
    let mut cpu = fresh();
    cpu.memory.write8(0xFF0F, 0x00);
    cpu.memory.write8(0xFF01, b'H');
    cpu.memory.write8(0xFF02, 0x81);
    cpu.memory.write8(0xFF01, b'i');
    cpu.memory.write8(0xFF02, 0x81);
    assert_eq!(cpu.memory.serial_out, vec![b'H', b'i']);
    assert_eq!(cpu.memory.read8(0xFF0F) & 0x08, 0x08);
    assert_eq!(cpu.memory.read8(0xFF02), 0x01);
}

#[test]
fn prohibited_region_reads_ff() {
    let mut cpu = fresh();
    assert_eq!(cpu.memory.read8(0xFEA0), 0xFF);
    cpu.memory.write8(0xFEA5, 0x12);
    assert_eq!(cpu.memory.read8(0xFEA5), 0xFF);
}

#[test]
fn interrupt_flag_register_masks() {
    let mut cpu = fresh();
    cpu.memory.write8(0xFF0F, 0xFF);
    assert_eq!(cpu.memory.read8(0xFF0F), 0xFF);
    cpu.memory.write8(0xFF0F, 0x00);
    assert_eq!(cpu.memory.read8(0xFF0F), 0xE0);
    cpu.memory.write8(0xFFFF, 0x15);
    assert_eq!(cpu.memory.read8(0xFFFF), 0x15);
}

#[test]
fn gdma_copies_into_vram() {
    let mut cpu = fresh();
    cpu.memory.ppu.mode = 0;
    for i in 0..32u16 {
        cpu.memory.write8(0xC200 + i, (i as u8) + 1);
    }
    cpu.memory.write8(0xFF51, 0xC2);
    cpu.memory.write8(0xFF52, 0x00);
    cpu.memory.write8(0xFF53, 0x00);
    cpu.memory.write8(0xFF54, 0x10);
    // Length field 1: two 16-byte blocks, general-purpose (bit 7 clear).
    cpu.memory.write8(0xFF55, 0x01);
    assert_eq!(cpu.memory.read8(0x8010), 1);
    assert_eq!(cpu.memory.read8(0x802F), 32);
    assert_eq!(cpu.memory.read8(0xFF55), 0xFF);
    assert!(cpu.memory.dma.pending_cycles > 0);
}
