//! A Game Boy Color emulator core: a cycle-driven machine built from the
//! LR35902-family CPU, a banked memory bus, the pixel-processing unit, the
//! programmable timer, the DMA engines, the joypad latch and the interrupt
//! controller. The host layer (windowing, input, files) lives outside this
//! crate and talks to it through plain values.
use vstd::prelude::*;

pub mod cartridge;
pub mod cpu;
pub mod dma;
pub mod instructions;
pub mod joypad;
pub mod laws;
pub mod memory;
pub mod ppu;
pub mod registers;
pub mod timer;
pub mod util;

use crate::cartridge::Cartridge;
use crate::cartridge::Error;
use crate::cartridge::spec_checksum;
use crate::cartridge::spec_mbc_kind;
use crate::cpu::Cpu;
use crate::cpu::Interrupt;
use crate::joypad::JoypadEvent;
use crate::memory::MemoryBus;
use crate::ppu::FrameBuffer;
use crate::registers::Registers;

verus! {

/// Nanoseconds per frame at the native ~59.73 Hz cadence.
pub const FRAME_DURATION: u32 = 16_666_666;

/// Whether a ROM image has an acceptable size: a whole number of 16 KiB
/// banks, at least one, at most 8 MiB.
pub open spec fn spec_rom_size_ok(rom: Seq<u8>) -> bool {
    rom.len() >= 0x4000 && rom.len() % 0x4000 == 0 && rom.len() <= 0x800000
}

/// A CPU as construction or reset leaves it: no interrupt state, not
/// halted, stopped or locked, no cycles on the clock.
pub open spec fn spec_fresh_cpu(c: Cpu) -> bool {
    &&& !c.ime
    &&& !c.ime_pending
    &&& !c.halted
    &&& !c.stopped
    &&& !c.locked
    &&& c.total_cycles == 0
}

pub struct Gameboy {
    pub cpu: Cpu,
    /// Number of frames executed.
    pub frame_counter: u64,
    /// T-cycles the CPU advanced during the latest frame.
    pub frame_cycles_cpu: u64,
    /// T-cycles handed to the PPU during the latest frame.
    pub frame_cycles_ppu: u64,
    /// T-cycles handed to the DMA engines during the latest frame.
    pub frame_cycles_dma: u64,
    /// T-cycles handed to the timer during the latest frame.
    pub frame_cycles_timer: u64,
}

impl Gameboy {
    pub open spec fn wf(self) -> bool {
        self.cpu.wf()
    }

    /// Initialize the emulator with an optional ROM image, post-boot state
    /// applied (the BIOS is skipped). A `Some` image is validated: its
    /// size, its header checksum, then its MBC type, each with its own
    /// error.
    pub fn init(rom: Option<Vec<u8>>) -> (r: Result<Gameboy, Error>)
        ensures
            ({
                match rom {
                    Option::None => r is Ok,
                    Option::Some(bytes) => {
                        let size_ok = spec_rom_size_ok(bytes@);
                        let sum_ok = spec_checksum(bytes@, 25) == bytes@[0x14D];
                        match r {
                            Result::Err(Error::InvalidRom) => !size_ok,
                            Result::Err(Error::BadChecksum) => size_ok && !sum_ok,
                            Result::Err(Error::UnsupportedMbc(code)) => size_ok && sum_ok && code
                                == bytes@[0x147] && spec_mbc_kind(code) is None,
                            Result::Ok(_) => size_ok && sum_ok && spec_mbc_kind(
                                bytes@[0x147],
                            ) is Some,
                        }
                    },
                }
            }),
            r matches Ok(gb) ==> gb.wf() && gb.frame_counter == 0 && gb.cpu.regs
                == Registers::post_boot_value() && spec_fresh_cpu(gb.cpu) && (
            gb.cpu.memory.cartridge is Some <==> rom is Some),
            // The installed cartridge holds exactly the given image.
            ({
                match (rom, r) {
                    (Option::Some(bytes), Result::Ok(gb)) => gb.cpu.memory.cartridge matches Some(
                        c,
                    ) && c.rom@ == bytes@ && c.mbc_code == bytes@[0x147] && spec_mbc_kind(
                        bytes@[0x147],
                    ) == Some(c.mbc),
                    _ => true,
                }
            }),
    {
        let cartridge: Option<Cartridge> = match rom {
            Some(bytes) => {
                match Cartridge::from_bytes(bytes) {
                    Ok(c) => Some(c),
                    Err(e) => {
                        return Err(e);
                    },
                }
            },
            None => None,
        };
        let memory = MemoryBus::new(cartridge);
        Ok(
            Gameboy {
                cpu: Cpu::new(memory),
                frame_counter: 0,
                frame_cycles_cpu: 0,
                frame_cycles_ppu: 0,
                frame_cycles_dma: 0,
                frame_cycles_timer: 0,
            },
        )
    }

    /// Run the machine for one frame: the CPU steps, and after each step
    /// the PPU, the DMA engines and the timer advance by exactly the
    /// T-cycles the CPU consumed, then the interrupts those steps raised
    /// are requested. An optional joypad event is applied at the end of
    /// the frame.
    pub fn frame(&mut self, joypad_event: Option<JoypadEvent>) -> (fb: &FrameBuffer)
        requires
            old(self).wf(),
            old(self).frame_counter < 0xFFFF_FFFF_FFFF_FFFF,
        ensures
            final(self).wf(),
            final(self).frame_counter == old(self).frame_counter + 1,
            // Lock-step accounting: each component saw exactly the
            // T-cycles the CPU advanced this frame.
            final(self).frame_cycles_ppu == final(self).frame_cycles_cpu,
            final(self).frame_cycles_dma == final(self).frame_cycles_cpu,
            final(self).frame_cycles_timer == final(self).frame_cycles_cpu,
            // A frame consumes at least its whole cycle budget: 70028
            // T-cycles at normal speed, 140056 at double speed.
            final(self).frame_cycles_cpu >= (if old(self).cpu.spec_double_speed() {
                140056u64
            } else {
                70028u64
            }),
            // The joypad event was applied: a press leaves its button bit
            // set, a release leaves it clear.
            ({
                match joypad_event {
                    Option::Some(JoypadEvent::Down(i)) => final(self).cpu.memory.joypad.pressed
                        & crate::joypad::spec_button_mask(i) != 0,
                    Option::Some(JoypadEvent::Up(i)) => final(self).cpu.memory.joypad.pressed
                        & crate::joypad::spec_button_mask(i) == 0,
                    Option::None => true,
                }
            }),
            fb == &final(self).cpu.memory.ppu.frame,
    {
        let speed = self.cpu.speed();
        let cycle_time = self.cpu.cycle_time();
        let num_cycles: u32 = FRAME_DURATION / cycle_time;
        let mut cpu_sum: u64 = 0;
        let mut ppu_sum: u64 = 0;
        let mut dma_sum: u64 = 0;
        let mut timer_sum: u64 = 0;
        let mut remaining: u64 = num_cycles as u64;
        while remaining > 0
            invariant
                self.cpu.wf(),
                ppu_sum == cpu_sum,
                dma_sum == cpu_sum,
                timer_sum == cpu_sum,
                cpu_sum as int <= 2000000 * (140057 - remaining as int),
                remaining <= 140056,
                cpu_sum >= num_cycles as u64 - remaining,
                num_cycles as u64 == (if old(self).cpu.spec_double_speed() {
                    140056u64
                } else {
                    70028u64
                }),
                self.frame_counter == old(self).frame_counter,
            decreases remaining,
        {
            // One CPU step.
            let cycles: u32 = self.cpu.step();
            // The PPU catches up; at double speed two T-cycles make one
            // dot.
            let pr = self.cpu.memory.ppu.step(cycles, speed);
            if pr.vblank {
                self.cpu.trigger_interrupt(Interrupt::Vblank);
            }
            if pr.stat {
                self.cpu.trigger_interrupt(Interrupt::LcdStat);
            }
            // Each Mode 0 entry moves one HBlank-DMA block.
            let mut hb: u8 = pr.hblanks;
            while hb > 0
                invariant
                    self.cpu.wf(),
                    self.frame_counter == old(self).frame_counter,
                decreases hb,
            {
                self.cpu.memory.hdma_block();
                hb = hb - 1;
            }
            // The OAM DMA engine catches up.
            self.cpu.memory.dma_step(cycles);
            // The timer catches up and may request its interrupt.
            if self.cpu.memory.timer.step(cycles) {
                self.cpu.trigger_interrupt(Interrupt::Timer);
            }
            cpu_sum = cpu_sum + cycles as u64;
            ppu_sum = ppu_sum + cycles as u64;
            dma_sum = dma_sum + cycles as u64;
            timer_sum = timer_sum + cycles as u64;
            if cycles as u64 >= remaining {
                remaining = 0;
            } else {
                remaining = remaining - cycles as u64;
            }
        }
        // Apply the joypad event, requesting the Joypad interrupt on a
        // selected-line press.
        match joypad_event {
            Some(event) => {
                let ghost jp_pre = self.cpu.memory.joypad;
                if self.cpu.memory.joypad.handle_event(event) {
                    self.cpu.trigger_interrupt(Interrupt::Joypad);
                }
                proof {
                    match event {
                        JoypadEvent::Down(i) => {
                            crate::util::lemma_set_clear_bit(
                                jp_pre.pressed,
                                crate::joypad::spec_button_mask(i),
                            );
                        },
                        JoypadEvent::Up(i) => {
                            crate::util::lemma_set_clear_bit(
                                jp_pre.pressed,
                                crate::joypad::spec_button_mask(i),
                            );
                        },
                    }
                }
            },
            None => {},
        }
        self.frame_counter = self.frame_counter + 1;
        self.frame_cycles_cpu = cpu_sum;
        self.frame_cycles_ppu = ppu_sum;
        self.frame_cycles_dma = dma_sum;
        self.frame_cycles_timer = timer_sum;
        self.cpu.memory.ppu.frame_buffer()
    }

    /// Insert a new cartridge and reset the emulator.
    pub fn insert(&mut self, rom: Vec<u8>) -> (r: Result<(), Error>)
        requires
            old(self).wf(),
        ensures
            final(self).wf(),
            ({
                let size_ok = spec_rom_size_ok(rom@);
                let sum_ok = spec_checksum(rom@, 25) == rom@[0x14D];
                match r {
                    Result::Err(Error::InvalidRom) => !size_ok && *final(self) == *old(self),
                    Result::Err(Error::BadChecksum) => size_ok && !sum_ok && *final(self) == *old(self),
                    Result::Err(Error::UnsupportedMbc(code)) => size_ok && sum_ok && code
                        == rom@[0x147] && spec_mbc_kind(code) is None && *final(self) == *old(self),
                    Result::Ok(_) => size_ok && sum_ok && spec_mbc_kind(rom@[0x147]) is Some
                        && final(self).frame_counter == 0 && final(self).cpu.regs
                        == Registers::post_boot_value() && (final(self).cpu.memory.cartridge matches Some(c) && c.rom@ == rom@ && c.mbc_code
                        == rom@[0x147] && spec_mbc_kind(rom@[0x147]) == Some(c.mbc)) && spec_fresh_cpu(
                        final(self).cpu,
                    ),
                }
            }),
    {
        let cartridge = match Cartridge::from_bytes(rom) {
            Ok(c) => c,
            Err(e) => {
                return Err(e);
            },
        };
        self.cpu = Cpu::new(MemoryBus::new(Some(cartridge)));
        self.frame_counter = 0;
        Ok(())
    }

    /// Eject the inserted cartridge, if any, and reset the machine.
    pub fn eject(&mut self)
        ensures
            final(self).wf(),
            final(self).cpu.memory.cartridge is None,
            final(self).frame_counter == 0,
            final(self).cpu.regs == Registers::post_boot_value(),
            spec_fresh_cpu(final(self).cpu),
    {
        self.cpu = Cpu::new(MemoryBus::new(None));
        self.frame_counter = 0;
    }

    /// Reset the emulator, keeping the inserted cartridge (its bank
    /// registers return to power-on; ROM and RAM contents stay).
    pub fn reset(&mut self)
        requires
            old(self).wf(),
        ensures
            final(self).wf(),
            final(self).frame_counter == 0,
            final(self).cpu.regs == Registers::post_boot_value(),
            !final(self).cpu.ime && !final(self).cpu.halted && !final(self).cpu.stopped && !final(self).cpu.locked,
            final(self).cpu.total_cycles == 0,
            old(self).cpu.memory.cartridge is None ==> final(self).cpu.memory.cartridge is None,
            // The cartridge stays in, its contents (battery-backed RAM
            // included) untouched; only its bank registers reset.
            ({
                match (old(self).cpu.memory.cartridge, final(self).cpu.memory.cartridge) {
                    (Some(c0), Some(c1)) => c1.rom@ == c0.rom@ && c1.ram@ == c0.ram@ && c1.mbc
                        == c0.mbc && c1.mbc_code == c0.mbc_code && c1.rom_bank_lo == 1
                        && !c1.ram_enable,
                    (None, None) => true,
                    _ => false,
                }
            }),
    {
        self.cpu.reset();
        self.frame_counter = 0;
    }

    /// The CPU, exposed for inspection and the debugger hooks.
    pub fn cpu(&mut self) -> (r: &mut Cpu)
        ensures
            *r == old(self).cpu,
            final(self).cpu == *final(r),
            final(self).frame_counter == old(self).frame_counter,
            final(self).frame_cycles_cpu == old(self).frame_cycles_cpu,
            final(self).frame_cycles_ppu == old(self).frame_cycles_ppu,
            final(self).frame_cycles_dma == old(self).frame_cycles_dma,
            final(self).frame_cycles_timer == old(self).frame_cycles_timer,
    {
        &mut self.cpu
    }
}

} // verus!
