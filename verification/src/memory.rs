//! The memory bus: the single entry point for CPU and DMA accesses. It
//! routes by address range over cartridge, VRAM, WRAM (with SVBK banking
//! and the 0xE000 echo), OAM, I/O registers, HRAM and IE, and models the
//! OAM-DMA lockout under which only HRAM and IE stay reachable.
use crate::cartridge::Cartridge;
use crate::dma::Dma;
use crate::joypad::Joypad;
use crate::ppu::Ppu;
use crate::ppu::spec_write_bcpd_rel;
use crate::ppu::spec_write_ocpd_rel;
use crate::ppu::spec_write_oam_rel;
use crate::ppu::spec_write_vram_rel;
use crate::timer::Timer;
use crate::timer::spec_edge_bit;
use vstd::prelude::*;

verus! {

pub struct MemoryBus {
    pub cartridge: Option<Cartridge>,
    /// Eight 4 KiB WRAM banks back to back; SVBK selects the bank at
    /// 0xD000 (0 maps to 1).
    pub wram: [u8; 32768],
    pub hram: [u8; 127],
    pub svbk: u8,
    pub ppu: Ppu,
    pub timer: Timer,
    pub joypad: Joypad,
    pub dma: Dma,
    /// IE at 0xFFFF.
    pub int_enable: u8,
    /// IF at 0xFF0F, low five bits.
    pub int_flags: u8,
    /// KEY1 at 0xFF4D: bit 7 current speed, bit 0 prepare-switch.
    pub key1: u8,
    /// SB at 0xFF01.
    pub serial_data: u8,
    /// SC at 0xFF02.
    pub serial_ctrl: u8,
    /// Every byte the serial stub has "sent": test ROMs report through it.
    pub serial_out: Vec<u8>,
    /// Backing store for the remaining (stubbed) I/O registers.
    pub io: [u8; 128],
    pub cgb: bool,
}

impl MemoryBus {
    /// A fresh bus around an optional cartridge, in the post-boot state:
    /// WRAM bank 1 selected, the VBlank request bit already set in IF.
    pub fn new(cartridge: Option<Cartridge>) -> (r: MemoryBus)
        requires
            match cartridge {
                Some(c) => c.wf(),
                None => true,
            },
        ensures
            r.wf(),
            r.cartridge == cartridge,
            r.int_enable == 0 && r.int_flags == 1,
            r.key1 == 0,
            r.svbk == 1,
            r.serial_data == 0 && r.serial_ctrl == 0,
            r.timer == (Timer { counter: 0, tima: 0, tma: 0, tac: 0 }),
            r.joypad == (Joypad { pressed: 0, select: 0x30 }),
            r.dma == Dma::fresh_value(),
            r.serial_out@.len() == 0,
            r.ppu.spec_fresh(r.cgb),
            forall|i: int| 0 <= i < 32768 ==> r.wram@[i] == 0,
            forall|i: int| 0 <= i < 127 ==> r.hram@[i] == 0,
            r.cgb == (match cartridge {
                Some(c) => c.cgb,
                None => true,
            }),
            r.ppu.cgb == r.cgb,
    {
        let cgb = match &cartridge {
            Some(c) => c.cgb,
            None => true,
        };
        MemoryBus {
            cartridge,
            wram: [0u8; 32768],
            hram: [0u8; 127],
            svbk: 1,
            ppu: Ppu::new(cgb),
            timer: Timer::new(),
            joypad: Joypad::new(),
            dma: Dma::new(),
            int_enable: 0,
            int_flags: 1,
            key1: 0,
            serial_data: 0,
            serial_ctrl: 0,
            serial_out: Vec::new(),
            io: [0u8; 128],
            cgb,
        }
    }

    pub open spec fn wf(self) -> bool {
        &&& match self.cartridge {
            Some(c) => c.wf(),
            None => true,
        }
        &&& self.ppu.wf()
        &&& self.dma.wf()
        &&& self.svbk <= 7
        &&& self.int_flags <= 0x1F
    }

    /// The WRAM bank mapped at 0xD000: SVBK, with 0 promoted to 1.
    pub open spec fn spec_wram_bank(self) -> int {
        if self.svbk == 0 {
            1
        } else {
            self.svbk as int
        }
    }

    /// The index into the flat WRAM store that a bus address in
    /// 0xC000-0xDFFF reaches.
    pub open spec fn spec_wram_index(self, addr: u16) -> int
        recommends
            0xC000 <= addr < 0xE000,
    {
        if addr < 0xD000 {
            addr - 0xC000
        } else {
            self.spec_wram_bank() * 0x1000 + (addr - 0xD000)
        }
    }

    /// During an active OAM DMA only HRAM and IE are reachable.
    pub open spec fn spec_blocked(self, addr: u16) -> bool {
        self.dma.oam_active && addr < 0xFF80
    }

    /// What a read returns with the OAM-DMA lockout ignored, i.e. what the
    /// DMA engines themselves see.
    pub open spec fn spec_read_raw(self, addr: u16) -> u8 {
        if addr < 0x8000 || (0xA000 <= addr && addr < 0xC000) {
            match self.cartridge {
                Some(c) => c.spec_read(addr),
                None => 0xFF,
            }
        } else if addr < 0xA000 {
            self.ppu.spec_read_vram(addr)
        } else if addr < 0xE000 {
            self.wram@[self.spec_wram_index(addr)]
        } else if addr < 0xFE00 {
            self.wram@[self.spec_wram_index((addr - 0x2000) as u16)]
        } else if addr < 0xFEA0 {
            self.ppu.spec_read_oam(addr)
        } else if addr < 0xFF00 {
            0xFF
        } else if addr < 0xFF80 {
            self.spec_read_io(addr)
        } else if addr < 0xFFFF {
            self.hram@[addr - 0xFF80]
        } else {
            self.int_enable
        }
    }

    /// What a read of an I/O register in 0xFF00-0xFF7F returns.
    pub open spec fn spec_read_io(self, addr: u16) -> u8 {
        if addr == 0xFF00 {
            self.joypad.spec_p1()
        } else if addr == 0xFF01 {
            self.serial_data
        } else if addr == 0xFF02 {
            self.serial_ctrl
        } else if addr == 0xFF04 {
            self.timer.spec_div()
        } else if addr == 0xFF05 {
            self.timer.tima
        } else if addr == 0xFF06 {
            self.timer.tma
        } else if addr == 0xFF07 {
            self.timer.tac
        } else if addr == 0xFF0F {
            (self.int_flags | 0xE0) as u8
        } else if addr == 0xFF40 {
            self.ppu.lcdc
        } else if addr == 0xFF41 {
            self.ppu.spec_stat()
        } else if addr == 0xFF42 {
            self.ppu.scy
        } else if addr == 0xFF43 {
            self.ppu.scx
        } else if addr == 0xFF44 {
            self.ppu.ly
        } else if addr == 0xFF45 {
            self.ppu.lyc
        } else if addr == 0xFF46 {
            self.dma.oam_source
        } else if addr == 0xFF47 {
            self.ppu.bgp
        } else if addr == 0xFF48 {
            self.ppu.obp0
        } else if addr == 0xFF49 {
            self.ppu.obp1
        } else if addr == 0xFF4A {
            self.ppu.wy
        } else if addr == 0xFF4B {
            self.ppu.wx
        } else if addr == 0xFF4D {
            self.key1
        } else if addr == 0xFF4F {
            (0xFE | self.ppu.vbk) as u8
        } else if addr == 0xFF55 {
            if self.dma.hdma_active {
                self.dma.hdma_len
            } else {
                0xFF
            }
        } else if addr == 0xFF68 {
            self.ppu.bcps
        } else if addr == 0xFF69 {
            self.ppu.bg_pal@[(self.ppu.bcps & 0x3F) as int]
        } else if addr == 0xFF6A {
            self.ppu.ocps
        } else if addr == 0xFF6B {
            self.ppu.ob_pal@[(self.ppu.ocps & 0x3F) as int]
        } else if addr == 0xFF70 {
            self.svbk
        } else {
            self.io@[addr - 0xFF00]
        }
    }

    /// What a CPU read returns: 0xFF under the OAM-DMA lockout, else the
    /// routed value.
    pub open spec fn spec_read8(self, addr: u16) -> u8 {
        if self.spec_blocked(addr) {
            0xFF
        } else {
            self.spec_read_raw(addr)
        }
    }

    fn wram_index(&self, addr: u16) -> (r: usize)
        requires
            self.wf(),
            0xC000 <= addr < 0xE000,
        ensures
            r == self.spec_wram_index(addr),
            r < 32768,
    {
        if addr < 0xD000 {
            addr as usize - 0xC000
        } else {
            let bank: usize = if self.svbk == 0 {
                1
            } else {
                self.svbk as usize
            };
            bank * 0x1000 + (addr as usize - 0xD000)
        }
    }

    /// A raw read, as the DMA engines perform it: the lockout does not
    /// apply.
    pub fn read_raw(&self, addr: u16) -> (r: u8)
        requires
            self.wf(),
        ensures
            r == self.spec_read_raw(addr),
    {
        if addr < 0x8000 || (0xA000 <= addr && addr < 0xC000) {
            match &self.cartridge {
                Some(c) => c.read(addr),
                None => 0xFF,
            }
        } else if addr < 0xA000 {
            self.ppu.read_vram(addr)
        } else if addr < 0xE000 {
            self.wram[self.wram_index(addr)]
        } else if addr < 0xFE00 {
            self.wram[self.wram_index(addr - 0x2000)]
        } else if addr < 0xFEA0 {
            self.ppu.read_oam(addr)
        } else if addr < 0xFF00 {
            0xFF
        } else if addr < 0xFF80 {
            self.read_io(addr)
        } else if addr < 0xFFFF {
            self.hram[addr as usize - 0xFF80]
        } else {
            self.int_enable
        }
    }

    fn read_io(&self, addr: u16) -> (r: u8)
        requires
            self.wf(),
            0xFF00 <= addr < 0xFF80,
        ensures
            r == self.spec_read_io(addr),
    {
        if addr == 0xFF00 {
            self.joypad.read_p1()
        } else if addr == 0xFF01 {
            self.serial_data
        } else if addr == 0xFF02 {
            self.serial_ctrl
        } else if addr == 0xFF04 {
            self.timer.div()
        } else if addr == 0xFF05 {
            self.timer.tima
        } else if addr == 0xFF06 {
            self.timer.tma
        } else if addr == 0xFF07 {
            self.timer.tac
        } else if addr == 0xFF0F {
            self.int_flags | 0xE0
        } else if addr == 0xFF40 {
            self.ppu.lcdc
        } else if addr == 0xFF41 {
            self.ppu.read_stat()
        } else if addr == 0xFF42 {
            self.ppu.scy
        } else if addr == 0xFF43 {
            self.ppu.scx
        } else if addr == 0xFF44 {
            self.ppu.ly
        } else if addr == 0xFF45 {
            self.ppu.lyc
        } else if addr == 0xFF46 {
            self.dma.oam_source
        } else if addr == 0xFF47 {
            self.ppu.bgp
        } else if addr == 0xFF48 {
            self.ppu.obp0
        } else if addr == 0xFF49 {
            self.ppu.obp1
        } else if addr == 0xFF4A {
            self.ppu.wy
        } else if addr == 0xFF4B {
            self.ppu.wx
        } else if addr == 0xFF4D {
            self.key1
        } else if addr == 0xFF4F {
            0xFE | self.ppu.vbk
        } else if addr == 0xFF55 {
            if self.dma.hdma_active {
                self.dma.hdma_len
            } else {
                0xFF
            }
        } else if addr == 0xFF68 {
            self.ppu.bcps
        } else if addr == 0xFF69 {
            self.ppu.read_bcpd()
        } else if addr == 0xFF6A {
            self.ppu.ocps
        } else if addr == 0xFF6B {
            self.ppu.read_ocpd()
        } else if addr == 0xFF70 {
            self.svbk
        } else {
            self.io[addr as usize - 0xFF00]
        }
    }

    /// A CPU read.
    pub fn read8(&self, addr: u16) -> (r: u8)
        requires
            self.wf(),
        ensures
            r == self.spec_read8(addr),
    {
        if self.dma.oam_active && addr < 0xFF80 {
            0xFF
        } else {
            self.read_raw(addr)
        }
    }

    /// Little-endian 16-bit read: two sequential 8-bit accesses.
    pub fn read16(&self, addr: u16) -> (r: u16)
        requires
            self.wf(),
        ensures
            r == self.spec_read8(addr) + self.spec_read8((((addr + 1) % 0x10000) as u16)) * 256,
    {
        let lo = self.read8(addr);
        let hi = self.read8(((addr as u32 + 1) % 0x10000) as u16);
        lo as u16 + hi as u16 * 256
    }

    /// How a write relates the bus before and after.
    pub open spec fn spec_write8(pre: MemoryBus, addr: u16, v: u8, post: MemoryBus) -> bool {
        if pre.spec_blocked(addr) {
            post == pre
        } else if addr < 0x8000 || (0xA000 <= addr && addr < 0xC000) {
            match (pre.cartridge, post.cartridge) {
                (Some(c0), Some(c1)) => post == (MemoryBus { cartridge: post.cartridge, ..pre })
                    && Cartridge::spec_write(c0, addr, v, c1),
                (None, None) => post == pre,
                _ => false,
            }
        } else if addr < 0xA000 {
            post == (MemoryBus { ppu: post.ppu, ..pre }) && spec_write_vram_rel(
                pre.ppu,
                addr,
                v,
                post.ppu,
            )
        } else if addr < 0xE000 {
            post == (MemoryBus { wram: post.wram, ..pre }) && post.wram@ == pre.wram@.update(
                pre.spec_wram_index(addr),
                v,
            )
        } else if addr < 0xFE00 {
            post == (MemoryBus { wram: post.wram, ..pre }) && post.wram@ == pre.wram@.update(
                pre.spec_wram_index((addr - 0x2000) as u16),
                v,
            )
        } else if addr < 0xFEA0 {
            post == (MemoryBus { ppu: post.ppu, ..pre }) && spec_write_oam_rel(
                pre.ppu,
                addr,
                v,
                post.ppu,
            )
        } else if addr < 0xFF00 {
            post == pre
        } else if addr < 0xFF80 {
            MemoryBus::spec_write_io(pre, addr, v, post)
        } else if addr < 0xFFFF {
            post == (MemoryBus { hram: post.hram, ..pre }) && post.hram@ == pre.hram@.update(
                addr - 0xFF80,
                v,
            )
        } else {
            post == (MemoryBus { int_enable: v, ..pre })
        }
    }

    /// How an I/O-register write relates the bus before and after.
    pub open spec fn spec_write_io(pre: MemoryBus, addr: u16, v: u8, post: MemoryBus) -> bool {
        if addr == 0xFF00 {
            post == (MemoryBus {
                joypad: Joypad { select: (v & 0x30) as u8, pressed: pre.joypad.pressed },
                ..pre
            })
        } else if addr == 0xFF01 {
            post == (MemoryBus { serial_data: v, ..pre })
        } else if addr == 0xFF02 {
            // Serial stub: starting a transfer with the internal clock
            // "sends" SB at once, completes, and requests the Serial
            // interrupt.
            if v & 0x80 != 0 && v & 0x01 != 0 {
                post == (MemoryBus {
                    serial_ctrl: (v & 0x7F) as u8,
                    serial_out: post.serial_out,
                    int_flags: (pre.int_flags | 0x08) as u8,
                    ..pre
                }) && post.serial_out@ == pre.serial_out@.push(pre.serial_data)
            } else {
                post == (MemoryBus { serial_ctrl: v, ..pre })
            }
        } else if addr == 0xFF04 {
            // A DIV write zeroes the internal counter; a forced falling
            // edge can spuriously tick TIMA.
            let edge = pre.timer.tac & 0x04 != 0 && spec_edge_bit(pre.timer.tac, pre.timer.counter);
            let overflowed = edge && pre.timer.tima == 0xFF;
            post == (MemoryBus {
                timer: Timer {
                    counter: 0,
                    tima: if overflowed {
                        pre.timer.tma
                    } else if edge {
                        (pre.timer.tima + 1) as u8
                    } else {
                        pre.timer.tima
                    },
                    ..pre.timer
                },
                int_flags: if overflowed {
                    (pre.int_flags | 0x04) as u8
                } else {
                    pre.int_flags
                },
                ..pre
            })
        } else if addr == 0xFF05 {
            post == (MemoryBus { timer: Timer { tima: v, ..pre.timer }, ..pre })
        } else if addr == 0xFF06 {
            post == (MemoryBus { timer: Timer { tma: v, ..pre.timer }, ..pre })
        } else if addr == 0xFF07 {
            post == (MemoryBus { timer: Timer { tac: (v & 0x07) as u8, ..pre.timer }, ..pre })
        } else if addr == 0xFF0F {
            post == (MemoryBus { int_flags: (v & 0x1F) as u8, ..pre })
        } else if addr == 0xFF40 {
            post == (MemoryBus { ppu: Ppu { lcdc: v, ..pre.ppu }, ..pre })
        } else if addr == 0xFF41 {
            post == (MemoryBus { ppu: Ppu { stat_enables: (v & 0x78) as u8, ..pre.ppu }, ..pre })
        } else if addr == 0xFF42 {
            post == (MemoryBus { ppu: Ppu { scy: v, ..pre.ppu }, ..pre })
        } else if addr == 0xFF43 {
            post == (MemoryBus { ppu: Ppu { scx: v, ..pre.ppu }, ..pre })
        } else if addr == 0xFF44 {
            // LY is read-only.
            post == pre
        } else if addr == 0xFF45 {
            post == (MemoryBus { ppu: Ppu { lyc: v, ..pre.ppu }, ..pre })
        } else if addr == 0xFF46 {
            post == (MemoryBus {
                dma: Dma { oam_active: true, oam_source: v, oam_progress: 0, ..pre.dma },
                ..pre
            })
        } else if addr == 0xFF47 {
            post == (MemoryBus { ppu: Ppu { bgp: v, ..pre.ppu }, ..pre })
        } else if addr == 0xFF48 {
            post == (MemoryBus { ppu: Ppu { obp0: v, ..pre.ppu }, ..pre })
        } else if addr == 0xFF49 {
            post == (MemoryBus { ppu: Ppu { obp1: v, ..pre.ppu }, ..pre })
        } else if addr == 0xFF4A {
            post == (MemoryBus { ppu: Ppu { wy: v, ..pre.ppu }, ..pre })
        } else if addr == 0xFF4B {
            post == (MemoryBus { ppu: Ppu { wx: v, ..pre.ppu }, ..pre })
        } else if addr == 0xFF4D {
            // KEY1: only the prepare-switch bit is writable.
            post == (MemoryBus { key1: ((pre.key1 & 0x80) | (v & 0x01)) as u8, ..pre })
        } else if addr == 0xFF4F {
            post == (MemoryBus { ppu: Ppu { vbk: (v & 0x01) as u8, ..pre.ppu }, ..pre })
        } else if addr == 0xFF51 {
            post == (MemoryBus { dma: Dma { hdma_src_hi: v, ..pre.dma }, ..pre })
        } else if addr == 0xFF52 {
            post == (MemoryBus { dma: Dma { hdma_src_lo: (v & 0xF0) as u8, ..pre.dma }, ..pre })
        } else if addr == 0xFF53 {
            post == (MemoryBus { dma: Dma { hdma_dst_hi: (v & 0x1F) as u8, ..pre.dma }, ..pre })
        } else if addr == 0xFF54 {
            post == (MemoryBus { dma: Dma { hdma_dst_lo: (v & 0xF0) as u8, ..pre.dma }, ..pre })
        } else if addr == 0xFF55 {
            if v & 0x80 == 0 {
                if pre.dma.hdma_active {
                    // Cancel a running HBlank DMA.
                    post == (MemoryBus { dma: Dma { hdma_active: false, ..pre.dma }, ..pre })
                } else {
                    // General-purpose DMA: the whole block moves at once
                    // into VRAM, the cycles charged to the CPU (32 per
                    // 16-byte block, saturating).
                    post == (MemoryBus { ppu: post.ppu, dma: post.dma, ..pre }) && post.ppu == (Ppu
                        { vram: post.ppu.vram, ..pre.ppu }) && post.dma == (Dma {
                        hdma_active: false,
                        pending_cycles: post.dma.pending_cycles,
                        ..pre.dma
                    }) && post.dma.pending_cycles == (if pre.dma.pending_cycles <= 1000000 {
                        (pre.dma.pending_cycles + ((v & 0x7F) + 1) * 32) as u32
                    } else {
                        pre.dma.pending_cycles
                    })
                }
            } else {
                post == (MemoryBus {
                    dma: Dma { hdma_active: true, hdma_len: (v & 0x7F) as u8, ..pre.dma },
                    ..pre
                })
            }
        } else if addr == 0xFF68 {
            post == (MemoryBus { ppu: Ppu { bcps: v, ..pre.ppu }, ..pre })
        } else if addr == 0xFF69 {
            post == (MemoryBus { ppu: post.ppu, ..pre }) && spec_write_bcpd_rel(
                pre.ppu,
                v,
                post.ppu,
            )
        } else if addr == 0xFF6A {
            post == (MemoryBus { ppu: Ppu { ocps: v, ..pre.ppu }, ..pre })
        } else if addr == 0xFF6B {
            post == (MemoryBus { ppu: post.ppu, ..pre }) && spec_write_ocpd_rel(
                pre.ppu,
                v,
                post.ppu,
            )
        } else if addr == 0xFF70 {
            post == (MemoryBus { svbk: (v & 0x07) as u8, ..pre })
        } else {
            post == (MemoryBus { io: post.io, ..pre }) && post.io@ == pre.io@.update(
                addr - 0xFF00,
                v,
            )
        }
    }

    /// A CPU write.
    pub fn write8(&mut self, addr: u16, v: u8)
        requires
            old(self).wf(),
        ensures
            final(self).wf(),
            MemoryBus::spec_write8(*old(self), addr, v, *final(self)),
    {
        proof {
            crate::util::lemma_mask_bounds(v);
        }
        if self.dma.oam_active && addr < 0xFF80 {
            return ;
        }
        if addr < 0x8000 || (0xA000 <= addr && addr < 0xC000) {
            match &mut self.cartridge {
                Some(c) => c.write(addr, v),
                None => {},
            }
        } else if addr < 0xA000 {
            self.ppu.write_vram(addr, v);
        } else if addr < 0xE000 {
            let i = self.wram_index(addr);
            self.wram[i] = v;
        } else if addr < 0xFE00 {
            let i = self.wram_index(addr - 0x2000);
            self.wram[i] = v;
        } else if addr < 0xFEA0 {
            self.ppu.write_oam(addr, v);
        } else if addr < 0xFF00 {
            // Prohibited region: writes are ignored.
        } else if addr < 0xFF80 {
            self.write_io(addr, v);
        } else if addr < 0xFFFF {
            self.hram[addr as usize - 0xFF80] = v;
        } else {
            self.int_enable = v;
        }
    }

    fn write_io(&mut self, addr: u16, v: u8)
        requires
            old(self).wf(),
            0xFF00 <= addr < 0xFF80,
        ensures
            final(self).wf(),
            MemoryBus::spec_write_io(*old(self), addr, v, *final(self)),
    {
        proof {
            crate::util::lemma_mask_bounds(v);
        }
        if addr == 0xFF00 {
            self.joypad.write_p1(v);
        } else if addr == 0xFF01 {
            self.serial_data = v;
        } else if addr == 0xFF02 {
            if v & 0x80 != 0 && v & 0x01 != 0 {
                let b = self.serial_data;
                self.serial_out.push(b);
                self.serial_ctrl = v & 0x7F;
                proof {
                    lemma_or_flags(self.int_flags);
                }
                self.int_flags = self.int_flags | 0x08;
            } else {
                self.serial_ctrl = v;
            }
        } else if addr == 0xFF04 {
            let fired = self.timer.write_div();
            if fired {
                proof {
                    lemma_or_flags(self.int_flags);
                }
                self.int_flags = self.int_flags | 0x04;
            }
        } else if addr == 0xFF05 {
            self.timer.tima = v;
        } else if addr == 0xFF06 {
            self.timer.tma = v;
        } else if addr == 0xFF07 {
            self.timer.tac = v & 0x07;
        } else if addr == 0xFF0F {
            self.int_flags = v & 0x1F;
        } else if addr == 0xFF40 {
            self.ppu.lcdc = v;
        } else if addr == 0xFF41 {
            self.ppu.stat_enables = v & 0x78;
        } else if addr == 0xFF42 {
            self.ppu.scy = v;
        } else if addr == 0xFF43 {
            self.ppu.scx = v;
        } else if addr == 0xFF44 {
        } else if addr == 0xFF45 {
            self.ppu.lyc = v;
        } else if addr == 0xFF46 {
            self.dma.oam_active = true;
            self.dma.oam_source = v;
            self.dma.oam_progress = 0;
        } else if addr == 0xFF47 {
            self.ppu.bgp = v;
        } else if addr == 0xFF48 {
            self.ppu.obp0 = v;
        } else if addr == 0xFF49 {
            self.ppu.obp1 = v;
        } else if addr == 0xFF4A {
            self.ppu.wy = v;
        } else if addr == 0xFF4B {
            self.ppu.wx = v;
        } else if addr == 0xFF4D {
            self.key1 = (self.key1 & 0x80) | (v & 0x01);
        } else if addr == 0xFF4F {
            self.ppu.vbk = v & 0x01;
        } else if addr == 0xFF51 {
            self.dma.hdma_src_hi = v;
        } else if addr == 0xFF52 {
            self.dma.hdma_src_lo = v & 0xF0;
        } else if addr == 0xFF53 {
            self.dma.hdma_dst_hi = v & 0x1F;
        } else if addr == 0xFF54 {
            self.dma.hdma_dst_lo = v & 0xF0;
        } else if addr == 0xFF55 {
            if v & 0x80 == 0 {
                if self.dma.hdma_active {
                    self.dma.hdma_active = false;
                } else {
                    self.run_gdma(v);
                }
            } else {
                self.dma.hdma_active = true;
                self.dma.hdma_len = v & 0x7F;
            }
        } else if addr == 0xFF68 {
            self.ppu.bcps = v;
        } else if addr == 0xFF69 {
            self.ppu.write_bcpd(v);
        } else if addr == 0xFF6A {
            self.ppu.ocps = v;
        } else if addr == 0xFF6B {
            self.ppu.write_ocpd(v);
        } else if addr == 0xFF70 {
            self.svbk = v & 0x07;
        } else {
            self.io[addr as usize - 0xFF00] = v;
        }
    }

    /// A general-purpose DMA: ((len & 0x7F) + 1) * 16 bytes move from the
    /// HDMA source into VRAM in one shot.
    fn run_gdma(&mut self, len: u8)
        requires
            old(self).wf(),
        ensures
            final(self).wf(),
            *final(self) == (MemoryBus { ppu: final(self).ppu, dma: final(self).dma, ..*old(self)
            }),
            final(self).ppu == (Ppu { vram: final(self).ppu.vram, ..old(self).ppu }),
            final(self).dma == (Dma {
                hdma_active: false,
                pending_cycles: final(self).dma.pending_cycles,
                ..old(self).dma
            }),
            final(self).dma.pending_cycles == (if old(self).dma.pending_cycles <= 1000000 {
                (old(self).dma.pending_cycles + ((len & 0x7F) + 1) * 32) as u32
            } else {
                old(self).dma.pending_cycles
            }),
    {
        proof {
            crate::util::lemma_mask_bounds(len);
        }
        let blocks: u32 = (len & 0x7F) as u32 + 1;
        let total: u32 = blocks * 16;
        proof {
            crate::util::lemma_mask_bounds(self.dma.hdma_src_lo);
            crate::util::lemma_mask_bounds(self.dma.hdma_dst_hi);
            crate::util::lemma_mask_bounds(self.dma.hdma_dst_lo);
        }
        let src: u32 = self.dma.hdma_src_hi as u32 * 256 + (self.dma.hdma_src_lo & 0xF0) as u32;
        let dst: u32 = (self.dma.hdma_dst_hi & 0x1F) as u32 * 256 + (self.dma.hdma_dst_lo
            & 0xF0) as u32;
        let mut j: u32 = 0;
        while j < total
            invariant
                self.wf(),
                total <= 2048,
                j <= total,
                src <= 0xFFF0,
                dst <= 0x1FF0,
                *self == (MemoryBus { ppu: self.ppu, dma: self.dma, ..*old(self) }),
                self.ppu == (Ppu { vram: self.ppu.vram, ..old(self).ppu }),
                self.dma == old(self).dma,
            decreases total - j,
        {
            let s: u32 = (src + j) % 0x10000;
            let b: u8 = self.read_raw(s as u16);
            let d: u16 = (0x8000 + ((dst + j) % 0x2000)) as u16;
            self.ppu.dma_write_vram(d, b);
            j = j + 1;
        }
        self.dma.hdma_active = false;
        if self.dma.pending_cycles <= 1000000 {
            self.dma.pending_cycles = self.dma.pending_cycles + blocks * 32;
        }
    }

    /// One 16-byte HBlank DMA block, run when the PPU enters Mode 0 while
    /// HDMA is active. The remaining-length field decrements; when it
    /// wraps the transfer is over.
    pub fn hdma_block(&mut self)
        requires
            old(self).wf(),
        ensures
            final(self).wf(),
            *final(self) == (MemoryBus { ppu: final(self).ppu, dma: final(self).dma, ..*old(self)
            }),
            final(self).ppu == (Ppu { vram: final(self).ppu.vram, ..old(self).ppu }),
            old(self).dma.hdma_active ==> final(self).dma == (Dma {
                hdma_active: old(self).dma.hdma_len > 0,
                hdma_len: if old(self).dma.hdma_len > 0 {
                    (old(self).dma.hdma_len - 1) as u8
                } else {
                    0x7F
                },
                hdma_src_hi: final(self).dma.hdma_src_hi,
                hdma_src_lo: final(self).dma.hdma_src_lo,
                hdma_dst_hi: final(self).dma.hdma_dst_hi,
                hdma_dst_lo: final(self).dma.hdma_dst_lo,
                ..old(self).dma
            }),
            !old(self).dma.hdma_active ==> *final(self) == *old(self),
    {
        if !self.dma.hdma_active {
            return ;
        }
        proof {
            crate::util::lemma_mask_bounds(self.dma.hdma_src_lo);
            crate::util::lemma_mask_bounds(self.dma.hdma_dst_hi);
            crate::util::lemma_mask_bounds(self.dma.hdma_dst_lo);
        }
        let src: u32 = self.dma.hdma_src_hi as u32 * 256 + (self.dma.hdma_src_lo & 0xF0) as u32;
        let dst: u32 = (self.dma.hdma_dst_hi & 0x1F) as u32 * 256 + (self.dma.hdma_dst_lo
            & 0xF0) as u32;
        let mut j: u32 = 0;
        while j < 16
            invariant
                self.wf(),
                j <= 16,
                src <= 0xFFF0,
                dst <= 0x1FF0,
                *self == (MemoryBus { ppu: self.ppu, dma: self.dma, ..*old(self) }),
                self.ppu == (Ppu { vram: self.ppu.vram, ..old(self).ppu }),
                self.dma == old(self).dma,
            decreases 16 - j,
        {
            let s: u32 = (src + j) % 0x10000;
            let b: u8 = self.read_raw(s as u16);
            let d: u16 = (0x8000 + ((dst + j) % 0x2000)) as u16;
            self.ppu.dma_write_vram(d, b);
            j = j + 1;
        }
        // Advance the source and destination by one block.
        let nsrc: u32 = (src + 16) % 0x10000;
        let ndst: u32 = (dst + 16) % 0x2000;
        self.dma.hdma_src_hi = (nsrc / 256) as u8;
        self.dma.hdma_src_lo = (nsrc % 256) as u8 & 0xF0;
        self.dma.hdma_dst_hi = (ndst / 256) as u8 & 0x1F;
        self.dma.hdma_dst_lo = (ndst % 256) as u8 & 0xF0;
        if self.dma.hdma_len > 0 {
            self.dma.hdma_len = self.dma.hdma_len - 1;
        } else {
            self.dma.hdma_active = false;
            self.dma.hdma_len = 0x7F;
        }
    }

    /// Advance an active OAM DMA by `cycles` T-cycles: one byte lands in
    /// OAM every four cycles, 160 bytes in all.
    pub fn dma_step(&mut self, cycles: u32)
        requires
            old(self).wf(),
            cycles <= 4000000,
        ensures
            final(self).wf(),
            *final(self) == (MemoryBus { ppu: final(self).ppu, dma: final(self).dma, ..*old(self)
            }),
            final(self).ppu == (Ppu { oam: final(self).ppu.oam, ..old(self).ppu }),
            final(self).dma == (Dma {
                oam_active: final(self).dma.oam_active,
                oam_progress: final(self).dma.oam_progress,
                ..old(self).dma
            }),
            !old(self).dma.oam_active ==> *final(self) == *old(self),
            // Progress advances cycle for cycle until the 640th.
            old(self).dma.oam_active ==> ({
                let np: int = if old(self).dma.oam_progress + cycles > 640 {
                    640
                } else {
                    old(self).dma.oam_progress + cycles
                };
                final(self).dma.oam_progress == np && final(self).dma.oam_active == (np < 640)
            }),
    {
        if !self.dma.oam_active {
            return ;
        }
        let progress: u32 = self.dma.oam_progress as u32;
        let new_progress: u32 = if progress + cycles > 640 {
            640
        } else {
            progress + cycles
        };
        let from: u32 = progress / 4;
        let to: u32 = new_progress / 4;
        let src_base: u32 = self.dma.oam_source as u32 * 256;
        let mut i: u32 = from;
        while i < to
            invariant
                self.wf(),
                to <= 160,
                src_base <= 0xFF00,
                *self == (MemoryBus { ppu: self.ppu, dma: self.dma, ..*old(self) }),
                self.ppu == (Ppu { oam: self.ppu.oam, ..old(self).ppu }),
                self.dma == old(self).dma,
            decreases to - i,
        {
            let b: u8 = self.read_raw((src_base + i) as u16);
            self.ppu.dma_write_oam((0xFE00 + i) as u16, b);
            i = i + 1;
        }
        self.dma.oam_progress = new_progress as u16;
        if new_progress >= 640 {
            self.dma.oam_active = false;
        }
    }

    /// Set one of the five interrupt-request bits in IF.
    pub fn request_interrupt(&mut self, bit: u8)
        requires
            old(self).wf(),
            bit <= 4,
        ensures
            final(self).wf(),
            *final(self) == (MemoryBus { int_flags: final(self).int_flags, ..*old(self) }),
            final(self).int_flags == old(self).int_flags | crate::util::spec_int_mask(bit),
    {
        let mask: u8 = crate::util::int_mask(bit);
        proof {
            lemma_if_or_mask(self.int_flags, mask);
        }
        self.int_flags = self.int_flags | mask;
    }

    /// Little-endian 16-bit write: two sequential 8-bit accesses.
    pub fn write16(&mut self, addr: u16, v: u16)
        requires
            old(self).wf(),
        ensures
            final(self).wf(),
            exists|mid: MemoryBus|
                #[trigger] MemoryBus::spec_write8(*old(self), addr, (v % 256) as u8, mid)
                    && MemoryBus::spec_write8(
                    mid,
                    ((addr + 1) % 0x10000) as u16,
                    (v / 256) as u8,
                    *final(self),
                ),
    {
        self.write8(addr, (v % 256) as u8);
        let ghost mid = *self;
        self.write8(((addr as u32 + 1) % 0x10000) as u16, (v / 256) as u8);
        proof {
            assert(MemoryBus::spec_write8(*old(self), addr, (v % 256) as u8, mid));
        }
    }
}

proof fn lemma_or_flags(f: u8)
    by (bit_vector)
    ensures
        f <= 0x1F ==> f | 0x08 <= 0x1F,
        f <= 0x1F ==> f | 0x04 <= 0x1F,
{
}

proof fn lemma_if_or_mask(f: u8, m: u8)
    by (bit_vector)
    ensures
        f <= 0x1F && m <= 0x10 ==> f | m <= 0x1F,
{
}

} // verus!
