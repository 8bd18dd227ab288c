//! The pixel-processing unit: a per-dot scanline state machine (modes 2, 3,
//! 0 across each visible line, mode 1 through VBlank), tile and sprite
//! composition into a 160x144 RGBA frame buffer, and the CGB palette memory
//! behind BCPS/BCPD and OCPS/OCPD.
use crate::util::lemma_mask_bounds;
use vstd::prelude::*;

verus! {

pub const LCD_WIDTH: usize = 160;

pub const LCD_HEIGHT: usize = 144;

#[derive(Clone, Copy, PartialEq, Eq, Structural, Debug)]
pub struct GameboyRgba {
    pub red: u8,
    pub green: u8,
    pub blue: u8,
    pub alpha: u8,
}

/// A 32-bit packed pixel: red in the top byte, then green, blue, alpha.
pub open spec fn spec_pack_rgba(p: GameboyRgba) -> u32 {
    (p.red as u32 * 0x1000000 + p.green as u32 * 0x10000 + p.blue as u32 * 0x100
        + p.alpha as u32) as u32
}

/// A 5-bit colour channel widened to 8 bits by replicating its top three
/// bits into the low bits.
pub open spec fn spec_expand5(c: u16) -> u8
    recommends
        c <= 31,
{
    (c * 8 + c / 4) as u8
}

/// The RGBA colour a 15-bit RGB555 palette word paints: red in bits 0-4,
/// green in 5-9, blue in 10-14, alpha opaque.
pub open spec fn spec_rgb555_to_rgba(v: u16) -> GameboyRgba {
    GameboyRgba {
        red: spec_expand5((v % 32) as u16),
        green: spec_expand5(((v / 32) % 32) as u16),
        blue: spec_expand5(((v / 1024) % 32) as u16),
        alpha: 0xFF,
    }
}

pub fn rgb555_to_rgba(v: u16) -> (r: GameboyRgba)
    ensures
        r == spec_rgb555_to_rgba(v),
{
    let red: u16 = v % 32;
    let green: u16 = (v / 32) % 32;
    let blue: u16 = (v / 1024) % 32;
    GameboyRgba {
        red: (red * 8 + red / 4) as u8,
        green: (green * 8 + green / 4) as u8,
        blue: (blue * 8 + blue / 4) as u8,
        alpha: 0xFF,
    }
}

/// The row-major frame buffer of 160x144 packed RGBA pixels.
pub struct FrameBuffer {
    pub pixels: [u32; 23040],
}

impl FrameBuffer {
    pub fn read(&self, x: usize, y: usize) -> (r: GameboyRgba)
        requires
            x < LCD_WIDTH,
            y < LCD_HEIGHT,
        ensures
            spec_pack_rgba(r) == self.pixels@[y * 160 + x],
    {
        let v: u32 = self.pixels[y * 160 + x];
        proof {
            lemma_unpack_rgba(v);
        }
        GameboyRgba {
            red: (v / 0x1000000) as u8,
            green: ((v / 0x10000) % 256) as u8,
            blue: ((v / 0x100) % 256) as u8,
            alpha: (v % 256) as u8,
        }
    }
}

/// What one PPU advance reported back to the scheduler.
#[derive(Clone, Copy, PartialEq, Eq, Structural, Debug)]
pub struct PpuStep {
    /// The PPU entered VBlank: request the VBlank interrupt.
    pub vblank: bool,
    /// The internal STAT line rose: request the STAT interrupt.
    pub stat: bool,
    /// How many times Mode 0 was entered, for HBlank DMA.
    pub hblanks: u8,
}

pub struct Ppu {
    /// Two 8 KiB VRAM banks, back to back; VBK selects the bank.
    pub vram: [u8; 16384],
    pub oam: [u8; 160],
    pub lcdc: u8,
    /// The writable STAT interrupt-enable bits (bits 3-6).
    pub stat_enables: u8,
    pub scy: u8,
    pub scx: u8,
    pub ly: u8,
    pub lyc: u8,
    pub wy: u8,
    pub wx: u8,
    pub bgp: u8,
    pub obp0: u8,
    pub obp1: u8,
    pub vbk: u8,
    pub bcps: u8,
    pub ocps: u8,
    pub bg_pal: [u8; 64],
    pub ob_pal: [u8; 64],
    /// 0 HBlank, 1 VBlank, 2 OAM scan, 3 drawing.
    pub mode: u8,
    /// Dot counter within the scanline, 0..456.
    pub dot: u16,
    /// The window's own line counter, advanced only on lines it covers.
    pub window_line: u8,
    /// The level of the internal STAT line, for edge detection.
    pub stat_line: bool,
    /// Leftover half dot when running at double speed.
    pub half: u8,
    pub cgb: bool,
    /// How many times VBlank has been requested since power-on.
    pub vblank_count: u64,
    pub frame: FrameBuffer,
}

/// How a CPU write of VRAM relates the PPU before and after: stored in the
/// VBK bank unless mode 3 blocks it.
pub open spec fn spec_write_vram_rel(pre: Ppu, addr: u16, v: u8, post: Ppu) -> bool {
    if pre.mode == 3 {
        post == pre
    } else {
        post == (Ppu { vram: post.vram, ..pre }) && post.vram@ == pre.vram@.update(
            pre.vbk as int * 0x2000 + (addr - 0x8000),
            v,
        )
    }
}

/// How a CPU write of OAM relates the PPU before and after: stored unless
/// modes 2 or 3 block it.
pub open spec fn spec_write_oam_rel(pre: Ppu, addr: u16, v: u8, post: Ppu) -> bool {
    if pre.mode == 2 || pre.mode == 3 {
        post == pre
    } else {
        post == (Ppu { oam: post.oam, ..pre }) && post.oam@ == pre.oam@.update(addr - 0xFE00, v)
    }
}

/// How a BCPD write relates the PPU before and after: the byte lands at the
/// BCPS index, which auto-increments when BCPS bit 7 is set.
pub open spec fn spec_write_bcpd_rel(pre: Ppu, v: u8, post: Ppu) -> bool {
    &&& post == (Ppu { bg_pal: post.bg_pal, bcps: post.bcps, ..pre })
    &&& post.bg_pal@ == pre.bg_pal@.update((pre.bcps & 0x3F) as int, v)
    &&& post.bcps == if pre.bcps & 0x80 != 0 {
        (0x80u8 | ((((pre.bcps & 0x3F) + 1) % 64) as u8)) as u8
    } else {
        pre.bcps
    }
}

/// The OCPD counterpart of `spec_write_bcpd_rel`.
pub open spec fn spec_write_ocpd_rel(pre: Ppu, v: u8, post: Ppu) -> bool {
    &&& post == (Ppu { ob_pal: post.ob_pal, ocps: post.ocps, ..pre })
    &&& post.ob_pal@ == pre.ob_pal@.update((pre.ocps & 0x3F) as int, v)
    &&& post.ocps == if pre.ocps & 0x80 != 0 {
        (0x80u8 | ((((pre.ocps & 0x3F) + 1) % 64) as u8)) as u8
    } else {
        pre.ocps
    }
}

/// The display configuration and memories `step` never touches.
pub open spec fn same_video_config(a: Ppu, b: Ppu) -> bool {
    &&& a.vram == b.vram
    &&& a.oam == b.oam
    &&& a.lcdc == b.lcdc
    &&& a.stat_enables == b.stat_enables
    &&& a.scy == b.scy
    &&& a.scx == b.scx
    &&& a.lyc == b.lyc
    &&& a.wy == b.wy
    &&& a.wx == b.wx
    &&& a.bgp == b.bgp
    &&& a.obp0 == b.obp0
    &&& a.obp1 == b.obp1
    &&& a.vbk == b.vbk
    &&& a.bcps == b.bcps
    &&& a.ocps == b.ocps
    &&& a.bg_pal == b.bg_pal
    &&& a.ob_pal == b.ob_pal
    &&& a.cgb == b.cgb
}

impl Ppu {
    pub open spec fn wf(self) -> bool {
        &&& self.ly <= 153
        &&& self.dot < 456
        &&& self.mode <= 3
        &&& self.vbk <= 1
        &&& self.half <= 1
    }

    /// The power-on register state: LCD on with background enabled, all
    /// scroll and compare registers zero, DMG palettes at their post-boot
    /// bytes, the scanline machine at the top of the frame.
    pub open spec fn spec_fresh(self, cgb: bool) -> bool {
        &&& self.lcdc == 0x91
        &&& self.stat_enables == 0
        &&& self.scy == 0 && self.scx == 0
        &&& self.ly == 0 && self.lyc == 0
        &&& self.wy == 0 && self.wx == 0
        &&& self.bgp == 0xFC
        &&& self.obp0 == 0xFF && self.obp1 == 0xFF
        &&& self.vbk == 0 && self.bcps == 0 && self.ocps == 0
        &&& self.mode == 2 && self.dot == 0 && self.window_line == 0
        &&& !self.stat_line && self.half == 0
        &&& self.cgb == cgb
        &&& self.vblank_count == 0
    }

    pub fn new(cgb: bool) -> (r: Ppu)
        ensures
            r.wf(),
            r.spec_fresh(cgb),
            r.ly == 0 && r.dot == 0 && r.mode == 2,
            r.cgb == cgb,
            r.vblank_count == 0,
            r.lcdc == 0x91,
    {
        let base = Ppu {
            vram: [0u8; 16384],
            oam: [0u8; 160],
            lcdc: 0x91,
            stat_enables: 0,
            scy: 0,
            scx: 0,
            ly: 0,
            lyc: 0,
            wy: 0,
            wx: 0,
            bgp: 0xFC,
            obp0: 0xFF,
            obp1: 0xFF,
            vbk: 0,
            bcps: 0,
            ocps: 0,
            bg_pal: [0xFFu8; 64],
            ob_pal: [0xFFu8; 64],
            mode: 2,
            dot: 0,
            window_line: 0,
            stat_line: false,
            half: 0,
            cgb: false,
            vblank_count: 0,
            frame: FrameBuffer { pixels: [0xFFu32; 23040] },
        };
        Ppu { cgb, ..base }
    }

    /// Whether LY equals LYC, as STAT bit 2 reports it.
    pub open spec fn spec_coincidence(self) -> bool {
        self.ly == self.lyc
    }

    /// The composite STAT byte: bit 7 reads 1, bits 3-6 are the stored
    /// enables, bit 2 the coincidence flag, bits 0-1 the mode.
    pub open spec fn spec_stat(self) -> u8 {
        ((0x80 | (self.stat_enables & 0x78)) + (if self.spec_coincidence() {
            4u8
        } else {
            0u8
        }) + (self.mode & 0x03)) as u8
    }

    pub fn read_stat(&self) -> (r: u8)
        requires
            self.wf(),
        ensures
            r == self.spec_stat(),
    {
        proof {
            lemma_stat_parts(self.stat_enables);
            lemma_mask_bounds(self.mode);
        }
        let base: u8 = 0x80 | (self.stat_enables & 0x78);
        let coin: u8 = if self.ly == self.lyc {
            4
        } else {
            0
        };
        base + coin + (self.mode & 0x03)
    }

    /// The level of the internal STAT line: the OR of the enabled sources.
    pub open spec fn spec_stat_level(self) -> bool {
        ||| (self.stat_enables & 0x40 != 0 && self.spec_coincidence())
        ||| (self.stat_enables & 0x08 != 0 && self.mode == 0)
        ||| (self.stat_enables & 0x10 != 0 && self.mode == 1)
        ||| (self.stat_enables & 0x20 != 0 && self.mode == 2)
    }

    fn stat_level(&self) -> (r: bool)
        ensures
            r == self.spec_stat_level(),
    {
        (self.stat_enables & 0x40 != 0 && self.ly == self.lyc) || (self.stat_enables & 0x08 != 0
            && self.mode == 0) || (self.stat_enables & 0x10 != 0 && self.mode == 1) || (
        self.stat_enables & 0x20 != 0 && self.mode == 2)
    }

    /// A CPU read of VRAM through the bus: blocked (0xFF) while drawing.
    pub open spec fn spec_read_vram(self, addr: u16) -> u8
        recommends
            0x8000 <= addr < 0xA000,
    {
        if self.mode == 3 {
            0xFF
        } else {
            self.vram@[self.vbk as int * 0x2000 + (addr - 0x8000)]
        }
    }

    pub fn read_vram(&self, addr: u16) -> (r: u8)
        requires
            self.wf(),
            0x8000 <= addr < 0xA000,
        ensures
            r == self.spec_read_vram(addr),
    {
        if self.mode == 3 {
            0xFF
        } else {
            self.vram[self.vbk as usize * 0x2000 + (addr as usize - 0x8000)]
        }
    }

    /// A CPU write of VRAM through the bus: ignored while drawing.
    pub fn write_vram(&mut self, addr: u16, v: u8)
        requires
            old(self).wf(),
            0x8000 <= addr < 0xA000,
        ensures
            final(self).wf(),
            spec_write_vram_rel(*old(self), addr, v, *final(self)),
    {
        if self.mode != 3 {
            self.vram[self.vbk as usize * 0x2000 + (addr as usize - 0x8000)] = v;
        }
    }

    /// A DMA write of VRAM: DMA is not blocked by the drawing mode.
    pub fn dma_write_vram(&mut self, addr: u16, v: u8)
        requires
            old(self).wf(),
            0x8000 <= addr < 0xA000,
        ensures
            final(self).wf(),
            *final(self) == (Ppu { vram: final(self).vram, ..*old(self) }),
            final(self).vram@ == old(self).vram@.update(
                old(self).vbk as int * 0x2000 + (addr - 0x8000),
                v,
            ),
    {
        self.vram[self.vbk as usize * 0x2000 + (addr as usize - 0x8000)] = v;
    }

    /// A CPU read of OAM through the bus: blocked during OAM scan and
    /// drawing.
    pub open spec fn spec_read_oam(self, addr: u16) -> u8
        recommends
            0xFE00 <= addr < 0xFEA0,
    {
        if self.mode == 2 || self.mode == 3 {
            0xFF
        } else {
            self.oam@[addr - 0xFE00]
        }
    }

    pub fn read_oam(&self, addr: u16) -> (r: u8)
        requires
            self.wf(),
            0xFE00 <= addr < 0xFEA0,
        ensures
            r == self.spec_read_oam(addr),
    {
        if self.mode == 2 || self.mode == 3 {
            0xFF
        } else {
            self.oam[addr as usize - 0xFE00]
        }
    }

    pub fn write_oam(&mut self, addr: u16, v: u8)
        requires
            old(self).wf(),
            0xFE00 <= addr < 0xFEA0,
        ensures
            final(self).wf(),
            spec_write_oam_rel(*old(self), addr, v, *final(self)),
    {
        if !(self.mode == 2 || self.mode == 3) {
            self.oam[addr as usize - 0xFE00] = v;
        }
    }

    /// An OAM-DMA write of OAM: never blocked.
    pub fn dma_write_oam(&mut self, addr: u16, v: u8)
        requires
            old(self).wf(),
            0xFE00 <= addr < 0xFEA0,
        ensures
            final(self).wf(),
            *final(self) == (Ppu { oam: final(self).oam, ..*old(self) }),
            final(self).oam@ == old(self).oam@.update(addr - 0xFE00, v),
    {
        self.oam[addr as usize - 0xFE00] = v;
    }

    /// Write BCPD: store at the BCPS index; when BCPS bit 7 is set the
    /// index auto-increments (wrapping within the 64 bytes).
    pub fn write_bcpd(&mut self, v: u8)
        ensures
            spec_write_bcpd_rel(*old(self), v, *final(self)),
    {
        proof {
            lemma_mask_bounds(self.bcps);
        }
        self.bg_pal[(self.bcps & 0x3F) as usize] = v;
        if self.bcps & 0x80 != 0 {
            self.bcps = 0x80 | (((self.bcps & 0x3F) + 1) % 64);
        }
    }

    pub fn read_bcpd(&self) -> (r: u8)
        ensures
            r == self.bg_pal@[(self.bcps & 0x3F) as int],
    {
        proof {
            lemma_mask_bounds(self.bcps);
        }
        self.bg_pal[(self.bcps & 0x3F) as usize]
    }

    /// Write OCPD, the object-palette counterpart of BCPD.
    pub fn write_ocpd(&mut self, v: u8)
        ensures
            spec_write_ocpd_rel(*old(self), v, *final(self)),
    {
        proof {
            lemma_mask_bounds(self.ocps);
        }
        self.ob_pal[(self.ocps & 0x3F) as usize] = v;
        if self.ocps & 0x80 != 0 {
            self.ocps = 0x80 | (((self.ocps & 0x3F) + 1) % 64);
        }
    }

    pub fn read_ocpd(&self) -> (r: u8)
        ensures
            r == self.ob_pal@[(self.ocps & 0x3F) as int],
    {
        proof {
            lemma_mask_bounds(self.ocps);
        }
        self.ob_pal[(self.ocps & 0x3F) as usize]
    }

    /// The first background palette entry as the colour it paints.
    pub fn bg_palette_rgba(&self, pal: u8, idx: u8) -> (r: GameboyRgba)
        requires
            pal <= 7,
            idx <= 3,
        ensures
            r == spec_rgb555_to_rgba(
                (self.bg_pal@[pal * 8 + idx * 2] + self.bg_pal@[pal * 8 + idx * 2 + 1] * 256) as u16,
            ),
    {
        let off: usize = pal as usize * 8 + idx as usize * 2;
        let v: u16 = self.bg_pal[off] as u16 + self.bg_pal[off + 1] as u16 * 256;
        rgb555_to_rgba(v)
    }

    pub fn frame_buffer(&self) -> (r: &FrameBuffer)
        ensures
            r == &self.frame,
    {
        &self.frame
    }

    /// Advance the PPU by `delta` T-cycles; at double speed two T-cycles
    /// make one dot, the leftover half being carried to the next call.
    /// The absolute dot position within the 154-line, 70224-dot screen.
    pub open spec fn spec_pos(self) -> int {
        self.ly * 456 + self.dot
    }

    /// How many dots a T-cycle delta yields: one per cycle at normal
    /// speed, one per two cycles at double speed (with the carried half).
    pub open spec fn spec_dots(self, delta: u32, double_speed: bool) -> int {
        if double_speed {
            (delta + self.half) / 2
        } else {
            delta as int
        }
    }

    pub fn step(&mut self, delta: u32, double_speed: bool) -> (r: PpuStep)
        requires
            old(self).wf(),
            delta <= 4000000,
        ensures
            final(self).wf(),
            same_video_config(*old(self), *final(self)),
            final(self).vblank_count >= old(self).vblank_count,
            // With the LCD on, the scanline machine advances by exactly
            // the delivered dots, modulo one screen.
            old(self).lcdc & 0x80 != 0 ==> final(self).spec_pos() == (old(self).spec_pos() + old(
                self,
            ).spec_dots(delta, double_speed)) % 70224,
            old(self).lcdc & 0x80 == 0 ==> final(self).ly == 0 && final(self).dot == 0,
    {
        let ghost pos0 = old(self).spec_pos();
        let dots: u32 = if double_speed {
            let total: u32 = delta + self.half as u32;
            self.half = (total % 2) as u8;
            total / 2
        } else {
            delta
        };
        let mut out = PpuStep { vblank: false, stat: false, hblanks: 0 };
        if self.lcdc & 0x80 == 0 {
            // LCD disabled: the scanline machine holds at the top of the
            // frame.
            self.ly = 0;
            self.dot = 0;
            self.mode = 0;
            return out;
        }
        let mut i: u32 = 0;
        while i < dots
            invariant
                self.wf(),
                same_video_config(*old(self), *self),
                self.vblank_count >= old(self).vblank_count,
                i <= dots,
                self.spec_pos() == (pos0 + i) % 70224,
                0 <= pos0 < 70224,
            decreases dots - i,
        {
            proof {
                let a = pos0 + i;
                assert(((a % 70224) + 1) % 70224 == (a + 1) % 70224) by (nonlinear_arith)
                    requires
                        a >= 0,
                ;
            }
            let t = self.tick();
            if t.vblank {
                out.vblank = true;
            }
            if t.stat {
                out.stat = true;
            }
            if t.hblanks > 0 && out.hblanks < 255 {
                out.hblanks = out.hblanks + 1;
            }
            i = i + 1;
        }
        out
    }

    /// One dot of the scanline state machine.
    fn tick(&mut self) -> (r: PpuStep)
        requires
            old(self).wf(),
        ensures
            final(self).wf(),
            same_video_config(*old(self), *final(self)),
            final(self).vblank_count >= old(self).vblank_count,
            final(self).spec_pos() == (old(self).spec_pos() + 1) % 70224,
    {
        let mut vblank = false;
        let mut hblank = false;
        if self.dot == 455 {
            self.dot = 0;
            if self.ly == 143 {
                // Enter VBlank.
                self.ly = 144;
                self.mode = 1;
                vblank = true;
                if self.vblank_count < 0xFFFF_FFFF_FFFF_FFFF {
                    self.vblank_count = self.vblank_count + 1;
                }
            } else if self.ly == 153 {
                self.ly = 0;
                self.mode = 2;
                self.window_line = 0;
            } else {
                self.ly = self.ly + 1;
                if self.ly < 144 {
                    self.mode = 2;
                }
            }
        } else {
            self.dot = self.dot + 1;
            if self.ly < 144 {
                if self.dot == 80 {
                    self.mode = 3;
                } else if self.dot == 252 {
                    // End of drawing: compose the line, enter HBlank.
                    self.render_scanline();
                    self.mode = 0;
                    hblank = true;
                }
            }
        }
        // Edge detection on the internal STAT line.
        let level = self.stat_level();
        let stat = level && !self.stat_line;
        self.stat_line = level;
        PpuStep { vblank, stat, hblanks: if hblank {
            1
        } else {
            0
        } }
    }

    /// Compose one visible scanline: background, window, then sprites.
    fn render_scanline(&mut self)
        requires
            old(self).wf(),
            old(self).ly < 144,
        ensures
            final(self).wf(),
            *final(self) == (Ppu {
                frame: final(self).frame,
                window_line: final(self).window_line,
                ..*old(self)
            }),
    {
        let ly: usize = self.ly as usize;
        let mut bg_index: [u8; 160] = [0u8; 160];
        let mut bg_prio: [bool; 160] = [false; 160];
        let mut x: usize = 0;
        while x < 160
            invariant
                self.wf(),
                self.ly < 144,
                ly == self.ly,
                *self == (Ppu { frame: self.frame, ..*old(self) }),
            decreases 160 - x,
        {
            let in_window = self.lcdc & 0x20 != 0 && self.wy as usize <= ly && (self.wx as usize)
                <= 166 && x + 7 >= self.wx as usize;
            let (map_base, px, py): (usize, usize, usize) = if in_window {
                let base: usize = if self.lcdc & 0x40 != 0 {
                    0x1C00
                } else {
                    0x1800
                };
                (base, x + 7 - self.wx as usize, self.window_line as usize)
            } else {
                let base: usize = if self.lcdc & 0x08 != 0 {
                    0x1C00
                } else {
                    0x1800
                };
                ((base), (x + self.scx as usize) % 256, (ly + self.scy as usize) % 256)
            };
            let px = px % 256;
            let map_off: usize = map_base + (py / 8) * 32 + (px / 8) % 32;
            let tile: usize = self.vram[map_off] as usize;
            let attr: u8 = if self.cgb {
                self.vram[0x2000 + map_off]
            } else {
                0
            };
            let mut row: usize = py % 8;
            if attr & 0x40 != 0 {
                row = 7 - row;
            }
            let mut bit: u8 = (7 - (px % 8)) as u8;
            if attr & 0x20 != 0 {
                bit = (px % 8) as u8;
            }
            let tile_addr: usize = if self.lcdc & 0x10 != 0 {
                tile * 16
            } else {
                if tile < 128 {
                    0x1000 + tile * 16
                } else {
                    0x800 + (tile - 128) * 16
                }
            };
            let bank: usize = if self.cgb && attr & 0x08 != 0 {
                1
            } else {
                0
            };
            let lo: u8 = self.vram[bank * 0x2000 + tile_addr + row * 2];
            let hi: u8 = self.vram[bank * 0x2000 + tile_addr + row * 2 + 1];
            let idx: u8 = pix_bits(lo, hi, bit);
            let (color, final_idx): (GameboyRgba, u8) = if !self.cgb && self.lcdc & 0x01 == 0 {
                (shade_rgba(0), 0)
            } else if self.cgb {
                proof {
                    lemma_mask_bounds(attr);
                }
                (cgb_color(&self.bg_pal, attr & 0x07, idx), idx)
            } else {
                (shade_rgba(pal_shade(self.bgp, idx)), idx)
            };
            bg_index[x] = final_idx;
            bg_prio[x] = attr & 0x80 != 0;
            self.frame.pixels[ly * 160 + x] = pack_rgba(color);
            x = x + 1;
        }
        // The window line counter advances once per line the window covered.
        if self.lcdc & 0x20 != 0 && self.wy as usize <= ly && (self.wx as usize) <= 166
            && self.window_line < 255 {
            self.window_line = self.window_line + 1;
        }
        // Sprites.
        if self.lcdc & 0x02 != 0 {
            let height: usize = if self.lcdc & 0x04 != 0 {
                16
            } else {
                8
            };
            // Select up to 10 sprites covering this line, in OAM order.
            let mut chosen: [usize; 10] = [0usize; 10];
            let mut count: usize = 0;
            let mut s: usize = 0;
            while s < 40
                invariant
                    count <= 10,
                    s <= 40,
                    ly < 144,
                    height <= 16,
                    forall|k: int| 0 <= k < count ==> chosen@[k] < 40,
                decreases 40 - s,
            {
                if count < 10 {
                    let sy: usize = self.oam[s * 4] as usize;
                    if ly + 16 >= sy && ly + 16 < sy + height {
                        chosen[count] = s;
                        count = count + 1;
                    }
                }
                s = s + 1;
            }
            // Draw order: back to front. On CGB the OAM index alone decides
            // (lower index on top); on DMG a larger X draws below a smaller
            // one, ties broken by OAM index.
            if !self.cgb && count > 1 {
                // Insertion sort ascending by X; drawing in reverse then
                // puts smaller X (higher priority) last.
                let mut a: usize = 1;
                while a < count
                    invariant
                        count <= 10,
                        a <= count,
                        forall|k: int| 0 <= k < count ==> chosen@[k] < 40,
                    decreases count - a,
                {
                    let mut b: usize = a;
                    while b > 0
                        invariant
                            count <= 10,
                            b <= a < count,
                            forall|k: int| 0 <= k < count ==> chosen@[k] < 40,
                        decreases b,
                    {
                        let i1: usize = chosen[b - 1];
                        let i2: usize = chosen[b];
                        if self.oam[i1 * 4 + 1] > self.oam[i2 * 4 + 1] {
                            chosen[b] = i1;
                            chosen[b - 1] = i2;
                            b = b - 1;
                        } else {
                            b = 0;
                        }
                    }
                    a = a + 1;
                }
            }
            let mut d: usize = count;
            while d > 0
                invariant
                    self.wf(),
                    self.ly < 144,
                    ly == self.ly,
                    d <= count <= 10,
                    height == 8 || height == 16,
                    forall|k: int| 0 <= k < count ==> chosen@[k] < 40,
                    *self == (Ppu {
                        frame: self.frame,
                        window_line: self.window_line,
                        ..*old(self)
                    }),
                decreases d,
            {
                d = d - 1;
                let s: usize = chosen[d];
                let sy: usize = self.oam[s * 4] as usize;
                let sx: usize = self.oam[s * 4 + 1] as usize;
                let mut tile: usize = self.oam[s * 4 + 2] as usize;
                let attr: u8 = self.oam[s * 4 + 3];
                if ly + 16 >= sy && ly + 16 < sy + height && height >= 1 {
                    let mut row: usize = ly + 16 - sy;
                    if row < height {
                        if attr & 0x40 != 0 {
                            row = height - 1 - row;
                        }
                        if height == 16 {
                            tile = tile - tile % 2;
                        }
                        let bank: usize = if self.cgb && attr & 0x08 != 0 {
                            1
                        } else {
                            0
                        };
                        let lo: u8 = self.vram[bank * 0x2000 + tile * 16 + row * 2];
                        let hi: u8 = self.vram[bank * 0x2000 + tile * 16 + row * 2 + 1];
                        let mut k: usize = 0;
                        while k < 8
                            invariant
                                self.wf(),
                                self.ly < 144,
                                ly == self.ly,
                                k <= 8,
                                sx <= 255,
                                *self == (Ppu {
                                    frame: self.frame,
                                    window_line: self.window_line,
                                    ..*old(self)
                                }),
                            decreases 8 - k,
                        {
                            if sx + k >= 8 && sx + k - 8 < 160 {
                                let xx: usize = sx + k - 8;
                                let bit: u8 = if attr & 0x20 != 0 {
                                    k as u8
                                } else {
                                    (7 - k) as u8
                                };
                                let idx: u8 = pix_bits(lo, hi, bit);
                                if idx != 0 {
                                    let bg_wins = (attr & 0x80 != 0 || bg_prio[xx]) && bg_index[xx]
                                        != 0 && self.lcdc & 0x01 != 0;
                                    if !bg_wins {
                                        let color: GameboyRgba = if self.cgb {
                                            proof {
                                                lemma_mask_bounds(attr);
                                            }
                                            cgb_color(&self.ob_pal, attr & 0x07, idx)
                                        } else {
                                            let pal: u8 = if attr & 0x10 != 0 {
                                                self.obp1
                                            } else {
                                                self.obp0
                                            };
                                            shade_rgba(pal_shade(pal, idx))
                                        };
                                        self.frame.pixels[ly * 160 + xx] = pack_rgba(color);
                                    }
                                }
                            }
                            k = k + 1;
                        }
                    }
                }
            }
        }
    }
}

proof fn lemma_unpack_rgba(v: u32)
    by (bit_vector)
    ensures
        v / 0x1000000 < 256,
        (v / 0x1000000) * 0x1000000 + ((v / 0x10000) % 256) * 0x10000 + ((v / 0x100) % 256) * 0x100
            + v % 256 == v,
{
}

proof fn lemma_stat_parts(e: u8)
    by (bit_vector)
    ensures
        0x80 | (e & 0x78) <= 0xF8,
        (0x80 | (e & 0x78)) + 4 + 3 <= 255,
{
}

/// The power of two selecting bit `i`.
fn pow2u8(i: u8) -> (r: u8)
    requires
        i <= 7,
    ensures
        r == spec_pow2u8(i as int),
        1 <= r,
{
    match i {
        0 => 1,
        1 => 2,
        2 => 4,
        3 => 8,
        4 => 16,
        5 => 32,
        6 => 64,
        _ => 128,
    }
}

pub open spec fn spec_pow2u8(i: int) -> u8 {
    if i == 0 {
        1
    } else if i == 1 {
        2
    } else if i == 2 {
        4
    } else if i == 3 {
        8
    } else if i == 4 {
        16
    } else if i == 5 {
        32
    } else if i == 6 {
        64
    } else {
        128
    }
}

/// The 2-bit colour index bit `bit` of a tile row selects: the low plane
/// contributes bit 0, the high plane bit 1.
pub open spec fn spec_pix_bits(lo: u8, hi: u8, bit: u8) -> u8 {
    (((lo / spec_pow2u8(bit as int)) % 2) + 2 * ((hi / spec_pow2u8(bit as int)) % 2)) as u8
}

fn pix_bits(lo: u8, hi: u8, bit: u8) -> (r: u8)
    requires
        bit <= 7,
    ensures
        r == spec_pix_bits(lo, hi, bit),
        r <= 3,
{
    let p = pow2u8(bit);
    ((lo / p) % 2) + 2 * ((hi / p) % 2)
}

/// The 2-bit shade a DMG palette byte assigns to a colour index.
pub open spec fn spec_pal_shade(pal: u8, idx: u8) -> u8 {
    (pal / spec_pow2u8(2 * idx as int)) as u8 % 4
}

fn pal_shade(pal: u8, idx: u8) -> (r: u8)
    requires
        idx <= 3,
    ensures
        r == spec_pal_shade(pal, idx),
        r <= 3,
{
    let p: u8 = match idx {
        0 => 1,
        1 => 4,
        2 => 16,
        _ => 64,
    };
    (pal / p) % 4
}

/// The grayscale each DMG shade paints: 0 white through 3 black.
pub open spec fn spec_shade_rgba(shade: u8) -> GameboyRgba {
    let level: u8 = if shade == 0 {
        0xFF
    } else if shade == 1 {
        0xAA
    } else if shade == 2 {
        0x55
    } else {
        0x00
    };
    GameboyRgba { red: level, green: level, blue: level, alpha: 0xFF }
}

fn shade_rgba(shade: u8) -> (r: GameboyRgba)
    ensures
        r == spec_shade_rgba(shade),
{
    let level: u8 = if shade == 0 {
        0xFF
    } else if shade == 1 {
        0xAA
    } else if shade == 2 {
        0x55
    } else {
        0x00
    };
    GameboyRgba { red: level, green: level, blue: level, alpha: 0xFF }
}

/// A CGB palette lookup: palette `pal`, colour index `idx`, as RGBA.
fn cgb_color(pal_mem: &[u8; 64], pal: u8, idx: u8) -> (r: GameboyRgba)
    requires
        pal <= 7,
        idx <= 3,
    ensures
        r == spec_rgb555_to_rgba(
            (pal_mem@[pal * 8 + idx * 2] + pal_mem@[pal * 8 + idx * 2 + 1] * 256) as u16,
        ),
{
    let off: usize = pal as usize * 8 + idx as usize * 2;
    let v: u16 = pal_mem[off] as u16 + pal_mem[off + 1] as u16 * 256;
    rgb555_to_rgba(v)
}

fn pack_rgba(p: GameboyRgba) -> (r: u32)
    ensures
        r == spec_pack_rgba(p),
{
    p.red as u32 * 0x1000000 + p.green as u32 * 0x10000 + p.blue as u32 * 0x100 + p.alpha as u32
}

} // verus!
