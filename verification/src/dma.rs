//! DMA engine state: the OAM DMA transfer started by a write to 0xFF46,
//! and the CGB HDMA/GDMA block transfers into VRAM.
use vstd::prelude::*;

verus! {

#[derive(Clone, Copy, PartialEq, Eq, Structural, Debug)]
pub struct Dma {
    /// An OAM DMA transfer is in flight; the bus then only serves HRAM and
    /// IE.
    pub oam_active: bool,
    /// The high byte of the OAM DMA source.
    pub oam_source: u8,
    /// T-cycles of OAM DMA already performed, 0..=640; one byte lands every
    /// four cycles.
    pub oam_progress: u16,
    /// An HBlank DMA is running: 16 bytes move at each Mode 0 entry.
    pub hdma_active: bool,
    pub hdma_src_hi: u8,
    pub hdma_src_lo: u8,
    pub hdma_dst_hi: u8,
    pub hdma_dst_lo: u8,
    /// Remaining length field as HDMA5 holds it (blocks - 1, low 7 bits).
    pub hdma_len: u8,
    /// T-cycles a general-purpose DMA charged to the CPU, not yet consumed.
    pub pending_cycles: u32,
}

impl Dma {
    /// The power-on state: no transfer of either kind in flight.
    pub open spec fn fresh_value() -> Dma {
        Dma {
            oam_active: false,
            oam_source: 0,
            oam_progress: 0,
            hdma_active: false,
            hdma_src_hi: 0,
            hdma_src_lo: 0,
            hdma_dst_hi: 0,
            hdma_dst_lo: 0,
            hdma_len: 0,
            pending_cycles: 0,
        }
    }

    pub open spec fn wf(self) -> bool {
        &&& self.oam_progress <= 640
        &&& self.hdma_len <= 0x7F
    }

    /// The HDMA source address: the low four bits are ignored.
    pub open spec fn spec_src(self) -> u16 {
        (self.hdma_src_hi as u16 * 256 + (self.hdma_src_lo & 0xF0) as u16) as u16
    }

    /// The HDMA destination offset into VRAM: 13 bits, 16-byte aligned.
    pub open spec fn spec_dst(self) -> u16 {
        ((self.hdma_dst_hi & 0x1F) as u16 * 256 + (self.hdma_dst_lo & 0xF0) as u16) as u16
    }

    pub fn new() -> (r: Dma)
        ensures
            r == (Dma {
                oam_active: false,
                oam_source: 0,
                oam_progress: 0,
                hdma_active: false,
                hdma_src_hi: 0,
                hdma_src_lo: 0,
                hdma_dst_hi: 0,
                hdma_dst_lo: 0,
                hdma_len: 0,
                pending_cycles: 0,
            }),
            r.wf(),
    {
        Dma {
            oam_active: false,
            oam_source: 0,
            oam_progress: 0,
            hdma_active: false,
            hdma_src_hi: 0,
            hdma_src_lo: 0,
            hdma_dst_hi: 0,
            hdma_dst_lo: 0,
            hdma_len: 0,
            pending_cycles: 0,
        }
    }
}

} // verus!
