//! Bus-level laws: facts the memory map guarantees, proved once over the
//! read and write specifications.
use crate::cartridge::Cartridge;
use crate::memory::MemoryBus;
use vstd::prelude::*;

verus! {

/// Echo RAM, reads: every address in 0xE000-0xFDFF reads the same byte as
/// the address 0x2000 below it.
pub proof fn lemma_echo_read(m: MemoryBus, addr: u16)
    requires
        0xE000 <= addr <= 0xFDFF,
    ensures
        m.spec_read8(addr) == m.spec_read8((addr - 0x2000) as u16),
{
}

/// Echo RAM, writes: a write in 0xE000-0xFDFF relates the bus exactly as
/// the same write 0x2000 below does.
pub proof fn lemma_echo_write(pre: MemoryBus, addr: u16, v: u8, post: MemoryBus)
    requires
        0xE000 <= addr <= 0xFDFF,
    ensures
        MemoryBus::spec_write8(pre, addr, v, post) <==> MemoryBus::spec_write8(
            pre,
            (addr - 0x2000) as u16,
            v,
            post,
        ),
{
}

/// Whether `addr` is plain storage that reads back what was written: WRAM
/// (echo included), HRAM, or enabled in-range cartridge RAM.
pub open spec fn spec_plain_ram(m: MemoryBus, addr: u16) -> bool {
    ||| (0xC000 <= addr < 0xFE00)
    ||| (0xFF80 <= addr < 0xFFFF)
    ||| (0xA000 <= addr < 0xC000 && match m.cartridge {
        Some(c) => c.ram_enable && !c.spec_rtc_mapped() && c.spec_ram_bank() * 0x2000 + (addr
            - 0xA000) < c.ram@.len(),
        None => false,
    })
}

/// Round trip: when the bus is not under the OAM-DMA lockout, a write to
/// WRAM, HRAM or enabled cartridge RAM reads back the written value.
pub proof fn lemma_write_read_roundtrip(pre: MemoryBus, addr: u16, v: u8, post: MemoryBus)
    requires
        pre.wf(),
        !pre.dma.oam_active,
        spec_plain_ram(pre, addr),
        MemoryBus::spec_write8(pre, addr, v, post),
    ensures
        post.spec_read8(addr) == v,
{
    if 0xA000 <= addr < 0xC000 {
        match (pre.cartridge, post.cartridge) {
            (Some(c0), Some(c1)) => {
                assert(Cartridge::spec_write(c0, addr, v, c1));
                assert(c1.spec_read(addr) == v);
            },
            _ => {},
        }
    }
}

/// OAM-DMA lockout: while an OAM DMA is in flight, every read outside
/// HRAM and IE returns 0xFF.
pub proof fn lemma_oam_dma_lockout(m: MemoryBus, addr: u16)
    requires
        m.dma.oam_active,
        addr < 0xFF80,
    ensures
        m.spec_read8(addr) == 0xFF,
{
}

/// DIV: any write to 0xFF04 (outside the OAM-DMA lockout) zeroes the
/// internal counter, and DIV then reads as 0.
pub proof fn lemma_div_write_resets(pre: MemoryBus, v: u8, post: MemoryBus)
    requires
        !pre.dma.oam_active,
        MemoryBus::spec_write8(pre, 0xFF04, v, post),
    ensures
        post.timer.counter == 0,
        post.spec_read8(0xFF04) == 0,
{
}

} // verus!
