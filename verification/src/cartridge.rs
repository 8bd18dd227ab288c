//! The cartridge: header parsing and the memory bank controller that maps
//! bus accesses in 0x0000-0x7FFF and 0xA000-0xBFFF onto banked ROM and RAM.
use crate::util::lemma_mask_bounds;
use vstd::prelude::*;

verus! {

/// Construction errors: a ROM image is rejected before the machine starts,
/// never mid-frame.
#[derive(Clone, Copy, PartialEq, Eq, Structural, Debug)]
pub enum Error {
    /// The image is empty or its size is not a multiple of 16 KiB.
    InvalidRom,
    /// The MBC type byte at 0x147 names a controller this core does not
    /// support; the byte is carried along.
    UnsupportedMbc(u8),
    /// The header checksum at 0x14D does not match the header bytes.
    BadChecksum,
}

#[derive(Clone, Copy, PartialEq, Eq, Structural, Debug)]
pub enum MbcKind {
    NoMbc,
    Mbc1,
    Mbc2,
    Mbc3,
    Mbc5,
}

/// Sum of `0xFF - rom[i]` over `0x134..0x134 + n`, reduced mod 256: the
/// running header checksum after `n` header bytes.
pub open spec fn spec_checksum(rom: Seq<u8>, n: nat) -> u8
    decreases n,
{
    if n == 0 {
        0
    } else {
        ((spec_checksum(rom, (n - 1) as nat) + 0xFF - rom[0x134 + n - 1]) % 256) as u8
    }
}

/// The MBC kind a type byte at 0x147 selects, if supported.
pub open spec fn spec_mbc_kind(code: u8) -> Option<MbcKind> {
    if code == 0x00 {
        Some(MbcKind::NoMbc)
    } else if 0x01 <= code <= 0x03 {
        Some(MbcKind::Mbc1)
    } else if 0x05 <= code <= 0x06 {
        Some(MbcKind::Mbc2)
    } else if 0x0F <= code <= 0x13 {
        Some(MbcKind::Mbc3)
    } else if 0x19 <= code <= 0x1E {
        Some(MbcKind::Mbc5)
    } else {
        None
    }
}

/// Whether the type byte names a battery-backed cartridge.
pub open spec fn spec_has_battery(code: u8) -> bool {
    code == 0x03 || code == 0x06 || code == 0x0D || code == 0x0F || code == 0x10 || code == 0x13
        || code == 0x1B || code == 0x1E
}

/// The RAM size in bytes the code at 0x149 asks for (MBC2 carries its own
/// 512 half-bytes instead).
pub open spec fn spec_ram_size(code: u8) -> nat {
    if code == 1 {
        0x800
    } else if code == 2 {
        0x2000
    } else if code == 3 {
        0x8000
    } else if code == 4 {
        0x20000
    } else if code == 5 {
        0x10000
    } else {
        0
    }
}

pub struct Cartridge {
    pub rom: Vec<u8>,
    pub ram: Vec<u8>,
    pub mbc: MbcKind,
    /// The raw type byte at 0x147.
    pub mbc_code: u8,
    /// CGB flag: bit 7 of 0x143.
    pub cgb: bool,
    pub ram_enable: bool,
    /// Low ROM-bank register (5 bits on MBC1, 7 on MBC3, 8 on MBC5).
    pub rom_bank_lo: u8,
    /// High ROM-bank bits (2 on MBC1, the 9th bit on MBC5).
    pub rom_bank_hi: u8,
    /// RAM bank selector; 0x08-0x0C on MBC3 maps the RTC registers.
    pub ram_bank: u8,
    /// MBC1 banking-mode bit.
    pub mode: bool,
    /// MBC3 real-time-clock registers (seconds, minutes, hours, day low,
    /// day high), a readable/writable stub.
    pub rtc: [u8; 5],
}

impl Cartridge {
    /// A loaded image always keeps a whole number of 16 KiB banks, at least
    /// one, and RAM small enough for bank arithmetic to stay in bounds.
    pub open spec fn wf(self) -> bool {
        &&& self.rom@.len() >= 0x4000
        &&& self.rom@.len() % 0x4000 == 0
        &&& self.rom@.len() <= 0x800000
        &&& self.ram@.len() <= 0x20000
        &&& self.rom_bank_hi <= 3
        &&& self.ram_bank <= 15
    }

    pub open spec fn spec_rom_banks(self) -> int {
        self.rom@.len() as int / 0x4000
    }

    /// The ROM bank mapped at 0x4000-0x7FFF.
    pub open spec fn spec_rom_bank(self) -> int {
        (self.rom_bank_hi as int * 32 + self.rom_bank_lo as int) % self.spec_rom_banks()
    }

    /// The RAM bank in use (MBC1 uses the high bits only in mode 1).
    pub open spec fn spec_ram_bank(self) -> int {
        match self.mbc {
            MbcKind::Mbc1 => if self.mode {
                self.rom_bank_hi as int
            } else {
                0
            },
            MbcKind::Mbc2 => 0,
            _ => self.ram_bank as int,
        }
    }

    /// Whether 0xA000-0xBFFF currently reads the MBC3 RTC registers.
    pub open spec fn spec_rtc_mapped(self) -> bool {
        self.mbc == MbcKind::Mbc3 && 0x08 <= self.ram_bank <= 0x0C
    }

    /// What a bus read of `addr` returns, for addresses the cartridge owns.
    pub open spec fn spec_read(self, addr: u16) -> u8 {
        if addr < 0x4000 {
            self.rom@[addr as int]
        } else if addr < 0x8000 {
            self.rom@[self.spec_rom_bank() * 0x4000 + (addr - 0x4000)]
        } else if 0xA000 <= addr < 0xC000 {
            if !self.ram_enable {
                0xFF
            } else if self.spec_rtc_mapped() {
                self.rtc@[self.ram_bank - 8]
            } else {
                let idx = self.spec_ram_bank() * 0x2000 + (addr - 0xA000);
                if idx < self.ram@.len() {
                    self.ram@[idx]
                } else {
                    0xFF
                }
            }
        } else {
            0xFF
        }
    }

    /// How a bus write of `v` at `addr` changes the cartridge state:
    /// writes below 0x8000 are never stores, they set bank registers.
    pub open spec fn spec_write(pre: Cartridge, addr: u16, v: u8, post: Cartridge) -> bool {
        if addr < 0x2000 && pre.mbc != MbcKind::Mbc2 {
            post == (Cartridge { ram_enable: v & 0x0F == 0x0A, ..pre })
        } else if addr < 0x4000 {
            match pre.mbc {
                MbcKind::NoMbc => post == pre,
                MbcKind::Mbc1 => post == (Cartridge {
                    rom_bank_lo: if v & 0x1F == 0 {
                        1
                    } else {
                        (v & 0x1F) as u8
                    },
                    ..pre
                }),
                MbcKind::Mbc2 => if addr & 0x100 != 0 {
                    post == (Cartridge {
                        rom_bank_lo: if v & 0x0F == 0 {
                            1
                        } else {
                            (v & 0x0F) as u8
                        },
                        ..pre
                    })
                } else if addr < 0x2000 {
                    post == (Cartridge { ram_enable: v & 0x0F == 0x0A, ..pre })
                } else {
                    post == pre
                },
                MbcKind::Mbc3 => post == (Cartridge {
                    rom_bank_lo: if v & 0x7F == 0 {
                        1
                    } else {
                        (v & 0x7F) as u8
                    },
                    ..pre
                }),
                MbcKind::Mbc5 => if addr < 0x3000 {
                    post == (Cartridge { rom_bank_lo: v, ..pre })
                } else {
                    post == (Cartridge { rom_bank_hi: (v & 0x01) as u8, ..pre })
                },
            }
        } else if addr < 0x6000 {
            match pre.mbc {
                MbcKind::Mbc1 => post == (Cartridge { rom_bank_hi: (v & 0x03) as u8, ..pre }),
                MbcKind::Mbc3 | MbcKind::Mbc5 => post == (Cartridge {
                    ram_bank: (v & 0x0F) as u8,
                    ..pre
                }),
                _ => post == pre,
            }
        } else if addr < 0x8000 {
            match pre.mbc {
                MbcKind::Mbc1 => post == (Cartridge { mode: v & 0x01 != 0, ..pre }),
                _ => post == pre,
            }
        } else if 0xA000 <= addr < 0xC000 && pre.ram_enable {
            if pre.spec_rtc_mapped() {
                post == (Cartridge { rtc: post.rtc, ..pre }) && post.rtc@ == pre.rtc@.update(
                    pre.ram_bank - 8,
                    v,
                )
            } else {
                let idx = pre.spec_ram_bank() * 0x2000 + (addr - 0xA000);
                if idx < pre.ram@.len() {
                    post == (Cartridge { ram: post.ram, ..pre }) && post.ram@ == pre.ram@.update(
                        idx,
                        v,
                    )
                } else {
                    post == pre
                }
            }
        } else {
            post == pre
        }
    }

    /// Parse a raw ROM image: the size must be a whole number of 16 KiB
    /// banks, the header checksum must match, and the MBC type must be
    /// supported; each failure is its own error.
    pub fn from_bytes(rom: Vec<u8>) -> (r: Result<Cartridge, Error>)
        ensures
            ({
                let size_ok = rom@.len() >= 0x4000 && rom@.len() % 0x4000 == 0 && rom@.len()
                    <= 0x800000;
                let sum_ok = spec_checksum(rom@, 25) == rom@[0x14D];
                match r {
                    Result::Err(Error::InvalidRom) => !size_ok,
                    Result::Err(Error::BadChecksum) => size_ok && !sum_ok,
                    Result::Err(Error::UnsupportedMbc(code)) => size_ok && sum_ok && code
                        == rom@[0x147] && spec_mbc_kind(code) is None,
                    Result::Ok(cart) => size_ok && sum_ok && spec_mbc_kind(rom@[0x147]) == Some(
                        cart.mbc,
                    ) && cart.wf() && cart.rom@ == rom@ && cart.mbc_code == rom@[0x147]
                        && cart.cgb == (rom@[0x143] & 0x80 != 0) && !cart.ram_enable
                        && cart.rom_bank_lo == 1 && cart.rom_bank_hi == 0 && cart.ram_bank == 0
                        && !cart.mode && (cart.mbc == MbcKind::Mbc2 ==> cart.ram@.len() == 0x200)
                        && (cart.mbc != MbcKind::Mbc2 ==> cart.ram@.len() == spec_ram_size(
                        rom@[0x149],
                    )) && (forall|i: int| 0 <= i < cart.ram@.len() ==> cart.ram@[i] == 0),
                }
            }),
    {
        if rom.len() < 0x4000 || rom.len() % 0x4000 != 0 || rom.len() > 0x800000 {
            return Err(Error::InvalidRom);
        }
        // Header checksum over 0x134..=0x14C.
        let mut sum: u8 = 0;
        let mut i: usize = 0;
        while i < 25
            invariant
                i <= 25,
                rom@.len() >= 0x4000,
                sum == spec_checksum(rom@, i as nat),
            decreases 25 - i,
        {
            sum = ((sum as u32 + 0xFF - rom[0x134 + i] as u32) % 256) as u8;
            i = i + 1;
        }
        if sum != rom[0x14D] {
            return Err(Error::BadChecksum);
        }
        let code = rom[0x147];
        let mbc = match mbc_kind(code) {
            Some(m) => m,
            None => {
                return Err(Error::UnsupportedMbc(code));
            },
        };
        let ram_len: usize = if let MbcKind::Mbc2 = mbc {
            0x200
        } else {
            ram_size(rom[0x149])
        };
        let ram = zero_vec(ram_len);
        let cgb = rom[0x143] & 0x80 != 0;
        Ok(
            Cartridge {
                rom,
                ram,
                mbc,
                mbc_code: code,
                cgb,
                ram_enable: false,
                rom_bank_lo: 1,
                rom_bank_hi: 0,
                ram_bank: 0,
                mode: false,
                rtc: [0u8, 0u8, 0u8, 0u8, 0u8],
            },
        )
    }

    /// Return the bank registers to their power-on values, as a reset
    /// does; ROM and RAM contents stay.
    pub fn reset_banks(&mut self)
        ensures
            *final(self) == (Cartridge {
                ram_enable: false,
                rom_bank_lo: 1,
                rom_bank_hi: 0,
                ram_bank: 0,
                mode: false,
                ..*old(self)
            }),
            old(self).wf() ==> final(self).wf(),
    {
        self.ram_enable = false;
        self.rom_bank_lo = 1;
        self.rom_bank_hi = 0;
        self.ram_bank = 0;
        self.mode = false;
    }

    pub fn has_battery(&self) -> (r: bool)
        ensures
            r == spec_has_battery(self.mbc_code),
    {
        self.mbc_code == 0x03 || self.mbc_code == 0x06 || self.mbc_code == 0x0D || self.mbc_code
            == 0x0F || self.mbc_code == 0x10 || self.mbc_code == 0x13 || self.mbc_code == 0x1B
            || self.mbc_code == 0x1E
    }

    /// A copy of the cartridge RAM, for battery-backed persistence.
    pub fn dump_ram(&self) -> (r: Vec<u8>)
        ensures
            r@ == self.ram@,
    {
        let mut out: Vec<u8> = Vec::new();
        let mut i: usize = 0;
        while i < self.ram.len()
            invariant
                i <= self.ram@.len(),
                out@ == self.ram@.subrange(0, i as int),
            decreases self.ram@.len() - i,
        {
            out.push(self.ram[i]);
            i = i + 1;
        }
        proof {
            assert(out@ =~= self.ram@);
        }
        out
    }

    /// Load battery-backed RAM of matching size.
    pub fn load_ram(&mut self, data: &Vec<u8>) -> (r: bool)
        ensures
            r == (data@.len() == old(self).ram@.len()),
            r ==> *final(self) == (Cartridge { ram: final(self).ram, ..*old(self) })
                && final(self).ram@ == data@,
            !r ==> *final(self) == *old(self),
    {
        if data.len() != self.ram.len() {
            return false;
        }
        let mut out: Vec<u8> = Vec::new();
        let mut i: usize = 0;
        while i < data.len()
            invariant
                i <= data@.len(),
                out@ == data@.subrange(0, i as int),
            decreases data@.len() - i,
        {
            out.push(data[i]);
            i = i + 1;
        }
        proof {
            assert(out@ =~= data@);
        }
        self.ram = out;
        true
    }

    /// A bus read the cartridge owns.
    pub fn read(&self, addr: u16) -> (r: u8)
        requires
            self.wf(),
        ensures
            r == self.spec_read(addr),
    {
        if addr < 0x4000 {
            self.rom[addr as usize]
        } else if addr < 0x8000 {
            let banks: usize = self.rom.len() / 0x4000;
            let bank: usize = (self.rom_bank_hi as usize * 32 + self.rom_bank_lo as usize) % banks;
            let idx: usize = bank * 0x4000 + (addr as usize - 0x4000);
            proof {
                assert(bank * 0x4000 + 0x4000 <= banks * 0x4000) by (nonlinear_arith)
                    requires
                        bank < banks,
                ;
                vstd::arithmetic::div_mod::lemma_fundamental_div_mod(
                    self.rom@.len() as int,
                    0x4000,
                );
            }
            self.rom[idx]
        } else if 0xA000 <= addr && addr < 0xC000 {
            if !self.ram_enable {
                0xFF
            } else if self.rtc_mapped() {
                self.rtc[self.ram_bank as usize - 8]
            } else {
                let idx: usize = self.ram_bank_used() * 0x2000 + (addr as usize - 0xA000);
                if idx < self.ram.len() {
                    self.ram[idx]
                } else {
                    0xFF
                }
            }
        } else {
            0xFF
        }
    }

    fn rtc_mapped(&self) -> (r: bool)
        ensures
            r == self.spec_rtc_mapped(),
    {
        match self.mbc {
            MbcKind::Mbc3 => 0x08 <= self.ram_bank && self.ram_bank <= 0x0C,
            _ => false,
        }
    }

    fn ram_bank_used(&self) -> (r: usize)
        requires
            self.wf(),
        ensures
            r == self.spec_ram_bank(),
            r <= 15,
    {
        match self.mbc {
            MbcKind::Mbc1 => if self.mode {
                self.rom_bank_hi as usize
            } else {
                0
            },
            MbcKind::Mbc2 => 0,
            _ => self.ram_bank as usize,
        }
    }

    /// A bus write the cartridge owns.
    pub fn write(&mut self, addr: u16, v: u8)
        requires
            old(self).wf(),
        ensures
            Cartridge::spec_write(*old(self), addr, v, *final(self)),
            final(self).wf(),
            final(self).rom@ == old(self).rom@,
            final(self).ram@.len() == old(self).ram@.len(),
            final(self).mbc == old(self).mbc,
            final(self).mbc_code == old(self).mbc_code,
    {
        proof {
            lemma_mask_bounds(v);
        }
        if addr < 0x2000 && !matches!(self.mbc, MbcKind::Mbc2) {
            self.ram_enable = v & 0x0F == 0x0A;
        } else if addr < 0x4000 {
            match self.mbc {
                MbcKind::NoMbc => {},
                MbcKind::Mbc1 => {
                    self.rom_bank_lo = if v & 0x1F == 0 {
                        1
                    } else {
                        v & 0x1F
                    };
                },
                MbcKind::Mbc2 => {
                    if addr & 0x100 != 0 {
                        self.rom_bank_lo = if v & 0x0F == 0 {
                            1
                        } else {
                            v & 0x0F
                        };
                    } else if addr < 0x2000 {
                        self.ram_enable = v & 0x0F == 0x0A;
                    }
                },
                MbcKind::Mbc3 => {
                    self.rom_bank_lo = if v & 0x7F == 0 {
                        1
                    } else {
                        v & 0x7F
                    };
                },
                MbcKind::Mbc5 => {
                    if addr < 0x3000 {
                        self.rom_bank_lo = v;
                    } else {
                        self.rom_bank_hi = v & 0x01;
                    }
                },
            }
        } else if addr < 0x6000 {
            match self.mbc {
                MbcKind::Mbc1 => {
                    self.rom_bank_hi = v & 0x03;
                },
                MbcKind::Mbc3 | MbcKind::Mbc5 => {
                    self.ram_bank = v & 0x0F;
                },
                _ => {},
            }
        } else if addr < 0x8000 {
            match self.mbc {
                MbcKind::Mbc1 => {
                    self.mode = v & 0x01 != 0;
                },
                _ => {},
            }
        } else if 0xA000 <= addr && addr < 0xC000 && self.ram_enable {
            if self.rtc_mapped() {
                self.rtc[self.ram_bank as usize - 8] = v;
            } else {
                let idx: usize = self.ram_bank_used() * 0x2000 + (addr as usize - 0xA000);
                if idx < self.ram.len() {
                    self.ram[idx] = v;
                }
            }
        }
    }
}

pub fn mbc_kind(code: u8) -> (r: Option<MbcKind>)
    ensures
        r == spec_mbc_kind(code),
{
    if code == 0x00 {
        Some(MbcKind::NoMbc)
    } else if 0x01 <= code && code <= 0x03 {
        Some(MbcKind::Mbc1)
    } else if 0x05 <= code && code <= 0x06 {
        Some(MbcKind::Mbc2)
    } else if 0x0F <= code && code <= 0x13 {
        Some(MbcKind::Mbc3)
    } else if 0x19 <= code && code <= 0x1E {
        Some(MbcKind::Mbc5)
    } else {
        None
    }
}

pub fn ram_size(code: u8) -> (r: usize)
    ensures
        r == spec_ram_size(code),
{
    if code == 1 {
        0x800
    } else if code == 2 {
        0x2000
    } else if code == 3 {
        0x8000
    } else if code == 4 {
        0x20000
    } else if code == 5 {
        0x10000
    } else {
        0
    }
}

/// A vector of `n` zero bytes.
pub fn zero_vec(n: usize) -> (r: Vec<u8>)
    ensures
        r@.len() == n,
        forall|i: int| 0 <= i < n ==> r@[i] == 0,
{
    let mut out: Vec<u8> = Vec::new();
    let mut i: usize = 0;
    while i < n
        invariant
            i <= n,
            out@.len() == i,
            forall|j: int| 0 <= j < i ==> out@[j] == 0,
        decreases n - i,
    {
        out.push(0);
        i = i + 1;
    }
    out
}

} // verus!
