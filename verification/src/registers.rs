//! The CPU register file: eight 8-bit registers pairable as AF, BC, DE and
//! HL, plus the 16-bit SP and PC. The low nibble of F is always zero; the
//! high nibble holds the flags Z (bit 7), N (bit 6), H (bit 5) and C (bit 4).
use vstd::prelude::*;

verus! {

/// The byte that the four flags compose: Z in bit 7, N in 6, H in 5, C in 4,
/// low nibble zero.
pub open spec fn flags_byte(z: bool, n: bool, h: bool, c: bool) -> u8 {
    ((if z { 0x80u8 } else { 0u8 }) + (if n { 0x40u8 } else { 0u8 })
        + (if h { 0x20u8 } else { 0u8 }) + (if c { 0x10u8 } else { 0u8 })) as u8
}

pub proof fn lemma_flags_byte(z: bool, n: bool, h: bool, c: bool)
    by (bit_vector)
    ensures
        flags_byte(z, n, h, c) & 0x0F == 0,
        (flags_byte(z, n, h, c) & 0x80 != 0) == z,
        (flags_byte(z, n, h, c) & 0x40 != 0) == n,
        (flags_byte(z, n, h, c) & 0x20 != 0) == h,
        (flags_byte(z, n, h, c) & 0x10 != 0) == c,
{
}

pub proof fn lemma_mask_high_nibble(v: u8)
    by (bit_vector)
    ensures
        (v & 0xF0) & 0x0F == 0,
        ((v & 0xF0) & 0x80 != 0) == (v & 0x80 != 0),
        ((v & 0xF0) & 0x40 != 0) == (v & 0x40 != 0),
        ((v & 0xF0) & 0x20 != 0) == (v & 0x20 != 0),
        ((v & 0xF0) & 0x10 != 0) == (v & 0x10 != 0),
        v & 0xF0 <= 0xF0,
{
}

#[derive(Clone, Copy, PartialEq, Eq, Structural, Debug)]
pub struct Registers {
    pub a: u8,
    pub f: u8,
    pub b: u8,
    pub c: u8,
    pub d: u8,
    pub e: u8,
    pub h: u8,
    pub l: u8,
    pub sp: u16,
    pub pc: u16,
}

impl Registers {
    /// The register file is well formed when the low nibble of F is zero.
    pub open spec fn wf(self) -> bool {
        self.f & 0x0F == 0
    }

    pub open spec fn flag_z(self) -> bool {
        self.f & 0x80 != 0
    }

    pub open spec fn flag_n(self) -> bool {
        self.f & 0x40 != 0
    }

    pub open spec fn flag_h(self) -> bool {
        self.f & 0x20 != 0
    }

    pub open spec fn flag_c(self) -> bool {
        self.f & 0x10 != 0
    }

    pub open spec fn spec_af(self) -> u16 {
        (self.a as u16 * 256 + self.f as u16) as u16
    }

    pub open spec fn spec_bc(self) -> u16 {
        (self.b as u16 * 256 + self.c as u16) as u16
    }

    pub open spec fn spec_de(self) -> u16 {
        (self.d as u16 * 256 + self.e as u16) as u16
    }

    pub open spec fn spec_hl(self) -> u16 {
        (self.h as u16 * 256 + self.l as u16) as u16
    }

    /// The post-boot CGB register values as a single value.
    pub open spec fn post_boot_value() -> Registers {
        Registers {
            a: 0x11,
            f: 0x80,
            b: 0x00,
            c: 0x00,
            d: 0xFF,
            e: 0x56,
            h: 0x00,
            l: 0x0D,
            sp: 0xFFFE,
            pc: 0x0100,
        }
    }

    /// The post-boot CGB register values, applied when the BIOS is skipped.
    pub fn post_boot() -> (r: Registers)
        ensures
            r == Registers::post_boot_value(),
            r.wf(),
            r.a == 0x11 && r.f == 0x80,
            r.b == 0x00 && r.c == 0x00,
            r.d == 0xFF && r.e == 0x56,
            r.h == 0x00 && r.l == 0x0D,
            r.sp == 0xFFFE && r.pc == 0x0100,
    {
        proof {
            assert(0x80u8 & 0x0F == 0) by (bit_vector);
        }
        Registers {
            a: 0x11,
            f: 0x80,
            b: 0x00,
            c: 0x00,
            d: 0xFF,
            e: 0x56,
            h: 0x00,
            l: 0x0D,
            sp: 0xFFFE,
            pc: 0x0100,
        }
    }

    pub fn get_z(&self) -> (r: bool)
        ensures
            r == self.flag_z(),
    {
        self.f & 0x80 != 0
    }

    pub fn get_n(&self) -> (r: bool)
        ensures
            r == self.flag_n(),
    {
        self.f & 0x40 != 0
    }

    pub fn get_h(&self) -> (r: bool)
        ensures
            r == self.flag_h(),
    {
        self.f & 0x20 != 0
    }

    pub fn get_c(&self) -> (r: bool)
        ensures
            r == self.flag_c(),
    {
        self.f & 0x10 != 0
    }

    /// Store all four flags at once; every ALU result goes through here, so
    /// the low nibble of F stays zero.
    pub fn set_flags(&mut self, z: bool, n: bool, h: bool, c: bool)
        ensures
            *final(self) == (Registers { f: flags_byte(z, n, h, c), ..*old(self) }),
            final(self).wf(),
            final(self).flag_z() == z,
            final(self).flag_n() == n,
            final(self).flag_h() == h,
            final(self).flag_c() == c,
    {
        proof {
            lemma_flags_byte(z, n, h, c);
        }
        let mut v: u8 = 0;
        if z {
            v = v + 0x80;
        }
        if n {
            v = v + 0x40;
        }
        if h {
            v = v + 0x20;
        }
        if c {
            v = v + 0x10;
        }
        self.f = v;
    }

    /// Store a raw byte into F; the low nibble is masked away.
    pub fn set_f(&mut self, v: u8)
        ensures
            *final(self) == (Registers { f: (v & 0xF0) as u8, ..*old(self) }),
            final(self).wf(),
            final(self).flag_z() == (v & 0x80 != 0),
            final(self).flag_n() == (v & 0x40 != 0),
            final(self).flag_h() == (v & 0x20 != 0),
            final(self).flag_c() == (v & 0x10 != 0),
    {
        proof {
            lemma_mask_high_nibble(v);
        }
        self.f = v & 0xF0;
    }

    pub fn af(&self) -> (r: u16)
        ensures
            r == self.spec_af(),
    {
        self.a as u16 * 256 + self.f as u16
    }

    pub fn bc(&self) -> (r: u16)
        ensures
            r == self.spec_bc(),
    {
        self.b as u16 * 256 + self.c as u16
    }

    pub fn de(&self) -> (r: u16)
        ensures
            r == self.spec_de(),
    {
        self.d as u16 * 256 + self.e as u16
    }

    pub fn hl(&self) -> (r: u16)
        ensures
            r == self.spec_hl(),
    {
        self.h as u16 * 256 + self.l as u16
    }

    /// Writes to AF mask the low nibble of F.
    pub fn set_af(&mut self, v: u16)
        ensures
            final(self).a == v / 256,
            final(self).f == ((v % 256) as u8) & 0xF0,
            final(self).wf(),
            *final(self) == (Registers {
                a: (v / 256) as u8,
                f: (((v % 256) as u8) & 0xF0) as u8,
                ..*old(self)
            }),
    {
        self.a = (v / 256) as u8;
        self.set_f((v % 256) as u8);
    }

    pub fn set_bc(&mut self, v: u16)
        ensures
            *final(self) == (Registers { b: (v / 256) as u8, c: (v % 256) as u8, ..*old(self) }),
            final(self).spec_bc() == v,
    {
        self.b = (v / 256) as u8;
        self.c = (v % 256) as u8;
    }

    pub fn set_de(&mut self, v: u16)
        ensures
            *final(self) == (Registers { d: (v / 256) as u8, e: (v % 256) as u8, ..*old(self) }),
            final(self).spec_de() == v,
    {
        self.d = (v / 256) as u8;
        self.e = (v % 256) as u8;
    }

    pub fn set_hl(&mut self, v: u16)
        ensures
            *final(self) == (Registers { h: (v / 256) as u8, l: (v % 256) as u8, ..*old(self) }),
            final(self).spec_hl() == v,
    {
        self.h = (v / 256) as u8;
        self.l = (v % 256) as u8;
    }
}

} // verus!
