//! Small shared facts about byte masks.
use vstd::prelude::*;

verus! {

pub proof fn lemma_mask_bounds(v: u8)
    by (bit_vector)
    ensures
        v & 0x01 <= 1,
        v & 0x03 <= 3,
        v & 0x07 <= 7,
        v & 0x0F <= 15,
        v & 0x1F <= 31,
        v & 0x3F <= 63,
        v & 0x7F <= 127,
        v & 0xF0 <= 240,
{
}

pub proof fn lemma_set_clear_bit(p: u8, m: u8)
    by (bit_vector)
    ensures
        m != 0 ==> (p | m) & m != 0,
        (p & !m) & m == 0,
{
}

/// The IF/IE bit an interrupt number 0..=4 occupies: VBlank 0, LCD STAT 1,
/// Timer 2, Serial 3, Joypad 4.
pub open spec fn spec_int_mask(bit: u8) -> u8 {
    if bit == 0 {
        0x01
    } else if bit == 1 {
        0x02
    } else if bit == 2 {
        0x04
    } else if bit == 3 {
        0x08
    } else {
        0x10
    }
}

pub fn int_mask(bit: u8) -> (r: u8)
    ensures
        r == spec_int_mask(bit),
        r <= 0x10,
{
    if bit == 0 {
        0x01
    } else if bit == 1 {
        0x02
    } else if bit == 2 {
        0x04
    } else if bit == 3 {
        0x08
    } else {
        0x10
    }
}

} // verus!
