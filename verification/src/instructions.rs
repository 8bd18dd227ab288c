//! Instruction metadata: the decoded form `fetch` returns, and the length
//! table of the 256 primary opcodes (every CB-prefixed instruction is two
//! bytes long).
use vstd::prelude::*;

verus! {

/// One decoded instruction, as the debugger sees it: where it was fetched,
/// its opcode (with the CB page flag), the raw immediate bytes, the total
/// length in bytes, and the base (branch-not-taken) cycle cost.
#[derive(Clone, Copy, PartialEq, Eq, Structural, Debug)]
pub struct Instruction {
    pub addr: u16,
    pub opcode: u8,
    pub cb: bool,
    pub imm: u16,
    pub len: u8,
    pub cycles: u8,
}

/// The branch-not-taken T-cycle cost of a primary-page opcode (the CB
/// prefix byte itself carries its page's cost via `spec_cb_cycles`).
pub open spec fn spec_opcode_cycles(op: u8) -> u8 {
    let x = op / 64;
    let y = (op / 8) % 8;
    let z = op % 8;
    let p = (op / 16) % 4;
    let q = (op / 8) % 2;
    if x == 0 {
        if z == 0 {
            if y == 1 {
                20
            } else if y == 3 {
                12
            } else if y >= 4 {
                8
            } else {
                4
            }
        } else if z == 1 {
            if q == 0 {
                12
            } else {
                8
            }
        } else if z == 2 || z == 3 {
            8
        } else if z == 4 || z == 5 {
            if y == 6 {
                12
            } else {
                4
            }
        } else if z == 6 {
            if y == 6 {
                12
            } else {
                8
            }
        } else {
            4
        }
    } else if x == 1 {
        if op == 0x76 {
            4
        } else if y == 6 || z == 6 {
            8
        } else {
            4
        }
    } else if x == 2 {
        if z == 6 {
            8
        } else {
            4
        }
    } else {
        if spec_is_undefined(op) {
            4
        } else if z == 0 {
            if y < 4 {
                8
            } else if y == 5 {
                16
            } else {
                12
            }
        } else if z == 1 {
            if q == 0 {
                12
            } else if p == 2 {
                4
            } else if p == 3 {
                8
            } else {
                16
            }
        } else if z == 2 {
            if y < 4 {
                12
            } else if y == 4 || y == 6 {
                8
            } else {
                16
            }
        } else if z == 3 {
            if y == 0 {
                16
            } else {
                4
            }
        } else if z == 4 {
            12
        } else if z == 5 {
            if q == 0 {
                16
            } else {
                24
            }
        } else if z == 6 {
            8
        } else {
            16
        }
    }
}

/// The T-cycle cost of a CB-page opcode.
pub open spec fn spec_cb_cycles(code: u8) -> u8 {
    let x = code / 64;
    let z = code % 8;
    if z == 6 {
        if x == 1 {
            12
        } else {
            16
        }
    } else {
        8
    }
}

pub fn opcode_cycles(op: u8) -> (r: u8)
    ensures
        r == spec_opcode_cycles(op),
{
    let x: u8 = op / 64;
    let y: u8 = (op / 8) % 8;
    let z: u8 = op % 8;
    let p: u8 = (op / 16) % 4;
    let q: u8 = (op / 8) % 2;
    if x == 0 {
        if z == 0 {
            if y == 1 {
                20
            } else if y == 3 {
                12
            } else if y >= 4 {
                8
            } else {
                4
            }
        } else if z == 1 {
            if q == 0 {
                12
            } else {
                8
            }
        } else if z == 2 || z == 3 {
            8
        } else if z == 4 || z == 5 {
            if y == 6 {
                12
            } else {
                4
            }
        } else if z == 6 {
            if y == 6 {
                12
            } else {
                8
            }
        } else {
            4
        }
    } else if x == 1 {
        if op == 0x76 {
            4
        } else if y == 6 || z == 6 {
            8
        } else {
            4
        }
    } else if x == 2 {
        if z == 6 {
            8
        } else {
            4
        }
    } else {
        if is_undefined(op) {
            4
        } else if z == 0 {
            if y < 4 {
                8
            } else if y == 5 {
                16
            } else {
                12
            }
        } else if z == 1 {
            if q == 0 {
                12
            } else if p == 2 {
                4
            } else if p == 3 {
                8
            } else {
                16
            }
        } else if z == 2 {
            if y < 4 {
                12
            } else if y == 4 || y == 6 {
                8
            } else {
                16
            }
        } else if z == 3 {
            if y == 0 {
                16
            } else {
                4
            }
        } else if z == 4 {
            12
        } else if z == 5 {
            if q == 0 {
                16
            } else {
                24
            }
        } else if z == 6 {
            8
        } else {
            16
        }
    }
}

pub fn cb_cycles(code: u8) -> (r: u8)
    ensures
        r == spec_cb_cycles(code),
{
    let x: u8 = code / 64;
    let z: u8 = code % 8;
    if z == 6 {
        if x == 1 {
            12
        } else {
            16
        }
    } else {
        8
    }
}

/// The byte length of a primary-page opcode, immediates included.
pub open spec fn spec_opcode_len(op: u8) -> u8 {
    if op == 0xCB {
        2
    } else if op == 0x01 || op == 0x11 || op == 0x21 || op == 0x31 || op == 0x08 || op == 0xC2
        || op == 0xC3 || op == 0xCA || op == 0xD2 || op == 0xDA || op == 0xC4 || op == 0xCC || op
        == 0xCD || op == 0xD4 || op == 0xDC || op == 0xEA || op == 0xFA {
        3
    } else if op == 0x06 || op == 0x0E || op == 0x16 || op == 0x1E || op == 0x26 || op == 0x2E
        || op == 0x36 || op == 0x3E || op == 0x18 || op == 0x20 || op == 0x28 || op == 0x30 || op
        == 0x38 || op == 0xC6 || op == 0xCE || op == 0xD6 || op == 0xDE || op == 0xE6 || op == 0xEE
        || op == 0xF6 || op == 0xFE || op == 0xE0 || op == 0xF0 || op == 0xE8 || op == 0xF8 || op
        == 0x10 {
        2
    } else {
        1
    }
}

pub fn opcode_len(op: u8) -> (r: u8)
    ensures
        r == spec_opcode_len(op),
        1 <= r <= 3,
{
    if op == 0xCB {
        2
    } else if op == 0x01 || op == 0x11 || op == 0x21 || op == 0x31 || op == 0x08 || op == 0xC2
        || op == 0xC3 || op == 0xCA || op == 0xD2 || op == 0xDA || op == 0xC4 || op == 0xCC || op
        == 0xCD || op == 0xD4 || op == 0xDC || op == 0xEA || op == 0xFA {
        3
    } else if op == 0x06 || op == 0x0E || op == 0x16 || op == 0x1E || op == 0x26 || op == 0x2E
        || op == 0x36 || op == 0x3E || op == 0x18 || op == 0x20 || op == 0x28 || op == 0x30 || op
        == 0x38 || op == 0xC6 || op == 0xCE || op == 0xD6 || op == 0xDE || op == 0xE6 || op == 0xEE
        || op == 0xF6 || op == 0xFE || op == 0xE0 || op == 0xF0 || op == 0xE8 || op == 0xF8 || op
        == 0x10 {
        2
    } else {
        1
    }
}

/// Whether the opcode is one of the eleven undefined bytes that lock the
/// CPU.
pub open spec fn spec_is_undefined(op: u8) -> bool {
    op == 0xD3 || op == 0xDB || op == 0xDD || op == 0xE3 || op == 0xE4 || op == 0xEB || op == 0xEC
        || op == 0xED || op == 0xF4 || op == 0xFC || op == 0xFD
}

pub fn is_undefined(op: u8) -> (r: bool)
    ensures
        r == spec_is_undefined(op),
{
    op == 0xD3 || op == 0xDB || op == 0xDD || op == 0xE3 || op == 0xE4 || op == 0xEB || op == 0xEC
        || op == 0xED || op == 0xF4 || op == 0xFC || op == 0xFD
}

} // verus!
