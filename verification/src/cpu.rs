//! The LR35902-family CPU core: fetch, decode and execute over the memory
//! bus, interrupt servicing, HALT and STOP, and the CGB speed switch.
use crate::instructions::Instruction;
use crate::instructions::is_undefined;
use crate::instructions::opcode_len;
use crate::memory::MemoryBus;
use crate::registers::Registers;
use crate::registers::flags_byte;
use crate::util::int_mask;
use crate::util::spec_int_mask;
use vstd::prelude::*;

verus! {

#[derive(Clone, Copy, PartialEq, Eq, Structural, Debug)]
pub enum Interrupt {
    Vblank,
    LcdStat,
    Timer,
    Serial,
    Joypad,
}

/// The IF/IE bit number of an interrupt, which also orders its priority.
pub open spec fn spec_interrupt_bit(i: Interrupt) -> u8 {
    match i {
        Interrupt::Vblank => 0,
        Interrupt::LcdStat => 1,
        Interrupt::Timer => 2,
        Interrupt::Serial => 3,
        Interrupt::Joypad => 4,
    }
}

pub fn interrupt_bit(i: Interrupt) -> (r: u8)
    ensures
        r == spec_interrupt_bit(i),
        r <= 4,
{
    match i {
        Interrupt::Vblank => 0,
        Interrupt::LcdStat => 1,
        Interrupt::Timer => 2,
        Interrupt::Serial => 3,
        Interrupt::Joypad => 4,
    }
}

/// The lowest set bit among the five interrupt bits: the one dispatched.
pub open spec fn spec_lowest_bit(v: u8) -> u8 {
    if v & 0x01 != 0 {
        0
    } else if v & 0x02 != 0 {
        1
    } else if v & 0x04 != 0 {
        2
    } else if v & 0x08 != 0 {
        3
    } else {
        4
    }
}

fn lowest_bit(v: u8) -> (r: u8)
    ensures
        r == spec_lowest_bit(v),
        r <= 4,
{
    if v & 0x01 != 0 {
        0
    } else if v & 0x02 != 0 {
        1
    } else if v & 0x04 != 0 {
        2
    } else if v & 0x08 != 0 {
        3
    } else {
        4
    }
}

pub fn wadd16(a: u16, b: u16) -> (r: u16)
    ensures
        r == (a + b) % 0x10000,
{
    ((a as u32 + b as u32) % 0x10000) as u16
}

pub fn wsub16(a: u16, b: u16) -> (r: u16)
    requires
        b <= 0x10000,
    ensures
        r == (a + 0x10000 - b) % 0x10000,
{
    ((a as u32 + 0x10000 - b as u32) % 0x10000) as u16
}

/// The target of a relative jump: PC plus the sign-extended offset.
pub open spec fn spec_jr_target(pc: u16, e: u8) -> u16 {
    (((pc + e + if e < 128 {
        0int
    } else {
        0xFF00int
    }) % 0x10000) as u16)
}

fn jr_target(pc: u16, e: u8) -> (r: u16)
    ensures
        r == spec_jr_target(pc, e),
{
    let ext: u32 = if e < 128 {
        0
    } else {
        0xFF00
    };
    ((pc as u32 + e as u32 + ext) % 0x10000) as u16
}

pub struct Cpu {
    pub regs: Registers,
    pub memory: MemoryBus,
    /// Interrupt master enable.
    pub ime: bool,
    /// EI takes effect only after the following instruction.
    pub ime_pending: bool,
    pub halted: bool,
    /// STOP with no speed switch prepared.
    pub stopped: bool,
    /// An undefined opcode was executed: the CPU is locked with no wake.
    pub locked: bool,
    /// T-cycles consumed since power-on, saturating.
    pub total_cycles: u64,
}

impl Cpu {
    pub open spec fn wf(self) -> bool {
        &&& self.regs.wf()
        &&& self.memory.wf()
    }

    /// The five-bit set of interrupts both requested and enabled.
    pub open spec fn spec_pending(self) -> u8 {
        (self.memory.int_enable & self.memory.int_flags & 0x1F) as u8
    }

    /// Whether the machine runs at double speed: KEY1 bit 7.
    pub open spec fn spec_double_speed(self) -> bool {
        self.memory.key1 & 0x80 != 0
    }

    pub fn new(memory: MemoryBus) -> (r: Cpu)
        requires
            memory.wf(),
        ensures
            r.wf(),
            r.memory == memory,
            r.regs == Registers::post_boot_value(),
            !r.ime && !r.ime_pending && !r.halted && !r.stopped && !r.locked,
            r.total_cycles == 0,
    {
        Cpu {
            regs: Registers::post_boot(),
            memory,
            ime: false,
            ime_pending: false,
            halted: false,
            stopped: false,
            locked: false,
            total_cycles: 0,
        }
    }

    /// Reset the machine: registers to the post-boot values, fresh bus and
    /// component state; the cartridge stays inserted, its bank registers
    /// back at power-on, ROM and RAM contents kept.
    pub fn reset(&mut self)
        requires
            old(self).wf(),
        ensures
            final(self).wf(),
            final(self).regs == Registers::post_boot_value(),
            !final(self).ime && !final(self).ime_pending && !final(self).halted && !final(self).stopped && !final(self).locked,
            final(self).total_cycles == 0,
            old(self).memory.cartridge is None ==> final(self).memory.cartridge is None,
            ({
                match (old(self).memory.cartridge, final(self).memory.cartridge) {
                    (Some(c0), Some(c1)) => c1.rom@ == c0.rom@ && c1.ram@ == c0.ram@ && c1.mbc
                        == c0.mbc && c1.mbc_code == c0.mbc_code && c1.rom_bank_lo == 1
                        && !c1.ram_enable,
                    (None, None) => true,
                    _ => false,
                }
            }),
    {
        let mut cart = self.memory.cartridge.take();
        match &mut cart {
            Some(c) => c.reset_banks(),
            None => {},
        }
        self.memory = MemoryBus::new(cart);
        self.regs = Registers::post_boot();
        self.ime = false;
        self.ime_pending = false;
        self.halted = false;
        self.stopped = false;
        self.locked = false;
        self.total_cycles = 0;
    }

    pub fn speed(&self) -> (r: bool)
        ensures
            r == self.spec_double_speed(),
    {
        self.memory.key1 & 0x80 != 0
    }

    /// Nanoseconds per T-cycle: 238 at normal speed, 119 at double speed.
    pub fn cycle_time(&self) -> (r: u32)
        ensures
            r == if self.spec_double_speed() {
                119u32
            } else {
                238u32
            },
    {
        if self.memory.key1 & 0x80 != 0 {
            119
        } else {
            238
        }
    }

    /// Request an interrupt: set its bit in IF.
    pub fn trigger_interrupt(&mut self, i: Interrupt)
        requires
            old(self).wf(),
        ensures
            final(self).wf(),
            *final(self) == (Cpu { memory: final(self).memory, ..*old(self) }),
            final(self).memory == (MemoryBus {
                int_flags: final(self).memory.int_flags,
                ..old(self).memory
            }),
            final(self).memory.int_flags == old(self).memory.int_flags | spec_int_mask(
                spec_interrupt_bit(i),
            ),
    {
        let bit = interrupt_bit(i);
        self.memory.request_interrupt(bit);
    }

    /// What decoding at `base` yields: the opcode (CB page resolved), the
    /// immediate bytes, the length, and the branch-not-taken cycle cost.
    pub open spec fn spec_fetch(self, base: u16) -> Instruction {
        let op = self.memory.spec_read8(base);
        if op == 0xCB {
            let code = self.memory.spec_read8((((base + 1) % 0x10000) as u16));
            Instruction {
                addr: base,
                opcode: code,
                cb: true,
                imm: 0,
                len: 2,
                cycles: crate::instructions::spec_cb_cycles(code),
            }
        } else {
            let len = crate::instructions::spec_opcode_len(op);
            let imm: u16 = if len == 2 {
                self.memory.spec_read8((((base + 1) % 0x10000) as u16)) as u16
            } else if len == 3 {
                (self.memory.spec_read8((((base + 1) % 0x10000) as u16)) + self.memory.spec_read8(
                    (((base + 2) % 0x10000) as u16),
                ) * 256) as u16
            } else {
                0
            };
            Instruction {
                addr: base,
                opcode: op,
                cb: false,
                imm,
                len,
                cycles: crate::instructions::spec_opcode_cycles(op),
            }
        }
    }

    /// The address of the i-th instruction of a listing that starts at
    /// `start`: each one begins where the previous one ended.
    pub open spec fn spec_listing_addr(self, start: u16, i: nat) -> u16
        decreases i,
    {
        if i == 0 {
            start
        } else {
            let prev = self.spec_listing_addr(start, (i - 1) as nat);
            (((prev + self.spec_fetch(prev).len) % 0x10000) as u16)
        }
    }

    /// Decode the instruction at `addr` (PC when absent) without advancing
    /// anything.
    pub fn fetch(&self, addr: Option<u16>) -> (r: Instruction)
        requires
            self.wf(),
        ensures
            r == self.spec_fetch(
                match addr {
                    Some(a) => a,
                    None => self.regs.pc,
                },
            ),
            1 <= r.len <= 3,
    {
        let base: u16 = match addr {
            Some(a) => a,
            None => self.regs.pc,
        };
        let op = self.memory.read8(base);
        proof {
            let b = base as int;
            assert((((b + 1) % 0x10000) + 1) % 0x10000 == (b + 2) % 0x10000) by (nonlinear_arith);
        }
        if op == 0xCB {
            let code = self.memory.read8(wadd16(base, 1));
            Instruction {
                addr: base,
                opcode: code,
                cb: true,
                imm: 0,
                len: 2,
                cycles: crate::instructions::cb_cycles(code),
            }
        } else {
            let len = opcode_len(op);
            let imm: u16 = if len == 2 {
                self.memory.read8(wadd16(base, 1)) as u16
            } else if len == 3 {
                self.memory.read16(wadd16(base, 1))
            } else {
                0
            };
            Instruction {
                addr: base,
                opcode: op,
                cb: false,
                imm,
                len,
                cycles: crate::instructions::opcode_cycles(op),
            }
        }
    }

    /// Decode `count` instructions starting at `start` (PC when absent):
    /// the i-th entry is the decode at the i-th successive address.
    pub fn disassemble(&self, count: usize, start: Option<u16>) -> (r: Vec<Instruction>)
        requires
            self.wf(),
        ensures
            r@.len() == count,
            ({
                let base: u16 = match start {
                    Some(a) => a,
                    None => self.regs.pc,
                };
                forall|i: int|
                    0 <= i < count ==> r@[i] == self.spec_fetch(
                        self.spec_listing_addr(base, i as nat),
                    )
            }),
    {
        let mut out: Vec<Instruction> = Vec::new();
        let base: u16 = match start {
            Some(a) => a,
            None => self.regs.pc,
        };
        let mut addr: u16 = base;
        let mut i: usize = 0;
        while i < count
            invariant
                self.wf(),
                i <= count,
                out@.len() == i,
                addr == self.spec_listing_addr(base, i as nat),
                forall|j: int|
                    0 <= j < i ==> out@[j] == self.spec_fetch(
                        self.spec_listing_addr(base, j as nat),
                    ),
            decreases count - i,
        {
            let inst = self.fetch(Some(addr));
            addr = wadd16(addr, inst.len as u16);
            out.push(inst);
            i = i + 1;
        }
        out
    }

    /// The 8-bit operand the three-bit register code selects: B, C, D, E,
    /// H, L, the byte at (HL), A.
    pub open spec fn spec_r8(self, idx: u8) -> u8 {
        if idx == 0 {
            self.regs.b
        } else if idx == 1 {
            self.regs.c
        } else if idx == 2 {
            self.regs.d
        } else if idx == 3 {
            self.regs.e
        } else if idx == 4 {
            self.regs.h
        } else if idx == 5 {
            self.regs.l
        } else if idx == 6 {
            self.memory.spec_read8(self.regs.spec_hl())
        } else {
            self.regs.a
        }
    }

    fn read_r8(&self, idx: u8) -> (r: u8)
        requires
            self.wf(),
            idx <= 7,
        ensures
            r == self.spec_r8(idx),
    {
        match idx {
            0 => self.regs.b,
            1 => self.regs.c,
            2 => self.regs.d,
            3 => self.regs.e,
            4 => self.regs.h,
            5 => self.regs.l,
            6 => self.memory.read8(self.regs.hl()),
            _ => self.regs.a,
        }
    }

    /// How storing `v` into the operand the three-bit code selects relates
    /// the machine before and after: a register field update, or the bus
    /// write at (HL).
    pub open spec fn spec_r8_write_rel(pre: Cpu, idx: u8, v: u8, post: Cpu) -> bool {
        if idx == 0 {
            post == (Cpu { regs: (Registers { b: v, ..pre.regs }), ..pre })
        } else if idx == 1 {
            post == (Cpu { regs: (Registers { c: v, ..pre.regs }), ..pre })
        } else if idx == 2 {
            post == (Cpu { regs: (Registers { d: v, ..pre.regs }), ..pre })
        } else if idx == 3 {
            post == (Cpu { regs: (Registers { e: v, ..pre.regs }), ..pre })
        } else if idx == 4 {
            post == (Cpu { regs: (Registers { h: v, ..pre.regs }), ..pre })
        } else if idx == 5 {
            post == (Cpu { regs: (Registers { l: v, ..pre.regs }), ..pre })
        } else if idx == 6 {
            post == (Cpu { memory: post.memory, ..pre }) && MemoryBus::spec_write8(
                pre.memory,
                pre.regs.spec_hl(),
                v,
                post.memory,
            )
        } else {
            post == (Cpu { regs: (Registers { a: v, ..pre.regs }), ..pre })
        }
    }

    fn write_r8(&mut self, idx: u8, v: u8)
        requires
            old(self).wf(),
            idx <= 7,
        ensures
            final(self).wf(),
            Cpu::spec_r8_write_rel(*old(self), idx, v, *final(self)),
            final(self).regs.pc == old(self).regs.pc,
            final(self).regs.sp == old(self).regs.sp,
            final(self).regs.f == old(self).regs.f,
            idx == 0 ==> *final(self) == (Cpu {
                regs: (Registers { b: v, ..old(self).regs }),
                ..*old(self)
            }),
            idx == 1 ==> *final(self) == (Cpu {
                regs: (Registers { c: v, ..old(self).regs }),
                ..*old(self)
            }),
            idx == 2 ==> *final(self) == (Cpu {
                regs: (Registers { d: v, ..old(self).regs }),
                ..*old(self)
            }),
            idx == 3 ==> *final(self) == (Cpu {
                regs: (Registers { e: v, ..old(self).regs }),
                ..*old(self)
            }),
            idx == 4 ==> *final(self) == (Cpu {
                regs: (Registers { h: v, ..old(self).regs }),
                ..*old(self)
            }),
            idx == 5 ==> *final(self) == (Cpu {
                regs: (Registers { l: v, ..old(self).regs }),
                ..*old(self)
            }),
            idx == 6 ==> *final(self) == (Cpu { memory: final(self).memory, ..*old(self) })
                && MemoryBus::spec_write8(
                old(self).memory,
                old(self).regs.spec_hl(),
                v,
                final(self).memory,
            ),
            idx == 7 ==> *final(self) == (Cpu {
                regs: (Registers { a: v, ..old(self).regs }),
                ..*old(self)
            }),
    {
        match idx {
            0 => self.regs.b = v,
            1 => self.regs.c = v,
            2 => self.regs.d = v,
            3 => self.regs.e = v,
            4 => self.regs.h = v,
            5 => self.regs.l = v,
            6 => {
                let hl = self.regs.hl();
                self.memory.write8(hl, v);
            },
            _ => self.regs.a = v,
        }
    }

    /// The 16-bit register pair the two-bit code selects: BC, DE, HL, SP.
    pub open spec fn spec_rp(self, p: u8) -> u16 {
        if p == 0 {
            self.regs.spec_bc()
        } else if p == 1 {
            self.regs.spec_de()
        } else if p == 2 {
            self.regs.spec_hl()
        } else {
            self.regs.sp
        }
    }

    fn get_rp(&self, p: u8) -> (r: u16)
        requires
            p <= 3,
        ensures
            r == self.spec_rp(p),
    {
        match p {
            0 => self.regs.bc(),
            1 => self.regs.de(),
            2 => self.regs.hl(),
            _ => self.regs.sp,
        }
    }

    fn set_rp(&mut self, p: u8, v: u16)
        requires
            old(self).wf(),
            p <= 3,
        ensures
            final(self).wf(),
            final(self).memory == old(self).memory,
            final(self).regs.pc == old(self).regs.pc,
            *final(self) == (Cpu { regs: final(self).regs, ..*old(self) }),
            final(self).spec_rp(p) == v,
            final(self).regs.f == old(self).regs.f,
            final(self).regs.a == old(self).regs.a,
    {
        match p {
            0 => self.regs.set_bc(v),
            1 => self.regs.set_de(v),
            2 => self.regs.set_hl(v),
            _ => self.regs.sp = v,
        }
    }

    fn push16(&mut self, v: u16)
        requires
            old(self).wf(),
        ensures
            final(self).wf(),
            final(self).regs.sp == (old(self).regs.sp + 0x10000 - 2) % 0x10000,
            final(self).regs.pc == old(self).regs.pc,
            *final(self) == (Cpu {
                regs: final(self).regs,
                memory: final(self).memory,
                ..*old(self)
            }),
            final(self).regs == (Registers { sp: final(self).regs.sp, ..old(self).regs }),
            exists|m1: MemoryBus|
                #[trigger] MemoryBus::spec_write8(
                    old(self).memory,
                    (((old(self).regs.sp + 0x10000 - 2) % 0x10000) as u16),
                    (v % 256) as u8,
                    m1,
                ) && MemoryBus::spec_write8(
                    m1,
                    (((old(self).regs.sp + 0x10000 - 1) % 0x10000) as u16),
                    (v / 256) as u8,
                    final(self).memory,
                ),
    {
        let sp = wsub16(self.regs.sp, 2);
        self.regs.sp = sp;
        let ghost pre_mem = self.memory;
        self.memory.write16(sp, v);
        proof {
            let s = old(self).regs.sp as int;
            assert((((s + 0x10000 - 2) % 0x10000) + 1) % 0x10000 == (s + 0x10000 - 1) % 0x10000)
                by (nonlinear_arith);
            let mw = choose|mid: MemoryBus|
                #[trigger] MemoryBus::spec_write8(pre_mem, sp, (v % 256) as u8, mid)
                    && MemoryBus::spec_write8(
                    mid,
                    (((sp + 1) % 0x10000) as u16),
                    (v / 256) as u8,
                    self.memory,
                );
            assert(MemoryBus::spec_write8(pre_mem, sp, (v % 256) as u8, mw));
            assert((((old(self).regs.sp + 0x10000 - 2) % 0x10000) as u16) == sp);
            assert((((old(self).regs.sp + 0x10000 - 1) % 0x10000) as u16) == (((sp + 1) % 0x10000)
                as u16));
        }
    }

    fn pop16(&mut self) -> (r: u16)
        requires
            old(self).wf(),
        ensures
            final(self).wf(),
            final(self).regs.sp == (old(self).regs.sp + 2) % 0x10000,
            final(self).memory == old(self).memory,
            final(self).regs.pc == old(self).regs.pc,
            *final(self) == (Cpu { regs: final(self).regs, ..*old(self) }),
            final(self).regs == (Registers { sp: final(self).regs.sp, ..old(self).regs }),
            r == old(self).memory.spec_read8(old(self).regs.sp) + old(self).memory.spec_read8(
                (((old(self).regs.sp + 1) % 0x10000) as u16),
            ) * 256,
    {
        let v = self.memory.read16(self.regs.sp);
        self.regs.sp = wadd16(self.regs.sp, 2);
        v
    }

    /// Read the byte at PC and advance PC past it.
    fn imm8(&mut self) -> (r: u8)
        requires
            old(self).wf(),
        ensures
            final(self).wf(),
            final(self).memory == old(self).memory,
            r == old(self).memory.spec_read8(old(self).regs.pc),
            final(self).regs == (Registers {
                pc: (((old(self).regs.pc + 1) % 0x10000) as u16),
                ..old(self).regs
            }),
            *final(self) == (Cpu { regs: final(self).regs, ..*old(self) }),
    {
        let v = self.memory.read8(self.regs.pc);
        self.regs.pc = wadd16(self.regs.pc, 1);
        v
    }

    fn imm16(&mut self) -> (r: u16)
        requires
            old(self).wf(),
        ensures
            final(self).wf(),
            final(self).memory == old(self).memory,
            final(self).regs == (Registers {
                pc: (((old(self).regs.pc + 2) % 0x10000) as u16),
                ..old(self).regs
            }),
            *final(self) == (Cpu { regs: final(self).regs, ..*old(self) }),
            r == old(self).memory.spec_read8(old(self).regs.pc) + old(self).memory.spec_read8(
                (((old(self).regs.pc + 1) % 0x10000) as u16),
            ) * 256,
    {
        let lo = self.imm8();
        let hi = self.imm8();
        proof {
            let ghost p = old(self).regs.pc as int;
            assert((((p + 1) % 0x10000) + 1) % 0x10000 == (p + 2) % 0x10000) by (nonlinear_arith);
        }
        lo as u16 + hi as u16 * 256
    }

    /// The register file after the eight-way ALU operation on A: ADD,
    /// ADC, SUB, SBC, AND, XOR, OR, CP, selected by `y`.
    pub open spec fn spec_alu_regs(r: Registers, y: u8, v: u8) -> Registers {
        if y == 4 {
            let a2 = r.a & v;
            Registers { a: a2, f: flags_byte(a2 == 0, false, true, false), ..r }
        } else if y == 5 {
            let a2 = r.a ^ v;
            Registers { a: a2, f: flags_byte(a2 == 0, false, false, false), ..r }
        } else if y == 6 {
            let a2 = r.a | v;
            Registers { a: a2, f: flags_byte(a2 == 0, false, false, false), ..r }
        } else if y == 0 || y == 1 {
            let cin: int = if y == 1 && r.flag_c() {
                1
            } else {
                0
            };
            let sum = r.a + v + cin;
            Registers {
                a: (sum % 256) as u8,
                f: flags_byte(sum % 256 == 0, false, r.a % 16 + v % 16 + cin > 15, sum > 255),
                ..r
            }
        } else {
            let cin: int = if y == 3 && r.flag_c() {
                1
            } else {
                0
            };
            let diff = (r.a + 512 - v - cin) % 256;
            Registers {
                a: if y == 7 {
                    r.a
                } else {
                    diff as u8
                },
                f: flags_byte(diff == 0, true, r.a % 16 < v % 16 + cin, r.a < v + cin),
                ..r
            }
        }
    }

    /// ADD/ADC: A += v (+ carry), Z N H C all set.
    fn alu_add(&mut self, v: u8, use_carry: bool)
        requires
            old(self).wf(),
        ensures
            final(self).wf(),
            *final(self) == (Cpu { regs: final(self).regs, ..*old(self) }),
            ({
                let cin: int = if use_carry && old(self).regs.flag_c() {
                    1
                } else {
                    0
                };
                let sum = old(self).regs.a + v + cin;
                final(self).regs == (Registers {
                    a: (sum % 256) as u8,
                    f: flags_byte(
                        sum % 256 == 0,
                        false,
                        old(self).regs.a % 16 + v % 16 + cin > 15,
                        sum > 255,
                    ),
                    ..old(self).regs
                }) && final(self).regs.a == sum % 256 && final(self).regs.flag_z() == (sum % 256
                    == 0)
                    && !final(self).regs.flag_n() && final(self).regs.flag_h() == (old(self).regs.a % 16 + v % 16 + cin > 15) && final(self).regs.flag_c() == (sum > 255)
                    && final(self).regs.pc == old(self).regs.pc && final(self).regs.sp == old(self).regs.sp
            }),
    {
        let cin: u32 = if use_carry && self.regs.get_c() {
            1
        } else {
            0
        };
        let a: u32 = self.regs.a as u32;
        let sum: u32 = a + v as u32 + cin;
        let r: u8 = (sum % 256) as u8;
        let h: bool = a % 16 + (v as u32) % 16 + cin > 15;
        self.regs.a = r;
        self.regs.set_flags(r == 0, false, h, sum > 255);
    }

    /// SUB/SBC/CP: A - v (- carry); CP leaves A unchanged.
    fn alu_sub(&mut self, v: u8, use_carry: bool, store: bool)
        requires
            old(self).wf(),
        ensures
            final(self).wf(),
            *final(self) == (Cpu { regs: final(self).regs, ..*old(self) }),
            ({
                let cin: int = if use_carry && old(self).regs.flag_c() {
                    1
                } else {
                    0
                };
                let diff = (old(self).regs.a + 512 - v - cin) % 256;
                final(self).regs == (Registers {
                    a: if store {
                        diff as u8
                    } else {
                        old(self).regs.a
                    },
                    f: flags_byte(
                        diff == 0,
                        true,
                        old(self).regs.a % 16 < v % 16 + cin,
                        old(self).regs.a < v + cin,
                    ),
                    ..old(self).regs
                }) && final(self).regs.a == (if store {
                    diff
                } else {
                    old(self).regs.a as int
                }) && final(self).regs.flag_z() == (diff == 0) && final(self).regs.flag_n()
                    && final(self).regs.flag_h() == (old(self).regs.a % 16 < v % 16 + cin) && final(self).regs.flag_c() == (old(self).regs.a < v + cin) && final(self).regs.pc == old(self).regs.pc && final(self).regs.sp == old(self).regs.sp
            }),
    {
        let cin: u32 = if use_carry && self.regs.get_c() {
            1
        } else {
            0
        };
        let a: u32 = self.regs.a as u32;
        let diff: u8 = ((a + 512 - v as u32 - cin) % 256) as u8;
        let h: bool = a % 16 < (v as u32) % 16 + cin;
        let c: bool = a < v as u32 + cin;
        if store {
            self.regs.a = diff;
        }
        self.regs.set_flags(diff == 0, true, h, c);
    }

    /// AND/XOR/OR, selected by `which` (0 and, 1 xor, 2 or).
    fn alu_logic(&mut self, v: u8, which: u8)
        requires
            old(self).wf(),
        ensures
            final(self).wf(),
            *final(self) == (Cpu { regs: final(self).regs, ..*old(self) }),
            final(self).regs.a == (if which == 0 {
                old(self).regs.a & v
            } else if which == 1 {
                old(self).regs.a ^ v
            } else {
                old(self).regs.a | v
            }),
            final(self).regs == (Registers {
                a: final(self).regs.a,
                f: flags_byte(final(self).regs.a == 0, false, which == 0, false),
                ..old(self).regs
            }),
            final(self).regs.flag_z() == (final(self).regs.a == 0),
            !final(self).regs.flag_n(),
            final(self).regs.flag_h() == (which == 0),
            !final(self).regs.flag_c(),
            final(self).regs.pc == old(self).regs.pc,
            final(self).regs.sp == old(self).regs.sp,
    {
        let r: u8 = if which == 0 {
            self.regs.a & v
        } else if which == 1 {
            self.regs.a ^ v
        } else {
            self.regs.a | v
        };
        self.regs.a = r;
        self.regs.set_flags(r == 0, false, which == 0, false);
    }

    /// INC r: result and Z N H; C is preserved.
    fn alu_inc(&mut self, v: u8) -> (r: u8)
        requires
            old(self).wf(),
        ensures
            final(self).wf(),
            *final(self) == (Cpu { regs: final(self).regs, ..*old(self) }),
            r == (v + 1) % 256,
            final(self).regs.flag_z() == (r == 0),
            !final(self).regs.flag_n(),
            final(self).regs.flag_h() == (v % 16 == 15),
            final(self).regs.flag_c() == old(self).regs.flag_c(),
            final(self).regs == (Registers { f: final(self).regs.f, ..old(self).regs }),
    {
        let r: u8 = ((v as u32 + 1) % 256) as u8;
        let c = self.regs.get_c();
        self.regs.set_flags(r == 0, false, v % 16 == 15, c);
        r
    }

    /// DEC r: result and Z N H; C is preserved.
    fn alu_dec(&mut self, v: u8) -> (r: u8)
        requires
            old(self).wf(),
        ensures
            final(self).wf(),
            *final(self) == (Cpu { regs: final(self).regs, ..*old(self) }),
            r == (v + 255) % 256,
            final(self).regs.flag_z() == (r == 0),
            final(self).regs.flag_n(),
            final(self).regs.flag_h() == (v % 16 == 0),
            final(self).regs.flag_c() == old(self).regs.flag_c(),
            final(self).regs == (Registers { f: final(self).regs.f, ..old(self).regs }),
    {
        let r: u8 = ((v as u32 + 255) % 256) as u8;
        let c = self.regs.get_c();
        self.regs.set_flags(r == 0, true, v % 16 == 0, c);
        r
    }

    /// ADD HL,rr: H from bit 11, C from bit 15, N cleared, Z preserved.
    fn alu_add_hl(&mut self, v: u16)
        requires
            old(self).wf(),
        ensures
            final(self).wf(),
            *final(self) == (Cpu { regs: final(self).regs, ..*old(self) }),
            final(self).regs.spec_hl() == (old(self).regs.spec_hl() + v) % 0x10000,
            final(self).regs.flag_z() == old(self).regs.flag_z(),
            !final(self).regs.flag_n(),
            final(self).regs.flag_h() == (old(self).regs.spec_hl() % 4096 + v % 4096 > 4095),
            final(self).regs.flag_c() == (old(self).regs.spec_hl() + v > 65535),
            final(self).regs.pc == old(self).regs.pc,
            final(self).regs.sp == old(self).regs.sp,
            final(self).regs.a == old(self).regs.a,
    {
        let hl: u32 = self.regs.hl() as u32;
        let sum: u32 = hl + v as u32;
        let h: bool = hl % 4096 + (v as u32) % 4096 > 4095;
        let z = self.regs.get_z();
        self.regs.set_hl((sum % 0x10000) as u16);
        self.regs.set_flags(z, false, h, sum > 65535);
    }

    /// ADD SP,e8 / LD HL,SP+e8: SP plus a sign-extended byte; H and C come
    /// from the unsigned low byte, Z and N are cleared.
    fn alu_sp_offset(&mut self, e: u8) -> (r: u16)
        requires
            old(self).wf(),
        ensures
            final(self).wf(),
            *final(self) == (Cpu { regs: final(self).regs, ..*old(self) }),
            r == spec_jr_target(old(self).regs.sp, e),
            !final(self).regs.flag_z(),
            !final(self).regs.flag_n(),
            final(self).regs.flag_h() == (old(self).regs.sp % 16 + e % 16 > 15),
            final(self).regs.flag_c() == (old(self).regs.sp % 256 + e > 255),
            final(self).regs == (Registers { f: final(self).regs.f, ..old(self).regs }),
    {
        let sp: u32 = self.regs.sp as u32;
        let h: bool = sp % 16 + (e as u32) % 16 > 15;
        let c: bool = sp % 256 + e as u32 > 255;
        self.regs.set_flags(false, false, h, c);
        jr_target(self.regs.sp, e)
    }

    /// DAA: adjust A to binary-coded decimal after an add or subtract.
    fn daa(&mut self)
        requires
            old(self).wf(),
        ensures
            final(self).wf(),
            *final(self) == (Cpu { regs: final(self).regs, ..*old(self) }),
            final(self).regs == (Registers {
                a: final(self).regs.a,
                f: final(self).regs.f,
                ..old(self).regs
            }),
    {
        let mut a: u32 = self.regs.a as u32;
        let n = self.regs.get_n();
        let h = self.regs.get_h();
        let mut c = self.regs.get_c();
        if !n {
            if c || a > 0x99 {
                a = (a + 0x60) % 256;
                c = true;
            }
            if h || a % 16 > 9 {
                a = (a + 0x06) % 256;
            }
        } else {
            if c {
                a = (a + 256 - 0x60) % 256;
            }
            if h {
                a = (a + 256 - 0x06) % 256;
            }
        }
        self.regs.a = a as u8;
        self.regs.set_flags(a == 0, n, false, c);
    }

    /// One rotate/shift/swap step on a value; `kind` selects RLC, RRC, RL,
    /// RR, SLA, SRA, SWAP, SRL in that order. Z is set from the result
    /// only when `set_z` (the A-register forms clear it).
    fn rot(&mut self, v: u8, kind: u8, set_z: bool) -> (r: u8)
        requires
            old(self).wf(),
            kind <= 7,
        ensures
            final(self).wf(),
            *final(self) == (Cpu { regs: final(self).regs, ..*old(self) }),
            final(self).regs == (Registers { f: final(self).regs.f, ..old(self).regs }),
            final(self).regs.flag_z() == (set_z && r == 0),
            r == spec_rot_result(v, kind, old(self).regs.flag_c()),
            final(self).regs.flag_c() == spec_rot_carry(v, kind),
            !final(self).regs.flag_n(),
            !final(self).regs.flag_h(),
    {
        let cin: u8 = if self.regs.get_c() {
            1
        } else {
            0
        };
        let (r, c): (u8, bool) = match kind {
            0 => ((v % 128) * 2 + v / 128, v >= 128),
            1 => (v / 2 + (v % 2) * 128, v % 2 == 1),
            2 => ((v % 128) * 2 + cin, v >= 128),
            3 => (v / 2 + cin * 128, v % 2 == 1),
            4 => ((v % 128) * 2, v >= 128),
            5 => (v / 2 + (v / 128) * 128, v % 2 == 1),
            6 => ((v % 16) * 16 + v / 16, false),
            _ => (v / 2, v % 2 == 1),
        };
        self.regs.set_flags(set_z && r == 0, false, false, c);
        r
    }

    /// Dispatch an ALU operation on A, `y` selecting ADD, ADC, SUB, SBC,
    /// AND, XOR, OR, CP.
    fn alu_op(&mut self, y: u8, v: u8)
        requires
            old(self).wf(),
            y <= 7,
        ensures
            final(self).wf(),
            *final(self) == (Cpu { regs: final(self).regs, ..*old(self) }),
            final(self).regs == Cpu::spec_alu_regs(old(self).regs, y, v),
            final(self).regs.pc == old(self).regs.pc,
            final(self).regs.sp == old(self).regs.sp,
    {
        if y == 0 {
            self.alu_add(v, false);
        } else if y == 1 {
            self.alu_add(v, true);
        } else if y == 2 {
            self.alu_sub(v, false, true);
        } else if y == 3 {
            self.alu_sub(v, true, true);
        } else if y == 4 {
            self.alu_logic(v, 0);
        } else if y == 5 {
            self.alu_logic(v, 1);
        } else if y == 6 {
            self.alu_logic(v, 2);
        } else {
            self.alu_sub(v, false, false);
        }
    }

    /// Execute one instruction whose opcode has been fetched (PC already
    /// past it). Returns the T-cycles consumed, branch outcome included.
    pub fn execute(&mut self, op: u8) -> (cycles: u32)
        requires
            old(self).wf(),
        ensures
            final(self).wf(),
            final(self).regs.f & 0x0F == 0,
            4 <= cycles <= 8200,
            op < 0xC0 ==> cycles == spec_execute_cycles(*old(self), op),
            // Straight-line opcodes leave PC just past their immediates.
            (!spec_is_jump(op) && op != 0xCB) ==> final(self).regs.pc == (old(self).regs.pc
                + crate::instructions::spec_opcode_len(op) - 1) % 0x10000,
            // JP a16 and JR e8 land on their targets.
            op == 0xC3 ==> final(self).regs.pc == old(self).memory.spec_read8(old(self).regs.pc)
                + old(self).memory.spec_read8((((old(self).regs.pc + 1) % 0x10000) as u16)) * 256,
            op == 0x18 ==> final(self).regs.pc == spec_jr_target(
                (((old(self).regs.pc + 1) % 0x10000) as u16),
                old(self).memory.spec_read8(old(self).regs.pc),
            ),
            // HALT, STOP and the undefined opcodes are the only ways into
            // the halted, stopped and locked states.
            final(self).halted == (old(self).halted || op == 0x76),
            final(self).stopped == (old(self).stopped || (op == 0x10 && old(self).memory.key1
                & 0x01 == 0)),
            final(self).locked == (old(self).locked
                || crate::instructions::spec_is_undefined(op)),
            op == 0x76 ==> *final(self) == (Cpu { halted: true, ..*old(self) }),
            // Only EI, DI and RETI touch the interrupt-enable state.
            (op != 0xF3 && op != 0xFB && op != 0xD9) ==> final(self).ime == old(self).ime && final(self).ime_pending == old(self).ime_pending,
            op == 0xFB ==> final(self).ime == old(self).ime && final(self).ime_pending,
            op == 0xF3 ==> !final(self).ime && !final(self).ime_pending,
            op == 0xD9 ==> final(self).ime && final(self).ime_pending == old(self).ime_pending,
            // The LD r,r' quadrant moves exactly one operand.
            (0x40 <= op < 0x80 && op != 0x76) ==> Cpu::spec_r8_write_rel(
                *old(self),
                (op / 8) % 8,
                old(self).spec_r8(op % 8),
                *final(self),
            ),
            // The ALU quadrant applies exactly the eight-way ALU function.
            (0x80 <= op < 0xC0) ==> *final(self) == (Cpu {
                regs: Cpu::spec_alu_regs(old(self).regs, (op / 8) % 8, old(self).spec_r8(op % 8)),
                ..*old(self)
            }),
    {
        let x: u8 = op / 64;
        let y: u8 = (op / 8) % 8;
        let z: u8 = op % 8;
        if x == 1 {
            if op == 0x76 {
                self.halted = true;
                4
            } else {
                let v = self.read_r8(z);
                self.write_r8(y, v);
                if y == 6 || z == 6 {
                    8
                } else {
                    4
                }
            }
        } else if x == 2 {
            let v = self.read_r8(z);
            self.alu_op(y, v);
            if z == 6 {
                8
            } else {
                4
            }
        } else if x == 0 {
            self.execute_x0(op, y, z)
        } else {
            self.execute_x3(op, y, z)
        }
    }

    #[verifier::rlimit(100)]
    #[verifier::spinoff_prover]
    fn execute_x0(&mut self, op: u8, y: u8, z: u8) -> (cycles: u32)
        requires
            old(self).wf(),
            op < 0x40,
            y == (op / 8) % 8,
            z == op % 8,
        ensures
            final(self).wf(),
            4 <= cycles <= 8200,
            cycles == spec_execute_cycles(*old(self), op),
            !spec_is_jump(op) ==> final(self).regs.pc == (old(self).regs.pc
                + crate::instructions::spec_opcode_len(op) - 1) % 0x10000,
            op == 0x18 ==> final(self).regs.pc == spec_jr_target(
                (((old(self).regs.pc + 1) % 0x10000) as u16),
                old(self).memory.spec_read8(old(self).regs.pc),
            ),
            final(self).halted == old(self).halted,
            final(self).stopped == (old(self).stopped || (op == 0x10 && old(self).memory.key1
                & 0x01 == 0)),
            final(self).locked == old(self).locked,
            final(self).ime == old(self).ime && final(self).ime_pending == old(self).ime_pending,
    {
        let p: u8 = (op / 16) % 4;
        let q: u8 = (op / 8) % 2;
        if z == 0 {
            if y == 0 {
                // NOP
                4
            } else if y == 1 {
                // LD (a16),SP
                let addr = self.imm16();
                let sp = self.regs.sp;
                self.memory.write16(addr, sp);
                20
            } else if y == 2 {
                // STOP: with a prepared switch, toggle the speed and reset
                // DIV; otherwise enter stop mode.
                let _pad = self.imm8();
                if self.memory.key1 & 0x01 != 0 {
                    let dbl = self.memory.key1 & 0x80 != 0;
                    self.memory.key1 = if dbl {
                        0x00
                    } else {
                        0x80
                    };
                    self.memory.timer.counter = 0;
                    8200
                } else {
                    self.stopped = true;
                    4
                }
            } else if y == 3 {
                // JR e8
                let e = self.imm8();
                self.regs.pc = jr_target(self.regs.pc, e);
                12
            } else {
                // JR cc,e8
                let e = self.imm8();
                if self.cond(y - 4) {
                    self.regs.pc = jr_target(self.regs.pc, e);
                    12
                } else {
                    8
                }
            }
        } else if z == 1 {
            if q == 0 {
                // LD rp,d16
                let v = self.imm16();
                self.set_rp(p, v);
                12
            } else {
                // ADD HL,rp
                let v = self.get_rp(p);
                self.alu_add_hl(v);
                8
            }
        } else if z == 2 {
            // LD (BC)/(DE)/(HL+)/(HL-),A and the loads back into A.
            let addr: u16 = if p == 0 {
                self.regs.bc()
            } else if p == 1 {
                self.regs.de()
            } else {
                self.regs.hl()
            };
            if q == 0 {
                let a = self.regs.a;
                self.memory.write8(addr, a);
            } else {
                let v = self.memory.read8(addr);
                self.regs.a = v;
            }
            if p == 2 {
                let hl = wadd16(self.regs.hl(), 1);
                self.regs.set_hl(hl);
            } else if p == 3 {
                let hl = wsub16(self.regs.hl(), 1);
                self.regs.set_hl(hl);
            }
            8
        } else if z == 3 {
            // INC/DEC rp
            if q == 0 {
                let v = wadd16(self.get_rp(p), 1);
                self.set_rp(p, v);
            } else {
                let v = wsub16(self.get_rp(p), 1);
                self.set_rp(p, v);
            }
            8
        } else if z == 4 {
            // INC r
            let v = self.read_r8(y);
            let r = self.alu_inc(v);
            self.write_r8(y, r);
            if y == 6 {
                12
            } else {
                4
            }
        } else if z == 5 {
            // DEC r
            let v = self.read_r8(y);
            let r = self.alu_dec(v);
            self.write_r8(y, r);
            if y == 6 {
                12
            } else {
                4
            }
        } else if z == 6 {
            // LD r,d8
            let v = self.imm8();
            self.write_r8(y, v);
            if y == 6 {
                12
            } else {
                8
            }
        } else {
            if y < 4 {
                // RLCA / RRCA / RLA / RRA: Z is cleared.
                let a = self.regs.a;
                let r = self.rot(a, y, false);
                self.regs.a = r;
                4
            } else if y == 4 {
                self.daa();
                4
            } else if y == 5 {
                // CPL
                let a = self.regs.a;
                let zf = self.regs.get_z();
                let cf = self.regs.get_c();
                self.regs.a = 255 - a;
                self.regs.set_flags(zf, true, true, cf);
                4
            } else if y == 6 {
                // SCF
                let zf = self.regs.get_z();
                self.regs.set_flags(zf, false, false, true);
                4
            } else {
                // CCF
                let zf = self.regs.get_z();
                let cf = self.regs.get_c();
                self.regs.set_flags(zf, false, false, !cf);
                4
            }
        }
    }

    #[verifier::rlimit(100)]
    #[verifier::spinoff_prover]
    fn execute_x3(&mut self, op: u8, y: u8, z: u8) -> (cycles: u32)
        requires
            old(self).wf(),
            0xC0 <= op,
            y == (op / 8) % 8,
            z == op % 8,
        ensures
            final(self).wf(),
            4 <= cycles <= 24,
            (!spec_is_jump(op) && op != 0xCB) ==> final(self).regs.pc == (old(self).regs.pc
                + crate::instructions::spec_opcode_len(op) - 1) % 0x10000,
            op == 0xC3 ==> final(self).regs.pc == old(self).memory.spec_read8(old(self).regs.pc)
                + old(self).memory.spec_read8((((old(self).regs.pc + 1) % 0x10000) as u16)) * 256,
            final(self).halted == old(self).halted,
            final(self).stopped == old(self).stopped,
            final(self).locked == (old(self).locked
                || crate::instructions::spec_is_undefined(op)),
            (op != 0xF3 && op != 0xFB && op != 0xD9) ==> final(self).ime == old(self).ime && final(self).ime_pending == old(self).ime_pending,
            op == 0xFB ==> final(self).ime == old(self).ime && final(self).ime_pending,
            op == 0xF3 ==> !final(self).ime && !final(self).ime_pending,
            op == 0xD9 ==> final(self).ime && final(self).ime_pending == old(self).ime_pending,
    {
        let p: u8 = (op / 16) % 4;
        let q: u8 = (op / 8) % 2;
        if is_undefined(op) {
            // Undefined opcode: the CPU locks with no wake.
            self.locked = true;
            return 4;
        }
        if z == 0 {
            if y < 4 {
                // RET cc
                if self.cond(y) {
                    let v = self.pop16();
                    self.regs.pc = v;
                    20
                } else {
                    8
                }
            } else if y == 4 {
                // LDH (a8),A
                let n = self.imm8();
                let a = self.regs.a;
                self.memory.write8(0xFF00 + n as u16, a);
                12
            } else if y == 5 {
                // ADD SP,e8
                let e = self.imm8();
                let r = self.alu_sp_offset(e);
                self.regs.sp = r;
                16
            } else if y == 6 {
                // LDH A,(a8)
                let n = self.imm8();
                let v = self.memory.read8(0xFF00 + n as u16);
                self.regs.a = v;
                12
            } else {
                // LD HL,SP+e8
                let e = self.imm8();
                let r = self.alu_sp_offset(e);
                self.regs.set_hl(r);
                12
            }
        } else if z == 1 {
            if q == 0 {
                // POP rr (AF masks the low nibble of F)
                let v = self.pop16();
                if p == 3 {
                    self.regs.set_af(v);
                } else {
                    self.set_rp(p, v);
                }
                12
            } else if p == 0 {
                // RET
                let v = self.pop16();
                self.regs.pc = v;
                16
            } else if p == 1 {
                // RETI
                let v = self.pop16();
                self.regs.pc = v;
                self.ime = true;
                16
            } else if p == 2 {
                // JP HL
                self.regs.pc = self.regs.hl();
                4
            } else {
                // LD SP,HL
                self.regs.sp = self.regs.hl();
                8
            }
        } else if z == 2 {
            if y < 4 {
                // JP cc,a16
                let t = self.imm16();
                if self.cond(y) {
                    self.regs.pc = t;
                    16
                } else {
                    12
                }
            } else if y == 4 {
                // LD (0xFF00+C),A
                let a = self.regs.a;
                let c = self.regs.c;
                self.memory.write8(0xFF00 + c as u16, a);
                8
            } else if y == 5 {
                // LD (a16),A
                let t = self.imm16();
                let a = self.regs.a;
                self.memory.write8(t, a);
                16
            } else if y == 6 {
                // LD A,(0xFF00+C)
                let c = self.regs.c;
                let v = self.memory.read8(0xFF00 + c as u16);
                self.regs.a = v;
                8
            } else {
                // LD A,(a16)
                let t = self.imm16();
                let v = self.memory.read8(t);
                self.regs.a = v;
                16
            }
        } else if z == 3 {
            if y == 0 {
                // JP a16
                let t = self.imm16();
                self.regs.pc = t;
                16
            } else if y == 1 {
                // CB prefix
                let code = self.imm8();
                self.execute_cb(code)
            } else if y == 6 {
                // DI
                self.ime = false;
                self.ime_pending = false;
                4
            } else {
                // EI, deferred by one instruction
                self.ime_pending = true;
                4
            }
        } else if z == 4 {
            // CALL cc,a16 (y < 4; higher y are undefined)
            let t = self.imm16();
            if y < 4 && self.cond(y) {
                let pc = self.regs.pc;
                self.push16(pc);
                self.regs.pc = t;
                24
            } else {
                12
            }
        } else if z == 5 {
            if q == 0 {
                // PUSH rr
                let v = if p == 3 {
                    self.regs.af()
                } else {
                    self.get_rp(p)
                };
                self.push16(v);
                16
            } else {
                // CALL a16
                let t = self.imm16();
                let pc = self.regs.pc;
                self.push16(pc);
                self.regs.pc = t;
                24
            }
        } else if z == 6 {
            // ALU A,d8
            let v = self.imm8();
            self.alu_op(y, v);
            8
        } else {
            // RST
            let pc = self.regs.pc;
            self.push16(pc);
            self.regs.pc = y as u16 * 8;
            16
        }
    }

    /// Execute a CB-page opcode (already fetched).
    fn execute_cb(&mut self, code: u8) -> (cycles: u32)
        requires
            old(self).wf(),
        ensures
            final(self).wf(),
            4 <= cycles <= 16,
            cycles == crate::instructions::spec_cb_cycles(code),
            final(self).regs.pc == old(self).regs.pc,
            final(self).regs.sp == old(self).regs.sp,
            final(self).halted == old(self).halted,
            final(self).stopped == old(self).stopped,
            final(self).locked == old(self).locked,
            final(self).ime == old(self).ime,
            final(self).ime_pending == old(self).ime_pending,
    {
        let x: u8 = code / 64;
        let y: u8 = (code / 8) % 8;
        let z: u8 = code % 8;
        let mask: u8 = bit_mask(y);
        if x == 0 {
            // The rotate/shift/swap group.
            let v = self.read_r8(z);
            let r = self.rot(v, y, true);
            self.write_r8(z, r);
            if z == 6 {
                16
            } else {
                8
            }
        } else if x == 1 {
            // BIT y,r: Z from the tested bit, C preserved.
            let v = self.read_r8(z);
            let cf = self.regs.get_c();
            self.regs.set_flags(v & mask == 0, false, true, cf);
            if z == 6 {
                12
            } else {
                8
            }
        } else if x == 2 {
            // RES y,r
            let v = self.read_r8(z);
            self.write_r8(z, v & !mask);
            if z == 6 {
                16
            } else {
                8
            }
        } else {
            // SET y,r
            let v = self.read_r8(z);
            self.write_r8(z, v | mask);
            if z == 6 {
                16
            } else {
                8
            }
        }
    }

    /// Service the highest-priority pending interrupt: push PC, clear its
    /// IF bit, clear IME, jump to the vector.
    fn dispatch_interrupt(&mut self) -> (cycles: u32)
        requires
            old(self).wf(),
        ensures
            final(self).wf(),
            cycles == 20,
            !final(self).ime,
            !final(self).halted,
            final(self).regs.pc == 0x40 + 8 * spec_lowest_bit(old(self).spec_pending()),
            final(self).memory.int_flags & spec_int_mask(
                spec_lowest_bit(old(self).spec_pending()),
            ) == 0,
            final(self).regs.sp == (old(self).regs.sp + 0x10000 - 2) % 0x10000,
            final(self).stopped == old(self).stopped && final(self).locked == old(self).locked,
            exists|m1: MemoryBus, m2: MemoryBus|
                MemoryBus::spec_write8(
                    old(self).memory,
                    (((old(self).regs.sp + 0x10000 - 2) % 0x10000) as u16),
                    (old(self).regs.pc % 256) as u8,
                    m1,
                ) && #[trigger] MemoryBus::spec_write8(
                    m1,
                    (((old(self).regs.sp + 0x10000 - 1) % 0x10000) as u16),
                    (old(self).regs.pc / 256) as u8,
                    m2,
                ) && final(self).memory == (MemoryBus {
                    int_flags: final(self).memory.int_flags,
                    ..m2
                }),
    {
        let pending: u8 = self.memory.int_enable & self.memory.int_flags & 0x1F;
        let b = lowest_bit(pending);
        self.halted = false;
        self.ime = false;
        let pc = self.regs.pc;
        self.push16(pc);
        let ghost mpush = self.memory;
        let m = int_mask(b);
        proof {
            lemma_clear_flag(self.memory.int_flags, m);
        }
        self.memory.int_flags = self.memory.int_flags & !m;
        self.regs.pc = 0x40 + 8 * (b as u16);
        proof {
            let m1w = choose|m1: MemoryBus|
                #[trigger] MemoryBus::spec_write8(
                    old(self).memory,
                    (((old(self).regs.sp + 0x10000 - 2) % 0x10000) as u16),
                    (pc % 256) as u8,
                    m1,
                ) && MemoryBus::spec_write8(
                    m1,
                    (((old(self).regs.sp + 0x10000 - 1) % 0x10000) as u16),
                    (pc / 256) as u8,
                    mpush,
                );
            assert(MemoryBus::spec_write8(
                old(self).memory,
                (((old(self).regs.sp + 0x10000 - 2) % 0x10000) as u16),
                (pc % 256) as u8,
                m1w,
            ));
        }
        20
    }

    fn bump_cycles(&mut self, c: u32)
        ensures
            *final(self) == (Cpu { total_cycles: final(self).total_cycles, ..*old(self) }),
            final(self).total_cycles >= old(self).total_cycles,
    {
        if self.total_cycles <= 0xFFFF_FFFF_0000_0000 {
            self.total_cycles = self.total_cycles + c as u64;
        }
    }

    /// One step of the CPU state machine: a stopped or locked CPU idles
    /// four cycles; a halted CPU wakes only on a pending enabled
    /// interrupt; with IME set a pending interrupt is dispatched; else one
    /// instruction is fetched and executed, and a deferred EI takes effect
    /// after it.
    pub fn step(&mut self) -> (cycles: u32)
        requires
            old(self).wf(),
        ensures
            final(self).wf(),
            final(self).regs.f & 0x0F == 0,
            4 <= cycles <= 2000000,
            // A stopped or locked CPU only idles.
            (old(self).stopped || old(self).locked) ==> cycles == 4 && *final(self) == (Cpu {
                total_cycles: final(self).total_cycles,
                ..*old(self)
            }),
            // A halted CPU with nothing pending idles too.
            (!old(self).stopped && !old(self).locked && old(self).halted && old(self).spec_pending() == 0) ==> cycles == 4 && *final(self) == (Cpu {
                total_cycles: final(self).total_cycles,
                ..*old(self)
            }),
            // The ordinary path: one instruction is fetched at PC and
            // executed, with the deferred-EI rule applied after it.
            ({
                let pend = old(self).spec_pending();
                let ord = !old(self).stopped && !old(self).locked && !(old(self).halted && pend
                    == 0) && !(old(self).ime && pend != 0);
                let op = old(self).memory.spec_read8(old(self).regs.pc);
                let mid = Cpu {
                    regs: (Registers {
                        pc: (((old(self).regs.pc + 1) % 0x10000) as u16),
                        ..old(self).regs
                    }),
                    halted: false,
                    ..*old(self)
                };
                ord ==> {
                    &&& (op < 0xC0 ==> cycles >= spec_execute_cycles(mid, op))
                    &&& final(self).halted == (op == 0x76)
                    &&& final(self).stopped == (op == 0x10 && old(self).memory.key1 & 0x01 == 0)
                    &&& final(self).locked == crate::instructions::spec_is_undefined(op)
                    &&& ((!spec_is_jump(op) && op != 0xCB) ==> final(self).regs.pc == (old(
                        self,
                    ).regs.pc + crate::instructions::spec_opcode_len(op)) % 0x10000)
                    &&& final(self).ime == (if op == 0xF3 {
                        false
                    } else if old(self).ime_pending {
                        true
                    } else {
                        old(self).ime || op == 0xD9
                    })
                    &&& final(self).ime_pending == (op == 0xFB && !old(self).ime_pending)
                    &&& ((op == 0x76 && old(self).memory.dma.pending_cycles == 0) ==> *final(self)
                        == (Cpu {
                        halted: true,
                        ime: final(self).ime,
                        ime_pending: final(self).ime_pending,
                        total_cycles: final(self).total_cycles,
                        ..mid
                    }))
                }
            }),
            ({
                let pend = old(self).spec_pending();
                (!old(self).stopped && !old(self).locked && old(self).ime && pend != 0) ==> (cycles
                    == 20 && final(self).regs.pc == 0x40
                    + 8 * spec_lowest_bit(pend) && !final(self).ime
                    && final(self).memory.int_flags & spec_int_mask(spec_lowest_bit(pend)) == 0
                    && final(self).regs.sp == (old(self).regs.sp + 0x10000 - 2) % 0x10000 && (
                exists|m1: MemoryBus, m2: MemoryBus|
                    MemoryBus::spec_write8(
                        old(self).memory,
                        (((old(self).regs.sp + 0x10000 - 2) % 0x10000) as u16),
                        (old(self).regs.pc % 256) as u8,
                        m1,
                    ) && #[trigger] MemoryBus::spec_write8(
                        m1,
                        (((old(self).regs.sp + 0x10000 - 1) % 0x10000) as u16),
                        (old(self).regs.pc / 256) as u8,
                        m2,
                    ) && final(self).memory == (MemoryBus {
                        int_flags: final(self).memory.int_flags,
                        ..m2
                    })))
            }),
    {
        if self.stopped || self.locked {
            self.bump_cycles(4);
            return 4;
        }
        let pending: u8 = self.memory.int_enable & self.memory.int_flags & 0x1F;
        if self.halted {
            if pending == 0 {
                self.bump_cycles(4);
                return 4;
            }
            self.halted = false;
        }
        if self.ime && pending != 0 {
            let c = self.dispatch_interrupt();
            self.bump_cycles(c);
            return c;
        }
        let was_ei = self.ime_pending;
        let op = self.memory.read8(self.regs.pc);
        self.regs.pc = wadd16(self.regs.pc, 1);
        let mut cycles: u32 = self.execute(op);
        proof {
            let p = old(self).regs.pc as int;
            let l = crate::instructions::spec_opcode_len(op) as int;
            assert((((p + 1) % 0x10000) + (l - 1)) % 0x10000 == (p + l) % 0x10000)
                by (nonlinear_arith)
                requires
                    0 <= p < 0x10000,
                    1 <= l <= 3,
            ;
        }
        if was_ei && self.ime_pending {
            self.ime = true;
            self.ime_pending = false;
        }
        // A general-purpose DMA triggered by the instruction stalls the
        // CPU for its transfer time.
        let extra: u32 = self.memory.dma.pending_cycles;
        if extra > 0 {
            self.memory.dma.pending_cycles = 0;
            if extra <= 1500000 {
                cycles = cycles + extra;
            }
        }
        self.bump_cycles(cycles);
        cycles
    }

    /// Whether branch condition `cc` holds: NZ, Z, NC, C.
    fn cond(&self, cc: u8) -> (r: bool)
        requires
            cc <= 3,
        ensures
            r == spec_cond(*self, cc),
    {
        match cc {
            0 => !(self.regs.f & 0x80 != 0),
            1 => self.regs.f & 0x80 != 0,
            2 => !(self.regs.f & 0x10 != 0),
            _ => self.regs.f & 0x10 != 0,
        }
    }
}

/// The mask with only bit `y` set.
fn bit_mask(y: u8) -> (r: u8)
    requires
        y <= 7,
    ensures
        r == crate::ppu::spec_pow2u8(y as int),
{
    match y {
        0 => 1,
        1 => 2,
        2 => 4,
        3 => 8,
        4 => 16,
        5 => 32,
        6 => 64,
        _ => 128,
    }
}

proof fn lemma_clear_flag(f: u8, m: u8)
    by (bit_vector)
    ensures
        (f & !m) & m == 0,
        f <= 0x1F ==> (f & !m) <= 0x1F,
{
}

/// The opcodes that may move PC anywhere but just past their immediates:
/// the jumps, calls, returns, RST and the relative branches.
pub open spec fn spec_is_jump(op: u8) -> bool {
    ||| op == 0x18 || op == 0x20 || op == 0x28 || op == 0x30 || op == 0x38
    ||| op == 0xC0 || op == 0xC8 || op == 0xD0 || op == 0xD8
    ||| op == 0xC2 || op == 0xCA || op == 0xD2 || op == 0xDA
    ||| op == 0xC3 || op == 0xC4 || op == 0xCC || op == 0xD4 || op == 0xDC
    ||| op == 0xC9 || op == 0xCD || op == 0xD9 || op == 0xE9
    ||| op == 0xC7 || op == 0xCF || op == 0xD7 || op == 0xDF || op == 0xE7 || op == 0xEF || op
        == 0xF7 || op == 0xFF
}

/// The T-cycles executing `op` consumes in state `pre`: the decode table's
/// base cost, the taken cost when the branch condition holds, the CB-page
/// cost for the prefix, and the speed-switch cost for STOP.
pub open spec fn spec_execute_cycles(pre: Cpu, op: u8) -> int {
    let y = ((op / 8) % 8) as u8;
    if op == 0xCB {
        crate::instructions::spec_cb_cycles(pre.memory.spec_read8(pre.regs.pc)) as int
    } else if op == 0x10 {
        if pre.memory.key1 & 0x01 != 0 {
            8200
        } else {
            4
        }
    } else if op == 0x20 || op == 0x28 || op == 0x30 || op == 0x38 {
        if spec_cond(pre, (y - 4) as u8) {
            12
        } else {
            8
        }
    } else if op == 0xC0 || op == 0xC8 || op == 0xD0 || op == 0xD8 {
        if spec_cond(pre, y) {
            20
        } else {
            8
        }
    } else if op == 0xC2 || op == 0xCA || op == 0xD2 || op == 0xDA {
        if spec_cond(pre, y) {
            16
        } else {
            12
        }
    } else if op == 0xC4 || op == 0xCC || op == 0xD4 || op == 0xDC {
        if spec_cond(pre, y) {
            24
        } else {
            12
        }
    } else {
        crate::instructions::spec_opcode_cycles(op) as int
    }
}

/// The result a rotate/shift/swap produces (`kind` as in `rot`).
pub open spec fn spec_rot_result(v: u8, kind: u8, carry_in: bool) -> u8 {
    let cin: u8 = if carry_in {
        1
    } else {
        0
    };
    if kind == 0 {
        ((v % 128) * 2 + v / 128) as u8
    } else if kind == 1 {
        (v / 2 + (v % 2) * 128) as u8
    } else if kind == 2 {
        ((v % 128) * 2 + cin) as u8
    } else if kind == 3 {
        (v / 2 + cin * 128) as u8
    } else if kind == 4 {
        ((v % 128) * 2) as u8
    } else if kind == 5 {
        (v / 2 + (v / 128) * 128) as u8
    } else if kind == 6 {
        ((v % 16) * 16 + v / 16) as u8
    } else {
        (v / 2) as u8
    }
}

/// The carry flag a rotate/shift/swap leaves.
pub open spec fn spec_rot_carry(v: u8, kind: u8) -> bool {
    if kind == 0 || kind == 2 || kind == 4 {
        v >= 128
    } else if kind == 6 {
        false
    } else {
        v % 2 == 1
    }
}

/// Whether branch condition `cc` (NZ, Z, NC, C) holds of the flags.
pub open spec fn spec_cond(c: Cpu, cc: u8) -> bool {
    if cc == 0 {
        !c.regs.flag_z()
    } else if cc == 1 {
        c.regs.flag_z()
    } else if cc == 2 {
        !c.regs.flag_c()
    } else {
        c.regs.flag_c()
    }
}

} // verus!
