use gbc::cpu::{Cpu, Interrupt};
use gbc::memory::MemoryBus;

fn fresh() -> Cpu {
    Cpu::new(MemoryBus::new(None))
}

/// Load a small program into WRAM and point PC at it.
fn with_program(cpu: &mut Cpu, bytes: &[u8]) {
    for (i, b) in bytes.iter().enumerate() {
        cpu.memory.write8(0xC000 + i as u16, *b);
    }
    cpu.regs.pc = 0xC000;
    cpu.regs.sp = 0xD000;
}

#[test]
fn f_low_nibble_zero_after_every_opcode() {
    for op in 0..=255u8 {
        let mut cpu = fresh();
        cpu.regs.set_f(0xF0);
        cpu.regs.a = 0x3C;
        cpu.regs.set_hl(0xC800);
        cpu.regs.pc = 0xC100;
        cpu.regs.sp = 0xD000;
        cpu.execute(op);
        assert_eq!(cpu.regs.f & 0x0F, 0, "opcode {:#04x}", op);
    }
    for cb in 0..=255u8 {
        let mut cpu = fresh();
        cpu.regs.set_hl(0xC800);
        cpu.regs.pc = 0xC100;
        cpu.regs.sp = 0xD000;
        cpu.memory.write8(0xC100, cb);
        cpu.execute(0xCB);
        assert_eq!(cpu.regs.f & 0x0F, 0, "cb opcode {:#04x}", cb);
    }
}

#[test]
fn interrupt_dispatch_pushes_and_jumps() {
    let mut cpu = fresh();
    cpu.regs.pc = 0xC000;
    cpu.regs.sp = 0xD000;
    cpu.memory.write8(0xFFFF, 0x04);
    cpu.memory.write8(0xFF0F, 0x04);
    cpu.ime = true;
    let cycles = cpu.step();
    assert_eq!(cycles, 20);
    // Timer is bit 2: vector 0x0040 + 2 * 8.
    assert_eq!(cpu.regs.pc, 0x0050);
    assert!(!cpu.ime);
    assert_eq!(cpu.memory.int_flags & 0x04, 0);
    assert_eq!(cpu.regs.sp, 0xCFFE);
    assert_eq!(cpu.memory.read8(0xCFFE), 0x00);
    assert_eq!(cpu.memory.read8(0xCFFF), 0xC0);
}

#[test]
fn interrupt_priority_lowest_bit_wins() {
    let mut cpu = fresh();
    cpu.regs.pc = 0xC000;
    cpu.regs.sp = 0xD000;
    cpu.memory.write8(0xFFFF, 0x1F);
    cpu.memory.write8(0xFF0F, 0x12);
    cpu.ime = true;
    cpu.step();
    // LCD STAT (bit 1) outranks Joypad (bit 4): vector 0x0048.
    assert_eq!(cpu.regs.pc, 0x0048);
    assert_eq!(cpu.memory.int_flags, 0x10);
}

#[test]
fn halt_wakes_on_pending_interrupt_without_ime() {
    let mut cpu = fresh();
    with_program(&mut cpu, &[0x76, 0x3C]);
    cpu.regs.a = 0;
    cpu.memory.write8(0xFFFF, 0x01);
    cpu.memory.write8(0xFF0F, 0x01);
    cpu.ime = false;
    cpu.step();
    cpu.step();
    assert_eq!(cpu.regs.a, 1);
    assert_eq!(cpu.regs.pc, 0xC002);
}

#[test]
fn halt_idles_with_no_pending_interrupt() {
    let mut cpu = fresh();
    with_program(&mut cpu, &[0x76, 0x3C]);
    cpu.memory.write8(0xFFFF, 0x00);
    cpu.memory.write8(0xFF0F, 0x00);
    cpu.step();
    assert!(cpu.halted);
    let c = cpu.step();
    assert_eq!(c, 4);
    assert_eq!(cpu.regs.a, 0x11);
    assert_eq!(cpu.regs.pc, 0xC001);
}

#[test]
fn ei_takes_effect_after_next_instruction() {
    let mut cpu = fresh();
    // EI; NOP; NOP.
    with_program(&mut cpu, &[0xFB, 0x00, 0x00]);
    cpu.memory.write8(0xFFFF, 0x01);
    cpu.memory.write8(0xFF0F, 0x01);
    cpu.step();
    assert!(!cpu.ime);
    cpu.step();
    assert!(cpu.ime);
    // Now the pending VBlank dispatches.
    let c = cpu.step();
    assert_eq!(c, 20);
    assert_eq!(cpu.regs.pc, 0x0040);
}

#[test]
fn undefined_opcode_locks_cpu() {
    let mut cpu = fresh();
    with_program(&mut cpu, &[0xD3, 0x00]);
    cpu.step();
    assert!(cpu.locked);
    let pc = cpu.regs.pc;
    cpu.step();
    assert_eq!(cpu.regs.pc, pc);
}

#[test]
fn add_and_daa_adjust_bcd() {
    let mut cpu = fresh();
    // LD A,0x15; ADD A,0x06; DAA.
    with_program(&mut cpu, &[0x3E, 0x15, 0xC6, 0x06, 0x27]);
    cpu.step();
    cpu.step();
    assert_eq!(cpu.regs.a, 0x1B);
    cpu.step();
    assert_eq!(cpu.regs.a, 0x21);
}

#[test]
fn arithmetic_flags() {
    let mut cpu = fresh();
    // LD A,0xFF; ADD A,0x01 -> 0, Z H C set.
    with_program(&mut cpu, &[0x3E, 0xFF, 0xC6, 0x01]);
    cpu.step();
    cpu.step();
    assert_eq!(cpu.regs.a, 0);
    assert_eq!(cpu.regs.f, 0xB0);
    // SUB borrows: LD A,0x10; SUB 0x20 -> 0xF0, N C set.
    let mut cpu2 = fresh();
    with_program(&mut cpu2, &[0x3E, 0x10, 0xD6, 0x20]);
    cpu2.step();
    cpu2.step();
    assert_eq!(cpu2.regs.a, 0xF0);
    assert_eq!(cpu2.regs.f, 0x50);
}

#[test]
fn add_hl_flags() {
    let mut cpu = fresh();
    // LD HL,0x0FFF; LD BC,0x0001; ADD HL,BC: H set from bit 11.
    with_program(&mut cpu, &[0x21, 0xFF, 0x0F, 0x01, 0x01, 0x00, 0x09]);
    cpu.step();
    cpu.step();
    let z = cpu.regs.f & 0x80;
    cpu.step();
    assert_eq!(cpu.regs.hl(), 0x1000);
    assert_eq!(cpu.regs.f & 0x20, 0x20);
    assert_eq!(cpu.regs.f & 0x40, 0);
    assert_eq!(cpu.regs.f & 0x80, z);
}

#[test]
fn rotates_and_swap() {
    let mut cpu = fresh();
    // LD A,0x81; RLCA -> 0x03, C set.
    with_program(&mut cpu, &[0x3E, 0x81, 0x07]);
    cpu.step();
    cpu.step();
    assert_eq!(cpu.regs.a, 0x03);
    assert_eq!(cpu.regs.f & 0x10, 0x10);
    // CB SWAP B: 0xA5 -> 0x5A.
    let mut cpu2 = fresh();
    with_program(&mut cpu2, &[0xCB, 0x30]);
    cpu2.regs.b = 0xA5;
    cpu2.step();
    assert_eq!(cpu2.regs.b, 0x5A);
    // CB BIT 7,A with bit clear sets Z.
    let mut cpu3 = fresh();
    with_program(&mut cpu3, &[0xCB, 0x7F]);
    cpu3.regs.a = 0x00;
    cpu3.step();
    assert_eq!(cpu3.regs.f & 0x80, 0x80);
    // CB SET 3,C then RES 3,C.
    let mut cpu4 = fresh();
    with_program(&mut cpu4, &[0xCB, 0xD9, 0xCB, 0x99]);
    cpu4.regs.c = 0;
    cpu4.step();
    assert_eq!(cpu4.regs.c, 0x08);
    cpu4.step();
    assert_eq!(cpu4.regs.c, 0x00);
}

#[test]
fn stack_push_pop_and_af_mask() {
    let mut cpu = fresh();
    // LD BC,0x12FF; PUSH BC; POP AF: F keeps only its high nibble.
    with_program(&mut cpu, &[0x01, 0xFF, 0x12, 0xC5, 0xF1]);
    cpu.step();
    cpu.step();
    cpu.step();
    assert_eq!(cpu.regs.a, 0x12);
    assert_eq!(cpu.regs.f, 0xF0);
    assert_eq!(cpu.regs.sp, 0xD000);
}

#[test]
fn jr_backward_and_forward() {
    let mut cpu = fresh();
    // JR +2 over two NOPs, then JR -4 back to 0xC002.
    with_program(&mut cpu, &[0x18, 0x02, 0x00, 0x00, 0x18, 0xFC]);
    cpu.step();
    assert_eq!(cpu.regs.pc, 0xC004);
    cpu.step();
    assert_eq!(cpu.regs.pc, 0xC002);
}

#[test]
fn call_and_ret() {
    let mut cpu = fresh();
    // CALL 0xC010; ... at 0xC010: RET.
    with_program(&mut cpu, &[0xCD, 0x10, 0xC0]);
    cpu.memory.write8(0xC010, 0xC9);
    let c = cpu.step();
    assert_eq!(c, 24);
    assert_eq!(cpu.regs.pc, 0xC010);
    assert_eq!(cpu.regs.sp, 0xCFFE);
    cpu.step();
    assert_eq!(cpu.regs.pc, 0xC003);
    assert_eq!(cpu.regs.sp, 0xD000);
}

#[test]
fn conditional_branch_cycles() {
    let mut cpu = fresh();
    // XOR A (Z set); JR NZ,+2 not taken costs 8.
    with_program(&mut cpu, &[0xAF, 0x20, 0x02, 0x00]);
    cpu.step();
    let c = cpu.step();
    assert_eq!(c, 8);
    assert_eq!(cpu.regs.pc, 0xC003);
}

#[test]
fn speed_switch_on_stop() {
    let mut cpu = fresh();
    with_program(&mut cpu, &[0x10, 0x00]);
    cpu.memory.write8(0xFF4D, 0x01);
    cpu.memory.timer.counter = 500;
    assert!(!cpu.speed());
    let c = cpu.step();
    assert_eq!(c, 8200);
    assert!(cpu.speed());
    assert_eq!(cpu.cycle_time(), 119);
    assert_eq!(cpu.memory.timer.counter, 0);
    assert!(!cpu.stopped);
    assert_eq!(cpu.memory.read8(0xFF4D) & 0x01, 0);
}

#[test]
fn stop_without_prepared_switch_stops() {
    let mut cpu = fresh();
    with_program(&mut cpu, &[0x10, 0x00]);
    cpu.step();
    assert!(cpu.stopped);
}

#[test]
fn ld_hl_increment_decrement() {
    let mut cpu = fresh();
    // LD HL,0xC800; LD A,0x5A; LD (HL+),A; LD (HL-),A.
    with_program(&mut cpu, &[0x21, 0x00, 0xC8, 0x3E, 0x5A, 0x22, 0x32]);
    cpu.step();
    cpu.step();
    cpu.step();
    assert_eq!(cpu.regs.hl(), 0xC801);
    cpu.step();
    assert_eq!(cpu.regs.hl(), 0xC800);
    assert_eq!(cpu.memory.read8(0xC800), 0x5A);
    assert_eq!(cpu.memory.read8(0xC801), 0x5A);
}

#[test]
fn fetch_and_disassemble_are_pure() {
    let mut cpu = fresh();
    with_program(&mut cpu, &[0x3E, 0x42, 0xC3, 0x00, 0xC0]);
    let inst = cpu.fetch(None);
    assert_eq!(inst.opcode, 0x3E);
    assert_eq!(inst.len, 2);
    assert_eq!(inst.imm, 0x42);
    assert_eq!(cpu.regs.pc, 0xC000);
    let listing = cpu.disassemble(2, None);
    assert_eq!(listing.len(), 2);
    assert_eq!(listing[1].opcode, 0xC3);
    assert_eq!(listing[1].imm, 0xC000);
    assert_eq!(listing[1].addr, 0xC002);
}

#[test]
fn fetch_reports_base_cycles() {
    // Unconditional opcodes: the decoder's base cost equals what a step
    // actually consumes.
    let cases: [(Vec<u8>, u32); 6] = [
        (vec![0x00], 4),
        (vec![0x3E, 0x42], 8),
        (vec![0x08, 0x00, 0xC8], 20),
        (vec![0x31, 0x00, 0xD0], 12),
        (vec![0xC3, 0x00, 0xC0], 16),
        (vec![0xCB, 0x37], 8),
    ];
    for (prog, want) in cases.iter() {
        let mut cpu = fresh();
        with_program(&mut cpu, prog);
        let inst = cpu.fetch(None);
        assert_eq!(inst.cycles as u32, *want);
        let got = cpu.step();
        assert_eq!(got, *want);
    }
    // A taken conditional branch costs more than its decoded base.
    let mut cpu = fresh();
    with_program(&mut cpu, &[0xAF, 0x28, 0x02]);
    cpu.step();
    let inst = cpu.fetch(None);
    assert_eq!(inst.cycles, 8);
    let got = cpu.step();
    assert_eq!(got, 12);
}

#[test]
fn add_sp_signed_offset() {
    let mut cpu = fresh();
    // ADD SP,-2 (0xFE).
    with_program(&mut cpu, &[0xE8, 0xFE]);
    cpu.regs.sp = 0xD000;
    cpu.step();
    assert_eq!(cpu.regs.sp, 0xCFFE);
    assert_eq!(cpu.regs.f & 0x80, 0);
    assert_eq!(cpu.regs.f & 0x40, 0);
}

#[test]
fn dispatch_wakes_halted_cpu_with_ime() {
    let mut cpu = fresh();
    with_program(&mut cpu, &[0x76, 0x00]);
    cpu.ime = true;
    cpu.memory.write8(0xFFFF, 0x00);
    cpu.memory.write8(0xFF0F, 0x00);
    cpu.step();
    assert!(cpu.halted);
    cpu.memory.write8(0xFFFF, 0x01);
    cpu.trigger_interrupt(Interrupt::Vblank);
    let c = cpu.step();
    assert_eq!(c, 20);
    assert!(!cpu.halted);
    assert_eq!(cpu.regs.pc, 0x0040);
}
