//! Instruction-level scenarios driven cycle by cycle through the CPU core.

use c64::addressing::Addressing;
use c64::cpu::{Cpu, CpuError};
use c64::memory::Memory;

fn zeros(n: usize) -> Vec<u8> {
    let mut v = Vec::new();
    while v.len() < n {
        v.push(0u8);
    }
    v
}

fn machine() -> (Memory, Cpu, Addressing) {
    let memory = Memory::new(zeros(0x2000), zeros(0x2000), zeros(0x1000));
    let cpu = Cpu::new();
    let addressing = Addressing::new();
    (memory, cpu, addressing)
}

fn run(cycles: usize, memory: &mut Memory, cpu: &mut Cpu, addressing: &mut Addressing) {
    for _ in 0..cycles {
        cpu.tick(memory, addressing).unwrap();
    }
}

#[test]
fn lda_immediate() {
    let (mut memory, mut cpu, mut addressing) = machine();
    memory.set_from_low_high(0x00, 0xC0, 0xA9);
    memory.set_from_low_high(0x01, 0xC0, 0x42);
    cpu.set_pc(0x00, 0xC0);
    run(2, &mut memory, &mut cpu, &mut addressing);
    assert_eq!(cpu.a, 0x42);
    assert_eq!(cpu.pc, 0xC002);
    assert_eq!(cpu.p & 0x80, 0); // N clear
    assert_eq!(cpu.p & 0x02, 0); // Z clear
    assert_eq!(cpu.state, 1);
}

#[test]
fn jsr_rts_round_trip() {
    let (mut memory, mut cpu, mut addressing) = machine();
    // $C000: JSR $1234; $1234: RTS
    memory.set_from_low_high(0x00, 0xC0, 0x20);
    memory.set_from_low_high(0x01, 0xC0, 0x34);
    memory.set_from_low_high(0x02, 0xC0, 0x12);
    memory.set_from_low_high(0x34, 0x12, 0x60);
    cpu.set_pc(0x00, 0xC0);
    cpu.sp = 0xFD;
    run(6, &mut memory, &mut cpu, &mut addressing);
    assert_eq!(cpu.pc, 0x1234);
    assert_eq!(cpu.sp, 0xFB);
    assert_eq!(memory.get_stack(0xFD), 0xC0);
    assert_eq!(memory.get_stack(0xFC), 0x02);
    run(6, &mut memory, &mut cpu, &mut addressing);
    assert_eq!(cpu.pc, 0xC003);
    assert_eq!(cpu.sp, 0xFD);
    assert_eq!(cpu.state, 1);
}

#[test]
fn indexed_read_page_cross_costs_five_cycles() {
    let (mut memory, mut cpu, mut addressing) = machine();
    // LDA $10FF,X with X = 1; the byte at $1100 is $55.
    memory.set_from_low_high(0x00, 0xC0, 0xBD);
    memory.set_from_low_high(0x01, 0xC0, 0xFF);
    memory.set_from_low_high(0x02, 0xC0, 0x10);
    memory.set_from_low_high(0x00, 0x11, 0x55);
    cpu.set_pc(0x00, 0xC0);
    cpu.x = 1;
    run(4, &mut memory, &mut cpu, &mut addressing);
    assert_ne!(cpu.state, 1); // not yet retired after four cycles
    run(1, &mut memory, &mut cpu, &mut addressing);
    assert_eq!(cpu.state, 1); // the cross costs the fifth cycle
    assert_eq!(cpu.a, 0x55);
}

#[test]
fn indexed_read_without_cross_costs_four_cycles() {
    let (mut memory, mut cpu, mut addressing) = machine();
    // LDA $1080,X with X = 1; the byte at $1081 is $66.
    memory.set_from_low_high(0x00, 0xC0, 0xBD);
    memory.set_from_low_high(0x01, 0xC0, 0x80);
    memory.set_from_low_high(0x02, 0xC0, 0x10);
    memory.set_from_low_high(0x81, 0x10, 0x66);
    cpu.set_pc(0x00, 0xC0);
    cpu.x = 1;
    run(4, &mut memory, &mut cpu, &mut addressing);
    assert_eq!(cpu.state, 1);
    assert_eq!(cpu.a, 0x66);
}

#[test]
fn indirect_jmp_page_wrap_bug() {
    let (mut memory, mut cpu, mut addressing) = machine();
    memory.set_from_low_high(0xFF, 0x03, 0x00);
    memory.set_from_low_high(0x00, 0x04, 0x80);
    memory.set_from_low_high(0x00, 0x03, 0xC0);
    // JMP ($03FF): the high byte comes from $0300, not $0400.
    memory.set_from_low_high(0x00, 0xC0, 0x6C);
    memory.set_from_low_high(0x01, 0xC0, 0xFF);
    memory.set_from_low_high(0x02, 0xC0, 0x03);
    cpu.set_pc(0x00, 0xC0);
    run(5, &mut memory, &mut cpu, &mut addressing);
    assert_eq!(cpu.pc, 0xC000);
    assert_eq!(cpu.state, 1);
}

#[test]
fn branch_taken_costs_three_cycles() {
    let (mut memory, mut cpu, mut addressing) = machine();
    // BNE +2 with Z clear.
    memory.set_from_low_high(0x00, 0xC0, 0xD0);
    memory.set_from_low_high(0x01, 0xC0, 0x02);
    cpu.set_pc(0x00, 0xC0);
    run(2, &mut memory, &mut cpu, &mut addressing);
    assert_ne!(cpu.state, 1);
    run(1, &mut memory, &mut cpu, &mut addressing);
    assert_eq!(cpu.state, 1);
    assert_eq!(cpu.pc, 0xC004);
}

#[test]
fn branch_not_taken_costs_two_cycles() {
    let (mut memory, mut cpu, mut addressing) = machine();
    // BNE with Z set falls through in two cycles.
    memory.set_from_low_high(0x00, 0xC0, 0xD0);
    memory.set_from_low_high(0x01, 0xC0, 0x02);
    cpu.set_pc(0x00, 0xC0);
    cpu.p = 0x22;
    run(2, &mut memory, &mut cpu, &mut addressing);
    assert_eq!(cpu.state, 1);
    assert_eq!(cpu.pc, 0xC002);
}

#[test]
fn branch_page_cross_costs_four_cycles() {
    let (mut memory, mut cpu, mut addressing) = machine();
    // BNE +$20 from $C0F0: target $C112 is across the page.
    memory.set_from_low_high(0xF0, 0xC0, 0xD0);
    memory.set_from_low_high(0xF1, 0xC0, 0x20);
    cpu.set_pc(0xF0, 0xC0);
    run(3, &mut memory, &mut cpu, &mut addressing);
    assert_ne!(cpu.state, 1);
    run(1, &mut memory, &mut cpu, &mut addressing);
    assert_eq!(cpu.state, 1);
    assert_eq!(cpu.pc, 0xC112);
}

#[test]
fn branch_backwards_across_page() {
    let (mut memory, mut cpu, mut addressing) = machine();
    // BNE -6 from $C000: target $BFFC borrows out of the page.
    memory.set_from_low_high(0x00, 0xC0, 0xD0);
    memory.set_from_low_high(0x01, 0xC0, 0xFA);
    cpu.set_pc(0x00, 0xC0);
    run(4, &mut memory, &mut cpu, &mut addressing);
    assert_eq!(cpu.state, 1);
    assert_eq!(cpu.pc, 0xBFFC);
}

#[test]
fn branch_backwards_within_page() {
    let (mut memory, mut cpu, mut addressing) = machine();
    // BNE -4 from $C002: target $C000 stays in the page, three cycles.
    memory.set_from_low_high(0x02, 0xC0, 0xD0);
    memory.set_from_low_high(0x03, 0xC0, 0xFC);
    cpu.set_pc(0x02, 0xC0);
    run(3, &mut memory, &mut cpu, &mut addressing);
    assert_eq!(cpu.state, 1);
    assert_eq!(cpu.pc, 0xC000);
}

#[test]
fn zero_page_rmw_takes_five_cycles() {
    let (mut memory, mut cpu, mut addressing) = machine();
    // INC $10 with $10 holding $7F.
    memory.set_from_low_high(0x00, 0xC0, 0xE6);
    memory.set_from_low_high(0x01, 0xC0, 0x10);
    memory.set_from_low(0x10, 0x7F);
    cpu.set_pc(0x00, 0xC0);
    run(5, &mut memory, &mut cpu, &mut addressing);
    assert_eq!(cpu.state, 1);
    assert_eq!(memory.get_from_low(0x10), 0x80);
    assert_ne!(cpu.p & 0x80, 0); // N set by the result
}

#[test]
fn illegal_opcode_reports_its_address() {
    let (mut memory, mut cpu, mut addressing) = machine();
    memory.set_from_low_high(0x00, 0xC0, 0x02);
    cpu.set_pc(0x00, 0xC0);
    assert!(cpu.tick(&mut memory, &mut addressing).is_ok()); // fetch
    let err = cpu.tick(&mut memory, &mut addressing).unwrap_err();
    assert_eq!(err, CpuError::IllegalOpcode(0x02, 0xC000));
}

#[test]
fn illegal_sub_cycle_is_reported() {
    let (mut memory, mut cpu, mut addressing) = machine();
    cpu.opcode = 0xA9;
    cpu.state = 7;
    let err = cpu.tick(&mut memory, &mut addressing).unwrap_err();
    assert_eq!(err, CpuError::IllegalSubCycle(0xA9, 7));
}

#[test]
fn program_exercises_the_dispatch() {
    let (mut memory, mut cpu, mut addressing) = machine();
    let program: [u8; 35] = [
        0xA2, 0x10, // LDX #$10
        0x8E, 0x00, 0x02, // STX $0200
        0xA9, 0x0F, // LDA #$0F
        0x0D, 0x00, 0x02, // ORA $0200 -> $1F
        0x29, 0xF3, // AND #$F3  -> $13
        0x49, 0x01, // EOR #$01  -> $12
        0x18, // CLC
        0x69, 0x07, // ADC #$07  -> $19
        0x38, // SEC
        0xE9, 0x09, // SBC #$09  -> $10
        0x85, 0x40, // STA $40
        0xE6, 0x40, // INC $40   -> $11
        0xA4, 0x40, // LDY $40
        0xC0, 0x11, // CPY #$11  -> Z, C
        0xF0, 0x02, // BEQ +2
        0x00, 0x00, // (skipped)
        0xC8, // INY       -> $12
        0xEA, // NOP
        0x0A, // ASL A     -> $20
    ];
    for (i, byte) in program.iter().enumerate() {
        memory.set_from_low_high(i as u8, 0xC0, *byte);
    }
    cpu.set_pc(0x00, 0xC0);
    // The published counts of the eighteen instructions sum to 46.
    run(46, &mut memory, &mut cpu, &mut addressing);
    assert_eq!(cpu.state, 1);
    assert_eq!(cpu.pc, 0xC023);
    assert_eq!(cpu.a, 0x20);
    assert_eq!(cpu.x, 0x10);
    assert_eq!(cpu.y, 0x12);
    assert_eq!(memory.get_from_low(0x40), 0x11);
    assert_eq!(memory.get_from_low_high(0x00, 0x02), 0x10);
    assert_eq!(cpu.p & 0x01, 0); // the final ASL ejected a clear bit 7
    assert_eq!(cpu.p & 0x02, 0); // last results non-zero
}

#[test]
fn irq_enters_at_instruction_boundary_only() {
    let (mut memory, mut cpu, mut addressing) = machine();
    // A NOP at $C000; the IRQ vector points at $8000.
    memory.set_from_low_high(0x00, 0xC0, 0xEA);
    cpu.set_pc(0x00, 0xC0);
    cpu.tick(&mut memory, &mut addressing).unwrap(); // fetch: now mid-instruction
    cpu.interrupt();
    cpu.tick(&mut memory, &mut addressing).unwrap(); // NOP retires, latch untouched
    assert!(cpu.interrupted);
    assert!(!cpu.interrupted_started);
    cpu.tick(&mut memory, &mut addressing).unwrap(); // boundary: IRQ accepted
    assert!(!cpu.interrupted);
    assert!(cpu.interrupted_started);
}

#[test]
fn irq_stays_pending_while_i_flag_set() {
    let (mut memory, mut cpu, mut addressing) = machine();
    memory.set_from_low_high(0x00, 0xC0, 0xEA);
    memory.set_from_low_high(0x01, 0xC0, 0xEA);
    cpu.set_pc(0x00, 0xC0);
    cpu.p = 0x24; // I set
    cpu.interrupt();
    run(2, &mut memory, &mut cpu, &mut addressing); // a whole NOP
    assert!(cpu.interrupted); // still pending
    assert!(!cpu.interrupted_started);
    assert_eq!(cpu.pc, 0xC001);
    cpu.p = 0x20; // I cleared: the next boundary takes it
    cpu.tick(&mut memory, &mut addressing).unwrap();
    assert!(cpu.interrupted_started);
}
