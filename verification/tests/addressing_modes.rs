//! Cycle-by-cycle coverage of the remaining addressing modes and the
//! interrupt return path.

use c64::addressing::Addressing;
use c64::cpu::Cpu;
use c64::emulator::Emulator;
use c64::memory::Memory;

fn zeros(n: usize) -> Vec<u8> {
    let mut v = Vec::new();
    while v.len() < n {
        v.push(0u8);
    }
    v
}

fn machine() -> (Memory, Cpu, Addressing) {
    let memory = Memory::new(zeros(0x2000), zeros(0x2000), zeros(0x1000));
    let cpu = Cpu::new();
    let addressing = Addressing::new();
    (memory, cpu, addressing)
}

fn run(cycles: usize, memory: &mut Memory, cpu: &mut Cpu, addressing: &mut Addressing) {
    for _ in 0..cycles {
        cpu.tick(memory, addressing).unwrap();
    }
}

#[test]
fn sta_absolute_indexed_takes_five_cycles() {
    let (mut memory, mut cpu, mut addressing) = machine();
    // STA $10FF,X with X = 1: writes always pay the fix cycle.
    memory.set_from_low_high(0x00, 0xC0, 0x9D);
    memory.set_from_low_high(0x01, 0xC0, 0xFF);
    memory.set_from_low_high(0x02, 0xC0, 0x10);
    cpu.set_pc(0x00, 0xC0);
    cpu.x = 1;
    cpu.a = 0x77;
    run(4, &mut memory, &mut cpu, &mut addressing);
    assert_ne!(cpu.state, 1);
    run(1, &mut memory, &mut cpu, &mut addressing);
    assert_eq!(cpu.state, 1);
    assert_eq!(memory.get_from_low_high(0x00, 0x11), 0x77);
}

#[test]
fn indirect_indexed_read_with_cross() {
    let (mut memory, mut cpu, mut addressing) = machine();
    // LDA ($40),Y with the pointer at $40 holding $10FF and Y = 1.
    memory.set_from_low(0x40, 0xFF);
    memory.set_from_low(0x41, 0x10);
    memory.set_from_low_high(0x00, 0x11, 0x5A);
    memory.set_from_low_high(0x00, 0xC0, 0xB1);
    memory.set_from_low_high(0x01, 0xC0, 0x40);
    cpu.set_pc(0x00, 0xC0);
    cpu.y = 1;
    run(5, &mut memory, &mut cpu, &mut addressing);
    assert_ne!(cpu.state, 1); // the cross costs a sixth cycle
    run(1, &mut memory, &mut cpu, &mut addressing);
    assert_eq!(cpu.state, 1);
    assert_eq!(cpu.a, 0x5A);
}

#[test]
fn indirect_indexed_read_without_cross() {
    let (mut memory, mut cpu, mut addressing) = machine();
    memory.set_from_low(0x40, 0x80);
    memory.set_from_low(0x41, 0x10);
    memory.set_from_low_high(0x81, 0x10, 0x3C);
    memory.set_from_low_high(0x00, 0xC0, 0xB1);
    memory.set_from_low_high(0x01, 0xC0, 0x40);
    cpu.set_pc(0x00, 0xC0);
    cpu.y = 1;
    run(5, &mut memory, &mut cpu, &mut addressing);
    assert_eq!(cpu.state, 1);
    assert_eq!(cpu.a, 0x3C);
}

#[test]
fn indirect_indexed_write_takes_six_cycles() {
    let (mut memory, mut cpu, mut addressing) = machine();
    // STA ($40),Y; the pointer wraps within the zero page for its high byte.
    memory.set_from_low(0x40, 0x00);
    memory.set_from_low(0x41, 0x30);
    memory.set_from_low_high(0x00, 0xC0, 0x91);
    memory.set_from_low_high(0x01, 0xC0, 0x40);
    cpu.set_pc(0x00, 0xC0);
    cpu.y = 0x10;
    cpu.a = 0x99;
    run(6, &mut memory, &mut cpu, &mut addressing);
    assert_eq!(cpu.state, 1);
    assert_eq!(memory.get_from_low_high(0x10, 0x30), 0x99);
}

#[test]
fn zero_page_indexed_wraps_within_the_page() {
    let (mut memory, mut cpu, mut addressing) = machine();
    // LDA $F0,X with X = $20: the sum wraps to $10 within the zero page.
    memory.set_from_low(0x10, 0x66);
    memory.set_from_low_high(0x00, 0xC0, 0xB5);
    memory.set_from_low_high(0x01, 0xC0, 0xF0);
    cpu.set_pc(0x00, 0xC0);
    cpu.x = 0x20;
    run(4, &mut memory, &mut cpu, &mut addressing);
    assert_eq!(cpu.state, 1);
    assert_eq!(cpu.a, 0x66);
}

#[test]
fn zero_page_indexed_rmw_takes_six_cycles() {
    let (mut memory, mut cpu, mut addressing) = machine();
    // ASL $10,X with X = 2.
    memory.set_from_low(0x12, 0x81);
    memory.set_from_low_high(0x00, 0xC0, 0x16);
    memory.set_from_low_high(0x01, 0xC0, 0x10);
    cpu.set_pc(0x00, 0xC0);
    cpu.x = 2;
    run(6, &mut memory, &mut cpu, &mut addressing);
    assert_eq!(cpu.state, 1);
    assert_eq!(memory.get_from_low(0x12), 0x02);
    assert_ne!(cpu.p & 0x01, 0); // ejected bit 7
}

#[test]
fn absolute_rmw_takes_six_cycles() {
    let (mut memory, mut cpu, mut addressing) = machine();
    // DEC $1234.
    memory.set_from_low_high(0x34, 0x12, 0x01);
    memory.set_from_low_high(0x00, 0xC0, 0xCE);
    memory.set_from_low_high(0x01, 0xC0, 0x34);
    memory.set_from_low_high(0x02, 0xC0, 0x12);
    cpu.set_pc(0x00, 0xC0);
    run(6, &mut memory, &mut cpu, &mut addressing);
    assert_eq!(cpu.state, 1);
    assert_eq!(memory.get_from_low_high(0x34, 0x12), 0x00);
    assert_ne!(cpu.p & 0x02, 0);
}

#[test]
fn pha_pla_round_trip() {
    let (mut memory, mut cpu, mut addressing) = machine();
    // PHA at $C000 (3 cycles), LDA #$00 (2), PLA (4).
    memory.set_from_low_high(0x00, 0xC0, 0x48);
    memory.set_from_low_high(0x01, 0xC0, 0xA9);
    memory.set_from_low_high(0x02, 0xC0, 0x00);
    memory.set_from_low_high(0x03, 0xC0, 0x68);
    cpu.set_pc(0x00, 0xC0);
    cpu.sp = 0xFF;
    cpu.a = 0x5D;
    run(3, &mut memory, &mut cpu, &mut addressing);
    assert_eq!(cpu.sp, 0xFE);
    assert_eq!(memory.get_stack(0xFF), 0x5D);
    run(2, &mut memory, &mut cpu, &mut addressing);
    assert_eq!(cpu.a, 0x00);
    run(4, &mut memory, &mut cpu, &mut addressing);
    assert_eq!(cpu.a, 0x5D);
    assert_eq!(cpu.sp, 0xFF);
    assert_eq!(cpu.state, 1);
}

#[test]
fn rti_returns_from_the_interrupt() {
    let mut kernal = zeros(0x2000);
    kernal[0x1FFC] = 0x00; // reset vector: $C000
    kernal[0x1FFD] = 0xC0;
    kernal[0x1FFE] = 0x00; // interrupt vector: $8000
    kernal[0x1FFF] = 0x80;
    let mut e = Emulator::new(zeros(0x2000), kernal, zeros(0x1000));
    for low in 0..=0x20u8 {
        e.memory.set_from_low_high(low, 0xC0, 0xEA);
    }
    e.memory.set_from_low_high(0x00, 0x80, 0x40); // the handler: RTI
    e.memory.set_from_low_high(0x04, 0xDC, 0x02); // Timer A latch $0002
    e.memory.set_from_low_high(0x05, 0xDC, 0x00);
    e.memory.set_from_low_high(0x0D, 0xDC, 0x81);
    e.memory.set_from_low_high(0x0E, 0xDC, 0x11);
    for _ in 0..9 {
        e.step_cycle().unwrap(); // through the 7-cycle interrupt sequence
    }
    assert_eq!(e.cpu.pc, 0x8000);
    for _ in 0..6 {
        e.step_cycle().unwrap(); // RTI
    }
    assert_eq!(e.cpu.pc, 0xC001); // back after the one retired NOP
    assert_eq!(e.cpu.sp, 0x00);
    assert_eq!(e.cpu.p & 0x04, 0); // the restored status has I clear
    assert_eq!(e.cpu.state, 1);
}
