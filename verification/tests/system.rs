//! Whole-machine scenarios: reset, the master clock, the timer interrupt and
//! the raster engine.

use c64::emulator::Emulator;
use c64::gpu::Gpu;
use c64::memory::Memory;

fn zeros(n: usize) -> Vec<u8> {
    let mut v = Vec::new();
    while v.len() < n {
        v.push(0u8);
    }
    v
}

/// A KERNAL image whose reset vector points at $C000 and whose interrupt
/// vector points at $8000.
fn kernal_with_vectors() -> Vec<u8> {
    let mut k = zeros(0x2000);
    k[0x1FFC] = 0x00; // $FFFC
    k[0x1FFD] = 0xC0;
    k[0x1FFE] = 0x00; // $FFFE
    k[0x1FFF] = 0x80;
    k
}

fn machine() -> Emulator {
    Emulator::new(zeros(0x2000), kernal_with_vectors(), zeros(0x1000))
}

#[test]
fn reset_loads_pc_from_the_vector() {
    let mut e = machine();
    assert_eq!(e.cpu.pc, 0xC000);
    assert_eq!(e.memory.get_from_low(0x01), 0x37);
    assert_eq!(e.cpu.sp, 0x00);
    assert_eq!(e.cpu.p, 0x20);
    assert_eq!(e.tick_count, 0);
}

#[test]
fn tick_count_follows_elapsed_time_exactly() {
    let mut e = machine();
    // A run of NOPs across the whole $C0xx page.
    for low in 0..=0xFFu8 {
        e.memory.set_from_low_high(low, 0xC0, 0xEA);
    }
    // 101,500 ns at 985,248 Hz is exactly 100 cycles.
    e.step(101_500).unwrap();
    assert_eq!(e.tick_count, 100);
    // The same elapsed time demands no further cycles.
    e.step(101_500).unwrap();
    assert_eq!(e.tick_count, 100);
    // Twice the time: one hundred more.
    e.step(203_000).unwrap();
    assert_eq!(e.tick_count, 200);
}

#[test]
fn timer_a_underflow_raises_the_interrupt() {
    let mut e = machine();
    // NOP run-out at $C000.
    for low in 0..=0x20u8 {
        e.memory.set_from_low_high(low, 0xC0, 0xEA);
    }
    // Timer A: start latch $0002, interrupt enabled, control start+force-load.
    e.memory.set_from_low_high(0x04, 0xDC, 0x02);
    e.memory.set_from_low_high(0x05, 0xDC, 0x00);
    e.memory.set_from_low_high(0x0D, 0xDC, 0x81);
    e.memory.set_from_low_high(0x0E, 0xDC, 0x11);
    assert_eq!(e.cpu.p & 0x04, 0); // I clear: interrupts accepted

    // Cycle 1: load 2, count to 1; cycle 2: to 0; cycle 3: underflow, the
    // CPU takes the interrupt at its boundary; cycles 4-9 run the 7-cycle
    // sequence out.
    for _ in 0..9 {
        e.step_cycle().unwrap();
    }
    assert_eq!(e.cpu.pc, 0x8000); // vector at $FFFE/$FFFF
    assert_eq!(e.cpu.sp, 0xFD); // three pushes from $00
    assert_ne!(e.cpu.p & 0x04, 0); // I set by the sequence
    // The data register reads $81 once, then $00.
    assert_eq!(e.memory.get_from_low_high(0x0D, 0xDC), 0x81);
    assert_eq!(e.memory.get_from_low_high(0x0D, 0xDC), 0x00);
    // The pushed status has B clear and the unused bit set.
    assert_eq!(e.memory.get_stack(0xFE) & 0x10, 0);
    assert_ne!(e.memory.get_stack(0xFE) & 0x20, 0);
}

#[test]
fn timer_one_shot_stop_does_not_reload() {
    let mut e = machine();
    for low in 0..=0x20u8 {
        e.memory.set_from_low_high(low, 0xC0, 0xEA);
    }
    // Start latch 1, one-shot stop (bit 3), no interrupt enabled.
    e.memory.set_from_low_high(0x04, 0xDC, 0x01);
    e.memory.set_from_low_high(0x0E, 0xDC, 0x19);
    e.step_cycle().unwrap(); // load 1, count to 0
    e.step_cycle().unwrap(); // underflow: no reload
    assert_eq!(e.timer_a.value, 0);
    e.step_cycle().unwrap();
    assert_eq!(e.timer_a.value, 0);
    assert!(!e.cpu.interrupted); // mask bit 0 was never enabled
}

#[test]
fn raster_renders_one_character_cell() {
    // Standard setup: video matrix at $C400, character data at $C000
    // (bank $C000 from CIA2's power-on state, matrix base $0400).
    let mut m = Memory::new(zeros(0x2000), zeros(0x2000), zeros(0x1000));
    let mut g = Gpu::new();
    m.set_from_low_high(0x18, 0xD0, 0x10); // memory control: matrix base $0400
    m.set_from_low_high(0x21, 0xD0, 0x06); // background color 6
    m.set_from_low_high(0x00, 0xD8, 0x03); // color RAM cell 0: color 3
    m.set(0xC400, 0x02); // screen code 2 at the top-left cell
    m.set(0xC010, 0xAA); // bitmap %10101010 for character 2, row 0
    g.tick(&m);
    assert_eq!(g.x_pos, 1);
    assert_eq!(g.current_raster_line, 0);
    for px in 0..8 {
        let expected = if px % 2 == 0 { 0x03 } else { 0x06 };
        assert_eq!(g.display[px], expected);
    }
}

#[test]
fn raster_wraps_at_forty_columns_and_two_hundred_lines() {
    let m = Memory::new(zeros(0x2000), zeros(0x2000), zeros(0x1000));
    let mut g = Gpu::new();
    for _ in 0..40 {
        g.tick(&m);
    }
    assert_eq!(g.x_pos, 0);
    assert_eq!(g.current_raster_line, 1);
    for _ in 0..(40 * 199) {
        g.tick(&m);
    }
    assert_eq!(g.x_pos, 0);
    assert_eq!(g.current_raster_line, 0);
}

#[test]
fn cpu_error_stops_the_clock() {
    let mut e = machine();
    // $C000 holds $02, an opcode the core does not implement.
    e.memory.set_from_low_high(0x00, 0xC0, 0x02);
    let r = e.step(101_500);
    assert!(r.is_err());
    assert_eq!(e.tick_count, 1); // only the fetch cycle counted
}
