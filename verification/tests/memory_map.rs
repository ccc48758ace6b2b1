//! The bank-select decode: ROM overlays, RAM underneath, the I/O window and
//! its device mirrors.

use c64::memory::Memory;

fn filled(n: usize, value: u8) -> Vec<u8> {
    let mut v = Vec::new();
    while v.len() < n {
        v.push(value);
    }
    v
}

fn bus() -> Memory {
    Memory::new(filled(0x2000, 0x11), filled(0x2000, 0x22), filled(0x1000, 0x33))
}

#[test]
fn reset_state_of_ram() {
    let mut m = bus();
    assert_eq!(m.get_from_low(0x00), 0x2F);
    assert_eq!(m.get_from_low(0x01), 0x37);
    assert_eq!(m.get_from_low_high(0x00, 0x40), 0x00);
}

#[test]
fn basic_rom_visible_iff_both_low_bank_bits() {
    let mut m = bus();
    assert_eq!(m.get_from_low_high(0x00, 0xA0), 0x11);
    m.set_from_low(0x01, 0x36); // bank bits 0b110: BASIC out, KERNAL in
    assert_eq!(m.get_from_low_high(0x00, 0xA0), 0x00);
    assert_eq!(m.get_from_low_high(0x00, 0xE0), 0x22);
}

#[test]
fn kernal_rom_visible_iff_bank_bit_one() {
    let mut m = bus();
    assert_eq!(m.get_from_low_high(0xFF, 0xFF), 0x22);
    m.set_from_low(0x01, 0x35); // bit 1 clear: KERNAL out
    assert_eq!(m.get_from_low_high(0xFF, 0xFF), 0x00);
}

#[test]
fn chargen_visible_when_bit_two_clear() {
    let mut m = bus();
    m.set_from_low(0x01, 0x33); // mapped, bit 2 clear: character ROM
    assert_eq!(m.get_from_low_high(0x00, 0xD0), 0x33);
    m.set_from_low(0x01, 0x34); // bank bits 0b100: plain RAM at $D000
    assert_eq!(m.get_from_low_high(0x00, 0xD0), 0x00);
}

#[test]
fn writes_land_in_ram_underneath_rom() {
    let mut m = bus();
    m.set_from_low_high(0x23, 0xA1, 0x77); // BASIC is visible; RAM takes the write
    assert_eq!(m.get_from_low_high(0x23, 0xA1), 0x11);
    m.set_from_low(0x01, 0x36); // bank BASIC out
    assert_eq!(m.get_from_low_high(0x23, 0xA1), 0x77);
}

#[test]
fn vic_registers_mirror_every_64_bytes() {
    let mut m = bus();
    m.set_from_low_high(0x20, 0xD0, 0x0E); // border color at $D020
    assert_eq!(m.get_from_low_high(0x20, 0xD0), 0x0E);
    assert_eq!(m.get_from_low_high(0x60, 0xD0), 0x0E); // $D060 mirrors $D020
    m.set_from_low_high(0xA1, 0xD3, 0x06); // $D3A1 mirrors $D021
    assert_eq!(m.get_from_low_high(0x21, 0xD0), 0x06);
}

#[test]
fn color_ram_stores_and_returns_bytes() {
    let mut m = bus();
    m.set_from_low_high(0x00, 0xD8, 0x05);
    m.set_from_low_high(0xFF, 0xDB, 0x0A);
    assert_eq!(m.get_from_low_high(0x00, 0xD8), 0x05);
    assert_eq!(m.get_from_low_high(0xFF, 0xDB), 0x0A);
}

#[test]
fn cia1_mirrors_every_16_bytes() {
    let mut m = bus();
    m.set_from_low_high(0x0E, 0xDC, 0x19); // Timer A control
    assert_eq!(m.get_from_low_high(0x0E, 0xDC), 0x19);
    assert_eq!(m.get_from_low_high(0x1E, 0xDC), 0x19); // $DC1E mirrors $DC0E
}

#[test]
fn cia1_interrupt_data_reads_once() {
    let mut m = bus();
    m.cia1().interrupt_timer_a(); // nothing latched: mask bit clear
    assert_eq!(m.get_from_low_high(0x0D, 0xDC), 0x00);
    m.set_from_low_high(0x0D, 0xDC, 0x81); // enable Timer A in the mask
    assert!(m.cia1().interrupt_timer_a());
    assert_eq!(m.get_from_low_high(0x0D, 0xDC), 0x81);
    assert_eq!(m.get_from_low_high(0x0D, 0xDC), 0x00); // the read cleared it
}

#[test]
fn cia1_mask_write_set_and_clear() {
    let mut m = bus();
    m.set_from_low_high(0x0D, 0xDC, 0x83); // set bits 0 and 1
    assert!(m.cia1().interrupt_timer_a()); // bit 0 enabled
    m.set_from_low_high(0x0D, 0xDC, 0x01); // clear bit 0
    assert!(!m.cia1().interrupt_timer_a());
}

#[test]
fn cia2_selects_the_vic_bank() {
    let mut m = bus();
    assert_eq!(m.cia2().get_vic_bank(), 0xC000); // power-on: port A = 0
    m.set_from_low_high(0x00, 0xDD, 0x03);
    assert_eq!(m.cia2().get_vic_bank(), 0x0000);
    m.set_from_low_high(0x00, 0xDD, 0x02);
    assert_eq!(m.cia2().get_vic_bank(), 0x4000);
    m.set_from_low_high(0x00, 0xDD, 0x01);
    assert_eq!(m.cia2().get_vic_bank(), 0x8000);
}

#[test]
fn vic_sees_chargen_in_its_windows() {
    let mut m = bus();
    assert_eq!(m.get_from_gpu(0x1000), 0x33); // character ROM window
    assert_eq!(m.get_from_gpu(0x9FFF), 0x33); // the second window
    m.set(0x2000, 0x44);
    assert_eq!(m.get_from_gpu(0x2000), 0x44); // plain RAM elsewhere
    m.set(0xD000, 0x00); // I/O visible: goes to the VIC register file
    assert_eq!(m.get_from_gpu(0xD000), 0x00); // the VIC itself reads RAM there
}

#[test]
fn stack_accesses_stay_in_page_one() {
    let mut m = bus();
    m.set_stack(0x00, 0xAA);
    m.set_stack(0xFF, 0xBB);
    assert_eq!(m.get_stack(0x00), 0xAA);
    assert_eq!(m.get_stack(0xFF), 0xBB);
    assert_eq!(m.get_from_low_high(0x00, 0x01), 0xAA); // $0100
    assert_eq!(m.get_from_low_high(0xFF, 0x01), 0xBB); // $01FF
}

#[test]
fn sid_stub_reads_fall_through_to_ram() {
    let mut m = bus();
    m.set_from_low_high(0x00, 0xD4, 0x99); // I/O visible: the stub drops the write
    assert_eq!(m.get_from_low_high(0x00, 0xD4), 0x00);
}
