//! The keyboard matrix: key numbering and the scan into CIA1's port B.

use c64::emulator::Emulator;
use c64::keyboard::Key;

fn zeros(n: usize) -> Vec<u8> {
    let mut v = Vec::new();
    while v.len() < n {
        v.push(0u8);
    }
    v
}

fn machine() -> Emulator {
    Emulator::new(zeros(0x2000), zeros(0x2000), zeros(0x1000))
}

#[test]
fn relative_addressing() {
    assert_eq!(56, Key::CursorUpDown as u8);
    assert_eq!(57, Key::LeftShift as u8);
    assert_eq!(17, Key::A as u8);
    assert_eq!(0, Key::InsertDelete as u8);
}

#[test]
fn matrix_index_matches_discriminant() {
    assert_eq!(Key::R.index(), Key::R as usize);
    assert_eq!(Key::R.index(), 10); // row 1, column 2
    assert_eq!(Key::Restore.index(), 64); // outside the matrix
}

#[test]
fn strobed_column_clears_the_row_bit() {
    let mut e = machine();
    // Press the key at row 1, column 2 (matrix index 10).
    e.key_change(Key::R, true);
    // Port A all outputs, column 2 strobed low.
    e.memory.set_from_low_high(0x02, 0xDC, 0xFF);
    e.memory.set_from_low_high(0x00, 0xDC, 0xFB);
    e.refresh_keyboard();
    assert_eq!(e.memory.get_from_low_high(0x01, 0xDC), 0xFD); // row 1 pulled low
}

#[test]
fn unstrobed_matrix_reads_all_high() {
    let mut e = machine();
    e.key_change(Key::R, true);
    e.memory.set_from_low_high(0x02, 0xDC, 0xFF);
    e.memory.set_from_low_high(0x00, 0xDC, 0xFF); // no column strobed
    e.refresh_keyboard();
    assert_eq!(e.memory.get_from_low_high(0x01, 0xDC), 0xFF);
}

#[test]
fn released_key_stops_pulling_its_row() {
    let mut e = machine();
    e.key_change(Key::R, true);
    e.memory.set_from_low_high(0x02, 0xDC, 0xFF);
    e.memory.set_from_low_high(0x00, 0xDC, 0xFB);
    e.refresh_keyboard();
    assert_eq!(e.memory.get_from_low_high(0x01, 0xDC), 0xFD);
    e.key_change(Key::R, false);
    e.refresh_keyboard();
    assert_eq!(e.memory.get_from_low_high(0x01, 0xDC), 0xFF);
}

#[test]
fn restore_sits_outside_the_matrix() {
    let mut e = machine();
    e.key_change(Key::Restore, true);
    e.memory.set_from_low_high(0x02, 0xDC, 0xFF);
    e.memory.set_from_low_high(0x00, 0xDC, 0x00); // every column strobed
    e.refresh_keyboard();
    assert_eq!(e.memory.get_from_low_high(0x01, 0xDC), 0xFF);
}

#[test]
fn column_needs_direction_bit_to_strobe() {
    let mut e = machine();
    e.key_change(Key::R, true);
    e.memory.set_from_low_high(0x02, 0xDC, 0x00); // port A all inputs
    e.memory.set_from_low_high(0x00, 0xDC, 0xFB);
    e.refresh_keyboard();
    assert_eq!(e.memory.get_from_low_high(0x01, 0xDC), 0xFF);
}
