//! Unit tests of the instruction operators: exact register and flag updates.

use c64::cpu::Cpu;

fn cpu() -> Cpu {
    Cpu::new()
}

#[test]
fn adc_binary_with_carry_out() {
    let mut c = cpu();
    c.a = 0xFF;
    c.adc(0x01);
    assert_eq!(c.a, 0x00);
    assert_ne!(c.p & 0x01, 0); // C set
    assert_ne!(c.p & 0x02, 0); // Z set
    assert_eq!(c.p & 0x80, 0); // N clear
}

#[test]
fn adc_binary_signed_overflow() {
    let mut c = cpu();
    c.a = 0x50;
    c.adc(0x50);
    assert_eq!(c.a, 0xA0);
    assert_ne!(c.p & 0x40, 0); // V set: positive + positive gave negative
    assert_ne!(c.p & 0x80, 0); // N set
    assert_eq!(c.p & 0x01, 0); // no carry out
}

#[test]
fn adc_consumes_carry_in() {
    let mut c = cpu();
    c.a = 0x10;
    c.sec();
    c.adc(0x20);
    assert_eq!(c.a, 0x31);
}

#[test]
fn adc_decimal_mode() {
    let mut c = cpu();
    c.set_decimal_mode_flag(true);
    c.a = 0x25;
    c.adc(0x38);
    assert_eq!(c.a, 0x63);
    assert_eq!(c.p & 0x01, 0);
}

#[test]
fn adc_decimal_mode_carries_past_99() {
    let mut c = cpu();
    c.set_decimal_mode_flag(true);
    c.a = 0x99;
    c.adc(0x02);
    assert_eq!(c.a, 0x01);
    assert_ne!(c.p & 0x01, 0);
}

#[test]
fn sbc_binary() {
    let mut c = cpu();
    c.a = 0x50;
    c.sec(); // no borrow
    c.sbc(0x10);
    assert_eq!(c.a, 0x40);
    assert_ne!(c.p & 0x01, 0); // no borrow out
}

#[test]
fn sbc_borrows() {
    let mut c = cpu();
    c.a = 0x10;
    c.sec();
    c.sbc(0x20);
    assert_eq!(c.a, 0xF0);
    assert_eq!(c.p & 0x01, 0); // borrow out: C clear
}

#[test]
fn cmp_sets_carry_iff_a_not_less() {
    let mut c = cpu();
    c.a = 0x30;
    c.cmp(0x30);
    assert_ne!(c.p & 0x01, 0);
    assert_ne!(c.p & 0x02, 0);
    c.cmp(0x31);
    assert_eq!(c.p & 0x01, 0);
    assert_ne!(c.p & 0x80, 0); // 0x30 - 0x31 = 0xFF
}

#[test]
fn shifts_and_rotates() {
    let mut c = cpu();
    assert_eq!(c.asl(0x81), 0x02);
    assert_ne!(c.p & 0x01, 0); // bit 7 ejected into C
    assert_eq!(c.rol(0x40), 0x81); // C rotates into bit 0
    assert_eq!(c.p & 0x01, 0); // bit 7 of $40 was clear
    assert_eq!(c.lsr(0x01), 0x00);
    assert_ne!(c.p & 0x01, 0); // bit 0 ejected
    assert_ne!(c.p & 0x02, 0); // result zero
    assert_eq!(c.ror(0x02), 0x81); // C rotates into bit 7
    assert_eq!(c.p & 0x01, 0);
}

#[test]
fn bit_copies_high_bits_and_tests_mask() {
    let mut c = cpu();
    c.a = 0x0F;
    c.bit(0xC0);
    assert_ne!(c.p & 0x80, 0); // N from bit 7
    assert_ne!(c.p & 0x40, 0); // V from bit 6
    assert_ne!(c.p & 0x02, 0); // A & M == 0
}

#[test]
fn eor_sets_flags_from_result() {
    let mut c = cpu();
    c.a = 0xFF;
    c.eor(0xFF);
    assert_eq!(c.a, 0x00);
    assert_ne!(c.p & 0x02, 0); // Z from the result, not the operand
}

#[test]
fn transfers_and_steps() {
    let mut c = cpu();
    c.x = 0;
    c.dex();
    assert_eq!(c.x, 0xFF);
    assert_ne!(c.p & 0x80, 0);
    c.inx();
    assert_eq!(c.x, 0x00);
    assert_ne!(c.p & 0x02, 0);
    c.a = 0x80;
    c.tax();
    assert_eq!(c.x, 0x80);
    assert_ne!(c.p & 0x80, 0);
    c.sp = 0x42;
    c.tsx();
    assert_eq!(c.x, 0x42);
    c.x = 0x99;
    c.txs();
    assert_eq!(c.sp, 0x99);
}

#[test]
fn php_pushes_b_set_plp_never_stores_b() {
    let mut c = cpu();
    c.p = 0x20;
    assert_eq!(c.php(), 0x30); // B set in the pushed byte
    c.plp(0xFF);
    assert_eq!(c.p & 0x10, 0); // B never lands in P
    assert_ne!(c.p & 0x20, 0); // the unused bit reads 1
}

#[test]
fn nop_changes_nothing() {
    let mut c = cpu();
    c.a = 5;
    c.x = 6;
    c.y = 7;
    c.p = 0x31;
    c.nop();
    assert_eq!((c.a, c.x, c.y, c.p), (5, 6, 7, 0x31));
}
