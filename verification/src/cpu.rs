//! The 6510 processor core: registers, status flags and the per-instruction
//! operations (loads, stores, arithmetic, shifts, compares, branch
//! predicates). The sub-instruction cycle sequencing lives in
//! [`crate::addressing`]; [`Cpu::tick`] dispatches one system cycle.

use vstd::prelude::*;

verus! {

/// N (negative) bit of the status register.
pub const FLAG_N: u8 = 0x80;
/// V (overflow) bit of the status register.
pub const FLAG_V: u8 = 0x40;
/// Unused bit of the status register; always reads as 1.
pub const FLAG_U: u8 = 0x20;
/// B (break) bit; never stored in the physical register.
pub const FLAG_B: u8 = 0x10;
/// D (decimal mode) bit of the status register.
pub const FLAG_D: u8 = 0x08;
/// I (interrupt disable) bit of the status register.
pub const FLAG_I: u8 = 0x04;
/// Z (zero) bit of the status register.
pub const FLAG_Z: u8 = 0x02;
/// C (carry) bit of the status register.
pub const FLAG_C: u8 = 0x01;

/// The two fatal error kinds the core can report: an opcode outside the
/// implemented set, and a sub-cycle value outside the microsequence of the
/// current opcode.
#[derive(Clone, Copy, Debug, PartialEq, Eq, Structural)]
pub enum CpuError {
    /// Dispatch reached an opcode the core does not implement; carries the
    /// opcode and the address it was fetched from.
    IllegalOpcode(u8, u16),
    /// The sub-cycle counter held a value the current opcode's microsequence
    /// has no schedule entry for; carries the opcode and the sub-cycle.
    IllegalSubCycle(u8, u8),
}

/// MOS 6510 register file plus the micro-architectural state of the
/// sub-instruction cycle machine.
pub struct Cpu {
    /// Program counter.
    pub pc: u16,
    /// Stack pointer; the stack lives at $0100 + SP.
    pub sp: u8,
    /// Status register, bits N V - B D I Z C; bit 5 always reads as 1.
    pub p: u8,
    /// Accumulator.
    pub a: u8,
    /// Index register X.
    pub x: u8,
    /// Index register Y.
    pub y: u8,
    /// Sub-cycle counter; 1 means the next cycle fetches an opcode.
    pub state: u8,
    /// The opcode currently being executed.
    pub opcode: u8,
    /// Pending-interrupt latch, set by [`Cpu::interrupt`] and sampled only at
    /// instruction boundaries.
    pub interrupted: bool,
    /// True while the synthetic interrupt microsequence is running.
    pub interrupted_started: bool,
}

/// True when `mask` has at least one bit set in `p`.
pub open spec fn flag_set(p: u8, mask: u8) -> bool {
    p & mask != 0
}

/// `p` with the bits of `mask` forced to `on`.
pub open spec fn spec_set_flag(p: u8, mask: u8, on: bool) -> u8 {
    if on {
        p | mask
    } else {
        p & !mask
    }
}

/// `p` with N copied from bit 7 of `value` and Z set iff `value` is zero.
pub open spec fn spec_nz(p: u8, value: u8) -> u8 {
    spec_set_flag(spec_set_flag(p, FLAG_N, value & FLAG_N != 0), FLAG_Z, value == 0)
}

impl Cpu {
    /// A core in its power-on state: all registers clear except the
    /// always-one status bit, with the sub-cycle counter at the fetch
    /// position.
    pub fn new() -> (r: Cpu)
        ensures
            r == (Cpu {
                pc: 0,
                sp: 0,
                p: FLAG_U,
                a: 0,
                x: 0,
                y: 0,
                state: 1,
                opcode: 0,
                interrupted: false,
                interrupted_started: false,
            }),
    {
        Cpu {
            pc: 0,
            sp: 0,
            p: FLAG_U,
            a: 0,
            x: 0,
            y: 0,
            state: 1,
            opcode: 0,
            interrupted: false,
            interrupted_started: false,
        }
    }

    /// Returns PC and advances it by one, wrapping at the top of the address
    /// space.
    pub fn get_and_increment_pc(&mut self) -> (r: u16)
        ensures
            r == old(self).pc,
            *final(self) == (Cpu { pc: pc_inc(old(self).pc), ..*old(self) }),
    {
        let pc = self.pc;
        self.pc = self.pc.wrapping_add(1);
        proof {
            let npc = self.pc;
            assert(npc == ((pc + 1) % 0x10000) as u16) by (bit_vector)
                requires
                    npc == pc.wrapping_add(1),
            ;
        }
        pc
    }

    /// Loads PC from a low and a high byte.
    pub fn set_pc(&mut self, pcl: u8, pch: u8)
        ensures
            *final(self) == (Cpu { pc: word(pcl, pch), ..*old(self) }),
    {
        self.pc = (pcl as u16) | ((pch as u16) << 8);
        proof {
            assert((pcl as u16) | ((pch as u16) << 8) == pcl + 256 * pch) by (bit_vector);
        }
    }

    /// High byte of PC.
    pub fn get_pch(&self) -> (r: u8)
        ensures
            r == high_byte(self.pc),
    {
        proof {
            let pc = self.pc;
            assert((pc >> 8) < 256 && (pc >> 8) == pc / 256) by (bit_vector);
        }
        (self.pc >> 8) as u8
    }

    /// Low byte of PC.
    pub fn get_pcl(&self) -> (r: u8)
        ensures
            r == low_byte(self.pc),
    {
        proof {
            let pc = self.pc;
            assert((pc & 0xFF) < 256 && (pc & 0xFF) == pc % 256) by (bit_vector);
        }
        (self.pc & 0xFF) as u8
    }

    /// Replaces the high byte of PC.
    pub fn set_pch(&mut self, value: u8)
        ensures
            *final(self) == (Cpu { pc: word(low_byte(old(self).pc), value), ..*old(self) }),
    {
        proof {
            let pc = self.pc;
            assert((pc & 0x00FF) | ((value as u16) << 8) == (pc % 256) + 256 * value)
                by (bit_vector);
        }
        self.pc = (self.pc & 0x00FF) | ((value as u16) << 8);
    }

    /// Replaces the low byte of PC.
    pub fn set_pcl(&mut self, value: u8)
        ensures
            *final(self) == (Cpu { pc: word(value, high_byte(old(self).pc)), ..*old(self) }),
    {
        proof {
            let pc = self.pc;
            assert((value as u16) | (pc & 0xFF00) == value + 256 * (pc / 256)) by (bit_vector);
        }
        self.pc = (value as u16) | (self.pc & 0xFF00);
    }
}

impl Cpu {
    /// Copies N from bit 7 of `value` and sets Z iff `value` is zero.
    pub fn set_negative_and_zero_flags(&mut self, value: u8)
        ensures
            *final(self) == (Cpu { p: spec_nz(old(self).p, value), ..*old(self) }),
    {
        if value & FLAG_N != 0 {
            self.p = self.p | FLAG_N;
        } else {
            self.p = self.p & !FLAG_N;
        }
        self.set_zero_flag(value == 0);
    }

    /// Sets or clears Z.
    pub fn set_zero_flag(&mut self, value: bool)
        ensures
            *final(self) == (Cpu { p: spec_set_flag(old(self).p, FLAG_Z, value), ..*old(self) }),
    {
        if value {
            self.p = self.p | FLAG_Z;
        } else {
            self.p = self.p & !FLAG_Z;
        }
    }

    /// Sets or clears I.
    pub fn set_interrupt_flag(&mut self, value: bool)
        ensures
            *final(self) == (Cpu { p: spec_set_flag(old(self).p, FLAG_I, value), ..*old(self) }),
    {
        if value {
            self.p = self.p | FLAG_I;
        } else {
            self.p = self.p & !FLAG_I;
        }
    }

    /// Sets or clears D.
    pub fn set_decimal_mode_flag(&mut self, value: bool)
        ensures
            *final(self) == (Cpu { p: spec_set_flag(old(self).p, FLAG_D, value), ..*old(self) }),
    {
        if value {
            self.p = self.p | FLAG_D;
        } else {
            self.p = self.p & !FLAG_D;
        }
    }

    /// Sets or clears C.
    pub fn set_carry_flag(&mut self, value: bool)
        ensures
            *final(self) == (Cpu { p: spec_set_flag(old(self).p, FLAG_C, value), ..*old(self) }),
    {
        if value {
            self.p = self.p | FLAG_C;
        } else {
            self.p = self.p & !FLAG_C;
        }
    }

    /// Sets or clears V.
    pub fn set_overflow_flag(&mut self, value: bool)
        ensures
            *final(self) == (Cpu { p: spec_set_flag(old(self).p, FLAG_V, value), ..*old(self) }),
    {
        if value {
            self.p = self.p | FLAG_V;
        } else {
            self.p = self.p & !FLAG_V;
        }
    }

    /// Reads D.
    pub fn get_decimal_mode_flag(&self) -> (r: bool)
        ensures
            r == flag_set(self.p, FLAG_D),
    {
        (self.p & FLAG_D) > 0
    }

    /// Reads Z.
    pub fn get_zero_flag(&self) -> (r: bool)
        ensures
            r == flag_set(self.p, FLAG_Z),
    {
        (self.p & FLAG_Z) > 0
    }

    /// Reads C.
    pub fn get_carry_flag(&self) -> (r: bool)
        ensures
            r == flag_set(self.p, FLAG_C),
    {
        (self.p & FLAG_C) > 0
    }

    /// Reads I.
    pub fn get_interrupt_flag(&self) -> (r: bool)
        ensures
            r == flag_set(self.p, FLAG_I),
    {
        (self.p & FLAG_I) > 0
    }

    /// Reads N.
    pub fn get_negative_flag(&self) -> (r: bool)
        ensures
            r == flag_set(self.p, FLAG_N),
    {
        (self.p & FLAG_N) > 0
    }

    /// Reads V.
    pub fn get_overflow_flag(&self) -> (r: bool)
        ensures
            r == flag_set(self.p, FLAG_V),
    {
        (self.p & FLAG_V) > 0
    }

    /// Latches a pending interrupt request. The latch is sampled only at the
    /// next instruction boundary; while I is set it stays pending there.
    pub fn interrupt(&mut self)
        ensures
            *final(self) == (Cpu { interrupted: true, ..*old(self) }),
    {
        self.interrupted = true;
    }
}

/// The 16-bit word assembled from a low and a high byte.
pub open spec fn word(low: u8, high: u8) -> u16 {
    (low + 256 * high) as u16
}

/// `v + 1` wrapped to a byte.
pub open spec fn byte_inc(v: u8) -> u8 {
    if v == 255 {
        0
    } else {
        (v + 1) as u8
    }
}

/// `v - 1` wrapped to a byte.
pub open spec fn byte_dec(v: u8) -> u8 {
    if v == 0 {
        255
    } else {
        (v - 1) as u8
    }
}

/// `a + b` wrapped to a byte.
pub open spec fn byte_add(a: u8, b: u8) -> u8 {
    if a + b < 256 {
        (a + b) as u8
    } else {
        (a + b - 256) as u8
    }
}

/// `a - b` wrapped to a byte.
pub open spec fn byte_sub(a: u8, b: u8) -> u8 {
    if a >= b {
        (a - b) as u8
    } else {
        (a - b + 256) as u8
    }
}

/// What LDA leaves behind: the accumulator loaded, N and Z from the value.
pub open spec fn lda_spec(c: Cpu, v: u8) -> Cpu {
    Cpu { a: v, p: spec_nz(c.p, v), ..c }
}

/// What LDX leaves behind.
pub open spec fn ldx_spec(c: Cpu, v: u8) -> Cpu {
    Cpu { x: v, p: spec_nz(c.p, v), ..c }
}

/// What LDY leaves behind.
pub open spec fn ldy_spec(c: Cpu, v: u8) -> Cpu {
    Cpu { y: v, p: spec_nz(c.p, v), ..c }
}

/// What AND leaves behind: A masked, N and Z from the result.
pub open spec fn and_spec(c: Cpu, v: u8) -> Cpu {
    Cpu { a: c.a & v, p: spec_nz(c.p, c.a & v), ..c }
}

/// What ORA leaves behind.
pub open spec fn ora_spec(c: Cpu, v: u8) -> Cpu {
    Cpu { a: c.a | v, p: spec_nz(c.p, c.a | v), ..c }
}

/// What EOR leaves behind.
pub open spec fn eor_spec(c: Cpu, v: u8) -> Cpu {
    Cpu { a: c.a ^ v, p: spec_nz(c.p, c.a ^ v), ..c }
}

/// What BIT leaves behind: N and V copied from bits 7 and 6 of the operand,
/// Z from `A & operand`.
pub open spec fn bit_spec(c: Cpu, v: u8) -> Cpu {
    Cpu { p: spec_set_flag((c.p & 0x3F) | (v & 0xC0), FLAG_Z, c.a & v == 0), ..c }
}

/// Binary-mode add with carry: `A + M + C`, carry out of bit 7, overflow from
/// the sign rule `((result ^ A) & (result ^ M) & $80) != 0`, N and Z from the
/// result.
pub open spec fn adc_bin_spec(c: Cpu, m: u8) -> Cpu {
    let cin: int = if flag_set(c.p, FLAG_C) { 1int } else { 0int };
    let sum: int = c.a + m + cin;
    let res: u8 = if sum >= 256 { (sum - 256) as u8 } else { sum as u8 };
    let v: bool = (res ^ c.a) & (res ^ m) & FLAG_N != 0;
    Cpu {
        a: res,
        p: spec_set_flag(spec_nz(spec_set_flag(c.p, FLAG_V, v), res), FLAG_C, sum >= 256),
        ..c
    }
}

/// The binary value of a packed BCD byte, each nibble reduced mod 10.
pub open spec fn bcd_to_bin(v: u8) -> int {
    (v & 0x0F) % 10 + (((v >> 4) & 0x0F) % 10) * 10
}

/// A two-digit value packed back into BCD nibbles.
pub open spec fn bin_to_bcd(v: int) -> u8 {
    (v % 10 + 16 * (v / 10)) as u8
}

/// Decimal-mode add with carry: BCD addition mod 100, carry on overflow past
/// 99, N and Z from the packed result. The overflow flag is left unchanged, a
/// documented gap.
pub open spec fn adc_dec_spec(c: Cpu, m: u8) -> Cpu {
    let cin: int = if flag_set(c.p, FLAG_C) { 1int } else { 0int };
    let sum: int = bcd_to_bin(c.a) + bcd_to_bin(m) + cin;
    let res: u8 = bin_to_bcd(sum % 100);
    Cpu { a: res, p: spec_nz(spec_set_flag(c.p, FLAG_C, sum > 99), res), ..c }
}

/// What ADC leaves behind, in either arithmetic mode.
pub open spec fn adc_spec(c: Cpu, m: u8) -> Cpu {
    if flag_set(c.p, FLAG_D) {
        adc_dec_spec(c, m)
    } else {
        adc_bin_spec(c, m)
    }
}

/// What SBC leaves behind: ADC of the complemented operand.
pub open spec fn sbc_spec(c: Cpu, m: u8) -> Cpu {
    adc_spec(c, !m)
}

/// What a compare against register value `reg` leaves behind: N and Z from
/// `reg - M`, carry iff `reg >= M`, no register stored.
pub open spec fn compare_spec(c: Cpu, reg: u8, m: u8) -> Cpu {
    Cpu { p: spec_set_flag(spec_nz(c.p, byte_sub(reg, m)), FLAG_C, reg >= m), ..c }
}

/// What ASL produces: the shifted value and the status with C from the
/// ejected bit 7 and N, Z from the result.
pub open spec fn asl_spec(c: Cpu, v: u8) -> (u8, u8) {
    let res: u8 = if v < 128 { (2 * v) as u8 } else { (2 * v - 256) as u8 };
    (res, spec_set_flag(spec_nz(spec_set_flag(c.p, FLAG_C, v & 0x80 != 0), res), FLAG_C, v & 0x80
        != 0))
}

/// What LSR produces: C from the ejected bit 0, N, Z from the result.
pub open spec fn lsr_spec(c: Cpu, v: u8) -> (u8, u8) {
    let res: u8 = v / 2;
    (res, spec_set_flag(spec_nz(spec_set_flag(c.p, FLAG_C, v & 0x01 != 0), res), FLAG_C, v & 0x01
        != 0))
}

/// What ROL produces: shift left through carry.
pub open spec fn rol_spec(c: Cpu, v: u8) -> (u8, u8) {
    let shifted: u8 = if v < 128 { (2 * v) as u8 } else { (2 * v - 256) as u8 };
    let res: u8 = if flag_set(c.p, FLAG_C) { shifted | 0x01 } else { shifted };
    (res, spec_set_flag(spec_nz(c.p, res), FLAG_C, v & 0x80 != 0))
}

/// What ROR produces: shift right through carry.
pub open spec fn ror_spec(c: Cpu, v: u8) -> (u8, u8) {
    let shifted: u8 = v / 2;
    let res: u8 = if flag_set(c.p, FLAG_C) { (shifted + 128) as u8 } else { shifted };
    (res, spec_set_flag(spec_nz(c.p, res), FLAG_C, v & 0x01 != 0))
}

/// What INC produces: the value plus one, N and Z from the result.
pub open spec fn inc_spec(c: Cpu, v: u8) -> (u8, u8) {
    (byte_inc(v), spec_nz(c.p, byte_inc(v)))
}

/// What DEC produces: the value minus one, N and Z from the result.
pub open spec fn dec_spec(c: Cpu, v: u8) -> (u8, u8) {
    (byte_dec(v), spec_nz(c.p, byte_dec(v)))
}

impl Cpu {
    /// INC operator on a read-modify-write operand.
    pub fn inc(&mut self, value: u8) -> (r: u8)
        ensures
            (r, final(self).p) == inc_spec(*old(self), value),
            *final(self) == (Cpu { p: final(self).p, ..*old(self) }),
    {
        let new_value = value.wrapping_add(1);
        self.set_negative_and_zero_flags(new_value);
        new_value
    }

    /// DEC operator on a read-modify-write operand.
    pub fn dec(&mut self, value: u8) -> (r: u8)
        ensures
            (r, final(self).p) == dec_spec(*old(self), value),
            *final(self) == (Cpu { p: final(self).p, ..*old(self) }),
    {
        let new_value = value.wrapping_sub(1);
        self.set_negative_and_zero_flags(new_value);
        new_value
    }

    /// LDA: load the accumulator.
    pub fn lda(&mut self, value: u8)
        ensures
            *final(self) == lda_spec(*old(self), value),
    {
        self.a = value;
        self.set_negative_and_zero_flags(value);
    }

    /// LDX: load index X.
    pub fn ldx(&mut self, value: u8)
        ensures
            *final(self) == ldx_spec(*old(self), value),
    {
        self.x = value;
        self.set_negative_and_zero_flags(value);
    }

    /// LDY: load index Y.
    pub fn ldy(&mut self, value: u8)
        ensures
            *final(self) == ldy_spec(*old(self), value),
    {
        self.y = value;
        self.set_negative_and_zero_flags(value);
    }

    /// AND: mask the accumulator.
    pub fn and(&mut self, value: u8)
        ensures
            *final(self) == and_spec(*old(self), value),
    {
        self.a = self.a & value;
        let a = self.a;
        self.set_negative_and_zero_flags(a);
    }

    /// ORA: or into the accumulator.
    pub fn ora(&mut self, value: u8)
        ensures
            *final(self) == ora_spec(*old(self), value),
    {
        self.a = self.a | value;
        let a = self.a;
        self.set_negative_and_zero_flags(a);
    }

    /// EOR: exclusive-or into the accumulator.
    pub fn eor(&mut self, value: u8)
        ensures
            *final(self) == eor_spec(*old(self), value),
    {
        self.a = self.a ^ value;
        let a = self.a;
        self.set_negative_and_zero_flags(a);
    }

    /// BIT: test bits of the operand against the accumulator.
    pub fn bit(&mut self, value: u8)
        ensures
            *final(self) == bit_spec(*old(self), value),
    {
        self.p = (self.p & 0x3F) | (value & 0xC0);
        let a = self.a;
        self.set_zero_flag((a & value) == 0);
    }

    /// ADC: add the operand and the carry to the accumulator.
    pub fn adc(&mut self, value: u8)
        ensures
            *final(self) == adc_spec(*old(self), value),
    {
        self.add_with_carry(value);
    }

    /// SBC: subtract by adding the complemented operand.
    pub fn sbc(&mut self, value: u8)
        ensures
            *final(self) == sbc_spec(*old(self), value),
    {
        self.add_with_carry(!value);
    }

    /// Shared ADC/SBC body; binary or BCD depending on the D flag.
    fn add_with_carry(&mut self, value: u8)
        ensures
            *final(self) == adc_spec(*old(self), value),
    {
        let cin: u16 = if self.get_carry_flag() {
            1
        } else {
            0
        };
        if self.get_decimal_mode_flag() {
            let a10: u16 = ((self.a & 0x0F) % 10) as u16 + (((self.a >> 4) & 0x0F) % 10) as u16
                * 10;
            let m10: u16 = ((value & 0x0F) % 10) as u16 + (((value >> 4) & 0x0F) % 10) as u16 * 10;
            let sum: u16 = a10 + m10 + cin;
            self.set_carry_flag(sum > 99);
            let rem: u16 = sum % 100;
            let res: u8 = (rem % 10 + 16 * (rem / 10)) as u8;
            self.a = res;
            self.set_negative_and_zero_flags(res);
        } else {
            let sum: u16 = self.a as u16 + value as u16 + cin;
            let res: u8 = if sum >= 256 {
                (sum - 256) as u8
            } else {
                sum as u8
            };
            let olda = self.a;
            self.set_overflow_flag((res ^ olda) & (res ^ value) & FLAG_N != 0);
            self.a = res;
            self.set_negative_and_zero_flags(res);
            self.set_carry_flag(sum >= 256);
        }
    }

    /// CMP: compare the operand against the accumulator.
    pub fn cmp(&mut self, value: u8)
        ensures
            *final(self) == compare_spec(*old(self), old(self).a, value),
    {
        let r = self.a.wrapping_sub(value);
        self.set_negative_and_zero_flags(r);
        let c = self.a >= value;
        self.set_carry_flag(c);
    }

    /// CPX: compare the operand against index X.
    pub fn cpx(&mut self, value: u8)
        ensures
            *final(self) == compare_spec(*old(self), old(self).x, value),
    {
        let r = self.x.wrapping_sub(value);
        self.set_negative_and_zero_flags(r);
        let c = self.x >= value;
        self.set_carry_flag(c);
    }

    /// CPY: compare the operand against index Y.
    pub fn cpy(&mut self, value: u8)
        ensures
            *final(self) == compare_spec(*old(self), old(self).y, value),
    {
        let r = self.y.wrapping_sub(value);
        self.set_negative_and_zero_flags(r);
        let c = self.y >= value;
        self.set_carry_flag(c);
    }

    /// ASL operator.
    pub fn asl(&mut self, value: u8) -> (r: u8)
        ensures
            (r, final(self).p) == asl_spec(*old(self), value),
            *final(self) == (Cpu { p: final(self).p, ..*old(self) }),
    {
        self.set_carry_flag(value & 0x80 != 0);
        let res = if value < 128 {
            2 * value
        } else {
            ((2 * (value as u16)) - 256) as u8
        };
        self.set_negative_and_zero_flags(res);
        self.set_carry_flag(value & 0x80 != 0);
        res
    }

    /// LSR operator.
    pub fn lsr(&mut self, value: u8) -> (r: u8)
        ensures
            (r, final(self).p) == lsr_spec(*old(self), value),
            *final(self) == (Cpu { p: final(self).p, ..*old(self) }),
    {
        self.set_carry_flag(value & 0x01 != 0);
        let res = value / 2;
        self.set_negative_and_zero_flags(res);
        self.set_carry_flag(value & 0x01 != 0);
        res
    }

    /// ROL operator: shift left through carry.
    pub fn rol(&mut self, value: u8) -> (r: u8)
        ensures
            (r, final(self).p) == rol_spec(*old(self), value),
            *final(self) == (Cpu { p: final(self).p, ..*old(self) }),
    {
        let new_carry = value & 0x80 != 0;
        let shifted = if value < 128 {
            2 * value
        } else {
            ((2 * (value as u16)) - 256) as u8
        };
        let res = if self.get_carry_flag() {
            shifted | 0x01
        } else {
            shifted
        };
        self.set_negative_and_zero_flags(res);
        self.set_carry_flag(new_carry);
        res
    }

    /// ROR operator: shift right through carry.
    pub fn ror(&mut self, value: u8) -> (r: u8)
        ensures
            (r, final(self).p) == ror_spec(*old(self), value),
            *final(self) == (Cpu { p: final(self).p, ..*old(self) }),
    {
        let new_carry = value & 0x01 != 0;
        let shifted = value / 2;
        let res = if self.get_carry_flag() {
            shifted + 128
        } else {
            shifted
        };
        self.set_negative_and_zero_flags(res);
        self.set_carry_flag(new_carry);
        res
    }
}

} // verus!

verus! {

impl Cpu {
    /// PHA: the accumulator is the byte to push.
    pub fn pha(&self) -> (r: u8)
        ensures
            r == self.a,
    {
        self.a
    }

    /// PHP: the pushed status byte carries the B flag set.
    pub fn php(&self) -> (r: u8)
        ensures
            r == self.p | FLAG_B,
    {
        self.p | FLAG_B
    }

    /// PLA: load the accumulator from the pulled byte.
    pub fn pla(&mut self, value: u8)
        ensures
            *final(self) == lda_spec(*old(self), value),
    {
        self.a = value;
        self.set_negative_and_zero_flags(value);
    }

    /// PLP: restore the status register from the pulled byte; the B flag is
    /// never stored and the unused bit always reads as 1.
    pub fn plp(&mut self, value: u8)
        ensures
            *final(self) == (Cpu { p: (value | FLAG_U) & !FLAG_B, ..*old(self) }),
    {
        self.p = (value | FLAG_U) & !FLAG_B;
    }

    /// STA: the accumulator is the byte to store.
    pub fn sta(&self) -> (r: u8)
        ensures
            r == self.a,
    {
        self.a
    }

    /// STX: index X is the byte to store.
    pub fn stx(&self) -> (r: u8)
        ensures
            r == self.x,
    {
        self.x
    }

    /// STY: index Y is the byte to store.
    pub fn sty(&self) -> (r: u8)
        ensures
            r == self.y,
    {
        self.y
    }

    /// CLC: clear carry.
    pub fn clc(&mut self)
        ensures
            *final(self) == (Cpu { p: spec_set_flag(old(self).p, FLAG_C, false), ..*old(self) }),
    {
        self.set_carry_flag(false);
    }

    /// SEC: set carry.
    pub fn sec(&mut self)
        ensures
            *final(self) == (Cpu { p: spec_set_flag(old(self).p, FLAG_C, true), ..*old(self) }),
    {
        self.set_carry_flag(true);
    }

    /// CLI: clear the interrupt-disable flag.
    pub fn cli(&mut self)
        ensures
            *final(self) == (Cpu { p: spec_set_flag(old(self).p, FLAG_I, false), ..*old(self) }),
    {
        self.set_interrupt_flag(false);
    }

    /// SEI: set the interrupt-disable flag.
    pub fn sei(&mut self)
        ensures
            *final(self) == (Cpu { p: spec_set_flag(old(self).p, FLAG_I, true), ..*old(self) }),
    {
        self.set_interrupt_flag(true);
    }

    /// CLD: clear decimal mode.
    pub fn cld(&mut self)
        ensures
            *final(self) == (Cpu { p: spec_set_flag(old(self).p, FLAG_D, false), ..*old(self) }),
    {
        self.set_decimal_mode_flag(false);
    }

    /// TAX: transfer A to X.
    pub fn tax(&mut self)
        ensures
            *final(self) == ldx_spec(*old(self), old(self).a),
    {
        let a = self.a;
        self.x = a;
        self.set_negative_and_zero_flags(a);
    }

    /// TXA: transfer X to A.
    pub fn txa(&mut self)
        ensures
            *final(self) == lda_spec(*old(self), old(self).x),
    {
        let x = self.x;
        self.a = x;
        self.set_negative_and_zero_flags(x);
    }

    /// TAY: transfer A to Y.
    pub fn tay(&mut self)
        ensures
            *final(self) == ldy_spec(*old(self), old(self).a),
    {
        let a = self.a;
        self.y = a;
        self.set_negative_and_zero_flags(a);
    }

    /// TYA: transfer Y to A.
    pub fn tya(&mut self)
        ensures
            *final(self) == lda_spec(*old(self), old(self).y),
    {
        let y = self.y;
        self.a = y;
        self.set_negative_and_zero_flags(y);
    }

    /// TSX: transfer SP to X, with N and Z from the value.
    pub fn tsx(&mut self)
        ensures
            *final(self) == ldx_spec(*old(self), old(self).sp),
    {
        let sp = self.sp;
        self.x = sp;
        self.set_negative_and_zero_flags(sp);
    }

    /// TXS: transfer X to SP; no flags change.
    pub fn txs(&mut self)
        ensures
            *final(self) == (Cpu { sp: old(self).x, ..*old(self) }),
    {
        self.sp = self.x;
    }

    /// DEX: decrement X.
    pub fn dex(&mut self)
        ensures
            *final(self) == ldx_spec(*old(self), byte_dec(old(self).x)),
    {
        let v = self.x.wrapping_sub(1);
        self.x = v;
        self.set_negative_and_zero_flags(v);
    }

    /// DEY: decrement Y.
    pub fn dey(&mut self)
        ensures
            *final(self) == ldy_spec(*old(self), byte_dec(old(self).y)),
    {
        let v = self.y.wrapping_sub(1);
        self.y = v;
        self.set_negative_and_zero_flags(v);
    }

    /// INX: increment X.
    pub fn inx(&mut self)
        ensures
            *final(self) == ldx_spec(*old(self), byte_inc(old(self).x)),
    {
        let v = self.x.wrapping_add(1);
        self.x = v;
        self.set_negative_and_zero_flags(v);
    }

    /// INY: increment Y.
    pub fn iny(&mut self)
        ensures
            *final(self) == ldy_spec(*old(self), byte_inc(old(self).y)),
    {
        let v = self.y.wrapping_add(1);
        self.y = v;
        self.set_negative_and_zero_flags(v);
    }

    /// NOP: no register or flag changes.
    pub fn nop(&mut self)
        ensures
            *final(self) == *old(self),
    {
    }

    /// BPL: branch when N is clear.
    pub fn bpl(&self) -> (r: bool)
        ensures
            r == !flag_set(self.p, FLAG_N),
    {
        !self.get_negative_flag()
    }

    /// BMI: branch when N is set.
    pub fn bmi(&self) -> (r: bool)
        ensures
            r == flag_set(self.p, FLAG_N),
    {
        self.get_negative_flag()
    }

    /// BVC: branch when V is clear.
    pub fn bvc(&self) -> (r: bool)
        ensures
            r == !flag_set(self.p, FLAG_V),
    {
        !self.get_overflow_flag()
    }

    /// BVS: branch when V is set.
    pub fn bvs(&self) -> (r: bool)
        ensures
            r == flag_set(self.p, FLAG_V),
    {
        self.get_overflow_flag()
    }

    /// BCC: branch when C is clear.
    pub fn bcc(&self) -> (r: bool)
        ensures
            r == !flag_set(self.p, FLAG_C),
    {
        !self.get_carry_flag()
    }

    /// BCS: branch when C is set.
    pub fn bcs(&self) -> (r: bool)
        ensures
            r == flag_set(self.p, FLAG_C),
    {
        self.get_carry_flag()
    }

    /// BNE: branch when Z is clear.
    pub fn bne(&self) -> (r: bool)
        ensures
            r == !flag_set(self.p, FLAG_Z),
    {
        !self.get_zero_flag()
    }

    /// BEQ: branch when Z is set.
    pub fn beq(&self) -> (r: bool)
        ensures
            r == flag_set(self.p, FLAG_Z),
    {
        self.get_zero_flag()
    }
}

} // verus!

verus! {

/// Operators applied by read-type microsequences: they consume the byte the
/// bus delivered.
#[derive(Clone, Copy, Debug, PartialEq, Eq, Structural)]
pub enum ReadOp {
    /// LDA.
    Lda,
    /// LDX.
    Ldx,
    /// LDY.
    Ldy,
    /// AND.
    And,
    /// ORA.
    Ora,
    /// EOR.
    Eor,
    /// ADC.
    Adc,
    /// SBC.
    Sbc,
    /// CMP.
    Cmp,
    /// CPX.
    Cpx,
    /// CPY.
    Cpy,
    /// BIT.
    Bit,
    /// PLA, applied to the byte pulled from the stack.
    Pla,
    /// PLP, applied to the byte pulled from the stack.
    Plp,
}

/// Operators applied by write-type microsequences: they produce the byte to
/// put on the bus.
#[derive(Clone, Copy, Debug, PartialEq, Eq, Structural)]
pub enum WriteOp {
    /// STA.
    Sta,
    /// STX.
    Stx,
    /// STY.
    Sty,
    /// PHA: pushes the accumulator.
    Pha,
    /// PHP: pushes the status with the B flag set.
    Php,
}

/// Operators applied by read-modify-write microsequences.
#[derive(Clone, Copy, Debug, PartialEq, Eq, Structural)]
pub enum RmwOp {
    /// ASL.
    Asl,
    /// LSR.
    Lsr,
    /// ROL.
    Rol,
    /// ROR.
    Ror,
    /// INC.
    Inc,
    /// DEC.
    Dec,
}

/// Branch predicates for the relative microsequence.
#[derive(Clone, Copy, Debug, PartialEq, Eq, Structural)]
pub enum BranchOp {
    /// BPL: N clear.
    Bpl,
    /// BMI: N set.
    Bmi,
    /// BVC: V clear.
    Bvc,
    /// BVS: V set.
    Bvs,
    /// BCC: C clear.
    Bcc,
    /// BCS: C set.
    Bcs,
    /// BNE: Z clear.
    Bne,
    /// BEQ: Z set.
    Beq,
}

/// Operators of the two-cycle implied microsequence.
#[derive(Clone, Copy, Debug, PartialEq, Eq, Structural)]
pub enum ImpliedOp {
    /// CLC.
    Clc,
    /// SEC.
    Sec,
    /// CLI.
    Cli,
    /// SEI.
    Sei,
    /// CLD.
    Cld,
    /// TAX.
    Tax,
    /// TXA.
    Txa,
    /// TAY.
    Tay,
    /// TYA.
    Tya,
    /// TSX.
    Tsx,
    /// TXS.
    Txs,
    /// DEX.
    Dex,
    /// DEY.
    Dey,
    /// INX.
    Inx,
    /// INY.
    Iny,
    /// NOP.
    Nop,
}

/// What PLP leaves behind: the status restored from the pulled byte, with
/// the B flag never stored and the unused bit forced to 1.
pub open spec fn plp_spec(c: Cpu, v: u8) -> Cpu {
    Cpu { p: (v | FLAG_U) & !FLAG_B, ..c }
}

/// The register file a read operator leaves behind.
pub open spec fn read_op_spec(c: Cpu, op: ReadOp, v: u8) -> Cpu {
    match op {
        ReadOp::Lda => lda_spec(c, v),
        ReadOp::Ldx => ldx_spec(c, v),
        ReadOp::Ldy => ldy_spec(c, v),
        ReadOp::And => and_spec(c, v),
        ReadOp::Ora => ora_spec(c, v),
        ReadOp::Eor => eor_spec(c, v),
        ReadOp::Adc => adc_spec(c, v),
        ReadOp::Sbc => sbc_spec(c, v),
        ReadOp::Cmp => compare_spec(c, c.a, v),
        ReadOp::Cpx => compare_spec(c, c.x, v),
        ReadOp::Cpy => compare_spec(c, c.y, v),
        ReadOp::Bit => bit_spec(c, v),
        ReadOp::Pla => lda_spec(c, v),
        ReadOp::Plp => plp_spec(c, v),
    }
}

/// The byte a write operator puts on the bus.
pub open spec fn write_op_spec(c: Cpu, op: WriteOp) -> u8 {
    match op {
        WriteOp::Sta => c.a,
        WriteOp::Stx => c.x,
        WriteOp::Sty => c.y,
        WriteOp::Pha => c.a,
        WriteOp::Php => c.p | FLAG_B,
    }
}

/// The value and the new status a read-modify-write operator produces.
pub open spec fn rmw_op_spec(c: Cpu, op: RmwOp, v: u8) -> (u8, u8) {
    match op {
        RmwOp::Asl => asl_spec(c, v),
        RmwOp::Lsr => lsr_spec(c, v),
        RmwOp::Rol => rol_spec(c, v),
        RmwOp::Ror => ror_spec(c, v),
        RmwOp::Inc => inc_spec(c, v),
        RmwOp::Dec => dec_spec(c, v),
    }
}

/// Whether a branch predicate holds of the status register.
pub open spec fn branch_op_spec(c: Cpu, op: BranchOp) -> bool {
    match op {
        BranchOp::Bpl => !flag_set(c.p, FLAG_N),
        BranchOp::Bmi => flag_set(c.p, FLAG_N),
        BranchOp::Bvc => !flag_set(c.p, FLAG_V),
        BranchOp::Bvs => flag_set(c.p, FLAG_V),
        BranchOp::Bcc => !flag_set(c.p, FLAG_C),
        BranchOp::Bcs => flag_set(c.p, FLAG_C),
        BranchOp::Bne => !flag_set(c.p, FLAG_Z),
        BranchOp::Beq => flag_set(c.p, FLAG_Z),
    }
}

/// The register file an implied operator leaves behind.
pub open spec fn implied_op_spec(c: Cpu, op: ImpliedOp) -> Cpu {
    match op {
        ImpliedOp::Clc => Cpu { p: spec_set_flag(c.p, FLAG_C, false), ..c },
        ImpliedOp::Sec => Cpu { p: spec_set_flag(c.p, FLAG_C, true), ..c },
        ImpliedOp::Cli => Cpu { p: spec_set_flag(c.p, FLAG_I, false), ..c },
        ImpliedOp::Sei => Cpu { p: spec_set_flag(c.p, FLAG_I, true), ..c },
        ImpliedOp::Cld => Cpu { p: spec_set_flag(c.p, FLAG_D, false), ..c },
        ImpliedOp::Tax => ldx_spec(c, c.a),
        ImpliedOp::Txa => lda_spec(c, c.x),
        ImpliedOp::Tay => ldy_spec(c, c.a),
        ImpliedOp::Tya => lda_spec(c, c.y),
        ImpliedOp::Tsx => ldx_spec(c, c.sp),
        ImpliedOp::Txs => Cpu { sp: c.x, ..c },
        ImpliedOp::Dex => ldx_spec(c, byte_dec(c.x)),
        ImpliedOp::Dey => ldy_spec(c, byte_dec(c.y)),
        ImpliedOp::Inx => ldx_spec(c, byte_inc(c.x)),
        ImpliedOp::Iny => ldy_spec(c, byte_inc(c.y)),
        ImpliedOp::Nop => c,
    }
}

impl Cpu {
    /// Applies a read operator to a byte from the bus.
    pub fn apply_read(&mut self, op: ReadOp, value: u8)
        ensures
            *final(self) == read_op_spec(*old(self), op, value),
    {
        match op {
            ReadOp::Lda => self.lda(value),
            ReadOp::Ldx => self.ldx(value),
            ReadOp::Ldy => self.ldy(value),
            ReadOp::And => self.and(value),
            ReadOp::Ora => self.ora(value),
            ReadOp::Eor => self.eor(value),
            ReadOp::Adc => self.adc(value),
            ReadOp::Sbc => self.sbc(value),
            ReadOp::Cmp => self.cmp(value),
            ReadOp::Cpx => self.cpx(value),
            ReadOp::Cpy => self.cpy(value),
            ReadOp::Bit => self.bit(value),
            ReadOp::Pla => self.pla(value),
            ReadOp::Plp => self.plp(value),
        }
    }

    /// Applies a write operator, producing the byte for the bus.
    pub fn apply_write(&self, op: WriteOp) -> (r: u8)
        ensures
            r == write_op_spec(*self, op),
    {
        match op {
            WriteOp::Sta => self.sta(),
            WriteOp::Stx => self.stx(),
            WriteOp::Sty => self.sty(),
            WriteOp::Pha => self.pha(),
            WriteOp::Php => self.php(),
        }
    }

    /// Applies a read-modify-write operator to a byte, producing the byte to
    /// write back.
    pub fn apply_rmw(&mut self, op: RmwOp, value: u8) -> (r: u8)
        ensures
            (r, final(self).p) == rmw_op_spec(*old(self), op, value),
            *final(self) == (Cpu { p: final(self).p, ..*old(self) }),
    {
        match op {
            RmwOp::Asl => self.asl(value),
            RmwOp::Lsr => self.lsr(value),
            RmwOp::Rol => self.rol(value),
            RmwOp::Ror => self.ror(value),
            RmwOp::Inc => self.inc(value),
            RmwOp::Dec => self.dec(value),
        }
    }

    /// Evaluates a branch predicate.
    pub fn apply_branch(&self, op: BranchOp) -> (r: bool)
        ensures
            r == branch_op_spec(*self, op),
    {
        match op {
            BranchOp::Bpl => self.bpl(),
            BranchOp::Bmi => self.bmi(),
            BranchOp::Bvc => self.bvc(),
            BranchOp::Bvs => self.bvs(),
            BranchOp::Bcc => self.bcc(),
            BranchOp::Bcs => self.bcs(),
            BranchOp::Bne => self.bne(),
            BranchOp::Beq => self.beq(),
        }
    }

    /// Applies an implied operator.
    pub fn apply_implied(&mut self, op: ImpliedOp)
        ensures
            *final(self) == implied_op_spec(*old(self), op),
    {
        match op {
            ImpliedOp::Clc => self.clc(),
            ImpliedOp::Sec => self.sec(),
            ImpliedOp::Cli => self.cli(),
            ImpliedOp::Sei => self.sei(),
            ImpliedOp::Cld => self.cld(),
            ImpliedOp::Tax => self.tax(),
            ImpliedOp::Txa => self.txa(),
            ImpliedOp::Tay => self.tay(),
            ImpliedOp::Tya => self.tya(),
            ImpliedOp::Tsx => self.tsx(),
            ImpliedOp::Txs => self.txs(),
            ImpliedOp::Dex => self.dex(),
            ImpliedOp::Dey => self.dey(),
            ImpliedOp::Inx => self.inx(),
            ImpliedOp::Iny => self.iny(),
            ImpliedOp::Nop => self.nop(),
        }
    }
}

/// PC advanced by one, wrapping at the top of the address space.
pub open spec fn pc_inc(pc: u16) -> u16 {
    ((pc + 1) % 0x10000) as u16
}

/// Low byte of a 16-bit word.
pub open spec fn low_byte(w: u16) -> u8 {
    (w % 256) as u8
}

/// High byte of a 16-bit word.
pub open spec fn high_byte(w: u16) -> u8 {
    (w / 256) as u8
}

/// PC stepped back by one, wrapping at the bottom of the address space; the
/// address an already-fetched opcode was read from.
pub open spec fn pc_dec(pc: u16) -> u16 {
    if pc == 0 {
        0xFFFF
    } else {
        (pc - 1) as u16
    }
}

} // verus!

use crate::addressing::{
    absolute_indexed_read_step, absolute_indexed_write_step, absolute_jmp_step, absolute_jsr_step,
    absolute_read_step, absolute_rmw_step, absolute_write_step, accumulator_step, immediate_step,
    implied_step, indirect_indexed_read_step, indirect_indexed_write_step, indirect_jmp_step,
    irq_step, pull_step, push_step, rel_fix_byte, relative_step, rti_step, rts_step,
    zero_page_indexed_read_step, zero_page_indexed_rmw_step, zero_page_indexed_write_step,
    zero_page_read_step, zero_page_rmw_step, zero_page_write_step, Addressing,
};
use crate::memory::{read_post, read_val, MemView, Memory};

verus! {

/// The addressing modes the dispatch table composes instructions from.
#[derive(Clone, Copy, Debug, PartialEq, Eq, Structural)]
pub enum Mode {
    /// Two-cycle immediate operand.
    Immediate,
    /// Two-cycle implied operand.
    Implied,
    /// Two-cycle operation on the accumulator.
    Accumulator,
    /// Three-cycle zero-page read.
    ZeroPageRead,
    /// Three-cycle zero-page write.
    ZeroPageWrite,
    /// Five-cycle zero-page read-modify-write.
    ZeroPageRmw,
    /// Four-cycle zero-page read indexed by X.
    ZeroPageXRead,
    /// Four-cycle zero-page write indexed by X.
    ZeroPageXWrite,
    /// Six-cycle zero-page read-modify-write indexed by X.
    ZeroPageXRmw,
    /// Four-cycle absolute read.
    AbsoluteRead,
    /// Four-cycle absolute write.
    AbsoluteWrite,
    /// Six-cycle absolute read-modify-write.
    AbsoluteRmw,
    /// Three-cycle absolute jump.
    AbsoluteJmp,
    /// Six-cycle jump to subroutine.
    AbsoluteJsr,
    /// Absolute read indexed by X; 4 cycles, 5 on a page cross.
    AbsoluteXRead,
    /// Absolute read indexed by Y; 4 cycles, 5 on a page cross.
    AbsoluteYRead,
    /// Five-cycle absolute write indexed by X.
    AbsoluteXWrite,
    /// Five-cycle absolute write indexed by Y.
    AbsoluteYWrite,
    /// Indirect read indexed by Y; 5 cycles, 6 on a page cross.
    IndirectYRead,
    /// Six-cycle indirect write indexed by Y.
    IndirectYWrite,
    /// Five-cycle indirect jump, with the page-wrap defect.
    IndirectJmp,
    /// Relative branch; 2 cycles not taken, 3 taken, 4 across a page.
    Relative,
    /// Three-cycle stack push.
    PushStack,
    /// Four-cycle stack pull.
    PullStack,
    /// Six-cycle return from subroutine.
    Rts,
    /// Six-cycle return from interrupt.
    Rti,
}

/// True of the opcodes the core implements.
pub open spec fn opcode_supported(op: u8) -> bool {
    opcode_mode_opt(op) is Some
}

/// The addressing mode of each implemented opcode.
pub open spec fn opcode_mode_opt(op: u8) -> Option<Mode> {
    match op {
        0x09 | 0x29 | 0x49 | 0x69 | 0xA0 | 0xA2 | 0xA9 | 0xC0 | 0xC9 | 0xE0 | 0xE9 => Some(
            Mode::Immediate,
        ),
        0x18 | 0x38 | 0x58 | 0x78 | 0x88 | 0x8A | 0x98 | 0x9A | 0xA8 | 0xAA | 0xBA | 0xC8 | 0xCA
            | 0xD8 | 0xE8 | 0xEA => Some(Mode::Implied),
        0x0A | 0x2A | 0x4A | 0x6A => Some(Mode::Accumulator),
        0x05 | 0x24 | 0x45 | 0x65 | 0xA4 | 0xA5 | 0xA6 | 0xC4 | 0xC5 | 0xE4 | 0xE5 => Some(
            Mode::ZeroPageRead,
        ),
        0x84 | 0x85 | 0x86 => Some(Mode::ZeroPageWrite),
        0x06 | 0x26 | 0x46 | 0x66 | 0xC6 | 0xE6 => Some(Mode::ZeroPageRmw),
        0xB4 | 0xB5 => Some(Mode::ZeroPageXRead),
        0x94 | 0x95 => Some(Mode::ZeroPageXWrite),
        0x16 | 0x56 | 0x76 => Some(Mode::ZeroPageXRmw),
        0x0D | 0x2C | 0x2D | 0xAC | 0xAD | 0xAE | 0xCD | 0xEC => Some(Mode::AbsoluteRead),
        0x8C | 0x8D | 0x8E => Some(Mode::AbsoluteWrite),
        0xCE | 0xEE => Some(Mode::AbsoluteRmw),
        0x4C => Some(Mode::AbsoluteJmp),
        0x20 => Some(Mode::AbsoluteJsr),
        0xBD | 0xDD => Some(Mode::AbsoluteXRead),
        0x79 | 0xB9 | 0xF9 => Some(Mode::AbsoluteYRead),
        0x9D => Some(Mode::AbsoluteXWrite),
        0x99 => Some(Mode::AbsoluteYWrite),
        0xB1 | 0xD1 | 0xF1 => Some(Mode::IndirectYRead),
        0x91 => Some(Mode::IndirectYWrite),
        0x6C => Some(Mode::IndirectJmp),
        0x10 | 0x30 | 0x50 | 0x70 | 0x90 | 0xB0 | 0xD0 | 0xF0 => Some(Mode::Relative),
        0x08 | 0x48 => Some(Mode::PushStack),
        0x28 | 0x68 => Some(Mode::PullStack),
        0x60 => Some(Mode::Rts),
        0x40 => Some(Mode::Rti),
        _ => None,
    }
}

/// The read operator of a read-mode opcode.
pub open spec fn opcode_read_op(op: u8) -> ReadOp {
    match op {
        0x05 | 0x09 | 0x0D => ReadOp::Ora,
        0x29 | 0x2D => ReadOp::And,
        0x45 | 0x49 => ReadOp::Eor,
        0x65 | 0x69 | 0x79 => ReadOp::Adc,
        0xE5 | 0xE9 | 0xF1 | 0xF9 => ReadOp::Sbc,
        0x24 | 0x2C => ReadOp::Bit,
        0xA2 | 0xA6 | 0xAE => ReadOp::Ldx,
        0xA0 | 0xA4 | 0xAC | 0xB4 => ReadOp::Ldy,
        0xC5 | 0xC9 | 0xCD | 0xD1 | 0xDD => ReadOp::Cmp,
        0xE0 | 0xE4 | 0xEC => ReadOp::Cpx,
        0xC0 | 0xC4 => ReadOp::Cpy,
        0x68 => ReadOp::Pla,
        0x28 => ReadOp::Plp,
        _ => ReadOp::Lda,
    }
}

/// The operator of an implied-mode opcode.
pub open spec fn opcode_implied_op(op: u8) -> ImpliedOp {
    match op {
        0x18 => ImpliedOp::Clc,
        0x38 => ImpliedOp::Sec,
        0x58 => ImpliedOp::Cli,
        0x78 => ImpliedOp::Sei,
        0x88 => ImpliedOp::Dey,
        0x8A => ImpliedOp::Txa,
        0x98 => ImpliedOp::Tya,
        0x9A => ImpliedOp::Txs,
        0xA8 => ImpliedOp::Tay,
        0xAA => ImpliedOp::Tax,
        0xBA => ImpliedOp::Tsx,
        0xC8 => ImpliedOp::Iny,
        0xCA => ImpliedOp::Dex,
        0xD8 => ImpliedOp::Cld,
        0xE8 => ImpliedOp::Inx,
        _ => ImpliedOp::Nop,
    }
}

/// The operator of a read-modify-write opcode.
pub open spec fn opcode_rmw_op(op: u8) -> RmwOp {
    match op {
        0x26 | 0x2A => RmwOp::Rol,
        0x46 | 0x4A | 0x56 => RmwOp::Lsr,
        0x66 | 0x6A | 0x76 => RmwOp::Ror,
        0xC6 | 0xCE => RmwOp::Dec,
        0xE6 | 0xEE => RmwOp::Inc,
        _ => RmwOp::Asl,
    }
}

/// The write operator of a write-mode opcode.
pub open spec fn opcode_write_op(op: u8) -> WriteOp {
    match op {
        0x86 | 0x8E => WriteOp::Stx,
        0x84 | 0x8C | 0x94 => WriteOp::Sty,
        0x48 => WriteOp::Pha,
        0x08 => WriteOp::Php,
        _ => WriteOp::Sta,
    }
}

/// One sub-cycle of the instruction in flight: the synthetic interrupt
/// sequence when it is running, else the current opcode's microsequence with
/// its operator, per the spec twins in [`crate::addressing`]. An opcode
/// outside the implemented set yields [`CpuError::IllegalOpcode`] with
/// nothing changed.
pub open spec fn microseq_step(st: u8, a: Addressing, c: Cpu, m: MemView) -> (
    Addressing,
    Cpu,
    MemView,
    Result<u8, CpuError>,
) {
    if c.interrupted_started {
        irq_step(st, a, c, m)
    } else {
        let op = c.opcode;
        match opcode_mode_opt(op) {
            Some(Mode::Immediate) => immediate_step(st, a, c, m, opcode_read_op(op), op),
            Some(Mode::Implied) => {
                let (a2, c2, r) = implied_step(st, a, c, opcode_implied_op(op), op);
                (a2, c2, m, r)
            },
            Some(Mode::Accumulator) => {
                let (a2, c2, r) = accumulator_step(st, a, c, opcode_rmw_op(op), op);
                (a2, c2, m, r)
            },
            Some(Mode::ZeroPageRead) => zero_page_read_step(st, a, c, m, opcode_read_op(op), op),
            Some(Mode::ZeroPageWrite) => zero_page_write_step(st, a, c, m, opcode_write_op(op), op),
            Some(Mode::ZeroPageRmw) => zero_page_rmw_step(st, a, c, m, opcode_rmw_op(op), op),
            Some(Mode::ZeroPageXRead) => zero_page_indexed_read_step(
                st,
                a,
                c,
                m,
                opcode_read_op(op),
                c.x,
                op,
            ),
            Some(Mode::ZeroPageXWrite) => zero_page_indexed_write_step(
                st,
                a,
                c,
                m,
                opcode_write_op(op),
                c.x,
                op,
            ),
            Some(Mode::ZeroPageXRmw) => zero_page_indexed_rmw_step(
                st,
                a,
                c,
                m,
                opcode_rmw_op(op),
                c.x,
                op,
            ),
            Some(Mode::AbsoluteRead) => absolute_read_step(st, a, c, m, opcode_read_op(op), op),
            Some(Mode::AbsoluteWrite) => absolute_write_step(st, a, c, m, opcode_write_op(op), op),
            Some(Mode::AbsoluteRmw) => absolute_rmw_step(st, a, c, m, opcode_rmw_op(op), op),
            Some(Mode::AbsoluteJmp) => absolute_jmp_step(st, a, c, m, op),
            Some(Mode::AbsoluteJsr) => absolute_jsr_step(st, a, c, m, op),
            Some(Mode::AbsoluteXRead) => absolute_indexed_read_step(
                st,
                a,
                c,
                m,
                opcode_read_op(op),
                c.x,
                op,
            ),
            Some(Mode::AbsoluteYRead) => absolute_indexed_read_step(
                st,
                a,
                c,
                m,
                opcode_read_op(op),
                c.y,
                op,
            ),
            Some(Mode::AbsoluteXWrite) => absolute_indexed_write_step(
                st,
                a,
                c,
                m,
                opcode_write_op(op),
                c.x,
                op,
            ),
            Some(Mode::AbsoluteYWrite) => absolute_indexed_write_step(
                st,
                a,
                c,
                m,
                opcode_write_op(op),
                c.y,
                op,
            ),
            Some(Mode::IndirectYRead) => indirect_indexed_read_step(
                st,
                a,
                c,
                m,
                opcode_read_op(op),
                op,
            ),
            Some(Mode::IndirectYWrite) => indirect_indexed_write_step(
                st,
                a,
                c,
                m,
                opcode_write_op(op),
                op,
            ),
            Some(Mode::IndirectJmp) => indirect_jmp_step(st, a, c, m, op),
            Some(Mode::Relative) => relative_step(st, a, c, m, branch_of(op), op),
            Some(Mode::PushStack) => push_step(st, a, c, m, opcode_write_op(op), op),
            Some(Mode::PullStack) => pull_step(st, a, c, m, opcode_read_op(op), op),
            Some(Mode::Rts) => rts_step(st, a, c, m, op),
            Some(Mode::Rti) => rti_step(st, a, c, m, op),
            None => (a, c, m, Err(CpuError::IllegalOpcode(op, pc_dec(c.pc)))),
        }
    }
}

/// The complete one-cycle transition of the processor. At an instruction
/// boundary (sub-cycle 1) the pending-interrupt latch is sampled: set with I
/// clear, it is consumed and the synthetic interrupt sequence starts; else
/// the opcode is fetched from PC. On later cycles [`microseq_step`] runs one
/// sub-cycle of the instruction in flight; its returned sub-cycle becomes
/// the new state, 1 meaning the instruction retired. On an error nothing
/// changes.
pub open spec fn cpu_cycle_spec(a: Addressing, c: Cpu, m: MemView) -> (
    Addressing,
    Cpu,
    MemView,
    Result<(), CpuError>,
) {
    if c.state == 1 {
        if c.interrupted && !flag_set(c.p, FLAG_I) {
            (
                a,
                Cpu { state: 2, interrupted: false, interrupted_started: true, ..c },
                m,
                Ok(()),
            )
        } else {
            (
                a,
                Cpu {
                    pc: pc_inc(c.pc),
                    opcode: read_val(m, c.pc as int),
                    state: 2,
                    interrupted_started: false,
                    ..c
                },
                read_post(m, c.pc as int),
                Ok(()),
            )
        }
    } else {
        let (a2, c2, m2, r) = microseq_step(c.state, a, c, m);
        match r {
            Ok(n) => (a2, Cpu { state: n, ..c2 }, m2, Ok(())),
            Err(e) => (a2, c2, m2, Err(e)),
        }
    }
}

/// The branch predicate of a branch opcode.
pub open spec fn branch_of(op: u8) -> BranchOp {
    match op {
        0x10 => BranchOp::Bpl,
        0x30 => BranchOp::Bmi,
        0x50 => BranchOp::Bvc,
        0x70 => BranchOp::Bvs,
        0x90 => BranchOp::Bcc,
        0xB0 => BranchOp::Bcs,
        0xD0 => BranchOp::Bne,
        _ => BranchOp::Beq,
    }
}

/// True when a supported opcode's microsequence, entered at sub-cycle `s`
/// with addressing state `a` and register file `c`, signals completion on
/// this cycle (that is, returns sub-cycle 1).
pub open spec fn microseq_done(op: u8, s: u8, a: Addressing, c: Cpu) -> bool {
    match opcode_mode_opt(op) {
        Some(Mode::Immediate) | Some(Mode::Implied) | Some(Mode::Accumulator) => s == 2,
        Some(Mode::ZeroPageRead) | Some(Mode::ZeroPageWrite) | Some(Mode::AbsoluteJmp) | Some(
            Mode::PushStack,
        ) => s == 3,
        Some(Mode::ZeroPageXRead) | Some(Mode::ZeroPageXWrite) | Some(Mode::AbsoluteRead) | Some(
            Mode::AbsoluteWrite,
        ) | Some(Mode::PullStack) => s == 4,
        Some(Mode::ZeroPageRmw) | Some(Mode::AbsoluteXWrite) | Some(Mode::AbsoluteYWrite) | Some(
            Mode::IndirectJmp,
        ) => s == 5,
        Some(Mode::ZeroPageXRmw) | Some(Mode::AbsoluteRmw) | Some(Mode::AbsoluteJsr) | Some(
            Mode::Rts,
        ) | Some(Mode::Rti) | Some(Mode::IndirectYWrite) => s == 6,
        Some(Mode::AbsoluteXRead) | Some(Mode::AbsoluteYRead) => (s == 4 && !a.fix_high) || s == 5,
        Some(Mode::IndirectYRead) => (s == 5 && !a.fix_high) || s == 6,
        Some(Mode::Relative) => (s == 2 && !branch_op_spec(c, branch_of(op))) || (s == 3
            && rel_fix_byte(a.latch, low_byte(c.pc)) == 0) || s == 4,
        None => false,
    }
}

/// The published 6502 cycle count of each implemented opcode, including the
/// one-cycle penalty for an indexed read that crosses a page and the branch
/// penalties: a taken branch costs one extra cycle, and one more across a
/// page.
pub open spec fn published_cycles(op: u8, page_cross: bool, taken: bool, branch_cross: bool) -> u8 {
    match op {
        // two cycles: immediates, implieds, accumulator operations
        0x09 | 0x29 | 0x49 | 0x69 | 0xA0 | 0xA2 | 0xA9 | 0xC0 | 0xC9 | 0xE0 | 0xE9 | 0x18 | 0x38
            | 0x58 | 0x78 | 0x88 | 0x8A | 0x98 | 0x9A | 0xA8 | 0xAA | 0xBA | 0xC8 | 0xCA | 0xD8
            | 0xE8 | 0xEA | 0x0A | 0x2A | 0x4A | 0x6A => 2,
        // three cycles: zero-page reads and writes, JMP absolute, pushes
        0x05 | 0x24 | 0x45 | 0x65 | 0xA4 | 0xA5 | 0xA6 | 0xC4 | 0xC5 | 0xE4 | 0xE5 | 0x84 | 0x85
            | 0x86 | 0x4C | 0x08 | 0x48 => 3,
        // four cycles: zero-page indexed, absolute reads and writes, pulls
        0xB4 | 0xB5 | 0x94 | 0x95 | 0x0D | 0x2C | 0x2D | 0xAC | 0xAD | 0xAE | 0xCD | 0xEC | 0x8C
            | 0x8D | 0x8E | 0x28 | 0x68 => 4,
        // five cycles: zero-page read-modify-write, absolute indexed writes,
        // JMP indirect
        0x06 | 0x26 | 0x46 | 0x66 | 0xC6 | 0xE6 | 0x9D | 0x99 | 0x6C => 5,
        // six cycles: indexed read-modify-write, absolute read-modify-write,
        // JSR, RTS, RTI, indirect indexed writes
        0x16 | 0x56 | 0x76 | 0xCE | 0xEE | 0x20 | 0x60 | 0x40 | 0x91 => 6,
        // absolute indexed reads: four, plus one on a page cross
        0xBD | 0xDD | 0x79 | 0xB9 | 0xF9 => if page_cross {
            5
        } else {
            4
        },
        // indirect indexed reads: five, plus one on a page cross
        0xB1 | 0xD1 | 0xF1 => if page_cross {
            6
        } else {
            5
        },
        // branches: two when not taken, three taken, four across a page
        0x10 | 0x30 | 0x50 | 0x70 | 0x90 | 0xB0 | 0xD0 | 0xF0 => if !taken {
            2
        } else if branch_cross {
            4
        } else {
            3
        },
        _ => 0,
    }
}

/// Law: cycle counts. For every implemented opcode, the microsequence
/// signals completion exactly at the published 6502 cycle count for its
/// addressing mode, page-cross and branch penalties included. The sub-cycle
/// counter starts at 1 on the fetch cycle and advances by one each cycle, so
/// the sub-cycle at completion is the total number of cycles the instruction
/// consumed. The bound on `s` states that the machine is within the
/// instruction's schedule: sub-cycles past the completion point never arise,
/// because completion resets the counter to 1.
pub proof fn lemma_instruction_cycle_count(op: u8, s: u8, a: Addressing, c: Cpu)
    requires
        opcode_supported(op),
        2 <= s <= published_cycles(
            op,
            a.fix_high,
            branch_op_spec(c, branch_of(op)),
            rel_fix_byte(a.latch, low_byte(c.pc)) != 0,
        ),
    ensures
        microseq_done(op, s, a, c) <==> s == published_cycles(
            op,
            a.fix_high,
            branch_op_spec(c, branch_of(op)),
            rel_fix_byte(a.latch, low_byte(c.pc)) != 0,
        ),
{
}

/// Law: an implemented opcode's microsequence returns sub-cycle 1 - the
/// instruction retires - exactly when [`microseq_done`] says so. Together
/// with [`lemma_instruction_cycle_count`] this ties the transition function
/// the processor contract uses to the published cycle counts.
#[verifier::rlimit(100)]
#[verifier::spinoff_prover]
pub proof fn lemma_microseq_retires(st: u8, a: Addressing, c: Cpu, m: MemView)
    requires
        !c.interrupted_started,
        opcode_supported(c.opcode),
    ensures
        microseq_step(st, a, c, m).3 == Ok::<u8, CpuError>(1) <==> microseq_done(
            c.opcode,
            st,
            a,
            c,
        ),
{
}

/// Law: the interrupt sequence begins only at an instruction boundary. A
/// mid-instruction cycle never touches the pending latch or the in-progress
/// marker, so an instruction in flight runs to completion unaltered and a
/// latch raised during it waits for the next boundary.
#[verifier::rlimit(100)]
#[verifier::spinoff_prover]
pub proof fn lemma_irq_only_at_boundary(a: Addressing, c: Cpu, m: MemView)
    requires
        c.state != 1,
    ensures
        cpu_cycle_spec(a, c, m).1.interrupted == c.interrupted,
        cpu_cycle_spec(a, c, m).1.interrupted_started == c.interrupted_started,
{
}

/// Law: the accepted interrupt. From an instruction boundary with the
/// pending latch set and I clear, seven cycles consume the latch, push PC
/// high, PC low and the status with the B flag clear and the unused bit set,
/// set I, and load PC from the vector at $FFFE/$FFFF; the stack pointer
/// drops by three, wrapping in page $0100, the data registers are untouched,
/// and the machine stands at the next instruction boundary with the latch
/// consumed (the in-progress marker is cleared by that boundary's fetch).
pub proof fn lemma_interrupt_sequence(a: Addressing, c: Cpu, m: MemView)
    requires
        m.ram.len() == 0x10000,
        c.state == 1,
        c.interrupted,
        !flag_set(c.p, FLAG_I),
    ensures
        ({
            let s1 = cpu_cycle_spec(a, c, m);
            let s2 = cpu_cycle_spec(s1.0, s1.1, s1.2);
            let s3 = cpu_cycle_spec(s2.0, s2.1, s2.2);
            let s4 = cpu_cycle_spec(s3.0, s3.1, s3.2);
            let s5 = cpu_cycle_spec(s4.0, s4.1, s4.2);
            let s6 = cpu_cycle_spec(s5.0, s5.1, s5.2);
            let s7 = cpu_cycle_spec(s6.0, s6.1, s6.2);
            &&& s1.3 is Ok && s2.3 is Ok && s3.3 is Ok && s4.3 is Ok && s5.3 is Ok && s6.3 is Ok
                && s7.3 is Ok
            &&& s7.1.state == 1
            &&& !s7.1.interrupted
            &&& s7.1.sp == byte_dec(byte_dec(byte_dec(c.sp)))
            &&& s7.1.p == spec_set_flag(c.p, FLAG_I, true)
            &&& s7.2.ram[0x0100 + c.sp] == high_byte(c.pc)
            &&& s7.2.ram[0x0100 + byte_dec(c.sp)] == low_byte(c.pc)
            &&& s7.2.ram[0x0100 + byte_dec(byte_dec(c.sp))] == (c.p | FLAG_U) & !FLAG_B
            &&& s7.1.pc == word(read_val(m, 0xFFFE), read_val(m, 0xFFFF))
            &&& s7.1.a == c.a && s7.1.x == c.x && s7.1.y == c.y
            &&& s7.0 == a
        }),
{
    let s1 = cpu_cycle_spec(a, c, m);
    assert(s1.1 == (Cpu { state: 2, interrupted: false, interrupted_started: true, ..c }));
    let s2 = cpu_cycle_spec(s1.0, s1.1, s1.2);
    let s3 = cpu_cycle_spec(s2.0, s2.1, s2.2);
    let s4 = cpu_cycle_spec(s3.0, s3.1, s3.2);
    let s5 = cpu_cycle_spec(s4.0, s4.1, s4.2);
    assert(s5.1.p == spec_set_flag(c.p, FLAG_I, true));
    assert(s5.2.ram == m.ram.update(0x0100 + c.sp, high_byte(c.pc)).update(
        0x0100 + byte_dec(c.sp),
        low_byte(c.pc),
    ).update(0x0100 + byte_dec(byte_dec(c.sp)), (c.p | FLAG_U) & !FLAG_B));
    let s6 = cpu_cycle_spec(s5.0, s5.1, s5.2);
    assert(s5.2.ram[1] == m.ram[1]);
    assert(s5.2.ram[0xFFFE] == m.ram[0xFFFE]);
    assert(s5.2.ram[0xFFFF] == m.ram[0xFFFF]);
    assert(read_val(s5.2, 0xFFFE) == read_val(m, 0xFFFE));
    lemma_word_bytes(read_val(m, 0xFFFE), high_byte(c.pc));
    let s7 = cpu_cycle_spec(s6.0, s6.1, s6.2);
    assert(read_val(s6.2, 0xFFFF) == read_val(m, 0xFFFF));
    lemma_word_bytes(low_byte(s6.1.pc), read_val(m, 0xFFFF));
}

/// The two bytes of an assembled word are the bytes it was assembled from.
proof fn lemma_word_bytes(l: u8, h: u8)
    by (nonlinear_arith)
    ensures
        low_byte(word(l, h)) == l,
        high_byte(word(l, h)) == h,
{
}

impl Cpu {
    /// Advances the core by one system cycle; the complete effect on the
    /// registers, the addressing scratch and the bus equals
    /// [`cpu_cycle_spec`].
    ///
    /// At an instruction boundary (sub-cycle 1) the pending-interrupt latch
    /// is sampled: when it is set and the I flag is clear, the latch is
    /// consumed and the synthetic interrupt sequence starts instead of a
    /// fetch; when the I flag is set, the latch stays pending untouched, so
    /// the interrupt is taken at a later boundary once I clears. Otherwise
    /// the opcode is fetched from PC. On later cycles the opcode's
    /// microsequence runs one sub-cycle, per the spec twins of
    /// [`crate::addressing`]; [`lemma_microseq_retires`] and
    /// [`lemma_instruction_cycle_count`] tie its completion point to the
    /// published cycle counts.
    #[verifier::rlimit(100)]
    #[verifier::spinoff_prover]
    pub fn tick(&mut self, memory: &mut Memory, addressing: &mut Addressing) -> (r: Result<
        (),
        CpuError,
    >)
        requires
            old(memory).wf(),
        ensures
            final(memory).wf(),
            (*final(addressing), *final(self), final(memory)@, r) == cpu_cycle_spec(
                *old(addressing),
                *old(self),
                old(memory)@,
            ),
    {
        if self.state == 1 {
            if self.interrupted && (self.p & FLAG_I) == 0 {
                self.state = 2;
                self.interrupted = false;
                self.interrupted_started = true;
                return Ok(());
            }
            self.interrupted_started = false;
            let pc = self.get_and_increment_pc();
            self.opcode = memory.get_from_word(pc);
            self.state = 2;
            return Ok(());
        }
        let st = self.state;
        let next: Result<u8, CpuError> = if self.interrupted_started {
            addressing.implied_irq(st, self, memory)
        } else if self.opcode < 0x40 {
            self.dispatch_00_3f(st, memory, addressing)
        } else if self.opcode < 0x80 {
            self.dispatch_40_7f(st, memory, addressing)
        } else if self.opcode < 0xA0 {
            self.dispatch_80_9f(st, memory, addressing)
        } else if self.opcode < 0xC0 {
            self.dispatch_a0_bf(st, memory, addressing)
        } else {
            self.dispatch_c0_ff(st, memory, addressing)
        };
        match next {
            Ok(n) => {
                self.state = n;
                Ok(())
            },
            Err(e) => Err(e),
        }
    }


    /// Dispatches one sub-cycle of an opcode in [$00, $3F] to its
    /// microsequence.
    #[verifier::rlimit(100)]
    #[verifier::spinoff_prover]
    fn dispatch_00_3f(&mut self, st: u8, memory: &mut Memory, addressing: &mut Addressing) -> (r: Result<
        u8,
        CpuError,
    >)
        requires
            old(memory).wf(),
            !old(self).interrupted_started,
            old(self).opcode < 0x40,
        ensures
            final(memory).wf(),
            (*final(addressing), *final(self), final(memory)@, r) == microseq_step(
                st,
                *old(addressing),
                *old(self),
                old(memory)@,
            ),
    {
        match self.opcode {
            0x05 => addressing.zero_page_read(st, self, memory, ReadOp::Ora, 0x05),
            0x06 => addressing.zero_page_read_modify_write(st, self, memory, RmwOp::Asl, 0x06),
            0x08 => addressing.implied_php_pha(st, self, memory, WriteOp::Php, 0x08),
            0x09 => addressing.immediate(st, self, memory, ReadOp::Ora, 0x09),
            0x0A => addressing.accumulator(st, self, RmwOp::Asl, 0x0A),
            0x0D => addressing.absolute_read(st, self, memory, ReadOp::Ora, 0x0D),
            0x10 => addressing.relative(st, self, memory, BranchOp::Bpl, 0x10),
            0x16 => addressing.zero_page_indexed_read_modify_write_x(
                st,
                self,
                memory,
                RmwOp::Asl,
                0x16,
            ),
            0x18 => addressing.implied(st, self, ImpliedOp::Clc, 0x18),
            0x20 => addressing.absolute_jsr(st, self, memory, 0x20),
            0x24 => addressing.zero_page_read(st, self, memory, ReadOp::Bit, 0x24),
            0x26 => addressing.zero_page_read_modify_write(st, self, memory, RmwOp::Rol, 0x26),
            0x28 => addressing.implied_plp_pla(st, self, memory, ReadOp::Plp, 0x28),
            0x29 => addressing.immediate(st, self, memory, ReadOp::And, 0x29),
            0x2A => addressing.accumulator(st, self, RmwOp::Rol, 0x2A),
            0x2C => addressing.absolute_read(st, self, memory, ReadOp::Bit, 0x2C),
            0x2D => addressing.absolute_read(st, self, memory, ReadOp::And, 0x2D),
            0x30 => addressing.relative(st, self, memory, BranchOp::Bmi, 0x30),
            0x38 => addressing.implied(st, self, ImpliedOp::Sec, 0x38),
            x => Err(CpuError::IllegalOpcode(x, self.pc.wrapping_sub(1))),
        }
    }

    /// Dispatches one sub-cycle of an opcode in [$40, $7F] to its
    /// microsequence.
    #[verifier::rlimit(100)]
    #[verifier::spinoff_prover]
    fn dispatch_40_7f(&mut self, st: u8, memory: &mut Memory, addressing: &mut Addressing) -> (r: Result<
        u8,
        CpuError,
    >)
        requires
            old(memory).wf(),
            !old(self).interrupted_started,
            0x40 <= old(self).opcode < 0x80,
        ensures
            final(memory).wf(),
            (*final(addressing), *final(self), final(memory)@, r) == microseq_step(
                st,
                *old(addressing),
                *old(self),
                old(memory)@,
            ),
    {
        match self.opcode {
            0x40 => addressing.implied_rti(st, self, memory, 0x40),
            0x45 => addressing.zero_page_read(st, self, memory, ReadOp::Eor, 0x45),
            0x46 => addressing.zero_page_read_modify_write(st, self, memory, RmwOp::Lsr, 0x46),
            0x48 => addressing.implied_php_pha(st, self, memory, WriteOp::Pha, 0x48),
            0x49 => addressing.immediate(st, self, memory, ReadOp::Eor, 0x49),
            0x4A => addressing.accumulator(st, self, RmwOp::Lsr, 0x4A),
            0x4C => addressing.absolute_jmp(st, self, memory, 0x4C),
            0x50 => addressing.relative(st, self, memory, BranchOp::Bvc, 0x50),
            0x56 => addressing.zero_page_indexed_read_modify_write_x(
                st,
                self,
                memory,
                RmwOp::Lsr,
                0x56,
            ),
            0x58 => addressing.implied(st, self, ImpliedOp::Cli, 0x58),
            0x60 => addressing.implied_rts(st, self, memory, 0x60),
            0x65 => addressing.zero_page_read(st, self, memory, ReadOp::Adc, 0x65),
            0x66 => addressing.zero_page_read_modify_write(st, self, memory, RmwOp::Ror, 0x66),
            0x68 => addressing.implied_plp_pla(st, self, memory, ReadOp::Pla, 0x68),
            0x69 => addressing.immediate(st, self, memory, ReadOp::Adc, 0x69),
            0x6A => addressing.accumulator(st, self, RmwOp::Ror, 0x6A),
            0x6C => addressing.absolute_indirect_jmp(st, self, memory, 0x6C),
            0x70 => addressing.relative(st, self, memory, BranchOp::Bvs, 0x70),
            0x76 => addressing.zero_page_indexed_read_modify_write_x(
                st,
                self,
                memory,
                RmwOp::Ror,
                0x76,
            ),
            0x78 => addressing.implied(st, self, ImpliedOp::Sei, 0x78),
            0x79 => addressing.absolute_indexed_read_y(st, self, memory, ReadOp::Adc, 0x79),
            x => Err(CpuError::IllegalOpcode(x, self.pc.wrapping_sub(1))),
        }
    }

    /// Dispatches one sub-cycle of an opcode in [$80, $9F] to its
    /// microsequence.
    #[verifier::rlimit(100)]
    #[verifier::spinoff_prover]
    fn dispatch_80_9f(&mut self, st: u8, memory: &mut Memory, addressing: &mut Addressing) -> (r: Result<
        u8,
        CpuError,
    >)
        requires
            old(memory).wf(),
            !old(self).interrupted_started,
            0x80 <= old(self).opcode < 0xA0,
        ensures
            final(memory).wf(),
            (*final(addressing), *final(self), final(memory)@, r) == microseq_step(
                st,
                *old(addressing),
                *old(self),
                old(memory)@,
            ),
    {
        match self.opcode {
            0x84 => addressing.zero_page_write(st, self, memory, WriteOp::Sty, 0x84),
            0x85 => addressing.zero_page_write(st, self, memory, WriteOp::Sta, 0x85),
            0x86 => addressing.zero_page_write(st, self, memory, WriteOp::Stx, 0x86),
            0x88 => addressing.implied(st, self, ImpliedOp::Dey, 0x88),
            0x8A => addressing.implied(st, self, ImpliedOp::Txa, 0x8A),
            0x8C => addressing.absolute_write(st, self, memory, WriteOp::Sty, 0x8C),
            0x8D => addressing.absolute_write(st, self, memory, WriteOp::Sta, 0x8D),
            0x8E => addressing.absolute_write(st, self, memory, WriteOp::Stx, 0x8E),
            0x90 => addressing.relative(st, self, memory, BranchOp::Bcc, 0x90),
            0x91 => addressing.indirect_indexed_write(st, self, memory, WriteOp::Sta, 0x91),
            0x94 => addressing.zero_page_indexed_write_x(st, self, memory, WriteOp::Sty, 0x94),
            0x95 => addressing.zero_page_indexed_write_x(st, self, memory, WriteOp::Sta, 0x95),
            0x98 => addressing.implied(st, self, ImpliedOp::Tya, 0x98),
            0x99 => addressing.absolute_indexed_write_y(st, self, memory, WriteOp::Sta, 0x99),
            0x9A => addressing.implied(st, self, ImpliedOp::Txs, 0x9A),
            0x9D => addressing.absolute_indexed_write_x(st, self, memory, WriteOp::Sta, 0x9D),
            x => Err(CpuError::IllegalOpcode(x, self.pc.wrapping_sub(1))),
        }
    }

    /// Dispatches one sub-cycle of an opcode in [$A0, $BF] to its
    /// microsequence.
    #[verifier::rlimit(100)]
    #[verifier::spinoff_prover]
    fn dispatch_a0_bf(&mut self, st: u8, memory: &mut Memory, addressing: &mut Addressing) -> (r: Result<
        u8,
        CpuError,
    >)
        requires
            old(memory).wf(),
            !old(self).interrupted_started,
            0xA0 <= old(self).opcode < 0xC0,
        ensures
            final(memory).wf(),
            (*final(addressing), *final(self), final(memory)@, r) == microseq_step(
                st,
                *old(addressing),
                *old(self),
                old(memory)@,
            ),
    {
        match self.opcode {
            0xA0 => addressing.immediate(st, self, memory, ReadOp::Ldy, 0xA0),
            0xA2 => addressing.immediate(st, self, memory, ReadOp::Ldx, 0xA2),
            0xA4 => addressing.zero_page_read(st, self, memory, ReadOp::Ldy, 0xA4),
            0xA5 => addressing.zero_page_read(st, self, memory, ReadOp::Lda, 0xA5),
            0xA6 => addressing.zero_page_read(st, self, memory, ReadOp::Ldx, 0xA6),
            0xA8 => addressing.implied(st, self, ImpliedOp::Tay, 0xA8),
            0xA9 => addressing.immediate(st, self, memory, ReadOp::Lda, 0xA9),
            0xAA => addressing.implied(st, self, ImpliedOp::Tax, 0xAA),
            0xAC => addressing.absolute_read(st, self, memory, ReadOp::Ldy, 0xAC),
            0xAD => addressing.absolute_read(st, self, memory, ReadOp::Lda, 0xAD),
            0xAE => addressing.absolute_read(st, self, memory, ReadOp::Ldx, 0xAE),
            0xB0 => addressing.relative(st, self, memory, BranchOp::Bcs, 0xB0),
            0xB1 => addressing.indirect_indexed_read(st, self, memory, ReadOp::Lda, 0xB1),
            0xB4 => addressing.zero_page_indexed_read_x(st, self, memory, ReadOp::Ldy, 0xB4),
            0xB5 => addressing.zero_page_indexed_read_x(st, self, memory, ReadOp::Lda, 0xB5),
            0xB9 => addressing.absolute_indexed_read_y(st, self, memory, ReadOp::Lda, 0xB9),
            0xBA => addressing.implied(st, self, ImpliedOp::Tsx, 0xBA),
            0xBD => addressing.absolute_indexed_read_x(st, self, memory, ReadOp::Lda, 0xBD),
            x => Err(CpuError::IllegalOpcode(x, self.pc.wrapping_sub(1))),
        }
    }

    /// Dispatches one sub-cycle of an opcode in [$C0, $FF] to its
    /// microsequence.
    #[verifier::rlimit(100)]
    #[verifier::spinoff_prover]
    fn dispatch_c0_ff(&mut self, st: u8, memory: &mut Memory, addressing: &mut Addressing) -> (r: Result<
        u8,
        CpuError,
    >)
        requires
            old(memory).wf(),
            !old(self).interrupted_started,
            0xC0 <= old(self).opcode,
        ensures
            final(memory).wf(),
            (*final(addressing), *final(self), final(memory)@, r) == microseq_step(
                st,
                *old(addressing),
                *old(self),
                old(memory)@,
            ),
    {
        match self.opcode {
            0xC0 => addressing.immediate(st, self, memory, ReadOp::Cpy, 0xC0),
            0xC4 => addressing.zero_page_read(st, self, memory, ReadOp::Cpy, 0xC4),
            0xC5 => addressing.zero_page_read(st, self, memory, ReadOp::Cmp, 0xC5),
            0xC6 => addressing.zero_page_read_modify_write(st, self, memory, RmwOp::Dec, 0xC6),
            0xC8 => addressing.implied(st, self, ImpliedOp::Iny, 0xC8),
            0xC9 => addressing.immediate(st, self, memory, ReadOp::Cmp, 0xC9),
            0xCA => addressing.implied(st, self, ImpliedOp::Dex, 0xCA),
            0xCD => addressing.absolute_read(st, self, memory, ReadOp::Cmp, 0xCD),
            0xCE => addressing.absolute_read_modify_write(st, self, memory, RmwOp::Dec, 0xCE),
            0xD0 => addressing.relative(st, self, memory, BranchOp::Bne, 0xD0),
            0xD1 => addressing.indirect_indexed_read(st, self, memory, ReadOp::Cmp, 0xD1),
            0xD8 => addressing.implied(st, self, ImpliedOp::Cld, 0xD8),
            0xDD => addressing.absolute_indexed_read_x(st, self, memory, ReadOp::Cmp, 0xDD),
            0xE0 => addressing.immediate(st, self, memory, ReadOp::Cpx, 0xE0),
            0xE4 => addressing.zero_page_read(st, self, memory, ReadOp::Cpx, 0xE4),
            0xE5 => addressing.zero_page_read(st, self, memory, ReadOp::Sbc, 0xE5),
            0xE6 => addressing.zero_page_read_modify_write(st, self, memory, RmwOp::Inc, 0xE6),
            0xE8 => addressing.implied(st, self, ImpliedOp::Inx, 0xE8),
            0xE9 => addressing.immediate(st, self, memory, ReadOp::Sbc, 0xE9),
            0xEA => addressing.implied(st, self, ImpliedOp::Nop, 0xEA),
            0xEC => addressing.absolute_read(st, self, memory, ReadOp::Cpx, 0xEC),
            0xEE => addressing.absolute_read_modify_write(st, self, memory, RmwOp::Inc, 0xEE),
            0xF0 => addressing.relative(st, self, memory, BranchOp::Beq, 0xF0),
            0xF1 => addressing.indirect_indexed_read(st, self, memory, ReadOp::Sbc, 0xF1),
            0xF9 => addressing.absolute_indexed_read_y(st, self, memory, ReadOp::Sbc, 0xF9),
            x => Err(CpuError::IllegalOpcode(x, self.pc.wrapping_sub(1))),
        }
    }

}

} // verus!
