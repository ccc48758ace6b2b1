//! The addressing-mode microsequences. Every instruction is composed from
//! one of these small per-cycle schedules; each call advances exactly one
//! system cycle of the current instruction. A call takes the current
//! sub-cycle counter and returns the next one; a returned value of 1 signals
//! that the instruction retires on this cycle. A sub-cycle outside the
//! schedule of the current opcode is reported as
//! [`CpuError::IllegalSubCycle`], with no state touched.

use vstd::prelude::*;

use crate::cpu::{
    branch_op_spec, byte_add, byte_dec, byte_inc, high_byte, low_byte, pc_inc, plp_spec,
    read_op_spec, rmw_op_spec, spec_set_flag, word, write_op_spec, BranchOp, Cpu, CpuError,
    ImpliedOp, ReadOp, RmwOp, WriteOp, FLAG_B, FLAG_I, FLAG_U,
};
use crate::memory::{read_post, read_val, write_post, MemView, Memory};

verus! {

/// Operand scratch state of the addressing unit: effective-address low and
/// high bytes, the page-fix flag, and the operand latch. It is rewritten by
/// each instruction's early cycles; nothing survives an instruction
/// boundary.
pub struct Addressing {
    /// Effective-address low byte.
    pub low: u8,
    /// Effective-address high byte.
    pub high: u8,
    /// Set when an index addition crossed a page and the high byte needs the
    /// one-cycle fix.
    pub fix_high: bool,
    /// Operand latch for read-modify-write data, pointers and branch
    /// offsets.
    pub latch: u8,
}

/// Each microsequence below has a spec twin: a function giving, for every
/// sub-cycle, the complete next state - addressing scratch, register file,
/// bus - and the returned sub-cycle. The executable function's whole
/// contract is equality with its twin, so the per-cycle schedules can be
/// read here and compose into the machine-level transition in
/// [`crate::cpu::cpu_cycle_spec`]. A sub-cycle outside the schedule leaves
/// everything unchanged and yields the error.

/// The operand fetch every mode's cycle 2 performs: the byte at PC, with PC
/// advanced.
pub open spec fn fetch_low_step(
    a: Addressing,
    c: Cpu,
    m: MemView,
    next: u8,
) -> (Addressing, Cpu, MemView, Result<u8, CpuError>) {
    (
        Addressing { low: read_val(m, c.pc as int), ..a },
        Cpu { pc: pc_inc(c.pc), ..c },
        read_post(m, c.pc as int),
        Ok(next),
    )
}

/// Schedule of the 2-cycle immediate mode.
pub open spec fn immediate_step(
    st: u8,
    a: Addressing,
    c: Cpu,
    m: MemView,
    op: ReadOp,
    opcode: u8,
) -> (Addressing, Cpu, MemView, Result<u8, CpuError>) {
    if st == 2 {
        (
            a,
            read_op_spec((Cpu { pc: pc_inc(c.pc), ..c }), op, read_val(m, c.pc as int)),
            read_post(m, c.pc as int),
            Ok(1),
        )
    } else {
        (a, c, m, Err(CpuError::IllegalSubCycle(opcode, st)))
    }
}

/// Schedule of the 2-cycle implied mode; it never touches the bus.
pub open spec fn implied_step(st: u8, a: Addressing, c: Cpu, op: ImpliedOp, opcode: u8) -> (
    Addressing,
    Cpu,
    Result<u8, CpuError>,
) {
    if st == 2 {
        (a, crate::cpu::implied_op_spec(c, op), Ok(1))
    } else {
        (a, c, Err(CpuError::IllegalSubCycle(opcode, st)))
    }
}

/// Schedule of the 2-cycle accumulator mode; it never touches the bus.
pub open spec fn accumulator_step(st: u8, a: Addressing, c: Cpu, op: RmwOp, opcode: u8) -> (
    Addressing,
    Cpu,
    Result<u8, CpuError>,
) {
    if st == 2 {
        let (value, p) = rmw_op_spec(c, op, c.a);
        (a, Cpu { a: value, p, ..c }, Ok(1))
    } else {
        (a, c, Err(CpuError::IllegalSubCycle(opcode, st)))
    }
}

/// Schedule of the 3-cycle zero-page read.
pub open spec fn zero_page_read_step(
    st: u8,
    a: Addressing,
    c: Cpu,
    m: MemView,
    op: ReadOp,
    opcode: u8,
) -> (Addressing, Cpu, MemView, Result<u8, CpuError>) {
    if st == 2 {
        fetch_low_step(a, c, m, 3)
    } else if st == 3 {
        (a, read_op_spec(c, op, read_val(m, a.low as int)), read_post(m, a.low as int), Ok(1))
    } else {
        (a, c, m, Err(CpuError::IllegalSubCycle(opcode, st)))
    }
}

/// Schedule of the 3-cycle zero-page write.
pub open spec fn zero_page_write_step(
    st: u8,
    a: Addressing,
    c: Cpu,
    m: MemView,
    op: WriteOp,
    opcode: u8,
) -> (Addressing, Cpu, MemView, Result<u8, CpuError>) {
    if st == 2 {
        fetch_low_step(a, c, m, 3)
    } else if st == 3 {
        (a, c, write_post(m, a.low as int, write_op_spec(c, op)), Ok(1))
    } else {
        (a, c, m, Err(CpuError::IllegalSubCycle(opcode, st)))
    }
}

/// Schedule of the 5-cycle zero-page read-modify-write.
pub open spec fn zero_page_rmw_step(
    st: u8,
    a: Addressing,
    c: Cpu,
    m: MemView,
    op: RmwOp,
    opcode: u8,
) -> (Addressing, Cpu, MemView, Result<u8, CpuError>) {
    if st == 2 {
        fetch_low_step(a, c, m, 3)
    } else if st == 3 {
        (
            Addressing { latch: read_val(m, a.low as int), ..a },
            c,
            read_post(m, a.low as int),
            Ok(4),
        )
    } else if st == 4 {
        let (value, p) = rmw_op_spec(c, op, a.latch);
        (Addressing { latch: value, ..a }, Cpu { p, ..c }, m, Ok(5))
    } else if st == 5 {
        (a, c, write_post(m, a.low as int, a.latch), Ok(1))
    } else {
        (a, c, m, Err(CpuError::IllegalSubCycle(opcode, st)))
    }
}

/// Schedule of the 4-cycle zero-page read indexed by `index`.
pub open spec fn zero_page_indexed_read_step(
    st: u8,
    a: Addressing,
    c: Cpu,
    m: MemView,
    op: ReadOp,
    index: u8,
    opcode: u8,
) -> (Addressing, Cpu, MemView, Result<u8, CpuError>) {
    if st == 2 {
        fetch_low_step(a, c, m, 3)
    } else if st == 3 {
        (Addressing { low: byte_add(a.low, index), ..a }, c, m, Ok(4))
    } else if st == 4 {
        (a, read_op_spec(c, op, read_val(m, a.low as int)), read_post(m, a.low as int), Ok(1))
    } else {
        (a, c, m, Err(CpuError::IllegalSubCycle(opcode, st)))
    }
}

/// Schedule of the 4-cycle zero-page write indexed by `index`.
pub open spec fn zero_page_indexed_write_step(
    st: u8,
    a: Addressing,
    c: Cpu,
    m: MemView,
    op: WriteOp,
    index: u8,
    opcode: u8,
) -> (Addressing, Cpu, MemView, Result<u8, CpuError>) {
    if st == 2 {
        fetch_low_step(a, c, m, 3)
    } else if st == 3 {
        (Addressing { low: byte_add(a.low, index), ..a }, c, m, Ok(4))
    } else if st == 4 {
        (a, c, write_post(m, a.low as int, write_op_spec(c, op)), Ok(1))
    } else {
        (a, c, m, Err(CpuError::IllegalSubCycle(opcode, st)))
    }
}

/// Schedule of the 6-cycle zero-page read-modify-write indexed by `index`,
/// with the fused read-modify-write on the last cycle.
pub open spec fn zero_page_indexed_rmw_step(
    st: u8,
    a: Addressing,
    c: Cpu,
    m: MemView,
    op: RmwOp,
    index: u8,
    opcode: u8,
) -> (Addressing, Cpu, MemView, Result<u8, CpuError>) {
    if st == 2 {
        fetch_low_step(a, c, m, 3)
    } else if st == 3 {
        (Addressing { low: byte_add(a.low, index), ..a }, c, m, Ok(4))
    } else if st == 4 || st == 5 {
        (a, c, m, Ok((st + 1) as u8))
    } else if st == 6 {
        let read = read_val(m, a.low as int);
        let (value, p) = rmw_op_spec(c, op, read);
        (a, Cpu { p, ..c }, write_post(read_post(m, a.low as int), a.low as int, value), Ok(1))
    } else {
        (a, c, m, Err(CpuError::IllegalSubCycle(opcode, st)))
    }
}

/// Schedule of the 4-cycle absolute read.
pub open spec fn absolute_read_step(
    st: u8,
    a: Addressing,
    c: Cpu,
    m: MemView,
    op: ReadOp,
    opcode: u8,
) -> (Addressing, Cpu, MemView, Result<u8, CpuError>) {
    if st == 2 {
        fetch_low_step(a, c, m, 3)
    } else if st == 3 {
        (
            Addressing { high: read_val(m, c.pc as int), ..a },
            Cpu { pc: pc_inc(c.pc), ..c },
            read_post(m, c.pc as int),
            Ok(4),
        )
    } else if st == 4 {
        let loc = a.low + 256 * a.high;
        (a, read_op_spec(c, op, read_val(m, loc)), read_post(m, loc), Ok(1))
    } else {
        (a, c, m, Err(CpuError::IllegalSubCycle(opcode, st)))
    }
}

/// Schedule of the 4-cycle absolute write.
pub open spec fn absolute_write_step(
    st: u8,
    a: Addressing,
    c: Cpu,
    m: MemView,
    op: WriteOp,
    opcode: u8,
) -> (Addressing, Cpu, MemView, Result<u8, CpuError>) {
    if st == 2 {
        fetch_low_step(a, c, m, 3)
    } else if st == 3 {
        (
            Addressing { high: read_val(m, c.pc as int), ..a },
            Cpu { pc: pc_inc(c.pc), ..c },
            read_post(m, c.pc as int),
            Ok(4),
        )
    } else if st == 4 {
        (a, c, write_post(m, a.low + 256 * a.high, write_op_spec(c, op)), Ok(1))
    } else {
        (a, c, m, Err(CpuError::IllegalSubCycle(opcode, st)))
    }
}

/// Schedule of the 6-cycle absolute read-modify-write.
pub open spec fn absolute_rmw_step(
    st: u8,
    a: Addressing,
    c: Cpu,
    m: MemView,
    op: RmwOp,
    opcode: u8,
) -> (Addressing, Cpu, MemView, Result<u8, CpuError>) {
    if st == 2 {
        fetch_low_step(a, c, m, 3)
    } else if st == 3 {
        (
            Addressing { high: read_val(m, c.pc as int), ..a },
            Cpu { pc: pc_inc(c.pc), ..c },
            read_post(m, c.pc as int),
            Ok(4),
        )
    } else if st == 4 {
        let loc = a.low + 256 * a.high;
        (Addressing { latch: read_val(m, loc), ..a }, c, read_post(m, loc), Ok(5))
    } else if st == 5 {
        let (value, p) = rmw_op_spec(c, op, a.latch);
        (Addressing { latch: value, ..a }, Cpu { p, ..c }, m, Ok(6))
    } else if st == 6 {
        (a, c, write_post(m, a.low + 256 * a.high, a.latch), Ok(1))
    } else {
        (a, c, m, Err(CpuError::IllegalSubCycle(opcode, st)))
    }
}

/// Schedule of the 3-cycle absolute JMP.
pub open spec fn absolute_jmp_step(st: u8, a: Addressing, c: Cpu, m: MemView, opcode: u8) -> (
    Addressing,
    Cpu,
    MemView,
    Result<u8, CpuError>,
) {
    if st == 2 {
        fetch_low_step(a, c, m, 3)
    } else if st == 3 {
        let high = read_val(m, c.pc as int);
        (
            Addressing { high, ..a },
            Cpu { pc: word(a.low, high), ..c },
            read_post(m, c.pc as int),
            Ok(1),
        )
    } else {
        (a, c, m, Err(CpuError::IllegalSubCycle(opcode, st)))
    }
}

/// Schedule of the 6-cycle JSR: fetch the target low byte, push PC high
/// then low (the address of the last instruction byte), fetch the target
/// high byte and jump.
pub open spec fn absolute_jsr_step(st: u8, a: Addressing, c: Cpu, m: MemView, opcode: u8) -> (
    Addressing,
    Cpu,
    MemView,
    Result<u8, CpuError>,
) {
    if st == 2 {
        fetch_low_step(a, c, m, 3)
    } else if st == 3 {
        (a, c, m, Ok(4))
    } else if st == 4 {
        (
            a,
            Cpu { sp: byte_dec(c.sp), ..c },
            MemView { ram: m.ram.update(0x0100 + c.sp, high_byte(c.pc)), ..m },
            Ok(5),
        )
    } else if st == 5 {
        (
            a,
            Cpu { sp: byte_dec(c.sp), ..c },
            MemView { ram: m.ram.update(0x0100 + c.sp, low_byte(c.pc)), ..m },
            Ok(6),
        )
    } else if st == 6 {
        let high = read_val(m, c.pc as int);
        (
            Addressing { high, ..a },
            Cpu { pc: word(a.low, high), ..c },
            read_post(m, c.pc as int),
            Ok(1),
        )
    } else {
        (a, c, m, Err(CpuError::IllegalSubCycle(opcode, st)))
    }
}

/// Schedule of the 6-cycle RTS: pull PC low then high, then step past the
/// JSR's last byte.
pub open spec fn rts_step(st: u8, a: Addressing, c: Cpu, m: MemView, opcode: u8) -> (
    Addressing,
    Cpu,
    MemView,
    Result<u8, CpuError>,
) {
    if st == 2 {
        (a, c, m, Ok(3))
    } else if st == 3 {
        (a, Cpu { sp: byte_inc(c.sp), ..c }, m, Ok(4))
    } else if st == 4 {
        (
            a,
            Cpu {
                pc: word(m.ram[0x0100 + c.sp], high_byte(c.pc)),
                sp: byte_inc(c.sp),
                ..c
            },
            m,
            Ok(5),
        )
    } else if st == 5 {
        (a, Cpu { pc: word(low_byte(c.pc), m.ram[0x0100 + c.sp]), ..c }, m, Ok(6))
    } else if st == 6 {
        (a, Cpu { pc: pc_inc(c.pc), ..c }, m, Ok(1))
    } else {
        (a, c, m, Err(CpuError::IllegalSubCycle(opcode, st)))
    }
}

/// Schedule of the 6-cycle RTI: pull the status (the B flag discarded, the
/// unused bit forced to 1), then PC low and high; PC is not incremented.
pub open spec fn rti_step(st: u8, a: Addressing, c: Cpu, m: MemView, opcode: u8) -> (
    Addressing,
    Cpu,
    MemView,
    Result<u8, CpuError>,
) {
    if st == 2 {
        (a, c, m, Ok(3))
    } else if st == 3 {
        (a, Cpu { sp: byte_inc(c.sp), ..c }, m, Ok(4))
    } else if st == 4 {
        (a, Cpu { sp: byte_inc(c.sp), ..plp_spec(c, m.ram[0x0100 + c.sp]) }, m, Ok(5))
    } else if st == 5 {
        (
            a,
            Cpu {
                pc: word(m.ram[0x0100 + c.sp], high_byte(c.pc)),
                sp: byte_inc(c.sp),
                ..c
            },
            m,
            Ok(6),
        )
    } else if st == 6 {
        (a, Cpu { pc: word(low_byte(c.pc), m.ram[0x0100 + c.sp]), ..c }, m, Ok(1))
    } else {
        (a, c, m, Err(CpuError::IllegalSubCycle(opcode, st)))
    }
}

/// Schedule of the synthetic 7-cycle interrupt sequence: push PC high then
/// low, push the status with the B flag clear, set I, and load PC from the
/// vector at $FFFE/$FFFF. Sub-cycle errors carry opcode 0, the slot the
/// hardware BRK shares.
pub open spec fn irq_step(st: u8, a: Addressing, c: Cpu, m: MemView) -> (
    Addressing,
    Cpu,
    MemView,
    Result<u8, CpuError>,
) {
    if st == 2 {
        (a, c, m, Ok(3))
    } else if st == 3 {
        (
            a,
            Cpu { sp: byte_dec(c.sp), ..c },
            MemView { ram: m.ram.update(0x0100 + c.sp, high_byte(c.pc)), ..m },
            Ok(4),
        )
    } else if st == 4 {
        (
            a,
            Cpu { sp: byte_dec(c.sp), ..c },
            MemView { ram: m.ram.update(0x0100 + c.sp, low_byte(c.pc)), ..m },
            Ok(5),
        )
    } else if st == 5 {
        (
            a,
            Cpu { sp: byte_dec(c.sp), p: spec_set_flag(c.p, FLAG_I, true), ..c },
            MemView { ram: m.ram.update(0x0100 + c.sp, (c.p | FLAG_U) & !FLAG_B), ..m },
            Ok(6),
        )
    } else if st == 6 {
        (
            a,
            Cpu { pc: word(read_val(m, 0xFFFE), high_byte(c.pc)), ..c },
            read_post(m, 0xFFFE),
            Ok(7),
        )
    } else if st == 7 {
        (
            a,
            Cpu { pc: word(low_byte(c.pc), read_val(m, 0xFFFF)), ..c },
            read_post(m, 0xFFFF),
            Ok(1),
        )
    } else {
        (a, c, m, Err(CpuError::IllegalSubCycle(0, st)))
    }
}

/// Schedule of the absolute read indexed by `index`: 4 cycles, or 5 when
/// the index addition crosses a page.
pub open spec fn absolute_indexed_read_step(
    st: u8,
    a: Addressing,
    c: Cpu,
    m: MemView,
    op: ReadOp,
    index: u8,
    opcode: u8,
) -> (Addressing, Cpu, MemView, Result<u8, CpuError>) {
    if st == 2 {
        fetch_low_step(a, c, m, 3)
    } else if st == 3 {
        (
            Addressing {
                low: byte_add(a.low, index),
                high: read_val(m, c.pc as int),
                fix_high: a.low + index >= 256,
                ..a
            },
            Cpu { pc: pc_inc(c.pc), ..c },
            read_post(m, c.pc as int),
            Ok(4),
        )
    } else if st == 4 && a.fix_high {
        (Addressing { high: byte_inc(a.high), ..a }, c, m, Ok(5))
    } else if st == 4 || st == 5 {
        let loc = a.low + 256 * a.high;
        (a, read_op_spec(c, op, read_val(m, loc)), read_post(m, loc), Ok(1))
    } else {
        (a, c, m, Err(CpuError::IllegalSubCycle(opcode, st)))
    }
}

/// Schedule of the 5-cycle absolute write indexed by `index`; the high-byte
/// fix cycle is unconditional for writes.
pub open spec fn absolute_indexed_write_step(
    st: u8,
    a: Addressing,
    c: Cpu,
    m: MemView,
    op: WriteOp,
    index: u8,
    opcode: u8,
) -> (Addressing, Cpu, MemView, Result<u8, CpuError>) {
    if st == 2 {
        fetch_low_step(a, c, m, 3)
    } else if st == 3 {
        (
            Addressing {
                low: byte_add(a.low, index),
                high: read_val(m, c.pc as int),
                fix_high: a.low + index >= 256,
                ..a
            },
            Cpu { pc: pc_inc(c.pc), ..c },
            read_post(m, c.pc as int),
            Ok(4),
        )
    } else if st == 4 {
        (
            Addressing {
                high: if a.fix_high {
                    byte_inc(a.high)
                } else {
                    a.high
                },
                ..a
            },
            c,
            m,
            Ok(5),
        )
    } else if st == 5 {
        (a, c, write_post(m, a.low + 256 * a.high, write_op_spec(c, op)), Ok(1))
    } else {
        (a, c, m, Err(CpuError::IllegalSubCycle(opcode, st)))
    }
}

/// Schedule of the indirect read indexed by Y, `(zp),Y`: 5 cycles, or 6
/// when the index addition crosses a page.
pub open spec fn indirect_indexed_read_step(
    st: u8,
    a: Addressing,
    c: Cpu,
    m: MemView,
    op: ReadOp,
    opcode: u8,
) -> (Addressing, Cpu, MemView, Result<u8, CpuError>) {
    if st == 2 {
        (
            Addressing { latch: read_val(m, c.pc as int), ..a },
            Cpu { pc: pc_inc(c.pc), ..c },
            read_post(m, c.pc as int),
            Ok(3),
        )
    } else if st == 3 {
        (
            Addressing { low: read_val(m, a.latch as int), ..a },
            c,
            read_post(m, a.latch as int),
            Ok(4),
        )
    } else if st == 4 {
        (
            Addressing {
                low: byte_add(a.low, c.y),
                high: read_val(m, byte_inc(a.latch) as int),
                fix_high: a.low + c.y >= 256,
                ..a
            },
            c,
            read_post(m, byte_inc(a.latch) as int),
            Ok(5),
        )
    } else if st == 5 && a.fix_high {
        (Addressing { high: byte_inc(a.high), ..a }, c, m, Ok(6))
    } else if st == 5 || st == 6 {
        let loc = a.low + 256 * a.high;
        (a, read_op_spec(c, op, read_val(m, loc)), read_post(m, loc), Ok(1))
    } else {
        (a, c, m, Err(CpuError::IllegalSubCycle(opcode, st)))
    }
}

/// Schedule of the 6-cycle indirect write indexed by Y.
pub open spec fn indirect_indexed_write_step(
    st: u8,
    a: Addressing,
    c: Cpu,
    m: MemView,
    op: WriteOp,
    opcode: u8,
) -> (Addressing, Cpu, MemView, Result<u8, CpuError>) {
    if st == 2 {
        (
            Addressing { latch: read_val(m, c.pc as int), ..a },
            Cpu { pc: pc_inc(c.pc), ..c },
            read_post(m, c.pc as int),
            Ok(3),
        )
    } else if st == 3 {
        (
            Addressing { low: read_val(m, a.latch as int), ..a },
            c,
            read_post(m, a.latch as int),
            Ok(4),
        )
    } else if st == 4 {
        (
            Addressing {
                low: byte_add(a.low, c.y),
                high: read_val(m, byte_inc(a.latch) as int),
                fix_high: a.low + c.y >= 256,
                ..a
            },
            c,
            read_post(m, byte_inc(a.latch) as int),
            Ok(5),
        )
    } else if st == 5 {
        (
            Addressing {
                high: if a.fix_high {
                    byte_inc(a.high)
                } else {
                    a.high
                },
                ..a
            },
            c,
            m,
            Ok(6),
        )
    } else if st == 6 {
        (a, c, write_post(m, a.low + 256 * a.high, write_op_spec(c, op)), Ok(1))
    } else {
        (a, c, m, Err(CpuError::IllegalSubCycle(opcode, st)))
    }
}

/// Schedule of the 5-cycle indirect JMP, with the page-wrap defect: the
/// target high byte is read from the next pointer location whose low byte
/// wraps within the page.
pub open spec fn indirect_jmp_step(st: u8, a: Addressing, c: Cpu, m: MemView, opcode: u8) -> (
    Addressing,
    Cpu,
    MemView,
    Result<u8, CpuError>,
) {
    if st == 2 {
        fetch_low_step(a, c, m, 3)
    } else if st == 3 {
        (
            Addressing { high: read_val(m, c.pc as int), ..a },
            Cpu { pc: pc_inc(c.pc), ..c },
            read_post(m, c.pc as int),
            Ok(4),
        )
    } else if st == 4 {
        let loc = a.low + 256 * a.high;
        (Addressing { latch: read_val(m, loc), ..a }, c, read_post(m, loc), Ok(5))
    } else if st == 5 {
        let loc = byte_add(a.low, 1) + 256 * a.high;
        (a, Cpu { pc: word(a.latch, read_val(m, loc)), ..c }, read_post(m, loc), Ok(1))
    } else {
        (a, c, m, Err(CpuError::IllegalSubCycle(opcode, st)))
    }
}

/// Schedule of the 3-cycle stack push (PHA/PHP).
pub open spec fn push_step(st: u8, a: Addressing, c: Cpu, m: MemView, op: WriteOp, opcode: u8) -> (
    Addressing,
    Cpu,
    MemView,
    Result<u8, CpuError>,
) {
    if st == 2 {
        (a, c, m, Ok(3))
    } else if st == 3 {
        (
            a,
            Cpu { sp: byte_dec(c.sp), ..c },
            MemView { ram: m.ram.update(0x0100 + c.sp, write_op_spec(c, op)), ..m },
            Ok(1),
        )
    } else {
        (a, c, m, Err(CpuError::IllegalSubCycle(opcode, st)))
    }
}

/// Schedule of the 4-cycle stack pull (PLA/PLP).
pub open spec fn pull_step(st: u8, a: Addressing, c: Cpu, m: MemView, op: ReadOp, opcode: u8) -> (
    Addressing,
    Cpu,
    MemView,
    Result<u8, CpuError>,
) {
    if st == 2 {
        (a, c, m, Ok(3))
    } else if st == 3 {
        (a, Cpu { sp: byte_inc(c.sp), ..c }, m, Ok(4))
    } else if st == 4 {
        (a, read_op_spec(c, op, m.ram[0x0100 + c.sp]), m, Ok(1))
    } else {
        (a, c, m, Err(CpuError::IllegalSubCycle(opcode, st)))
    }
}

/// Schedule of the relative branch: 2 cycles when not taken, 3 taken, 4
/// across a page. Cycle 3 lands on [`branch_target`] when no page fix is
/// needed; otherwise it updates PCL and leaves the corrected PCH in the
/// scratch high byte for cycle 4.
pub open spec fn relative_step(
    st: u8,
    a: Addressing,
    c: Cpu,
    m: MemView,
    op: BranchOp,
    opcode: u8,
) -> (Addressing, Cpu, MemView, Result<u8, CpuError>) {
    if st == 2 {
        (
            Addressing { latch: read_val(m, c.pc as int), ..a },
            Cpu { pc: pc_inc(c.pc), ..c },
            read_post(m, c.pc as int),
            if branch_op_spec(c, op) {
                Ok(3)
            } else {
                Ok(1)
            },
        )
    } else if st == 3 {
        let d = a.latch;
        let fix = rel_fix_byte(d, low_byte(c.pc));
        if fix == 0 {
            (
                Addressing { low: byte_add(low_byte(c.pc), d), fix_high: false, ..a },
                Cpu { pc: branch_target(c.pc, d), ..c },
                m,
                Ok(1),
            )
        } else {
            (
                Addressing {
                    low: byte_add(low_byte(c.pc), d),
                    high: byte_add(high_byte(c.pc), fix),
                    fix_high: true,
                    ..a
                },
                Cpu { pc: word(byte_add(low_byte(c.pc), d), high_byte(c.pc)), ..c },
                m,
                Ok(4),
            )
        }
    } else if st == 4 {
        (a, Cpu { pc: word(low_byte(c.pc), a.high), ..c }, m, Ok(1))
    } else {
        (a, c, m, Err(CpuError::IllegalSubCycle(opcode, st)))
    }
}

impl Addressing {
    /// A cleared addressing unit.
    pub fn new() -> (r: Addressing)
        ensures
            r == (Addressing { low: 0, high: 0, fix_high: false, latch: 0 }),
    {
        Addressing { low: 0, high: 0, fix_high: false, latch: 0 }
    }

    /// Fetches the next operand byte from PC and advances PC.
    fn read_operand(&mut self, memory: &mut Memory, cpu: &mut Cpu) -> (r: u8)
        requires
            old(memory).wf(),
        ensures
            final(memory).wf(),
            *final(self) == *old(self),
            r == read_val(old(memory)@, old(cpu).pc as int),
            final(memory)@ == read_post(old(memory)@, old(cpu).pc as int),
            *final(cpu) == (Cpu { pc: pc_inc(old(cpu).pc), ..*old(cpu) }),
    {
        let pc = cpu.get_and_increment_pc();
        memory.get_from_word(pc)
    }

    /// Immediate mode, 2 cycles: cycle 2 fetches the operand and applies the
    /// read operator.
    pub fn immediate(
        &mut self,
        sub_tick: u8,
        cpu: &mut Cpu,
        memory: &mut Memory,
        op: ReadOp,
        opcode: u8,
    ) -> (r: Result<u8, CpuError>)
        requires
            old(memory).wf(),
        ensures
            final(memory).wf(),
            (*final(self), *final(cpu), final(memory)@, r) == immediate_step(
                sub_tick,
                *old(self),
                *old(cpu),
                old(memory)@,
                op,
                opcode,
            ),
    {
        if sub_tick == 2 {
            let value = self.read_operand(memory, cpu);
            cpu.apply_read(op, value);
            return Ok(1);
        }
        Err(CpuError::IllegalSubCycle(opcode, sub_tick))
    }

    /// Implied mode, 2 cycles: cycle 2 applies the operator.
    pub fn implied(&mut self, sub_tick: u8, cpu: &mut Cpu, op: ImpliedOp, opcode: u8) -> (r:
        Result<u8, CpuError>)
        ensures
            (*final(self), *final(cpu), r) == implied_step(
                sub_tick,
                *old(self),
                *old(cpu),
                op,
                opcode,
            ),
    {
        if sub_tick == 2 {
            cpu.apply_implied(op);
            return Ok(1);
        }
        Err(CpuError::IllegalSubCycle(opcode, sub_tick))
    }

    /// Accumulator mode, 2 cycles: cycle 2 runs the read-modify-write
    /// operator on A.
    pub fn accumulator(&mut self, sub_tick: u8, cpu: &mut Cpu, op: RmwOp, opcode: u8) -> (r: Result<
        u8,
        CpuError,
    >)
        ensures
            (*final(self), *final(cpu), r) == accumulator_step(
                sub_tick,
                *old(self),
                *old(cpu),
                op,
                opcode,
            ),
    {
        if sub_tick == 2 {
            let a = cpu.a;
            let value = cpu.apply_rmw(op, a);
            cpu.a = value;
            return Ok(1);
        }
        Err(CpuError::IllegalSubCycle(opcode, sub_tick))
    }

    /// Zero-page read, 3 cycles: cycle 2 fetches the address low byte, cycle
    /// 3 reads it and applies the operator.
    pub fn zero_page_read(
        &mut self,
        sub_tick: u8,
        cpu: &mut Cpu,
        memory: &mut Memory,
        op: ReadOp,
        opcode: u8,
    ) -> (r: Result<u8, CpuError>)
        requires
            old(memory).wf(),
        ensures
            final(memory).wf(),
            (*final(self), *final(cpu), final(memory)@, r) == zero_page_read_step(
                sub_tick,
                *old(self),
                *old(cpu),
                old(memory)@,
                op,
                opcode,
            ),
    {
        if sub_tick == 2 {
            self.low = self.read_operand(memory, cpu);
            return Ok(3);
        }
        if sub_tick == 3 {
            let value = memory.get_from_low(self.low);
            cpu.apply_read(op, value);
            return Ok(1);
        }
        Err(CpuError::IllegalSubCycle(opcode, sub_tick))
    }

    /// Zero-page write, 3 cycles: cycle 2 fetches the address low byte,
    /// cycle 3 stores the operator's byte there.
    pub fn zero_page_write(
        &mut self,
        sub_tick: u8,
        cpu: &mut Cpu,
        memory: &mut Memory,
        op: WriteOp,
        opcode: u8,
    ) -> (r: Result<u8, CpuError>)
        requires
            old(memory).wf(),
        ensures
            final(memory).wf(),
            (*final(self), *final(cpu), final(memory)@, r) == zero_page_write_step(
                sub_tick,
                *old(self),
                *old(cpu),
                old(memory)@,
                op,
                opcode,
            ),
    {
        if sub_tick == 2 {
            self.low = self.read_operand(memory, cpu);
            return Ok(3);
        }
        if sub_tick == 3 {
            let value = cpu.apply_write(op);
            memory.set_from_low(self.low, value);
            return Ok(1);
        }
        Err(CpuError::IllegalSubCycle(opcode, sub_tick))
    }

    /// Zero-page read-modify-write, 5 cycles: fetch the address, read into
    /// the latch, run the operator on the latch, write the latch back.
    pub fn zero_page_read_modify_write(
        &mut self,
        sub_tick: u8,
        cpu: &mut Cpu,
        memory: &mut Memory,
        op: RmwOp,
        opcode: u8,
    ) -> (r: Result<u8, CpuError>)
        requires
            old(memory).wf(),
        ensures
            final(memory).wf(),
            (*final(self), *final(cpu), final(memory)@, r) == zero_page_rmw_step(
                sub_tick,
                *old(self),
                *old(cpu),
                old(memory)@,
                op,
                opcode,
            ),
    {
        if sub_tick == 2 {
            self.low = self.read_operand(memory, cpu);
            return Ok(3);
        }
        if sub_tick == 3 {
            self.latch = memory.get_from_low(self.low);
            return Ok(4);
        }
        if sub_tick == 4 {
            self.latch = cpu.apply_rmw(op, self.latch);
            return Ok(5);
        }
        if sub_tick == 5 {
            memory.set_from_low(self.low, self.latch);
            return Ok(1);
        }
        Err(CpuError::IllegalSubCycle(opcode, sub_tick))
    }

    /// Absolute read, 4 cycles: fetch the address low and high bytes, then
    /// read and apply the operator.
    pub fn absolute_read(
        &mut self,
        sub_tick: u8,
        cpu: &mut Cpu,
        memory: &mut Memory,
        op: ReadOp,
        opcode: u8,
    ) -> (r: Result<u8, CpuError>)
        requires
            old(memory).wf(),
        ensures
            final(memory).wf(),
            (*final(self), *final(cpu), final(memory)@, r) == absolute_read_step(
                sub_tick,
                *old(self),
                *old(cpu),
                old(memory)@,
                op,
                opcode,
            ),
    {
        if sub_tick == 2 {
            self.low = self.read_operand(memory, cpu);
            return Ok(3);
        }
        if sub_tick == 3 {
            self.high = self.read_operand(memory, cpu);
            return Ok(4);
        }
        if sub_tick == 4 {
            let value = memory.get_from_low_high(self.low, self.high);
            cpu.apply_read(op, value);
            return Ok(1);
        }
        Err(CpuError::IllegalSubCycle(opcode, sub_tick))
    }

    /// Absolute write, 4 cycles: fetch the address, then store the
    /// operator's byte.
    pub fn absolute_write(
        &mut self,
        sub_tick: u8,
        cpu: &mut Cpu,
        memory: &mut Memory,
        op: WriteOp,
        opcode: u8,
    ) -> (r: Result<u8, CpuError>)
        requires
            old(memory).wf(),
        ensures
            final(memory).wf(),
            (*final(self), *final(cpu), final(memory)@, r) == absolute_write_step(
                sub_tick,
                *old(self),
                *old(cpu),
                old(memory)@,
                op,
                opcode,
            ),
    {
        if sub_tick == 2 {
            self.low = self.read_operand(memory, cpu);
            return Ok(3);
        }
        if sub_tick == 3 {
            self.high = self.read_operand(memory, cpu);
            return Ok(4);
        }
        if sub_tick == 4 {
            let value = cpu.apply_write(op);
            memory.set_from_low_high(self.low, self.high, value);
            return Ok(1);
        }
        Err(CpuError::IllegalSubCycle(opcode, sub_tick))
    }

    /// Absolute read-modify-write, 6 cycles: fetch the address, read into
    /// the latch, run the operator, write the latch back.
    pub fn absolute_read_modify_write(
        &mut self,
        sub_tick: u8,
        cpu: &mut Cpu,
        memory: &mut Memory,
        op: RmwOp,
        opcode: u8,
    ) -> (r: Result<u8, CpuError>)
        requires
            old(memory).wf(),
        ensures
            final(memory).wf(),
            (*final(self), *final(cpu), final(memory)@, r) == absolute_rmw_step(
                sub_tick,
                *old(self),
                *old(cpu),
                old(memory)@,
                op,
                opcode,
            ),
    {
        if sub_tick == 2 {
            self.low = self.read_operand(memory, cpu);
            return Ok(3);
        }
        if sub_tick == 3 {
            self.high = self.read_operand(memory, cpu);
            return Ok(4);
        }
        if sub_tick == 4 {
            self.latch = memory.get_from_low_high(self.low, self.high);
            return Ok(5);
        }
        if sub_tick == 5 {
            self.latch = cpu.apply_rmw(op, self.latch);
            return Ok(6);
        }
        if sub_tick == 6 {
            memory.set_from_low_high(self.low, self.high, self.latch);
            return Ok(1);
        }
        Err(CpuError::IllegalSubCycle(opcode, sub_tick))
    }

    /// Absolute JMP, 3 cycles: fetch the target low and high bytes, loading
    /// PC from them on cycle 3.
    pub fn absolute_jmp(
        &mut self,
        sub_tick: u8,
        cpu: &mut Cpu,
        memory: &mut Memory,
        opcode: u8,
    ) -> (r: Result<u8, CpuError>)
        requires
            old(memory).wf(),
        ensures
            final(memory).wf(),
            (*final(self), *final(cpu), final(memory)@, r) == absolute_jmp_step(
                sub_tick,
                *old(self),
                *old(cpu),
                old(memory)@,
                opcode,
            ),
    {
        if sub_tick == 2 {
            self.low = self.read_operand(memory, cpu);
            return Ok(3);
        }
        if sub_tick == 3 {
            self.high = self.read_operand(memory, cpu);
            cpu.set_pc(self.low, self.high);
            return Ok(1);
        }
        Err(CpuError::IllegalSubCycle(opcode, sub_tick))
    }

    /// Absolute JSR, 6 cycles: fetch the target low byte, push PC high then
    /// low (the address of the last instruction byte), fetch the target high
    /// byte and jump.
    pub fn absolute_jsr(
        &mut self,
        sub_tick: u8,
        cpu: &mut Cpu,
        memory: &mut Memory,
        opcode: u8,
    ) -> (r: Result<u8, CpuError>)
        requires
            old(memory).wf(),
        ensures
            final(memory).wf(),
            (*final(self), *final(cpu), final(memory)@, r) == absolute_jsr_step(
                sub_tick,
                *old(self),
                *old(cpu),
                old(memory)@,
                opcode,
            ),
    {
        if sub_tick == 2 {
            self.low = self.read_operand(memory, cpu);
            return Ok(3);
        }
        if sub_tick == 3 {
            return Ok(4);
        }
        if sub_tick == 4 {
            let pch = cpu.get_pch();
            memory.set_stack(cpu.sp, pch);
            cpu.sp = cpu.sp.wrapping_sub(1);
            return Ok(5);
        }
        if sub_tick == 5 {
            let pcl = cpu.get_pcl();
            memory.set_stack(cpu.sp, pcl);
            cpu.sp = cpu.sp.wrapping_sub(1);
            return Ok(6);
        }
        if sub_tick == 6 {
            self.high = self.read_operand(memory, cpu);
            cpu.set_pc(self.low, self.high);
            return Ok(1);
        }
        Err(CpuError::IllegalSubCycle(opcode, sub_tick))
    }

    /// Implied RTS, 6 cycles: pull PC low then high from the stack, then
    /// step past the JSR's last byte.
    pub fn implied_rts(
        &mut self,
        sub_tick: u8,
        cpu: &mut Cpu,
        memory: &mut Memory,
        opcode: u8,
    ) -> (r: Result<u8, CpuError>)
        requires
            old(memory).wf(),
        ensures
            final(memory).wf(),
            (*final(self), *final(cpu), final(memory)@, r) == rts_step(
                sub_tick,
                *old(self),
                *old(cpu),
                old(memory)@,
                opcode,
            ),
    {
        if sub_tick == 2 {
            return Ok(3);
        }
        if sub_tick == 3 {
            cpu.sp = cpu.sp.wrapping_add(1);
            return Ok(4);
        }
        if sub_tick == 4 {
            let value = memory.get_stack(cpu.sp);
            cpu.set_pcl(value);
            cpu.sp = cpu.sp.wrapping_add(1);
            return Ok(5);
        }
        if sub_tick == 5 {
            let value = memory.get_stack(cpu.sp);
            cpu.set_pch(value);
            return Ok(6);
        }
        if sub_tick == 6 {
            cpu.get_and_increment_pc();
            return Ok(1);
        }
        Err(CpuError::IllegalSubCycle(opcode, sub_tick))
    }
}

/// The branch target: PC plus the sign-extended 8-bit offset, as a 16-bit
/// wrapping addition.
pub open spec fn branch_target(pc: u16, d: u8) -> u16 {
    if d < 0x80 {
        ((pc + d) % 0x10000) as u16
    } else {
        ((pc + d + 0xFF00) % 0x10000) as u16
    }
}

/// The page fix the branch microsequence applies to PCH after adding the
/// offset to PCL: plus one on a forward carry, minus one (as $FF) on a
/// backward borrow, zero within the page.
pub open spec fn rel_fix_byte(d: u8, pcl: u8) -> u8 {
    if d < 0x80 {
        if pcl + d >= 256 {
            1
        } else {
            0
        }
    } else {
        if byte_inc(!d) > pcl {
            0xFF
        } else {
            0
        }
    }
}

/// Law: a taken relative branch lands on PC plus the sign-extended offset as
/// one 16-bit wrapping addition. The split computation the hardware performs
/// - add the offset to PCL, then fix PCH by the carry or borrow - assembles
/// to exactly that sum; a branch that needs no fix is done one cycle sooner.
pub proof fn lemma_branch_target(pc: u16, d: u8)
    by (bit_vector)
    ensures
        branch_target(pc, d) == word(
            byte_add(low_byte(pc), d),
            byte_add(high_byte(pc), rel_fix_byte(d, low_byte(pc))),
        ),
{
}

impl Addressing {
    /// Relative branch, 2 to 4 cycles: cycle 2 fetches the offset and
    /// evaluates the predicate, finishing at once when not taken; cycle 3
    /// updates PCL, finishing unless the page boundary was crossed; cycle 4
    /// corrects PCH.
    pub fn relative(
        &mut self,
        sub_tick: u8,
        cpu: &mut Cpu,
        memory: &mut Memory,
        op: BranchOp,
        opcode: u8,
    ) -> (r: Result<u8, CpuError>)
        requires
            old(memory).wf(),
        ensures
            final(memory).wf(),
            (*final(self), *final(cpu), final(memory)@, r) == relative_step(
                sub_tick,
                *old(self),
                *old(cpu),
                old(memory)@,
                op,
                opcode,
            ),
    {
        if sub_tick == 2 {
            self.latch = self.read_operand(memory, cpu);
            return if cpu.apply_branch(op) {
                Ok(3)
            } else {
                Ok(1)
            };
        }
        if sub_tick == 3 {
            let pcl = cpu.get_pcl();
            let d = self.latch;
            let crossed = (pcl as u16) + (d as u16) > 0xFF;
            let newlow = pcl.wrapping_add(d);
            let fix: u8 = if d < 0x80 {
                if crossed {
                    1
                } else {
                    0
                }
            } else {
                let magnitude = (!d).wrapping_add(1);
                if magnitude > pcl {
                    0xFF
                } else {
                    0
                }
            };
            proof {
                lemma_branch_target(cpu.pc, d);
            }
            self.low = newlow;
            cpu.set_pcl(newlow);
            return if fix != 0 {
                self.high = cpu.get_pch().wrapping_add(fix);
                self.fix_high = true;
                Ok(4)
            } else {
                self.fix_high = false;
                Ok(1)
            };
        }
        if sub_tick == 4 {
            cpu.set_pch(self.high);
            return Ok(1);
        }
        Err(CpuError::IllegalSubCycle(opcode, sub_tick))
    }

    /// Zero-page indexed read by X, 4 cycles: fetch the base, add X within
    /// the zero page, read and apply.
    pub fn zero_page_indexed_read_x(
        &mut self,
        sub_tick: u8,
        cpu: &mut Cpu,
        memory: &mut Memory,
        op: ReadOp,
        opcode: u8,
    ) -> (r: Result<u8, CpuError>)
        requires
            old(memory).wf(),
        ensures
            final(memory).wf(),
            (*final(self), *final(cpu), final(memory)@, r) == zero_page_indexed_read_step(
                sub_tick,
                *old(self),
                *old(cpu),
                old(memory)@,
                op,
                old(cpu).x,
                opcode,
            ),
    {
        if sub_tick == 2 {
            self.low = self.read_operand(memory, cpu);
            return Ok(3);
        }
        if sub_tick == 3 {
            self.low = self.low.wrapping_add(cpu.x);
            return Ok(4);
        }
        if sub_tick == 4 {
            let value = memory.get_from_low(self.low);
            cpu.apply_read(op, value);
            return Ok(1);
        }
        Err(CpuError::IllegalSubCycle(opcode, sub_tick))
    }

    /// Zero-page indexed write by X, 4 cycles: fetch the base, add X within
    /// the zero page, store.
    pub fn zero_page_indexed_write_x(
        &mut self,
        sub_tick: u8,
        cpu: &mut Cpu,
        memory: &mut Memory,
        op: WriteOp,
        opcode: u8,
    ) -> (r: Result<u8, CpuError>)
        requires
            old(memory).wf(),
        ensures
            final(memory).wf(),
            (*final(self), *final(cpu), final(memory)@, r) == zero_page_indexed_write_step(
                sub_tick,
                *old(self),
                *old(cpu),
                old(memory)@,
                op,
                old(cpu).x,
                opcode,
            ),
    {
        if sub_tick == 2 {
            self.low = self.read_operand(memory, cpu);
            return Ok(3);
        }
        if sub_tick == 3 {
            self.low = self.low.wrapping_add(cpu.x);
            return Ok(4);
        }
        if sub_tick == 4 {
            let value = cpu.apply_write(op);
            memory.set_from_low(self.low, value);
            return Ok(1);
        }
        Err(CpuError::IllegalSubCycle(opcode, sub_tick))
    }

    /// Zero-page indexed read-modify-write by X, 6 cycles: fetch the base,
    /// add X within the zero page, two internal cycles, then the fused
    /// read-modify-write.
    pub fn zero_page_indexed_read_modify_write_x(
        &mut self,
        sub_tick: u8,
        cpu: &mut Cpu,
        memory: &mut Memory,
        op: RmwOp,
        opcode: u8,
    ) -> (r: Result<u8, CpuError>)
        requires
            old(memory).wf(),
        ensures
            final(memory).wf(),
            (*final(self), *final(cpu), final(memory)@, r) == zero_page_indexed_rmw_step(
                sub_tick,
                *old(self),
                *old(cpu),
                old(memory)@,
                op,
                old(cpu).x,
                opcode,
            ),
    {
        if sub_tick == 2 {
            self.low = self.read_operand(memory, cpu);
            return Ok(3);
        }
        if sub_tick == 3 {
            self.low = self.low.wrapping_add(cpu.x);
            return Ok(4);
        }
        if sub_tick == 4 {
            return Ok(5);
        }
        if sub_tick == 5 {
            return Ok(6);
        }
        if sub_tick == 6 {
            let read = memory.get_from_low(self.low);
            let value = cpu.apply_rmw(op, read);
            memory.set_from_low(self.low, value);
            return Ok(1);
        }
        Err(CpuError::IllegalSubCycle(opcode, sub_tick))
    }

    /// Absolute indexed read by X, 4 or 5 cycles: fetch the base low byte,
    /// add X to it while fetching the high byte, finish on cycle 4 when no
    /// page was crossed, else correct the high byte and finish on cycle 5.
    pub fn absolute_indexed_read_x(
        &mut self,
        sub_tick: u8,
        cpu: &mut Cpu,
        memory: &mut Memory,
        op: ReadOp,
        opcode: u8,
    ) -> (r: Result<u8, CpuError>)
        requires
            old(memory).wf(),
        ensures
            final(memory).wf(),
            (*final(self), *final(cpu), final(memory)@, r) == absolute_indexed_read_step(
                sub_tick,
                *old(self),
                *old(cpu),
                old(memory)@,
                op,
                old(cpu).x,
                opcode,
            ),
    {
        if sub_tick == 2 {
            self.low = self.read_operand(memory, cpu);
            return Ok(3);
        }
        if sub_tick == 3 {
            let crossed = (self.low as u16) + (cpu.x as u16) > 0xFF;
            self.low = self.low.wrapping_add(cpu.x);
            self.fix_high = crossed;
            self.high = self.read_operand(memory, cpu);
            return Ok(4);
        }
        if sub_tick == 4 {
            return if self.fix_high {
                self.high = self.high.wrapping_add(1);
                Ok(5)
            } else {
                let value = memory.get_from_low_high(self.low, self.high);
                cpu.apply_read(op, value);
                Ok(1)
            };
        }
        if sub_tick == 5 {
            let value = memory.get_from_low_high(self.low, self.high);
            cpu.apply_read(op, value);
            return Ok(1);
        }
        Err(CpuError::IllegalSubCycle(opcode, sub_tick))
    }

    /// Absolute indexed read by Y; same schedule as the X variant.
    pub fn absolute_indexed_read_y(
        &mut self,
        sub_tick: u8,
        cpu: &mut Cpu,
        memory: &mut Memory,
        op: ReadOp,
        opcode: u8,
    ) -> (r: Result<u8, CpuError>)
        requires
            old(memory).wf(),
        ensures
            final(memory).wf(),
            (*final(self), *final(cpu), final(memory)@, r) == absolute_indexed_read_step(
                sub_tick,
                *old(self),
                *old(cpu),
                old(memory)@,
                op,
                old(cpu).y,
                opcode,
            ),
    {
        if sub_tick == 2 {
            self.low = self.read_operand(memory, cpu);
            return Ok(3);
        }
        if sub_tick == 3 {
            let crossed = (self.low as u16) + (cpu.y as u16) > 0xFF;
            self.low = self.low.wrapping_add(cpu.y);
            self.fix_high = crossed;
            self.high = self.read_operand(memory, cpu);
            return Ok(4);
        }
        if sub_tick == 4 {
            return if self.fix_high {
                self.high = self.high.wrapping_add(1);
                Ok(5)
            } else {
                let value = memory.get_from_low_high(self.low, self.high);
                cpu.apply_read(op, value);
                Ok(1)
            };
        }
        if sub_tick == 5 {
            let value = memory.get_from_low_high(self.low, self.high);
            cpu.apply_read(op, value);
            return Ok(1);
        }
        Err(CpuError::IllegalSubCycle(opcode, sub_tick))
    }

    /// Absolute indexed write by X, 5 cycles: the high-byte fix cycle is
    /// unconditional for writes.
    pub fn absolute_indexed_write_x(
        &mut self,
        sub_tick: u8,
        cpu: &mut Cpu,
        memory: &mut Memory,
        op: WriteOp,
        opcode: u8,
    ) -> (r: Result<u8, CpuError>)
        requires
            old(memory).wf(),
        ensures
            final(memory).wf(),
            (*final(self), *final(cpu), final(memory)@, r) == absolute_indexed_write_step(
                sub_tick,
                *old(self),
                *old(cpu),
                old(memory)@,
                op,
                old(cpu).x,
                opcode,
            ),
    {
        if sub_tick == 2 {
            self.low = self.read_operand(memory, cpu);
            return Ok(3);
        }
        if sub_tick == 3 {
            let crossed = (self.low as u16) + (cpu.x as u16) > 0xFF;
            self.low = self.low.wrapping_add(cpu.x);
            self.fix_high = crossed;
            self.high = self.read_operand(memory, cpu);
            return Ok(4);
        }
        if sub_tick == 4 {
            if self.fix_high {
                self.high = self.high.wrapping_add(1);
            }
            return Ok(5);
        }
        if sub_tick == 5 {
            let value = cpu.apply_write(op);
            memory.set_from_low_high(self.low, self.high, value);
            return Ok(1);
        }
        Err(CpuError::IllegalSubCycle(opcode, sub_tick))
    }

    /// Absolute indexed write by Y; same schedule as the X variant.
    pub fn absolute_indexed_write_y(
        &mut self,
        sub_tick: u8,
        cpu: &mut Cpu,
        memory: &mut Memory,
        op: WriteOp,
        opcode: u8,
    ) -> (r: Result<u8, CpuError>)
        requires
            old(memory).wf(),
        ensures
            final(memory).wf(),
            (*final(self), *final(cpu), final(memory)@, r) == absolute_indexed_write_step(
                sub_tick,
                *old(self),
                *old(cpu),
                old(memory)@,
                op,
                old(cpu).y,
                opcode,
            ),
    {
        if sub_tick == 2 {
            self.low = self.read_operand(memory, cpu);
            return Ok(3);
        }
        if sub_tick == 3 {
            let crossed = (self.low as u16) + (cpu.y as u16) > 0xFF;
            self.low = self.low.wrapping_add(cpu.y);
            self.fix_high = crossed;
            self.high = self.read_operand(memory, cpu);
            return Ok(4);
        }
        if sub_tick == 4 {
            if self.fix_high {
                self.high = self.high.wrapping_add(1);
            }
            return Ok(5);
        }
        if sub_tick == 5 {
            let value = cpu.apply_write(op);
            memory.set_from_low_high(self.low, self.high, value);
            return Ok(1);
        }
        Err(CpuError::IllegalSubCycle(opcode, sub_tick))
    }

    /// Indirect indexed read, `(zp),Y`, 5 or 6 cycles: fetch the zero-page
    /// pointer, read the base address from it, add Y to the low byte, finish
    /// on cycle 5 when no page was crossed, else correct and finish on cycle
    /// 6.
    pub fn indirect_indexed_read(
        &mut self,
        sub_tick: u8,
        cpu: &mut Cpu,
        memory: &mut Memory,
        op: ReadOp,
        opcode: u8,
    ) -> (r: Result<u8, CpuError>)
        requires
            old(memory).wf(),
        ensures
            final(memory).wf(),
            (*final(self), *final(cpu), final(memory)@, r) == indirect_indexed_read_step(
                sub_tick,
                *old(self),
                *old(cpu),
                old(memory)@,
                op,
                opcode,
            ),
    {
        if sub_tick == 2 {
            self.latch = self.read_operand(memory, cpu);
            return Ok(3);
        }
        if sub_tick == 3 {
            self.low = memory.get_from_low(self.latch);
            return Ok(4);
        }
        if sub_tick == 4 {
            self.high = memory.get_from_low(self.latch.wrapping_add(1));
            let crossed = (self.low as u16) + (cpu.y as u16) > 0xFF;
            self.low = self.low.wrapping_add(cpu.y);
            self.fix_high = crossed;
            return Ok(5);
        }
        if sub_tick == 5 {
            return if self.fix_high {
                self.high = self.high.wrapping_add(1);
                Ok(6)
            } else {
                let value = memory.get_from_low_high(self.low, self.high);
                cpu.apply_read(op, value);
                Ok(1)
            };
        }
        if sub_tick == 6 {
            let value = memory.get_from_low_high(self.low, self.high);
            cpu.apply_read(op, value);
            return Ok(1);
        }
        Err(CpuError::IllegalSubCycle(opcode, sub_tick))
    }

    /// Indirect indexed write, `(zp),Y`, 6 cycles: as the read, with an
    /// unconditional fix cycle before the store.
    pub fn indirect_indexed_write(
        &mut self,
        sub_tick: u8,
        cpu: &mut Cpu,
        memory: &mut Memory,
        op: WriteOp,
        opcode: u8,
    ) -> (r: Result<u8, CpuError>)
        requires
            old(memory).wf(),
        ensures
            final(memory).wf(),
            (*final(self), *final(cpu), final(memory)@, r) == indirect_indexed_write_step(
                sub_tick,
                *old(self),
                *old(cpu),
                old(memory)@,
                op,
                opcode,
            ),
    {
        if sub_tick == 2 {
            self.latch = self.read_operand(memory, cpu);
            return Ok(3);
        }
        if sub_tick == 3 {
            self.low = memory.get_from_low(self.latch);
            return Ok(4);
        }
        if sub_tick == 4 {
            self.high = memory.get_from_low(self.latch.wrapping_add(1));
            let crossed = (self.low as u16) + (cpu.y as u16) > 0xFF;
            self.low = self.low.wrapping_add(cpu.y);
            self.fix_high = crossed;
            return Ok(5);
        }
        if sub_tick == 5 {
            if self.fix_high {
                self.high = self.high.wrapping_add(1);
            }
            return Ok(6);
        }
        if sub_tick == 6 {
            let value = cpu.apply_write(op);
            memory.set_from_low_high(self.low, self.high, value);
            return Ok(1);
        }
        Err(CpuError::IllegalSubCycle(opcode, sub_tick))
    }

    /// Absolute indirect JMP, 5 cycles: fetch the pointer, read the target
    /// low byte through it, then the target high byte from the next pointer
    /// location whose low byte wraps within the page - the documented
    /// page-wrap defect of the chip.
    pub fn absolute_indirect_jmp(
        &mut self,
        sub_tick: u8,
        cpu: &mut Cpu,
        memory: &mut Memory,
        opcode: u8,
    ) -> (r: Result<u8, CpuError>)
        requires
            old(memory).wf(),
        ensures
            final(memory).wf(),
            (*final(self), *final(cpu), final(memory)@, r) == indirect_jmp_step(
                sub_tick,
                *old(self),
                *old(cpu),
                old(memory)@,
                opcode,
            ),
    {
        if sub_tick == 2 {
            self.low = self.read_operand(memory, cpu);
            return Ok(3);
        }
        if sub_tick == 3 {
            self.high = self.read_operand(memory, cpu);
            return Ok(4);
        }
        if sub_tick == 4 {
            self.latch = memory.get_from_low_high(self.low, self.high);
            return Ok(5);
        }
        if sub_tick == 5 {
            let high = memory.get_from_low_high(self.low.wrapping_add(1), self.high);
            cpu.set_pc(self.latch, high);
            return Ok(1);
        }
        Err(CpuError::IllegalSubCycle(opcode, sub_tick))
    }

    /// PHA/PHP, 3 cycles: one internal cycle, then the push with the stack
    /// pointer decrement.
    pub fn implied_php_pha(
        &mut self,
        sub_tick: u8,
        cpu: &mut Cpu,
        memory: &mut Memory,
        op: WriteOp,
        opcode: u8,
    ) -> (r: Result<u8, CpuError>)
        requires
            old(memory).wf(),
        ensures
            final(memory).wf(),
            (*final(self), *final(cpu), final(memory)@, r) == push_step(
                sub_tick,
                *old(self),
                *old(cpu),
                old(memory)@,
                op,
                opcode,
            ),
    {
        if sub_tick == 2 {
            return Ok(3);
        }
        if sub_tick == 3 {
            let value = cpu.apply_write(op);
            memory.set_stack(cpu.sp, value);
            cpu.sp = cpu.sp.wrapping_sub(1);
            return Ok(1);
        }
        Err(CpuError::IllegalSubCycle(opcode, sub_tick))
    }

    /// PLA/PLP, 4 cycles: two internal cycles around the stack pointer
    /// increment, then the pull applies the read operator.
    pub fn implied_plp_pla(
        &mut self,
        sub_tick: u8,
        cpu: &mut Cpu,
        memory: &mut Memory,
        op: ReadOp,
        opcode: u8,
    ) -> (r: Result<u8, CpuError>)
        requires
            old(memory).wf(),
        ensures
            final(memory).wf(),
            (*final(self), *final(cpu), final(memory)@, r) == pull_step(
                sub_tick,
                *old(self),
                *old(cpu),
                old(memory)@,
                op,
                opcode,
            ),
    {
        if sub_tick == 2 {
            return Ok(3);
        }
        if sub_tick == 3 {
            cpu.sp = cpu.sp.wrapping_add(1);
            return Ok(4);
        }
        if sub_tick == 4 {
            let value = memory.get_stack(cpu.sp);
            cpu.apply_read(op, value);
            return Ok(1);
        }
        Err(CpuError::IllegalSubCycle(opcode, sub_tick))
    }

    /// The synthetic 7-cycle interrupt microsequence: push PC high then low,
    /// push the status with the B flag clear, set I, and load PC from the
    /// interrupt vector at $FFFE/$FFFF. It reports sub-cycle errors under
    /// opcode 0, the slot the hardware BRK shares.
    pub fn implied_irq(&mut self, sub_tick: u8, cpu: &mut Cpu, memory: &mut Memory) -> (r: Result<
        u8,
        CpuError,
    >)
        requires
            old(memory).wf(),
        ensures
            final(memory).wf(),
            (*final(self), *final(cpu), final(memory)@, r) == irq_step(
                sub_tick,
                *old(self),
                *old(cpu),
                old(memory)@,
            ),
    {
        if sub_tick == 2 {
            return Ok(3);
        }
        if sub_tick == 3 {
            let pch = cpu.get_pch();
            memory.set_stack(cpu.sp, pch);
            cpu.sp = cpu.sp.wrapping_sub(1);
            return Ok(4);
        }
        if sub_tick == 4 {
            let pcl = cpu.get_pcl();
            memory.set_stack(cpu.sp, pcl);
            cpu.sp = cpu.sp.wrapping_sub(1);
            return Ok(5);
        }
        if sub_tick == 5 {
            let pushed = (cpu.p | FLAG_U) & !FLAG_B;
            memory.set_stack(cpu.sp, pushed);
            cpu.sp = cpu.sp.wrapping_sub(1);
            cpu.set_interrupt_flag(true);
            return Ok(6);
        }
        if sub_tick == 6 {
            let low = memory.get_from_word(0xFFFE);
            cpu.set_pcl(low);
            return Ok(7);
        }
        if sub_tick == 7 {
            let high = memory.get_from_word(0xFFFF);
            cpu.set_pch(high);
            return Ok(1);
        }
        Err(CpuError::IllegalSubCycle(0, sub_tick))
    }

    /// Implied RTI, 6 cycles: pull the status (the B flag is discarded, the
    /// unused bit forced to 1), then PC low and high. Unlike RTS, PC is not
    /// incremented afterwards.
    pub fn implied_rti(
        &mut self,
        sub_tick: u8,
        cpu: &mut Cpu,
        memory: &mut Memory,
        opcode: u8,
    ) -> (r: Result<u8, CpuError>)
        requires
            old(memory).wf(),
        ensures
            final(memory).wf(),
            (*final(self), *final(cpu), final(memory)@, r) == rti_step(
                sub_tick,
                *old(self),
                *old(cpu),
                old(memory)@,
                opcode,
            ),
    {
        if sub_tick == 2 {
            return Ok(3);
        }
        if sub_tick == 3 {
            cpu.sp = cpu.sp.wrapping_add(1);
            return Ok(4);
        }
        if sub_tick == 4 {
            let value = memory.get_stack(cpu.sp);
            cpu.plp(value);
            cpu.sp = cpu.sp.wrapping_add(1);
            return Ok(5);
        }
        if sub_tick == 5 {
            let value = memory.get_stack(cpu.sp);
            cpu.set_pcl(value);
            cpu.sp = cpu.sp.wrapping_add(1);
            return Ok(6);
        }
        if sub_tick == 6 {
            let value = memory.get_stack(cpu.sp);
            cpu.set_pch(value);
            return Ok(1);
        }
        Err(CpuError::IllegalSubCycle(opcode, sub_tick))
    }
}

} // verus!
