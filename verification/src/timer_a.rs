//! Timer A: CIA1's 16-bit down-counter, advanced once per system cycle. On
//! underflow it reloads from the start latch (unless one-shot stop is set),
//! raises a one-cycle port-B signal flag, and - when the interrupt mask
//! enables it - latches interrupt data $81 and pulls the CPU interrupt line.

use vstd::prelude::*;

use crate::cpu::Cpu;
use crate::memory::cia1::{cia1_timer_latch, Cia1};

verus! {

/// The timer state proper; the control and latch registers live in CIA1.
pub struct TimerA {
    /// Set after the force-load bit has loaded the latch; cleared when the
    /// bit clears, so the next force-load loads again.
    pub latch_loaded: bool,
    /// The 16-bit down-counter.
    pub value: u16,
    /// One-shot port-B signal raised on underflow and cleared on the next
    /// cycle. The port-B output line itself is not modeled.
    pub clear_port_b: bool,
}

/// The timer state after the force-load step: with control bit 4 set the
/// counter loads once from the start latch; when the bit is clear the
/// loaded marker rearms.
pub open spec fn timer_load_step(t: TimerA, c: Cia1) -> TimerA {
    if c.timer_a_control & 0x10 == 0x10 {
        if !t.latch_loaded {
            TimerA { value: cia1_timer_latch(c), latch_loaded: true, ..t }
        } else {
            t
        }
    } else {
        TimerA { latch_loaded: false, ..t }
    }
}

/// The whole one-cycle transition of the timer: the new timer state, the
/// CIA1 registers (interrupt data latched on an enabled underflow), and the
/// CPU (its pending-interrupt latch pulled on an enabled underflow).
pub open spec fn timer_tick_post(t: TimerA, c: Cia1, p: Cpu) -> (TimerA, Cia1, Cpu) {
    let t1 = timer_load_step((TimerA { clear_port_b: false, ..t }), c);
    let ctl = c.timer_a_control;
    if ctl & 0x01 == 0x01 {
        if t1.value == 0 {
            let fired = c.interrupt_mask & 0x01 == 0x01;
            let t2 = TimerA {
                clear_port_b: ctl & 0x04 == 0x04,
                value: if ctl & 0x08 == 0x00 {
                    cia1_timer_latch(c)
                } else {
                    0
                },
                ..t1
            };
            if fired {
                (t2, Cia1 { interrupt_data: 0x81, ..c }, Cpu { interrupted: true, ..p })
            } else {
                (t2, c, p)
            }
        } else {
            (TimerA { value: (t1.value - 1) as u16, ..t1 }, c, p)
        }
    } else {
        (t1, c, p)
    }
}

impl TimerA {
    /// A stopped timer.
    pub fn new() -> (r: TimerA)
        ensures
            r == (TimerA { latch_loaded: false, value: 0, clear_port_b: false }),
    {
        TimerA { latch_loaded: false, value: 0, clear_port_b: false }
    }

    /// Advances the timer by one system cycle: clear last cycle's one-shot
    /// port-B signal, apply the force-load rule, then - when started - count
    /// down or handle the underflow. An underflow raises the one-shot signal
    /// when control bit 2 asks for it, reloads the counter from the start
    /// latch unless one-shot stop (bit 3) is set, and, when interrupt mask
    /// bit 0 enables Timer A, latches interrupt data $81 and latches the
    /// CPU's pending-interrupt line.
    pub fn tick(&mut self, cpu: &mut Cpu, cia1: &mut Cia1)
        ensures
            (*final(self), *final(cia1), *final(cpu)) == timer_tick_post(
                *old(self),
                *old(cia1),
                *old(cpu),
            ),
    {
        self.clear_port_b = false;
        if cia1.timer_a_control() & 0x10 == 0x10 {
            if !self.latch_loaded {
                self.value = (cia1.timer_a_start_value_low() as u16) | (
                (cia1.timer_a_start_value_high() as u16) << 8);
                proof {
                    let lo = cia1.timer_a_start_value_low;
                    let hi = cia1.timer_a_start_value_high;
                    assert((lo as u16) | ((hi as u16) << 8) == lo + 256 * hi) by (bit_vector);
                }
                self.latch_loaded = true;
            }
        } else {
            if self.latch_loaded {
                self.latch_loaded = false;
            }
        }
        if cia1.timer_a_control() & 0x01 == 0x01 {
            if self.value == 0 {
                if cia1.timer_a_control() & 0x04 == 0x04 {
                    self.clear_port_b = true;
                }
                if cia1.timer_a_control() & 0x08 == 0x00 {
                    self.value = (cia1.timer_a_start_value_low() as u16) | (
                    (cia1.timer_a_start_value_high() as u16) << 8);
                    proof {
                        let lo = cia1.timer_a_start_value_low;
                        let hi = cia1.timer_a_start_value_high;
                        assert((lo as u16) | ((hi as u16) << 8) == lo + 256 * hi) by (bit_vector);
                    }
                }
                if cia1.interrupt_timer_a() {
                    cpu.interrupt();
                }
            } else {
                self.value = self.value - 1;
            }
        }
    }
}

} // verus!
