//! CIA1: the peripheral that carries the keyboard matrix on its two 8-bit
//! ports, the 16-bit Timer A start latch, and the interrupt mask and data
//! registers. Registers are mirrored every 16 bytes across $DC00-$DCFF; the
//! bus hands this module addresses already reduced to $DC00-$DC0F.

use vstd::prelude::*;

verus! {

/// CIA1 register file.
#[derive(Clone, Copy)]
pub struct Cia1 {
    /// Port A write latch ($DC00); drives the keyboard column strobe.
    pub port_a_write: u8,
    /// Port B read latch ($DC01); carries the keyboard row lines, active low.
    pub port_b_read: u8,
    /// Port A data-direction register ($DC02).
    pub port_a_direction: u8,
    /// Port B data-direction register ($DC03).
    pub port_b_direction: u8,
    /// Timer A start latch, low byte ($DC04).
    pub timer_a_start_value_low: u8,
    /// Timer A start latch, high byte ($DC05).
    pub timer_a_start_value_high: u8,
    /// Interrupt mask register ($DC0D on write).
    pub interrupt_mask: u8,
    /// Interrupt data register ($DC0D on read); reading clears it.
    pub interrupt_data: u8,
    /// Timer A control register ($DC0E).
    pub timer_a_control: u8,
    /// Timer B control register ($DC0F).
    pub timer_b_control: u8,
}

/// The byte a CIA1 register read returns. Unmapped registers read as $FF.
pub open spec fn cia1_read_val(c: Cia1, loc: int) -> u8 {
    if loc == 0xDC01 {
        c.port_b_read
    } else if loc == 0xDC0D {
        c.interrupt_data
    } else if loc == 0xDC0E {
        c.timer_a_control
    } else {
        0xFF
    }
}

/// The register file after a read: reading the interrupt data register
/// clears it, every other read leaves the state alone.
pub open spec fn cia1_read_post(c: Cia1, loc: int) -> Cia1 {
    if loc == 0xDC0D {
        Cia1 { interrupt_data: 0, ..c }
    } else {
        c
    }
}

/// The register file after a write. A write to $DC0D uses bit 7 as a
/// set/clear selector over mask bits 0-4; unmapped registers ignore writes.
pub open spec fn cia1_write(c: Cia1, loc: int, value: u8) -> Cia1 {
    if loc == 0xDC00 {
        Cia1 { port_a_write: value, ..c }
    } else if loc == 0xDC02 {
        Cia1 { port_a_direction: value, ..c }
    } else if loc == 0xDC03 {
        Cia1 { port_b_direction: value, ..c }
    } else if loc == 0xDC04 {
        Cia1 { timer_a_start_value_low: value, ..c }
    } else if loc == 0xDC05 {
        Cia1 { timer_a_start_value_high: value, ..c }
    } else if loc == 0xDC0D {
        if value & 0x80 == 0x80 {
            Cia1 { interrupt_mask: c.interrupt_mask | (value & 0x1F), ..c }
        } else {
            Cia1 { interrupt_mask: c.interrupt_mask & (!value & 0x1F), ..c }
        }
    } else if loc == 0xDC0E {
        Cia1 { timer_a_control: value, ..c }
    } else if loc == 0xDC0F {
        Cia1 { timer_b_control: value, ..c }
    } else {
        c
    }
}

/// The 16-bit Timer A start latch.
pub open spec fn cia1_timer_latch(c: Cia1) -> u16 {
    (c.timer_a_start_value_low + 256 * c.timer_a_start_value_high) as u16
}

/// Power-on state of CIA1: ports idle, the row lines pulled up, everything
/// else clear.
pub open spec fn cia1_power_on() -> Cia1 {
    Cia1 {
        port_a_write: 0,
        port_b_read: 0xFF,
        port_a_direction: 0,
        port_b_direction: 0,
        timer_a_start_value_low: 0,
        timer_a_start_value_high: 0,
        interrupt_mask: 0,
        interrupt_data: 0,
        timer_a_control: 0,
        timer_b_control: 0,
    }
}

impl Cia1 {
    /// Power-on state: ports idle, the row lines pulled up, everything else
    /// clear.
    pub fn new() -> (r: Cia1)
        ensures
            r == cia1_power_on(),
    {
        Cia1 {
            port_a_write: 0,
            port_b_read: 0xFF,
            port_a_direction: 0,
            port_b_direction: 0,
            timer_a_start_value_low: 0,
            timer_a_start_value_high: 0,
            interrupt_mask: 0,
            interrupt_data: 0,
            timer_a_control: 0,
            timer_b_control: 0,
        }
    }

    /// Register read; reading the interrupt data register returns and clears
    /// it.
    pub fn get(&mut self, loc: usize) -> (r: u8)
        requires
            0xDC00 <= loc < 0xDC10,
        ensures
            r == cia1_read_val(*old(self), loc as int),
            *final(self) == cia1_read_post(*old(self), loc as int),
    {
        if loc == 0xDC01 {
            return self.port_b_read;
        }
        if loc == 0xDC0D {
            let i = self.interrupt_data;
            self.interrupt_data = 0;
            return i;
        }
        if loc == 0xDC0E {
            return self.timer_a_control;
        }
        0xFF
    }

    /// Register write.
    pub fn set(&mut self, loc: usize, value: u8)
        requires
            0xDC00 <= loc < 0xDC10,
        ensures
            *final(self) == cia1_write(*old(self), loc as int, value),
    {
        if loc == 0xDC00 {
            self.port_a_write = value;
        } else if loc == 0xDC02 {
            self.port_a_direction = value;
        } else if loc == 0xDC03 {
            self.port_b_direction = value;
        } else if loc == 0xDC04 {
            self.timer_a_start_value_low = value;
        } else if loc == 0xDC05 {
            self.timer_a_start_value_high = value;
        } else if loc == 0xDC0D {
            if value & 0x80 == 0x80 {
                self.interrupt_mask = self.interrupt_mask | (value & 0x1F);
            } else {
                self.interrupt_mask = self.interrupt_mask & (!value & 0x1F);
            }
        } else if loc == 0xDC0E {
            self.timer_a_control = value;
        } else if loc == 0xDC0F {
            self.timer_b_control = value;
        }
    }

    /// Timer A start latch, low byte.
    pub fn timer_a_start_value_low(&self) -> (r: u8)
        ensures
            r == self.timer_a_start_value_low,
    {
        self.timer_a_start_value_low
    }

    /// Timer A start latch, high byte.
    pub fn timer_a_start_value_high(&self) -> (r: u8)
        ensures
            r == self.timer_a_start_value_high,
    {
        self.timer_a_start_value_high
    }

    /// Reports a Timer A underflow to the interrupt logic: when mask bit 0
    /// enables the timer, the data register latches $81 (source bit plus the
    /// summary bit) and the caller must raise the CPU interrupt line.
    pub fn interrupt_timer_a(&mut self) -> (r: bool)
        ensures
            r == (old(self).interrupt_mask & 0x01 == 0x01),
            *final(self) == if r {
                Cia1 { interrupt_data: 0x81, ..*old(self) }
            } else {
                *old(self)
            },
    {
        if self.interrupt_mask & 0x01 == 0x01 {
            self.interrupt_data = 0x81;
            return true;
        }
        false
    }

    /// Timer A control register.
    pub fn timer_a_control(&self) -> (r: u8)
        ensures
            r == self.timer_a_control,
    {
        self.timer_a_control
    }

    /// Raises bits of the port B read latch.
    pub fn port_b_read_or(&mut self, value: u8)
        ensures
            *final(self) == (Cia1 { port_b_read: old(self).port_b_read | value, ..*old(self) }),
    {
        self.port_b_read = self.port_b_read | value;
    }

    /// Clears bits of the port B read latch.
    pub fn port_b_read_and(&mut self, value: u8)
        ensures
            *final(self) == (Cia1 { port_b_read: old(self).port_b_read & value, ..*old(self) }),
    {
        self.port_b_read = self.port_b_read & value;
    }

    /// Port A data-direction register.
    pub fn port_a_direction(&self) -> (r: u8)
        ensures
            r == self.port_a_direction,
    {
        self.port_a_direction
    }

    /// Port B data-direction register.
    pub fn port_b_direction(&self) -> (r: u8)
        ensures
            r == self.port_b_direction,
    {
        self.port_b_direction
    }

    /// Port A write latch.
    pub fn port_a_write(&self) -> (r: u8)
        ensures
            r == self.port_a_write,
    {
        self.port_a_write
    }
}

} // verus!
