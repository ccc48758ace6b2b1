//! CIA2: the peripheral whose port A bits 0-1 select, inverted, which 16 KiB
//! bank of physical memory the video chip sees.

use vstd::prelude::*;

verus! {

/// CIA2 register file; only port A is modeled.
#[derive(Clone, Copy)]
pub struct Cia2 {
    /// Port A ($DD00); bits 0-1 are the inverted VIC bank selector.
    pub port_a: u8,
}

/// The byte a CIA2 register read returns; unmapped registers read as 0.
pub open spec fn cia2_read_val(c: Cia2, loc: int) -> u8 {
    if loc == 0xDD00 {
        c.port_a
    } else {
        0
    }
}

/// The register file after a write; only port A accepts one.
pub open spec fn cia2_write(c: Cia2, loc: int, value: u8) -> Cia2 {
    if loc == 0xDD00 {
        Cia2 { port_a: value }
    } else {
        c
    }
}

/// The VIC bank base address: port A bits 0-1 inverted, scaled to 16 KiB,
/// giving $0000, $4000, $8000 or $C000.
pub open spec fn cia2_vic_bank(port_a: u8) -> u16 {
    ((((!port_a) & 0x03) as u16) * 0x4000) as u16
}

/// Power-on state of CIA2: port A clear, which selects bank $C000.
pub open spec fn cia2_power_on() -> Cia2 {
    Cia2 { port_a: 0 }
}

impl Cia2 {
    /// Power-on state: port A clear, which selects bank $C000.
    pub fn new() -> (r: Cia2)
        ensures
            r == cia2_power_on(),
    {
        Cia2 { port_a: 0 }
    }

    /// Register read.
    pub fn get(&self, loc: usize) -> (r: u8)
        requires
            0xDD00 <= loc < 0xDD10,
        ensures
            r == cia2_read_val(*self, loc as int),
    {
        if loc == 0xDD00 {
            return self.port_a;
        }
        0
    }

    /// Register write.
    pub fn set(&mut self, loc: usize, value: u8)
        requires
            0xDD00 <= loc < 0xDD10,
        ensures
            *final(self) == cia2_write(*old(self), loc as int, value),
    {
        if loc == 0xDD00 {
            self.port_a = value;
        }
    }

    /// Base address of the 16 KiB bank the video chip sees.
    pub fn get_vic_bank(&self) -> (r: u16)
        ensures
            r == cia2_vic_bank(self.port_a),
            r == 0x0000 || r == 0x4000 || r == 0x8000 || r == 0xC000,
    {
        let pa = self.port_a;
        proof {
            assert(((!pa) & 0x03) <= 3) by (bit_vector);
        }
        (((!pa) & 0x03) as u16) * 0x4000
    }
}

} // verus!
