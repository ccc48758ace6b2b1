//! The VIC register file: memory control (video matrix and character
//! generator bases), border color and background color. Registers are
//! mirrored every 64 bytes across $D000-$D3FF; the bus hands this module
//! addresses already reduced to $D000-$D03F.

use vstd::prelude::*;

verus! {

/// VIC register file.
#[derive(Clone, Copy)]
pub struct Gpu {
    /// Memory control register ($D018): bits 4-7 give the video-matrix base,
    /// bits 1-3 the character-generator base.
    pub memory_control_register: u8,
    /// Border color ($D020).
    pub border_color: u8,
    /// Background color ($D021).
    pub background_color: u8,
}

/// The byte a VIC register read returns; unmapped registers read as 0.
pub open spec fn gpu_read_val(g: Gpu, loc: int) -> u8 {
    if loc == 0xD018 {
        g.memory_control_register
    } else if loc == 0xD020 {
        g.border_color
    } else if loc == 0xD021 {
        g.background_color
    } else {
        0
    }
}

/// The register file after a write; unmapped registers ignore writes.
pub open spec fn gpu_write(g: Gpu, loc: int, value: u8) -> Gpu {
    if loc == 0xD018 {
        Gpu { memory_control_register: value, ..g }
    } else if loc == 0xD020 {
        Gpu { border_color: value, ..g }
    } else if loc == 0xD021 {
        Gpu { background_color: value, ..g }
    } else {
        g
    }
}

/// Video-matrix base within the VIC bank: control-register bits 4-7 scaled
/// by 64.
pub open spec fn gpu_matrix_base(mcr: u8) -> u16 {
    (((mcr & 0xF0) as u16) * 64) as u16
}

/// Character-generator base within the VIC bank: control-register bits 1-3
/// scaled by 1024.
pub open spec fn gpu_char_base(mcr: u8) -> u16 {
    (((mcr & 0x0E) as u16) * 1024) as u16
}

/// Power-on state of the VIC registers: all clear.
pub open spec fn gpu_power_on() -> Gpu {
    Gpu { memory_control_register: 0, border_color: 0, background_color: 0 }
}

impl Gpu {
    /// Power-on state: all registers clear.
    pub fn new() -> (r: Gpu)
        ensures
            r == gpu_power_on(),
    {
        Gpu { memory_control_register: 0, border_color: 0, background_color: 0 }
    }

    /// Register read.
    pub fn get(&self, loc: usize) -> (r: u8)
        requires
            0xD000 <= loc < 0xD040,
        ensures
            r == gpu_read_val(*self, loc as int),
    {
        if loc == 0xD018 {
            self.memory_control_register
        } else if loc == 0xD020 {
            self.border_color
        } else if loc == 0xD021 {
            self.background_color
        } else {
            0
        }
    }

    /// Register write.
    pub fn set(&mut self, loc: usize, value: u8)
        requires
            0xD000 <= loc < 0xD040,
        ensures
            *final(self) == gpu_write(*old(self), loc as int, value),
    {
        if loc == 0xD018 {
            self.memory_control_register = value;
        } else if loc == 0xD020 {
            self.border_color = value;
        } else if loc == 0xD021 {
            self.background_color = value;
        }
    }

    /// Video-matrix base address within the 16 KiB VIC bank.
    pub fn get_video_matrix_address(&self) -> (r: u16)
        ensures
            r == gpu_matrix_base(self.memory_control_register),
            r <= 0x3C00,
    {
        let mcr = self.memory_control_register;
        proof {
            assert(mcr & 0xF0 <= 0xF0) by (bit_vector);
        }
        ((mcr & 0xF0) as u16) * 64
    }

    /// Character-generator base address within the 16 KiB VIC bank.
    pub fn get_character_bitmap_address(&self) -> (r: u16)
        ensures
            r == gpu_char_base(self.memory_control_register),
            r <= 0x3800,
    {
        let mcr = self.memory_control_register;
        proof {
            assert(mcr & 0x0E <= 0x0E) by (bit_vector);
        }
        ((mcr & 0x0E) as u16) * 1024
    }

    /// Background color register.
    pub fn background_color(&self) -> (r: u8)
        ensures
            r == self.background_color,
    {
        self.background_color
    }
}

} // verus!
