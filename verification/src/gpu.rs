//! The raster engine: a per-cycle character-mode pixel producer. Each system
//! cycle renders the eight horizontal pixels of one character cell into a
//! 320 by 200 framebuffer of palette indices, then advances one cell,
//! wrapping at 40 columns and 200 lines. The framebuffer at any time is a
//! pure function of the VIC registers, CIA2's bank selector, color RAM and
//! RAM.

use vstd::prelude::*;
use vstd::pervasive::VecAdditionalExecFns;

use crate::memory::cia2::cia2_vic_bank;
use crate::memory::gpu::{gpu_char_base, gpu_matrix_base};
use crate::memory::{vic_read_val, MemView, Memory};

verus! {

/// Width of the framebuffer in pixels.
pub const SCREEN_WIDTH: usize = 320;

/// Height of the framebuffer in pixels.
pub const SCREEN_HEIGHT: usize = 200;

/// The raster engine's scan position and framebuffer.
pub struct Gpu {
    /// Raster line, 0 to 199.
    pub current_raster_line: usize,
    /// Character column, 0 to 39.
    pub x_pos: usize,
    /// 320 by 200 palette indices, row-major.
    pub display: Vec<u8>,
}

/// The base bus address of the video matrix: the VIC bank from CIA2 plus the
/// matrix base from the VIC memory control register. The bank bits occupy
/// address lines 14 and 15, disjoint from the base, so the sum is their
/// union.
pub open spec fn raster_matrix_addr(m: MemView) -> int {
    gpu_matrix_base(m.gpu.memory_control_register) + cia2_vic_bank(m.cia2.port_a)
}

/// The base bus address of the character generator.
pub open spec fn raster_char_addr(m: MemView) -> int {
    gpu_char_base(m.gpu.memory_control_register) + cia2_vic_bank(m.cia2.port_a)
}

/// The character code under the cell at (`line`, `x`), read through the
/// video chip's view of memory.
pub open spec fn raster_character(m: MemView, line: int, x: int) -> u8 {
    vic_read_val(m, raster_matrix_addr(m) + (line / 8) * 40 + x)
}

/// The bitmap byte of that character's row within the cell.
pub open spec fn raster_slice(m: MemView, line: int, x: int) -> u8 {
    vic_read_val(m, raster_char_addr(m) + (raster_character(m, line, x) as int) * 8 + line % 8)
}

/// The foreground color of the cell, from color RAM.
pub open spec fn raster_color(m: MemView, line: int, x: int) -> u8 {
    m.color[(line / 8) * 40 + x]
}

/// The palette index of pixel `px` (0 = leftmost) of the cell at (`line`,
/// `x`): the cell's color where the bitmap bit is set, else the background
/// color.
pub open spec fn raster_pixel(m: MemView, line: int, x: int, px: int) -> u8 {
    if (raster_slice(m, line, x) >> ((7 - px) as u8)) & 0x01 == 0x01 {
        raster_color(m, line, x)
    } else {
        m.gpu.background_color
    }
}

/// The framebuffer after one raster cycle at position (`line`, `x`): the
/// eight pixels of that cell repainted from memory, everything else as it
/// was.
pub open spec fn raster_frame_post(m: MemView, line: int, x: int, display: Seq<u8>) -> Seq<u8> {
    Seq::new(
        display.len(),
        |i: int|
            if line * 320 + x * 8 <= i < line * 320 + x * 8 + 8 {
                raster_pixel(m, line, x, i - (line * 320 + x * 8))
            } else {
                display[i]
            },
    )
}

/// The scan position after one cycle: next column, wrapping into the next
/// line at 40 and back to the top at 200.
pub open spec fn raster_next(line: int, x: int) -> (int, int) {
    if x == 39 {
        if line == 199 {
            (0, 0)
        } else {
            (line + 1, 0)
        }
    } else {
        (line, x + 1)
    }
}

impl Gpu {
    /// Well-formed: the scan position is on screen and the framebuffer has
    /// its fixed size.
    pub open spec fn wf(&self) -> bool {
        &&& self.current_raster_line < 200
        &&& self.x_pos < 40
        &&& self.display@.len() == 64000
    }

    /// A raster engine at the top of a black frame.
    pub fn new() -> (r: Gpu)
        ensures
            r.wf(),
            r.current_raster_line == 0,
            r.x_pos == 0,
            forall|i: int| 0 <= i < 64000 ==> r.display@[i] == 0,
    {
        let mut display: Vec<u8> = Vec::new();
        while display.len() < 64000
            invariant
                display@.len() <= 64000,
                forall|i: int| 0 <= i < display@.len() ==> display@[i] == 0,
            decreases 64000 - display@.len(),
        {
            display.push(0);
        }
        Gpu { current_raster_line: 0, x_pos: 0, display }
    }

    /// Renders the eight pixels of the current character cell and advances
    /// the scan position by one cell.
    pub fn tick(&mut self, memory: &Memory)
        requires
            old(self).wf(),
            memory.wf(),
        ensures
            final(self).wf(),
            (final(self).current_raster_line as int, final(self).x_pos as int) == raster_next(
                old(self).current_raster_line as int,
                old(self).x_pos as int,
            ),
            final(self).display@ == raster_frame_post(
                memory@,
                old(self).current_raster_line as int,
                old(self).x_pos as int,
                old(self).display@,
            ),
    {
        let vic_bank = memory.cia2().get_vic_bank();
        let matrix_address = memory.gpu().get_video_matrix_address() + vic_bank;
        let char_address = memory.gpu().get_character_bitmap_address() + vic_bank;

        let cell = (self.current_raster_line / 8) * 40 + self.x_pos;
        let color = memory.color_ram().get(cell);
        let character = memory.get_from_gpu(matrix_address as usize + cell);
        let character_slice = memory.get_from_gpu(
            char_address as usize + (character as usize) * 8 + self.current_raster_line % 8,
        );
        let background = memory.gpu().background_color();

        let base = self.current_raster_line * 320 + self.x_pos * 8;
        let ghost line = self.current_raster_line as int;
        let ghost x = self.x_pos as int;
        let mut px: usize = 0;
        while px < 8
            invariant
                px <= 8,
                base == line * 320 + x * 8,
                0 <= base && base + 8 <= 64000,
                self.display@.len() == 64000,
                character_slice == raster_slice(memory@, line, x),
                color == raster_color(memory@, line, x),
                background == memory@.gpu.background_color,
                forall|p: int|
                    0 <= p < px ==> self.display@[base + p] == raster_pixel(memory@, line, x, p),
                forall|i: int|
                    0 <= i < 64000 && !(base <= i < base + px) ==> self.display@[i] == old(
                        self,
                    ).display@[i],
                self.current_raster_line == old(self).current_raster_line,
                self.x_pos == old(self).x_pos,
            decreases 8 - px,
        {
            let bit = 7 - px;
            let value = if (character_slice >> (bit as u8)) & 0x01 == 0x01 {
                color
            } else {
                background
            };
            self.display.set(base + px, value);
            px = px + 1;
        }

        proof {
            let m = memory@;
            let d0 = old(self).display@;
            assert forall|i: int| 0 <= i < 64000 implies self.display@[i] == raster_frame_post(
                m,
                line,
                x,
                d0,
            )[i] by {
                if base <= i < base + 8 {
                    assert(self.display@[base + (i - base)] == raster_pixel(m, line, x, i - base));
                }
            }
            assert(self.display@ =~= raster_frame_post(m, line, x, d0));
        }

        self.x_pos = self.x_pos + 1;
        if self.x_pos == 40 {
            self.x_pos = 0;
            self.current_raster_line = self.current_raster_line + 1;
            if self.current_raster_line == 200 {
                self.current_raster_line = 0;
            }
        }
    }
}

} // verus!
