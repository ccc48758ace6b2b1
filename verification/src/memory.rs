//! The memory bus: a 64 KiB address decoder that routes reads and writes to
//! flat RAM, the banked BASIC/KERNAL/character ROMs, or the I/O devices,
//! based on the bank-select bits in RAM location $0001. RAM is always
//! writable underneath a visible ROM; the I/O window at $D000-$DFFF decodes
//! to the VIC registers, the SID stub, color RAM, CIA1 and CIA2.

pub mod cia1;
pub mod cia2;
pub mod color_ram;
pub mod gpu;

use vstd::prelude::*;
use vstd::pervasive::VecAdditionalExecFns;

use crate::memory::cia1::{Cia1, cia1_read_val, cia1_read_post, cia1_write};
use crate::memory::cia2::{Cia2, cia2_read_val, cia2_write};
use crate::memory::color_ram::ColorRAM;
use crate::memory::gpu::{Gpu, gpu_read_val, gpu_write};

verus! {

/// The bus with its RAM, the three ROM images and the device register files.
pub struct Memory {
    /// 64 KiB flat RAM.
    pub data: Vec<u8>,
    /// BASIC ROM, 8 KiB, readable at $A000-$BFFF when banked in.
    pub basic: Vec<u8>,
    /// KERNAL ROM, 8 KiB, readable at $E000-$FFFF when banked in.
    pub kernal: Vec<u8>,
    /// Character ROM, 4 KiB, readable at $D000-$DFFF when banked in.
    pub characters: Vec<u8>,
    /// Color RAM at $D800-$DBFF.
    pub color_ram: ColorRAM,
    /// CIA1 at $DC00-$DCFF.
    pub cia1: Cia1,
    /// CIA2 at $DD00-$DDFF.
    pub cia2: Cia2,
    /// VIC registers at $D000-$D3FF.
    pub gpu: Gpu,
}

/// The mathematical model of the bus: RAM and ROM contents as sequences plus
/// the device register files.
pub struct MemView {
    /// RAM contents.
    pub ram: Seq<u8>,
    /// BASIC ROM contents.
    pub basic: Seq<u8>,
    /// KERNAL ROM contents.
    pub kernal: Seq<u8>,
    /// Character ROM contents.
    pub characters: Seq<u8>,
    /// Color RAM contents.
    pub color: Seq<u8>,
    /// CIA1 registers.
    pub cia1: Cia1,
    /// CIA2 registers.
    pub cia2: Cia2,
    /// VIC registers.
    pub gpu: Gpu,
}

impl View for Memory {
    type V = MemView;

    open spec fn view(&self) -> MemView {
        MemView {
            ram: self.data@,
            basic: self.basic@,
            kernal: self.kernal@,
            characters: self.characters@,
            color: self.color_ram.data@,
            cia1: self.cia1,
            cia2: self.cia2,
            gpu: self.gpu,
        }
    }
}

/// BASIC ROM is visible at $A000-$BFFF iff both low bank bits are set.
pub open spec fn basic_visible(bank: u8) -> bool {
    bank & 0x03 == 0x03
}

/// KERNAL ROM is visible at $E000-$FFFF iff bank bit 1 is set.
pub open spec fn kernal_visible(bank: u8) -> bool {
    bank & 0x02 == 0x02
}

/// $D000-$DFFF maps to something other than RAM iff either low bank bit is
/// set.
pub open spec fn dxxx_mapped(bank: u8) -> bool {
    bank & 0x03 != 0x00
}

/// The character ROM is visible at $D000-$DFFF iff the region is mapped and
/// bank bit 2 is clear.
pub open spec fn chargen_visible(bank: u8) -> bool {
    dxxx_mapped(bank) && bank & 0x04 == 0x00
}

/// The I/O devices are visible at $D000-$DFFF iff the region is mapped and
/// bank bit 2 is set.
pub open spec fn io_visible(bank: u8) -> bool {
    dxxx_mapped(bank) && bank & 0x04 != 0x00
}

/// True when a read or write of `loc` decodes to the I/O window.
pub open spec fn decodes_io(m: MemView, loc: int) -> bool {
    0xD000 <= loc <= 0xDFFF && io_visible(m.ram[1])
}

/// The byte a bus read returns. The decode depends only on RAM, the bank
/// bits in RAM[$0001], the ROMs, and - inside the I/O window only - the
/// device registers.
pub open spec fn read_val(m: MemView, loc: int) -> u8 {
    let bank = m.ram[1];
    if 0xA000 <= loc <= 0xBFFF && basic_visible(bank) {
        m.basic[loc - 0xA000]
    } else if 0xE000 <= loc <= 0xFFFF && kernal_visible(bank) {
        m.kernal[loc - 0xE000]
    } else if 0xD000 <= loc <= 0xDFFF && chargen_visible(bank) {
        m.characters[loc - 0xD000]
    } else if decodes_io(m, loc) {
        if loc < 0xD400 {
            gpu_read_val(m.gpu, (loc - 0xD000) % 64 + 0xD000)
        } else if loc < 0xD800 {
            m.ram[loc]  // SID stub: reads fall through to RAM
        } else if loc < 0xDC00 {
            m.color[loc - 0xD800]
        } else if loc < 0xDD00 {
            cia1_read_val(m.cia1, (loc - 0xDC00) % 16 + 0xDC00)
        } else if loc < 0xDE00 {
            cia2_read_val(m.cia2, (loc - 0xDD00) % 16 + 0xDD00)
        } else {
            m.ram[loc]  // expansion areas: reads fall through to RAM
        }
    } else {
        m.ram[loc]
    }
}

/// The bus state after a read: only a CIA1 interrupt-data read changes
/// anything (it clears the register); every other read is pure.
pub open spec fn read_post(m: MemView, loc: int) -> MemView {
    if decodes_io(m, loc) && 0xDC00 <= loc < 0xDD00 {
        MemView { cia1: cia1_read_post(m.cia1, (loc - 0xDC00) % 16 + 0xDC00), ..m }
    } else {
        m
    }
}

/// The bus state after a write: a write inside the visible I/O window goes
/// to the decoded device (the SID stub and the expansion areas ignore it);
/// every other write lands in RAM, underneath any visible ROM.
pub open spec fn write_post(m: MemView, loc: int, value: u8) -> MemView {
    if decodes_io(m, loc) {
        if loc < 0xD400 {
            MemView { gpu: gpu_write(m.gpu, (loc - 0xD000) % 64 + 0xD000, value), ..m }
        } else if loc < 0xD800 {
            m
        } else if loc < 0xDC00 {
            MemView { color: m.color.update(loc - 0xD800, value), ..m }
        } else if loc < 0xDD00 {
            MemView { cia1: cia1_write(m.cia1, (loc - 0xDC00) % 16 + 0xDC00, value), ..m }
        } else if loc < 0xDE00 {
            MemView { cia2: cia2_write(m.cia2, (loc - 0xDD00) % 16 + 0xDD00, value), ..m }
        } else {
            m
        }
    } else {
        MemView { ram: m.ram.update(loc, value), ..m }
    }
}

/// The byte the video chip sees at `loc`: the character ROM is substituted
/// for $1000-$1FFF and $9000-$9FFF, everything else reads RAM, ignoring the
/// CPU bank latches.
pub open spec fn vic_read_val(m: MemView, loc: int) -> u8 {
    if (0x1000 <= loc < 0x2000) || (0x9000 <= loc < 0xA000) {
        m.characters[loc % 0x8000 - 0x1000]
    } else {
        m.ram[loc]
    }
}

/// Law: the bank-select decode is referentially transparent. Outside the
/// visible I/O window, what a read returns depends only on RAM (which holds
/// the bank byte at $0001) and the three ROM images - two machines that
/// agree on those agree on every such read, whatever their device registers
/// hold - and the read leaves the machine unchanged. Only a read that
/// decodes to the I/O window can differ (it sees device state) or have an
/// effect (reading CIA1's interrupt data register clears it).
pub proof fn lemma_read_transparent(m1: MemView, m2: MemView, loc: int)
    requires
        m1.ram == m2.ram,
        m1.basic == m2.basic,
        m1.kernal == m2.kernal,
        m1.characters == m2.characters,
        !decodes_io(m1, loc),
    ensures
        read_val(m1, loc) == read_val(m2, loc),
        read_post(m1, loc) == m1,
{
}

/// Law: the stack never leaves page $0100. Every stack access in the crate
/// goes to address `$0100 + SP`, and for any 8-bit stack pointer that sum
/// lies in the page and equals the hardware's `$0100 | SP`; stack-pointer
/// arithmetic itself is closed modulo 256 because SP is an 8-bit register
/// moved only by wrapping increments and decrements.
pub proof fn lemma_stack_in_page(sp: u8)
    by (bit_vector)
    ensures
        0x0100 <= 0x0100 + sp < 0x0200,
        (0x0100 + sp) as u16 == 0x0100u16 | (sp as u16),
{
}

impl Memory {
    /// Well-formed: RAM and the ROM images have their fixed sizes.
    pub open spec fn wf(&self) -> bool {
        &&& self.data@.len() == 0x10000
        &&& self.basic@.len() == 0x2000
        &&& self.kernal@.len() == 0x2000
        &&& self.characters@.len() == 0x1000
        &&& self.color_ram.wf()
    }

    /// A bus in its reset state over the given ROM images: RAM zeroed except
    /// for the on-chip port direction byte $2F at $0000 and the bank byte
    /// $37 at $0001, all devices in their power-on state.
    pub fn new(basic: Vec<u8>, kernal: Vec<u8>, characters: Vec<u8>) -> (r: Memory)
        requires
            basic@.len() == 0x2000,
            kernal@.len() == 0x2000,
            characters@.len() == 0x1000,
        ensures
            r.wf(),
            r@.basic == basic@,
            r@.kernal == kernal@,
            r@.characters == characters@,
            r@.ram[0] == 0x2F,
            r@.ram[1] == 0x37,
            forall|i: int| 2 <= i < 0x10000 ==> r@.ram[i] == 0,
            forall|i: int| 0 <= i < 0x0400 ==> r@.color[i] == 0,
            r@.cia1 == cia1::cia1_power_on(),
            r@.cia2 == cia2::cia2_power_on(),
            r@.gpu == gpu::gpu_power_on(),
    {
        let mut data: Vec<u8> = Vec::new();
        while data.len() < 0x10000
            invariant
                data@.len() <= 0x10000,
                forall|i: int| 0 <= i < data@.len() ==> data@[i] == 0,
            decreases 0x10000 - data@.len(),
        {
            data.push(0);
        }
        data.set(0x0000, 0x2F);
        data.set(0x0001, 0x37);
        Memory {
            data,
            basic,
            kernal,
            characters,
            color_ram: ColorRAM::new(),
            cia1: Cia1::new(),
            cia2: Cia2::new(),
            gpu: Gpu::new(),
        }
    }

    /// Bus read with the full bank-select decode.
    pub fn get(&mut self, loc: usize) -> (r: u8)
        requires
            old(self).wf(),
            loc < 0x10000,
        ensures
            final(self).wf(),
            r == read_val(old(self)@, loc as int),
            final(self)@ == read_post(old(self)@, loc as int),
    {
        let bank = self.data[1];
        if loc >= 0xA000 && loc <= 0xBFFF && (bank & 0x03) == 0x03 {
            return self.basic[loc - 0xA000];
        }
        if loc >= 0xE000 && loc <= 0xFFFF && (bank & 0x02) == 0x02 {
            return self.kernal[loc - 0xE000];
        }
        if loc >= 0xD000 && loc <= 0xDFFF && (bank & 0x03) != 0x00 {
            if (bank & 0x04) == 0x00 {
                return self.characters[loc - 0xD000];
            }
            if loc < 0xD400 {
                return self.gpu.get(((loc - 0xD000) % 64) + 0xD000);
            }
            if loc >= 0xD800 && loc < 0xDC00 {
                return self.color_ram.get(loc - 0xD800);
            }
            if loc >= 0xDC00 && loc < 0xDD00 {
                return self.cia1.get(((loc - 0xDC00) % 16) + 0xDC00);
            }
            if loc >= 0xDD00 && loc < 0xDE00 {
                return self.cia2.get(((loc - 0xDD00) % 16) + 0xDD00);
            }
        }
        self.data[loc]
    }

    /// Bus write with the full bank-select decode; RAM is always writable
    /// underneath a visible ROM.
    pub fn set(&mut self, loc: usize, value: u8)
        requires
            old(self).wf(),
            loc < 0x10000,
        ensures
            final(self).wf(),
            final(self)@ == write_post(old(self)@, loc as int, value),
    {
        let bank = self.data[1];
        if loc >= 0xD000 && loc <= 0xDFFF && (bank & 0x03) != 0x00 && (bank & 0x04) != 0x00 {
            if loc < 0xD400 {
                self.gpu.set(((loc - 0xD000) % 64) + 0xD000, value);
            } else if loc >= 0xD800 && loc < 0xDC00 {
                self.color_ram.set(loc - 0xD800, value);
            } else if loc >= 0xDC00 && loc < 0xDD00 {
                self.cia1.set(((loc - 0xDC00) % 16) + 0xDC00, value);
            } else if loc >= 0xDD00 && loc < 0xDE00 {
                self.cia2.set(((loc - 0xDD00) % 16) + 0xDD00, value);
            }
            return;
        }
        self.data.set(loc, value);
    }

    /// The byte the video chip sees at `loc`; bypasses the CPU bank latches.
    pub fn get_from_gpu(&self, loc: usize) -> (r: u8)
        requires
            self.wf(),
            loc < 0x10000,
        ensures
            r == vic_read_val(self@, loc as int),
    {
        if (loc >= 0x1000 && loc < 0x2000) || (loc >= 0x9000 && loc < 0xA000) {
            return self.characters[(loc % 0x8000) - 0x1000];
        }
        self.data[loc]
    }

    /// Zero-page write through the bus decode.
    pub fn set_from_low(&mut self, low: u8, value: u8)
        requires
            old(self).wf(),
        ensures
            final(self).wf(),
            final(self)@ == write_post(old(self)@, low as int, value),
    {
        self.set(low as usize, value);
    }

    /// Zero-page read through the bus decode.
    pub fn get_from_low(&mut self, low: u8) -> (r: u8)
        requires
            old(self).wf(),
        ensures
            final(self).wf(),
            r == read_val(old(self)@, low as int),
            final(self)@ == read_post(old(self)@, low as int),
    {
        self.get(low as usize)
    }

    /// Write to the address assembled from a low and a high byte.
    pub fn set_from_low_high(&mut self, low: u8, high: u8, value: u8)
        requires
            old(self).wf(),
        ensures
            final(self).wf(),
            final(self)@ == write_post(old(self)@, low + 256 * high, value),
    {
        self.set((low as usize) + 256 * (high as usize), value);
    }

    /// Read from a 16-bit address.
    pub fn get_from_word(&mut self, loc: u16) -> (r: u8)
        requires
            old(self).wf(),
        ensures
            final(self).wf(),
            r == read_val(old(self)@, loc as int),
            final(self)@ == read_post(old(self)@, loc as int),
    {
        self.get(loc as usize)
    }

    /// Read from the address assembled from a low and a high byte.
    pub fn get_from_low_high(&mut self, low: u8, high: u8) -> (r: u8)
        requires
            old(self).wf(),
        ensures
            final(self).wf(),
            r == read_val(old(self)@, low + 256 * high),
            final(self)@ == read_post(old(self)@, low + 256 * high),
    {
        self.get((low as usize) + 256 * (high as usize))
    }

    /// Stack write: always lands in RAM page $0100, whatever the banking.
    pub fn set_stack(&mut self, sp: u8, value: u8)
        requires
            old(self).wf(),
        ensures
            final(self).wf(),
            final(self)@ == (MemView {
                ram: old(self)@.ram.update(0x0100 + sp, value),
                ..old(self)@
            }),
    {
        self.data.set(0x0100 + sp as usize, value);
    }

    /// Stack read: always reads RAM page $0100, whatever the banking.
    pub fn get_stack(&self, sp: u8) -> (r: u8)
        requires
            self.wf(),
        ensures
            r == self@.ram[0x0100 + sp],
    {
        self.data[0x0100 + sp as usize]
    }

    /// Mutable access to CIA1 for the timer and the keyboard scan.
    pub fn cia1(&mut self) -> (r: &mut Cia1)
        ensures
            *r == old(self).cia1,
            *final(self) == (Memory { cia1: *final(r), ..*old(self) }),
    {
        &mut self.cia1
    }

    /// CIA2, read-only, for the raster engine.
    pub fn cia2(&self) -> (r: &Cia2)
        ensures
            *r == self.cia2,
    {
        &self.cia2
    }

    /// The VIC registers, read-only, for the raster engine.
    pub fn gpu(&self) -> (r: &Gpu)
        ensures
            *r == self.gpu,
    {
        &self.gpu
    }

    /// Color RAM, read-only, for the raster engine.
    pub fn color_ram(&self) -> (r: &ColorRAM)
        ensures
            *r == self.color_ram,
    {
        &self.color_ram
    }
}

} // verus!
