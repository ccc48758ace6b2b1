//! Color RAM: the 1 KiB nibble-wide store at $D800-$DBFF read by the raster
//! engine. The store keeps whole bytes; only the low nibble is meaningful on
//! the real machine.

use vstd::prelude::*;
use vstd::pervasive::VecAdditionalExecFns;

verus! {

/// The 1024-byte color store.
pub struct ColorRAM {
    /// One color cell per screen position.
    pub data: Vec<u8>,
}

impl ColorRAM {
    /// Well-formed: exactly 1024 cells.
    pub open spec fn wf(&self) -> bool {
        self.data@.len() == 0x0400
    }

    /// A zeroed color store.
    pub fn new() -> (r: ColorRAM)
        ensures
            r.wf(),
            forall|i: int| 0 <= i < 0x0400 ==> r.data@[i] == 0,
    {
        let mut data: Vec<u8> = Vec::new();
        while data.len() < 0x0400
            invariant
                data@.len() <= 0x0400,
                forall|i: int| 0 <= i < data@.len() ==> data@[i] == 0,
            decreases 0x0400 - data@.len(),
        {
            data.push(0);
        }
        ColorRAM { data }
    }

    /// Reads one cell.
    pub fn get(&self, loc: usize) -> (r: u8)
        requires
            self.wf(),
            loc < 0x0400,
        ensures
            r == self.data@[loc as int],
    {
        self.data[loc]
    }

    /// Writes one cell.
    pub fn set(&mut self, loc: usize, value: u8)
        requires
            old(self).wf(),
            loc < 0x0400,
        ensures
            final(self).wf(),
            final(self).data@ == old(self).data@.update(loc as int, value),
    {
        self.data.set(loc, value);
    }
}

} // verus!
