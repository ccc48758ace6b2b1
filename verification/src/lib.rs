//! Cycle-accurate core of a Commodore 64 system emulator.
//!
//! The crate models a MOS 6510 processor as a sub-instruction state machine,
//! the banked 64 KiB memory map with ROM overlays and the I/O window, a
//! character-mode raster engine, the CIA1 interval timer with its maskable
//! interrupt, and the keyboard matrix scanned through CIA1's parallel ports.
//! All components advance in lock-step from a single master clock owned by
//! [`emulator::Emulator`].

pub mod addressing;
pub mod cpu;
pub mod emulator;
pub mod gpu;
pub mod keyboard;
pub mod memory;
pub mod timer_a;
