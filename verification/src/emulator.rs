//! The system tick driver. It owns the CPU, the bus, the raster engine, the
//! timer and the keyboard, and advances them in lock-step from a single
//! master clock: wall-clock time is converted to a target tick count at the
//! PAL rate of 985,248 cycles per second, and each tick runs, in this fixed
//! order, the keyboard refresh (which does not count as a component advance)
//! and then one cycle each of the raster engine, Timer A and the CPU. One
//! tick's complete effect on the machine is [`cycle_spec`]; a whole
//! [`Emulator::step`] call equals [`run_spec`], that transition iterated for
//! every demanded tick.

use vstd::prelude::*;

use crate::addressing::Addressing;
use crate::cpu::{cpu_cycle_spec, word, Cpu, CpuError};
use crate::gpu::{raster_frame_post, raster_next, Gpu};
use crate::keyboard::{key_index, Key, Keyboard};
use crate::memory::cia1::Cia1;
use crate::memory::{read_val, MemView, Memory};
use crate::timer_a::{timer_tick_post, TimerA};

verus! {

/// PAL system clock in cycles per second.
pub const CLOCK_PAL: u64 = 985_248;

/// Nanoseconds per second.
pub const NANOS_PER_SEC: u64 = 1_000_000_000;

/// The whole machine.
pub struct Emulator {
    /// Cycles executed since construction.
    pub tick_count: u64,
    /// The memory bus with RAM, ROMs and devices.
    pub memory: Memory,
    /// The processor core.
    pub cpu: Cpu,
    /// The raster engine.
    pub gpu: Gpu,
    /// The CPU's addressing unit.
    pub addressing: Addressing,
    /// Timer A.
    pub timer_a: TimerA,
    /// The keyboard matrix state.
    pub keyboard: Keyboard,
}

/// How many cycles should have run after `elapsed_ns` nanoseconds of wall
/// time at the PAL clock rate.
pub open spec fn want_ticks(elapsed_ns: u64) -> int {
    elapsed_ns * 985_248 / 1_000_000_000
}

/// The value the keyboard scan leaves in CIA1's port B read latch: all row
/// lines pulled up, then, for every pressed key among the first `n` whose
/// column is strobed (driven as output by the direction register and pulled
/// low by the port A write latch), the key's row bit cleared.
pub open spec fn port_b_scan(pressed: Seq<bool>, direction: u8, port_a: u8, n: int) -> u8
    decreases n,
{
    if n <= 0 {
        0xFF
    } else {
        let prev = port_b_scan(pressed, direction, port_a, n - 1);
        let i = n - 1;
        let col: u8 = 1u8 << ((i % 8) as u8);
        let row: u8 = 1u8 << ((i / 8) as u8);
        if pressed[i] && direction & col > 0 && port_a & col == 0 {
            prev & !row
        } else {
            prev
        }
    }
}

/// The matrix image on port B with every key considered.
pub open spec fn keyboard_port_b(pressed: Seq<bool>, direction: u8, port_a: u8) -> u8 {
    port_b_scan(pressed, direction, port_a, 64)
}

/// The mathematical model of the whole machine: the bus model, the register
/// files, the raster position and framebuffer, and the keyboard state.
pub struct EmuView {
    /// Cycles executed since construction.
    pub tick_count: u64,
    /// The bus: RAM, ROMs, devices.
    pub mem: MemView,
    /// The processor registers and sub-cycle state.
    pub cpu: Cpu,
    /// The addressing scratch.
    pub addressing: Addressing,
    /// Timer A.
    pub timer: TimerA,
    /// Raster line.
    pub line: int,
    /// Raster character column.
    pub x: int,
    /// The framebuffer.
    pub display: Seq<u8>,
    /// The pressed state of every key.
    pub pressed: Seq<bool>,
}

impl View for Emulator {
    type V = EmuView;

    open spec fn view(&self) -> EmuView {
        EmuView {
            tick_count: self.tick_count,
            mem: self.memory@,
            cpu: self.cpu,
            addressing: self.addressing,
            timer: self.timer_a,
            line: self.gpu.current_raster_line as int,
            x: self.gpu.x_pos as int,
            display: self.gpu.display@,
            pressed: self.keyboard.pressed@,
        }
    }
}

/// The complete transition of one system cycle, in the machine's fixed
/// order: the keyboard matrix is scanned into CIA1's port B from the state
/// before the cycle, the raster engine paints one cell over the scanned bus,
/// the timer steps over the scanned CIA1 (possibly latching interrupt data
/// and pulling the CPU's interrupt line), and the CPU runs one
/// [`cpu_cycle_spec`] cycle over the state the timer left. A CPU error
/// leaves the cycle uncounted with the CPU and bus untouched by the CPU
/// step.
pub open spec fn cycle_spec(e: EmuView) -> (EmuView, Result<(), CpuError>) {
    let scanned = Cia1 {
        port_b_read: keyboard_port_b(
            e.pressed,
            e.mem.cia1.port_a_direction,
            e.mem.cia1.port_a_write,
        ),
        ..e.mem.cia1
    };
    let m1 = MemView { cia1: scanned, ..e.mem };
    let display2 = raster_frame_post(m1, e.line, e.x, e.display);
    let (line2, x2) = raster_next(e.line, e.x);
    let (timer2, cia2, cpu2) = timer_tick_post(e.timer, scanned, e.cpu);
    let m2 = MemView { cia1: cia2, ..m1 };
    let (a3, cpu3, m3, r) = cpu_cycle_spec(e.addressing, cpu2, m2);
    (
        EmuView {
            tick_count: if r is Ok {
                (e.tick_count + 1) as u64
            } else {
                e.tick_count
            },
            mem: m3,
            cpu: cpu3,
            addressing: a3,
            timer: timer2,
            line: line2,
            x: x2,
            display: display2,
            pressed: e.pressed,
        },
        r,
    )
}

/// `n` system cycles in sequence, stopping at the first CPU error, which is
/// returned with the machine as that cycle left it.
pub open spec fn run_spec(e: EmuView, n: nat) -> (EmuView, Result<(), CpuError>)
    decreases n,
{
    if n == 0 {
        (e, Ok(()))
    } else {
        let (e1, r) = cycle_spec(e);
        if r is Err {
            (e1, r)
        } else {
            run_spec(e1, (n - 1) as nat)
        }
    }
}

/// How many more cycles a call of [`Emulator::step`] must run: up to the
/// tick count the elapsed time demands, never backwards.
pub open spec fn demanded_cycles(tick_count: u64, elapsed_ns: u64) -> nat {
    if want_ticks(elapsed_ns) > tick_count {
        (want_ticks(elapsed_ns) - tick_count) as nat
    } else {
        0
    }
}

/// Law: after every cycle, CIA1's port B read latch holds exactly the
/// keyboard-matrix image of the state before the cycle. Nothing later in the
/// cycle can disturb it: the raster only reads, the timer touches only the
/// interrupt data register, and no bus access the CPU can make writes the
/// port B read latch.
#[verifier::rlimit(100)]
#[verifier::spinoff_prover]
pub proof fn lemma_scan_on_port_b(e: EmuView)
    ensures
        cycle_spec(e).0.mem.cia1.port_b_read == keyboard_port_b(
            e.pressed,
            e.mem.cia1.port_a_direction,
            e.mem.cia1.port_a_write,
        ),
{
}

/// Law: a cycle whose CPU step errs surfaces from any demanded run at once,
/// with the machine as that cycle left it and the failing cycle not counted.
pub proof fn lemma_cycle_error_uncounted(e: EmuView, n: nat)
    requires
        n > 0,
        cycle_spec(e).1 is Err,
    ensures
        run_spec(e, n) == cycle_spec(e),
        run_spec(e, n).0.tick_count == e.tick_count,
{
}

/// Running `n` cycles is running `k` of them and then, unless one of those
/// erred, the remaining `n - k`.
pub proof fn lemma_run_spec_split(e: EmuView, k: nat, n: nat)
    requires
        k <= n,
    ensures
        run_spec(e, n) == ({
            let (e1, r) = run_spec(e, k);
            if r is Err {
                (e1, r)
            } else {
                run_spec(e1, (n - k) as nat)
            }
        }),
    decreases k,
{
    if k > 0 {
        let (e1, r) = cycle_spec(e);
        if !(r is Err) {
            lemma_run_spec_split(e1, (k - 1) as nat, (n - 1) as nat);
        }
    }
}

impl Emulator {
    /// Well-formed: every component is.
    pub open spec fn wf(&self) -> bool {
        &&& self.memory.wf()
        &&& self.gpu.wf()
        &&& self.keyboard.wf()
    }

    /// A machine at reset over the given ROM images: the bus initialized
    /// with the bank byte $37, and the CPU's PC loaded from the little-endian
    /// reset vector the bus shows at $FFFC/$FFFD - with the stock KERNAL
    /// banked in, the word its image holds there.
    pub fn new(basic: Vec<u8>, kernal: Vec<u8>, characters: Vec<u8>) -> (r: Emulator)
        requires
            basic@.len() == 0x2000,
            kernal@.len() == 0x2000,
            characters@.len() == 0x1000,
        ensures
            r.wf(),
            r.tick_count == 0,
            r.memory@.ram[0] == 0x2F,
            r.memory@.ram[1] == 0x37,
            forall|i: int| 2 <= i < 0x10000 ==> r.memory@.ram[i] == 0,
            forall|i: int| 0 <= i < 0x0400 ==> r.memory@.color[i] == 0,
            r.memory@.cia1 == crate::memory::cia1::cia1_power_on(),
            r.memory@.cia2 == crate::memory::cia2::cia2_power_on(),
            r.memory@.gpu == crate::memory::gpu::gpu_power_on(),
            r.memory@.basic == basic@,
            r.memory@.kernal == kernal@,
            r.memory@.characters == characters@,
            r.cpu.pc == word(read_val(r.memory@, 0xFFFC), read_val(r.memory@, 0xFFFD)),
            r.cpu.sp == 0 && r.cpu.p == 0x20 && r.cpu.a == 0 && r.cpu.x == 0 && r.cpu.y == 0,
            r.cpu.state == 1 && !r.cpu.interrupted && !r.cpu.interrupted_started,
            r.gpu.current_raster_line == 0 && r.gpu.x_pos == 0,
            forall|i: int| 0 <= i < 64000 ==> r.gpu.display@[i] == 0,
            forall|i: int| 0 <= i < 65 ==> !r.keyboard.pressed@[i],
            r.addressing == (Addressing { low: 0, high: 0, fix_high: false, latch: 0 }),
            r.timer_a == (TimerA { latch_loaded: false, value: 0, clear_port_b: false }),
    {
        let mut memory = Memory::new(basic, kernal, characters);
        let mut cpu = Cpu::new();
        let low = memory.get_from_word(0xFFFC);
        let high = memory.get_from_word(0xFFFD);
        cpu.set_pc(low, high);
        Emulator {
            tick_count: 0,
            memory,
            cpu,
            gpu: Gpu::new(),
            addressing: Addressing::new(),
            timer_a: TimerA::new(),
            keyboard: Keyboard::new(),
        }
    }

    /// Scans the keyboard matrix into CIA1's port B read latch: every row
    /// line pulled up, then each pressed key whose column is strobed clears
    /// its row bit.
    pub fn refresh_keyboard(&mut self)
        requires
            old(self).wf(),
        ensures
            final(self).wf(),
            *final(self) == (Emulator {
                memory: (Memory {
                    cia1: (Cia1 {
                        port_b_read: keyboard_port_b(
                            old(self).keyboard.pressed@,
                            old(self).memory.cia1.port_a_direction,
                            old(self).memory.cia1.port_a_write,
                        ),
                        ..old(self).memory.cia1
                    }),
                    ..old(self).memory
                }),
                ..*old(self)
            }),
    {
        let direction = self.memory.cia1.port_a_direction;
        let port_a = self.memory.cia1.port_a_write;
        let ghost pressed = self.keyboard.pressed@;
        self.memory.cia1().port_b_read_or(0xFF);
        proof {
            assert(forall|p: u8| #[trigger] (p | 0xFF) == 0xFF) by (bit_vector);
        }
        let mut i: usize = 0;
        while i < 64
            invariant
                i <= 64,
                self.wf(),
                self.keyboard.pressed@ == pressed,
                direction == self.memory.cia1.port_a_direction,
                port_a == self.memory.cia1.port_a_write,
                self.memory.cia1.port_b_read == port_b_scan(pressed, direction, port_a, i as int),
                *self == (Emulator {
                    memory: (Memory {
                        cia1: (Cia1 {
                            port_b_read: self.memory.cia1.port_b_read,
                            ..old(self).memory.cia1
                        }),
                        ..old(self).memory
                    }),
                    ..*old(self)
                }),
            decreases 64 - i,
        {
            if self.keyboard.pressed[i] {
                let col: u8 = 1u8 << ((i % 8) as u8);
                if self.memory.cia1.port_a_direction & col > 0 {
                    if self.memory.cia1.port_a_write & col == 0 {
                        let row: u8 = 1u8 << ((i / 8) as u8);
                        self.memory.cia1().port_b_read_and(!row);
                    }
                }
            }
            i = i + 1;
        }
    }

    /// Runs exactly one system cycle: keyboard refresh, then one advance
    /// each - and only one - of the raster engine, Timer A and the CPU, in
    /// that order; the whole effect equals [`cycle_spec`], and the cycle is
    /// counted only if the CPU accepted it.
    pub fn step_cycle(&mut self) -> (r: Result<(), CpuError>)
        requires
            old(self).wf(),
            old(self).tick_count < u64::MAX,
        ensures
            final(self).wf(),
            (final(self)@, r) == cycle_spec(old(self)@),
            r is Ok ==> final(self).tick_count == old(self).tick_count + 1,
            r is Err ==> final(self).tick_count == old(self).tick_count,
    {
        self.refresh_keyboard();
        self.gpu.tick(&self.memory);
        self.timer_a.tick(&mut self.cpu, self.memory.cia1());
        let result = self.cpu.tick(&mut self.memory, &mut self.addressing);
        match result {
            Ok(_) => {
                self.tick_count = self.tick_count + 1;
                Ok(())
            },
            Err(e) => Err(e),
        }
    }

    /// Advances the machine to the tick count that `elapsed_ns` nanoseconds
    /// of wall time demand at the PAL clock rate, one cycle at a time. Each
    /// cycle runs each of the four components exactly once; `tick_count` is
    /// exactly the number of cycles executed since construction. A CPU error
    /// stops the loop at once, with the failing cycle not counted.
    pub fn step(&mut self, elapsed_ns: u64) -> (r: Result<(), CpuError>)
        requires
            old(self).wf(),
        ensures
            final(self).wf(),
            (final(self)@, r) == run_spec(
                old(self)@,
                demanded_cycles(old(self).tick_count, elapsed_ns),
            ),
            r is Ok ==> final(self).tick_count == if old(self).tick_count >= want_ticks(elapsed_ns) {
                old(self).tick_count as int
            } else {
                want_ticks(elapsed_ns)
            },
            final(self).tick_count >= old(self).tick_count,
            final(self).tick_count <= if old(self).tick_count >= want_ticks(elapsed_ns) {
                old(self).tick_count as int
            } else {
                want_ticks(elapsed_ns)
            },
    {
        proof {
            assert((elapsed_ns as int) * 985_248 <= 0xFFFF_FFFF_FFFF_FFFF * 985_248int)
                by (nonlinear_arith)
                requires
                    elapsed_ns <= 0xFFFF_FFFF_FFFF_FFFF,
            ;
        }
        let want_wide: u128 = (elapsed_ns as u128) * (CLOCK_PAL as u128) / (NANOS_PER_SEC as u128);
        proof {
            vstd::arithmetic::div_mod::lemma_div_is_ordered(
                elapsed_ns * 985_248,
                elapsed_ns * 1_000_000_000,
                1_000_000_000,
            );
            vstd::arithmetic::div_mod::lemma_div_multiples_vanish(
                elapsed_ns as int,
                1_000_000_000,
            );
            assert(elapsed_ns * 985_248 <= elapsed_ns * 1_000_000_000) by (nonlinear_arith);
        }
        let want: u64 = want_wide as u64;
        let ghost n = demanded_cycles(self.tick_count, elapsed_ns);
        while self.tick_count < want
            invariant
                self.wf(),
                want == want_ticks(elapsed_ns),
                n == demanded_cycles(old(self).tick_count, elapsed_ns),
                self.tick_count <= if old(self).tick_count >= want as int {
                    old(self).tick_count as int
                } else {
                    want as int
                },
                self.tick_count >= old(self).tick_count,
                run_spec(old(self)@, (self.tick_count - old(self).tick_count) as nat) == (
                    self@,
                    Ok::<(), CpuError>(()),
                ),
            decreases want - self.tick_count,
        {
            let ghost k = (self.tick_count - old(self).tick_count) as nat;
            let ghost before = self@;
            let r = self.step_cycle();
            proof {
                reveal_with_fuel(run_spec, 3);
                lemma_run_spec_split(old(self)@, k, (k + 1) as nat);
                assert(cycle_spec(before) == (self@, r));
                if r is Err {
                    lemma_run_spec_split(old(self)@, k, n);
                    assert(run_spec(before, (n - k) as nat) == (self@, r));
                } else {
                    assert(run_spec(before, 1nat) == (self@, Ok::<(), CpuError>(())));
                }
            }
            if let Err(e) = r {
                return Err(e);
            }
        }
        Ok(())
    }

    /// Stages a host key event; it is observed by the next cycle's keyboard
    /// refresh.
    pub fn key_change(&mut self, key: Key, pressed: bool)
        requires
            old(self).wf(),
        ensures
            final(self).wf(),
            *final(self) == (Emulator {
                keyboard: (Keyboard {
                    pressed: final(self).keyboard.pressed,
                }),
                ..*old(self)
            }),
            final(self).keyboard.pressed@ == old(self).keyboard.pressed@.update(
                key_index(key),
                pressed,
            ),
    {
        self.keyboard.change_key_state(key, pressed);
    }
}

} // verus!
