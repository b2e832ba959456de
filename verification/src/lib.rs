//! A cycle-counting emulator core for an 8-bit handheld console: processor, pixel unit, timer,
//! interrupt controller, joypad, serial port, cartridge bank controllers and the memory bus
//! that joins them.
//!
//! Every component is a plain value. What an operation does is said by a specification
//! function from the state before to the state after (`spec_write8`, `spec_update`,
//! `spec_cycle`, ...), and the executable operation is proved to compute exactly that. Laws
//! that relate several operations stand beside them as proof functions: a value written to
//! memory is read back, a bank register selects its bank, a frame has its lines, a drawn line
//! shows the background pixel by pixel.
//!
//! A front-end builds a [`GameBoy`] from a cartridge image, calls [`GameBoy::update`] with a
//! budget of clock cycles, and reads the frame buffer, the joypad and the serial port.

pub mod bits;
pub mod bus;
pub mod cartridge;
pub mod cpu;
pub mod gpu;
pub mod interrupts;
pub mod joypad;
pub mod mbc;
pub mod screen;
pub mod serial;
pub mod timer;

use vstd::prelude::*;
use crate::bus::MemoryBus;
use crate::cpu::Cpu;
use crate::joypad::Joypad;
use crate::mbc::MemoryBankController;
use crate::screen::Screen;

verus! {

/// Clock cycles per second of the console.
pub const CYCLES_PER_SECOND: u32 = 4194304;

/// The console: a processor and everything behind its memory bus.
pub struct GameBoy {
    pub cpu: Cpu,
    pub mem: MemoryBus,
}

impl GameBoy {
    /// The bus is well formed, and the pixel unit's cycle count is below one line and one
    /// instruction.
    pub open spec fn wf(&self) -> bool {
        self.mem.wf() && self.mem.gpu.clock < 480
    }

    /// The console after one step, and the cycles that the step took: the processor steps,
    /// then the components behind the bus are updated for the cycles taken.
    #[verifier::opaque]
    pub open spec fn spec_step(self) -> (GameBoy, u32) {
        let (cpu, mem, cycles) = self.cpu.spec_cycle(self.mem);
        (GameBoy { cpu, mem: mem.spec_update(cycles) }, cycles)
    }

    /// The console after `n` steps, and the cycles that they took together.
    pub open spec fn spec_steps(self, n: nat) -> (GameBoy, int)
        decreases n,
    {
        if n == 0 {
            (self, 0)
        } else {
            let (before, total) = self.spec_steps((n - 1) as nat);
            let (after, cycles) = before.spec_step();
            (after, total + cycles)
        }
    }

    /// A console around the given bank controller, in its state after the boot program.
    pub fn new(mbc: MemoryBankController) -> (r: GameBoy)
        requires
            mbc.wf(),
        ensures
            r.wf(),
            r.cpu == Cpu::spec_new(),
            r.mem.initial(mbc),
    {
        GameBoy { cpu: Cpu::new(), mem: MemoryBus::new(mbc) }
    }

    /// Steps the console until the steps taken have used up at least `cycles` clock cycles:
    /// the least number of steps whose cycles together reach `cycles`.
    pub fn update(&mut self, cycles: u32)
        requires
            old(self).wf(),
        ensures
            final(self).wf(),
            exists|n: nat|
                {
                    &&& *final(self) == (#[trigger] old(self).spec_steps(n)).0
                    &&& old(self).spec_steps(n).1 >= cycles
                    &&& forall|m: nat| m < n ==> (#[trigger] old(self).spec_steps(m)).1 < cycles
                },
    {
        let mut cycles_so_far: u64 = 0;
        let ghost mut steps: nat = 0;
        while cycles_so_far < cycles as u64
            invariant
                self.wf(),
                cycles_so_far <= cycles + 24,
                *self == old(self).spec_steps(steps).0,
                cycles_so_far == old(self).spec_steps(steps).1,
                forall|m: nat| m < steps ==> (#[trigger] old(self).spec_steps(m)).1 < cycles,
            decreases cycles + 24 - cycles_so_far,
        {
            let ghost before = *self;
            let taken = self.step();
            cycles_so_far = cycles_so_far + (taken as u64);
            proof {
                steps = steps + 1;
                assert(old(self).spec_steps(steps) == (
                    before.spec_step().0,
                    old(self).spec_steps((steps - 1) as nat).1 + before.spec_step().1,
                ));
            }
        }
    }

    /// Performs one step: one processor step, then an update of the other components for the
    /// cycles that it took. Returns those cycles.
    pub fn step(&mut self) -> (cycles: u32)
        requires
            old(self).wf(),
        ensures
            final(self).wf(),
            (*final(self), cycles) == old(self).spec_step(),
            4 <= cycles <= 24,
    {
        proof {
            reveal(GameBoy::spec_step);
        }
        let cycles = self.cpu.cycle(&mut self.mem);
        self.mem.update(cycles);
        cycles
    }

    /// The joypad, to press and release buttons on.
    pub fn joypad(&mut self) -> (r: &mut Joypad)
        ensures
            *r == old(self).mem.joypad,
            *final(self) == (GameBoy {
                mem: MemoryBus { joypad: *final(r), ..old(self).mem },
                ..*old(self)
            }),
    {
        &mut self.mem.joypad
    }

    /// The frame buffer.
    pub fn screen(&self) -> (r: &Screen)
        ensures
            *r == self.mem.gpu.screen,
    {
        &self.mem.gpu.screen
    }

    /// Hands out the byte that the serial port sent last, if one is waiting.
    pub fn take_serial_byte(&mut self) -> (r: Option<u8>)
        ensures
            r == old(self).mem.serial.byte,
            *final(self) == (GameBoy {
                mem: MemoryBus {
                    serial: crate::serial::SerialTransfer { byte: None, ..old(self).mem.serial },
                    ..old(self).mem
                },
                ..*old(self)
            }),
    {
        self.mem.serial.take_byte()
    }
}

} // verus!
