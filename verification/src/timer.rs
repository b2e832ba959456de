//! The timer: a free-running divider and a counter of selectable frequency.

use vstd::prelude::*;
use crate::bits::{get_bit, get_bits, spec_get_bit, spec_get_bits};
use crate::interrupts::{Interrupt, Interrupts};

verus! {

/// Clock cycles between two increments of the divider register.
pub const DIVIDER_PERIOD: u32 = 256;

#[derive(Clone, Copy, Debug)]
pub struct Timer {
    pub divider: u8,
    pub counter: u8,
    pub modulo: u8,
    pub control: u8,
    /// Cycles counted towards the next increment of the counter.
    pub timer_cycles: u32,
    /// Cycles counted towards the next increment of the divider.
    pub divider_cycles: u32,
}

/// Clock cycles between two increments of the counter, by the frequency selector.
pub open spec fn period_of(selector: u8) -> u32 {
    if selector == 0 {
        1024
    } else if selector == 1 {
        16
    } else if selector == 2 {
        64
    } else {
        256
    }
}

/// The counter after `n` increments from `counter`, and whether one of them overflowed. An
/// increment of 0xFF reloads the counter from `modulo`.
pub open spec fn count_up(counter: u8, modulo: u8, n: nat) -> (u8, bool)
    decreases n,
{
    if n == 0 {
        (counter, false)
    } else {
        let (c, overflowed) = count_up(counter, modulo, (n - 1) as nat);
        if c == 0xFF {
            (modulo, true)
        } else {
            ((c + 1) as u8, overflowed)
        }
    }
}

impl Timer {
    /// Both cycle counts are below their longest period.
    pub open spec fn wf(&self) -> bool {
        self.divider_cycles < 256 && self.timer_cycles < 1024
    }

    pub open spec fn spec_enabled(&self) -> bool {
        spec_get_bit(self.control, 2)
    }

    pub open spec fn spec_required_cycles(&self) -> u32 {
        period_of(spec_get_bits(self.control, 0, 2))
    }

    /// The timer and the interrupt controller after `cycles` clock cycles. The divider gains
    /// one for every 256 cycles counted. When the timer is enabled the counter gains one for
    /// every period counted, and an overflow among these raises the timer interrupt.
    pub open spec fn spec_update(self, interrupts: Interrupts, cycles: u32) -> (Timer, Interrupts) {
        let divider_total = self.divider_cycles + cycles;
        let divided = Timer {
            divider: ((self.divider + divider_total / 256) % 256) as u8,
            divider_cycles: (divider_total % 256) as u32,
            ..self
        };
        if self.spec_enabled() {
            let total = self.timer_cycles + cycles;
            let period = self.spec_required_cycles() as int;
            let (counter, overflowed) = count_up(self.counter, self.modulo, (total / period) as nat);
            (
                Timer { counter, timer_cycles: (total % period) as u32, ..divided },
                if overflowed {
                    interrupts.spec_flag(Interrupt::Timer, true)
                } else {
                    interrupts
                },
            )
        } else {
            (divided, interrupts)
        }
    }

    pub fn new() -> (r: Timer)
        ensures
            r == (Timer {
                divider: 0x18,
                counter: 0,
                modulo: 0,
                control: 0xF8,
                timer_cycles: 0,
                divider_cycles: 0,
            }),
            r.wf(),
    {
        Timer {
            divider: 0x18,
            counter: 0,
            modulo: 0,
            control: 0xF8,
            timer_cycles: 0,
            divider_cycles: 0,
        }
    }

    pub fn update(&mut self, interrupts: &mut Interrupts, cycles: u32)
        requires
            old(self).wf(),
        ensures
            final(self).wf(),
            (*final(self), *final(interrupts)) == old(self).spec_update(*old(interrupts), cycles),
    {
        let divider_total: u64 = (self.divider_cycles as u64) + (cycles as u64);
        self.divider = (((self.divider as u64) + divider_total / 256) % 256) as u8;
        self.divider_cycles = (divider_total % 256) as u32;
        if self.enabled() {
            let total: u64 = (self.timer_cycles as u64) + (cycles as u64);
            let period: u64 = self.required_cycles() as u64;
            let steps: u64 = total / period;
            let mut done: u64 = 0;
            let mut overflowed = false;
            while done < steps
                invariant
                    done <= steps,
                    self.modulo == old(self).modulo,
                    self.control == old(self).control,
                    self.divider == ((old(self).divider + divider_total / 256) % 256) as u8,
                    self.divider_cycles == (divider_total % 256) as u32,
                    self.timer_cycles == old(self).timer_cycles,
                    (self.counter, overflowed) == count_up(
                        old(self).counter,
                        old(self).modulo,
                        done as nat,
                    ),
                decreases steps - done,
            {
                if self.counter == 0xFF {
                    self.counter = self.modulo;
                    overflowed = true;
                } else {
                    self.counter = self.counter + 1;
                }
                done = done + 1;
            }
            self.timer_cycles = (total % period) as u32;
            if overflowed {
                interrupts.flag(Interrupt::Timer, true);
            }
        }
    }

    #[verifier::when_used_as_spec(spec_enabled)]
    pub fn enabled(&self) -> (r: bool)
        ensures
            r == self.spec_enabled(),
    {
        get_bit(self.control, 2)
    }

    #[verifier::when_used_as_spec(spec_required_cycles)]
    pub fn required_cycles(&self) -> (r: u32)
        ensures
            r == self.spec_required_cycles(),
            r == 1024 || r == 16 || r == 64 || r == 256,
    {
        let selector = get_bits(self.control, 0, 2);
        if selector == 0 {
            1024
        } else if selector == 1 {
            16
        } else if selector == 2 {
            64
        } else {
            256
        }
    }
}

} // verus!
