//! The interrupt master enable switch with its delayed transitions.

use vstd::prelude::*;

verus! {

/// The switch that must be open for any interrupt to be serviced, with at most one pending
/// delayed opening and one pending delayed closing.
#[derive(Clone, Copy, Debug)]
pub struct InterruptMasterEnable {
    pub value: bool,
    pub enable_in_cycles: Option<u8>,
    pub disable_in_cycles: Option<u8>,
}

/// A countdown after one tick: a countdown at zero is cleared, any other loses one.
pub open spec fn ticked(countdown: Option<u8>) -> Option<u8> {
    match countdown {
        Some(n) => if n == 0 {
            None
        } else {
            Some((n - 1) as u8)
        },
        None => None,
    }
}

impl InterruptMasterEnable {
    /// The switch after one processor step: a countdown at zero fires (closing wins when both
    /// fire), every other countdown loses one.
    pub open spec fn spec_cycle(self) -> InterruptMasterEnable {
        let after_enable = if self.enable_in_cycles == Some(0u8) {
            true
        } else {
            self.value
        };
        InterruptMasterEnable {
            value: if self.disable_in_cycles == Some(0u8) {
                false
            } else {
                after_enable
            },
            enable_in_cycles: ticked(self.enable_in_cycles),
            disable_in_cycles: ticked(self.disable_in_cycles),
        }
    }

    pub fn new(value: bool) -> (r: InterruptMasterEnable)
        ensures
            r == (InterruptMasterEnable { value, enable_in_cycles: None, disable_in_cycles: None }),
    {
        InterruptMasterEnable { value, enable_in_cycles: None, disable_in_cycles: None }
    }

    pub fn enabled(&self) -> (r: bool)
        ensures
            r == self.value,
    {
        self.value
    }

    /// Ticks both countdowns once.
    pub fn cycle(&mut self)
        ensures
            *final(self) == old(self).spec_cycle(),
    {
        match self.enable_in_cycles {
            Some(n) => {
                if n == 0 {
                    self.value = true;
                    self.enable_in_cycles = None;
                } else {
                    self.enable_in_cycles = Some(n - 1);
                }
            },
            None => {},
        }
        match self.disable_in_cycles {
            Some(n) => {
                if n == 0 {
                    self.value = false;
                    self.disable_in_cycles = None;
                } else {
                    self.disable_in_cycles = Some(n - 1);
                }
            },
            None => {},
        }
    }

    /// Schedules the switch to open once `after_cycles` further ticks have passed, replacing any
    /// opening already scheduled.
    pub fn enable(&mut self, after_cycles: u8)
        ensures
            *final(self) == (InterruptMasterEnable {
                enable_in_cycles: Some(after_cycles),
                ..*old(self)
            }),
    {
        self.enable_in_cycles = Some(after_cycles);
    }

    /// Schedules the switch to close once `after_cycles` further ticks have passed, replacing any
    /// closing already scheduled.
    pub fn disable(&mut self, after_cycles: u8)
        ensures
            *final(self) == (InterruptMasterEnable {
                disable_in_cycles: Some(after_cycles),
                ..*old(self)
            }),
    {
        self.disable_in_cycles = Some(after_cycles);
    }
}

impl InterruptMasterEnable {
    /// The switch after `n` ticks.
    pub open spec fn after_cycles(self, n: nat) -> InterruptMasterEnable
        decreases n,
    {
        if n == 0 {
            self
        } else {
            self.after_cycles((n - 1) as nat).spec_cycle()
        }
    }
}

/// A switch scheduled to open after `delay` ticks, with no closing scheduled, keeps its value
/// for `delay` ticks and is open from the tick after that.
pub proof fn scheduled_opening(ime: InterruptMasterEnable, delay: u8, n: nat)
    requires
        ime.enable_in_cycles == Some(delay),
        ime.disable_in_cycles is None,
    ensures
        n <= delay ==> ime.after_cycles(n) == (InterruptMasterEnable {
            enable_in_cycles: Some((delay - n) as u8),
            ..ime
        }),
        n > delay ==> ime.after_cycles(n) == (InterruptMasterEnable {
            value: true,
            enable_in_cycles: None,
            disable_in_cycles: None,
        }),
    decreases n,
{
    if n > 0 {
        scheduled_opening(ime, delay, (n - 1) as nat);
    }
}

} // verus!
