//! The interrupt controller: an enable mask and a flag mask over five sources.

use vstd::prelude::*;
use crate::bits::{get_bit, modify_bit, spec_get_bit, spec_modify_bit};

verus! {

/// The five interrupt sources, from highest to lowest priority.
#[derive(Clone, Copy, Debug, PartialEq, Eq, Structural)]
pub enum Interrupt {
    VBlank,
    LcdStat,
    Timer,
    Serial,
    Joypad,
}

impl Interrupt {
    /// The source's bit in the enable and flag masks, which is also its priority rank.
    pub open spec fn spec_bit(&self) -> u8 {
        match self {
            Interrupt::VBlank => 0,
            Interrupt::LcdStat => 1,
            Interrupt::Timer => 2,
            Interrupt::Serial => 3,
            Interrupt::Joypad => 4,
        }
    }

    /// The source with the given bit number.
    pub open spec fn spec_from_index(index: u32) -> Option<Interrupt> {
        match index {
            0 => Some(Interrupt::VBlank),
            1 => Some(Interrupt::LcdStat),
            2 => Some(Interrupt::Timer),
            3 => Some(Interrupt::Serial),
            4 => Some(Interrupt::Joypad),
            _ => None,
        }
    }

    pub fn from_index(index: u32) -> (r: Option<Interrupt>)
        ensures
            r == Interrupt::spec_from_index(index),
            r is Some <==> index < 5,
            r is Some ==> r->0.spec_bit() == index,
    {
        match index {
            0 => Some(Interrupt::VBlank),
            1 => Some(Interrupt::LcdStat),
            2 => Some(Interrupt::Timer),
            3 => Some(Interrupt::Serial),
            4 => Some(Interrupt::Joypad),
            _ => None,
        }
    }

    /// The address of the source's handler: 0x40 plus eight times its bit number.
    pub open spec fn spec_handler_address(&self) -> u16 {
        (0x40 + 8 * self.spec_bit()) as u16
    }

    #[verifier::when_used_as_spec(spec_handler_address)]
    pub fn handler_address(&self) -> (r: u16)
        ensures
            r == self.spec_handler_address(),
    {
        0x40 + 8 * (self.bit() as u16)
    }

    #[verifier::when_used_as_spec(spec_bit)]
    pub fn bit(&self) -> (r: u8)
        ensures
            r == self.spec_bit(),
            r < 5,
    {
        match self {
            Interrupt::VBlank => 0,
            Interrupt::LcdStat => 1,
            Interrupt::Timer => 2,
            Interrupt::Serial => 3,
            Interrupt::Joypad => 4,
        }
    }

    /// The byte with only the source's bit set.
    pub fn mask(&self) -> (r: u8)
        ensures
            r == 1u8 << self.spec_bit(),
    {
        1u8 << self.bit()
    }
}

/// The interrupt enable and interrupt flag registers.
#[derive(Clone, Copy, Debug)]
pub struct Interrupts {
    pub enable: u8,
    pub flag: u8,
}

impl Default for Interrupts {
    fn default() -> (r: Interrupts)
        ensures
            r == (Interrupts { enable: 0, flag: 0xE1 }),
    {
        Interrupts::new()
    }
}

impl Interrupts {
    /// A source is pending when its bit is set in both masks.
    pub open spec fn pending(self, source: Interrupt) -> bool {
        spec_get_bit(self.flag, source.spec_bit()) && spec_get_bit(self.enable, source.spec_bit())
    }

    /// The pending source of the lowest bit number, if any.
    pub open spec fn spec_next(self) -> Option<Interrupt> {
        if self.pending(Interrupt::VBlank) {
            Some(Interrupt::VBlank)
        } else if self.pending(Interrupt::LcdStat) {
            Some(Interrupt::LcdStat)
        } else if self.pending(Interrupt::Timer) {
            Some(Interrupt::Timer)
        } else if self.pending(Interrupt::Serial) {
            Some(Interrupt::Serial)
        } else if self.pending(Interrupt::Joypad) {
            Some(Interrupt::Joypad)
        } else {
            None
        }
    }

    /// The controller with one source's flag bit replaced.
    pub open spec fn spec_flag(self, source: Interrupt, value: bool) -> Interrupts {
        Interrupts { flag: spec_modify_bit(self.flag, source.spec_bit(), value), ..self }
    }

    pub open spec fn spec_is_flagged(&self, source: Interrupt) -> bool {
        spec_get_bit(self.flag, source.spec_bit())
    }

    pub fn new() -> (r: Interrupts)
        ensures
            r == (Interrupts { enable: 0, flag: 0xE1 }),
    {
        Interrupts { enable: 0, flag: 0xE1 }
    }

    /// Sets or clears one source's flag bit.
    pub fn flag(&mut self, source: Interrupt, value: bool)
        ensures
            *final(self) == old(self).spec_flag(source, value),
            final(self).spec_is_flagged(source) == value,
            forall|other: Interrupt|
                other != source ==> final(self).spec_is_flagged(other) == old(self).spec_is_flagged(
                    other,
                ),
    {
        self.flag = modify_bit(self.flag, source.bit(), value);
        proof {
            assert forall|other: Interrupt| true implies final(self).spec_is_flagged(other) == (
            if other == source {
                value
            } else {
                old(self).spec_is_flagged(other)
            }) by {
                crate::bits::lemma_get_after_modify(
                    old(self).flag,
                    source.spec_bit(),
                    value,
                    other.spec_bit(),
                );
            }
        }
    }

    #[verifier::when_used_as_spec(spec_is_flagged)]
    pub fn is_flagged(&self, source: Interrupt) -> (r: bool)
        ensures
            r == self.spec_is_flagged(source),
    {
        get_bit(self.flag, source.bit())
    }

    fn is_pending(&self, source: Interrupt) -> (r: bool)
        ensures
            r == self.pending(source),
    {
        get_bit(self.flag, source.bit()) && get_bit(self.enable, source.bit())
    }

    /// The highest-priority source that is both flagged and enabled, if there is one.
    pub fn next_triggered_interrupt(&self) -> (r: Option<Interrupt>)
        ensures
            r == self.spec_next(),
            r is Some ==> self.pending(r->0),
            r is Some ==> forall|other: Interrupt|
                self.pending(other) ==> r->0.spec_bit() <= other.spec_bit(),
            r is None <==> forall|other: Interrupt| !self.pending(other),
    {
        if self.is_pending(Interrupt::VBlank) {
            Some(Interrupt::VBlank)
        } else if self.is_pending(Interrupt::LcdStat) {
            Some(Interrupt::LcdStat)
        } else if self.is_pending(Interrupt::Timer) {
            Some(Interrupt::Timer)
        } else if self.is_pending(Interrupt::Serial) {
            Some(Interrupt::Serial)
        } else if self.is_pending(Interrupt::Joypad) {
            Some(Interrupt::Joypad)
        } else {
            None
        }
    }
}

} // verus!
