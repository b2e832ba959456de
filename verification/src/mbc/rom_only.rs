//! A cartridge without a bank controller.

use vstd::prelude::*;
use crate::cartridge::Cartridge;

verus! {

/// A cartridge whose ROM is mapped as it is and that has no RAM.
pub struct RomOnly {
    pub cart: Cartridge,
}

impl RomOnly {
    /// The byte of the image at `addr`, or 0xFF where the image has ended.
    pub open spec fn spec_read8(&self, addr: u16) -> u8 {
        if addr < self.cart@.len() {
            self.cart@[addr as int]
        } else {
            0xFF
        }
    }

    pub fn new(cart: Cartridge) -> (r: RomOnly)
        ensures
            r.cart == cart,
    {
        RomOnly { cart }
    }

    #[verifier::when_used_as_spec(spec_read8)]
    pub fn read8(&self, addr: u16) -> (r: u8)
        ensures
            r == self.spec_read8(addr),
    {
        if (addr as usize) < self.cart.len() {
            self.cart.read8(addr as usize)
        } else {
            0xFF
        }
    }

    /// Writes are dropped: there is nothing to write to.
    pub fn write8(&mut self, addr: u16, value: u8)
        ensures
            *final(self) == *old(self),
    {
    }
}

} // verus!
