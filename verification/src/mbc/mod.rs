//! Cartridge-side mapping of the processor's ROM and RAM windows.

pub mod mbc1;
pub mod rom_only;

use vstd::prelude::*;
use crate::cartridge::{Cartridge, CartridgeType, type_of_code};
use crate::mbc::mbc1::MBC1;
use crate::mbc::rom_only::RomOnly;

verus! {

/// The bank controller of a cartridge, one variant for each supported mapper.
pub enum MemoryBankController {
    RomOnly(RomOnly),
    Mbc1(MBC1),
}

impl MemoryBankController {
    pub open spec fn wf(&self) -> bool {
        match self {
            MemoryBankController::RomOnly(_) => true,
            MemoryBankController::Mbc1(m) => m.wf(),
        }
    }

    pub open spec fn spec_read8(&self, addr: u16) -> u8 {
        match self {
            MemoryBankController::RomOnly(m) => m.spec_read8(addr),
            MemoryBankController::Mbc1(m) => m.spec_read8(addr),
        }
    }

    pub open spec fn spec_write8(self, addr: u16, value: u8) -> MemoryBankController {
        match self {
            MemoryBankController::RomOnly(m) => MemoryBankController::RomOnly(m),
            MemoryBankController::Mbc1(m) => MemoryBankController::Mbc1(m.spec_write8(addr, value)),
        }
    }

    #[verifier::when_used_as_spec(spec_read8)]
    pub fn read8(&self, addr: u16) -> (r: u8)
        requires
            self.wf(),
        ensures
            r == self.spec_read8(addr),
    {
        match self {
            MemoryBankController::RomOnly(m) => m.read8(addr),
            MemoryBankController::Mbc1(m) => m.read8(addr),
        }
    }

    pub fn write8(&mut self, addr: u16, value: u8)
        requires
            old(self).wf(),
        ensures
            final(self).wf(),
            *final(self) == old(self).spec_write8(addr, value),
    {
        match self {
            MemoryBankController::RomOnly(m) => m.write8(addr, value),
            MemoryBankController::Mbc1(m) => m.write8(addr, value),
        }
    }
}

/// The bank controller for a cartridge, chosen by the mapper type in its header. There is none
/// for an image too short to hold a header, nor for a mapper that is not supported.
pub fn from_cartridge(cart: Cartridge) -> (r: Option<MemoryBankController>)
    ensures
        r is Some <==> cart.spec_has_header() && (type_of_code(cart@[0x0147])
            is RomOnly || type_of_code(cart@[0x0147]) is MBC1),
        r is Some ==> r->0.wf(),
        r is Some && type_of_code(cart@[0x0147]) is RomOnly ==> r->0 == MemoryBankController::RomOnly(
            RomOnly { cart },
        ),
        r is Some && type_of_code(cart@[0x0147]) is MBC1 ==> r->0 is Mbc1 && r->0->Mbc1_0.initial(
            cart,
            type_of_code(cart@[0x0147])->MBC1_ram,
        ),
{
    if !cart.has_header() {
        return None;
    }
    match cart.cart_type() {
        CartridgeType::RomOnly => Some(MemoryBankController::RomOnly(RomOnly::new(cart))),
        CartridgeType::MBC1 { ram, battery } => Some(
            MemoryBankController::Mbc1(MBC1::new(cart, ram, battery)),
        ),
        CartridgeType::MBC3 { timer: _, ram: _, battery: _ } => None,
        CartridgeType::Unsupported(_) => None,
    }
}

} // verus!
