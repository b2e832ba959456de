//! The first-generation bank controller: up to 128 ROM banks of 16 KiB and up to four RAM banks
//! of 8 KiB.

use vstd::prelude::*;
use crate::bits::{get_bit, spec_get_bit};
use crate::cartridge::Cartridge;

verus! {

broadcast use vstd::array::group_array_axioms;

/// Size of one ROM bank.
pub const ROM_BANK_SIZE: usize = 0x4000;

/// Size of one RAM bank.
pub const RAM_BANK_SIZE: usize = 0x2000;

/// All the RAM that the two-bit bank register can reach.
pub const RAM_CAPACITY: usize = 0x8000;

/// How the two-bit register is used.
#[derive(Clone, Copy, Debug, PartialEq, Eq, Structural)]
pub enum BankingMode {
    /// The window at 0x0000 shows ROM bank 0 and the RAM window shows RAM bank 0.
    Simple,
    /// The two-bit register also selects the RAM bank and the ROM bank of the window at 0x0000.
    Advanced,
}

pub struct MBC1 {
    pub cart: Cartridge,
    /// Whether cartridge RAM answers.
    pub ram_enable: bool,
    /// The five-bit ROM bank register; never zero.
    pub rom_bank_low: u8,
    /// The two-bit register: RAM bank, and bits 5 and 6 of the ROM bank.
    pub ram_bank: u8,
    /// How many bytes of cartridge RAM exist; zero without RAM.
    pub ram_size: usize,
    pub ram: [u8; 0x8000],
    pub banking_mode: BankingMode,
}

/// The five-bit ROM bank that a written byte selects: its low five bits, with 0 read as 1.
pub open spec fn low_bank_of(value: u8) -> u8 {
    if value & 0x1F == 0 {
        1
    } else {
        value & 0x1F
    }
}

impl MBC1 {
    /// The registers hold values of their width.
    pub open spec fn wf(&self) -> bool {
        1 <= self.rom_bank_low <= 31 && self.ram_bank <= 3
    }

    /// The full seven-bit ROM bank number.
    pub open spec fn rom_bank(&self) -> int {
        self.ram_bank * 32 + self.rom_bank_low
    }

    /// The byte of the image at `offset` in ROM bank `bank`, or 0xFF where the image has ended.
    pub open spec fn rom_byte(&self, bank: int, offset: int) -> u8 {
        if bank * 0x4000 + offset < self.cart@.len() {
            self.cart@[bank * 0x4000 + offset]
        } else {
            0xFF
        }
    }

    /// The ROM bank that the window at 0x0000 shows.
    pub open spec fn low_window_bank(&self) -> int {
        match self.banking_mode {
            BankingMode::Simple => 0,
            BankingMode::Advanced => self.ram_bank * 0x20,
        }
    }

    /// Where the RAM window starts in cartridge RAM.
    pub open spec fn ram_bank_offset(&self) -> int {
        match self.banking_mode {
            BankingMode::Simple => 0,
            BankingMode::Advanced => self.ram_bank * 0x2000,
        }
    }

    /// Whether the RAM window at `addr` reaches a byte of cartridge RAM.
    pub open spec fn ram_answers(&self, addr: u16) -> bool {
        self.ram_enable && addr - 0xA000 + self.ram_bank_offset() < self.ram_size
    }

    pub open spec fn spec_read8(&self, addr: u16) -> u8 {
        if addr <= 0x3FFF {
            self.rom_byte(self.low_window_bank(), addr as int)
        } else if addr <= 0x7FFF {
            self.rom_byte(self.rom_bank(), addr - 0x4000)
        } else if 0xA000 <= addr <= 0xBFFF {
            if self.ram_answers(addr) {
                self.ram[addr - 0xA000 + self.ram_bank_offset()]
            } else {
                0xFF
            }
        } else {
            0
        }
    }

    pub open spec fn spec_write8(self, addr: u16, value: u8) -> MBC1 {
        if addr <= 0x1FFF {
            MBC1 { ram_enable: value & 0x1F == 0x0A, ..self }
        } else if addr <= 0x3FFF {
            MBC1 { rom_bank_low: low_bank_of(value), ..self }
        } else if addr <= 0x5FFF {
            MBC1 { ram_bank: value & 0x03, ..self }
        } else if addr <= 0x7FFF {
            MBC1 {
                banking_mode: if spec_get_bit(value, 0) {
                    BankingMode::Advanced
                } else {
                    BankingMode::Simple
                },
                ..self
            }
        } else if 0xA000 <= addr <= 0xBFFF && self.ram_answers(addr) {
            MBC1 {
                ram: vstd::array::spec_array_update(
                    self.ram,
                    addr - 0xA000 + self.ram_bank_offset(),
                    value,
                ),
                ..self
            }
        } else {
            self
        }
    }

    /// The controller is in its state after power-on for `cart`: RAM disabled, ROM bank 1, RAM
    /// bank 0, simple mode, and RAM (of the size that the header gives, if the cartridge has
    /// any) filled with zeros.
    pub open spec fn initial(&self, cart: Cartridge, has_ram: bool) -> bool {
        &&& self.cart == cart
        &&& !self.ram_enable
        &&& self.rom_bank_low == 1
        &&& self.ram_bank == 0
        &&& self.banking_mode == BankingMode::Simple
        &&& self.ram_size == (if has_ram {
            crate::cartridge::ram_bytes(cart@[0x0149])
        } else {
            0
        })
        &&& forall|i: int| 0 <= i < 0x8000 ==> #[trigger] self.ram[i] == 0
    }

    /// A controller for `cart` in its state after power-on.
    pub fn new(cart: Cartridge, has_ram: bool, _has_battery: bool) -> (r: MBC1)
        requires
            cart.spec_has_header(),
        ensures
            r.wf(),
            r.initial(cart, has_ram),
    {
        let ram_size = if has_ram {
            cart.ram_size()
        } else {
            0
        };
        MBC1 {
            cart,
            ram_enable: false,
            rom_bank_low: 1,
            ram_bank: 0,
            ram_size,
            ram: [0u8;0x8000],
            banking_mode: BankingMode::Simple,
        }
    }

    fn read_rom_bank(&self, bank: u8, offset: u16) -> (r: u8)
        requires
            bank <= 127,
            offset < 0x4000,
        ensures
            r == self.rom_byte(bank as int, offset as int),
    {
        let at: usize = (bank as usize) * ROM_BANK_SIZE + (offset as usize);
        if at < self.cart.len() {
            self.cart.read8(at)
        } else {
            0xFF
        }
    }

    fn ram_offset(&self) -> (r: usize)
        requires
            self.wf(),
        ensures
            r == self.ram_bank_offset(),
            r <= 0x6000,
    {
        match self.banking_mode {
            BankingMode::Simple => 0,
            BankingMode::Advanced => (self.ram_bank as usize) * RAM_BANK_SIZE,
        }
    }

    #[verifier::when_used_as_spec(spec_read8)]
    pub fn read8(&self, addr: u16) -> (r: u8)
        requires
            self.wf(),
        ensures
            r == self.spec_read8(addr),
    {
        if addr <= 0x3FFF {
            match self.banking_mode {
                BankingMode::Simple => self.read_rom_bank(0, addr),
                BankingMode::Advanced => self.read_rom_bank(self.ram_bank * 0x20, addr),
            }
        } else if addr <= 0x7FFF {
            self.read_rom_bank(self.ram_bank * 32 + self.rom_bank_low, addr - 0x4000)
        } else if 0xA000 <= addr && addr <= 0xBFFF {
            let at: usize = ((addr - 0xA000) as usize) + self.ram_offset();
            if self.ram_enable && at < self.ram_size {
                self.ram[at]
            } else {
                0xFF
            }
        } else {
            0
        }
    }

    pub fn write8(&mut self, addr: u16, value: u8)
        requires
            old(self).wf(),
        ensures
            final(self).wf(),
            *final(self) == old(self).spec_write8(addr, value),
    {
        if addr <= 0x1FFF {
            self.ram_enable = (value & 0x1F) == 0x0A;
        } else if addr <= 0x3FFF {
            let low = value & 0x1F;
            assert(value & 0x1F <= 31) by (bit_vector);
            self.rom_bank_low = if low == 0 {
                1
            } else {
                low
            };
        } else if addr <= 0x5FFF {
            assert(value & 0x03 <= 3) by (bit_vector);
            self.ram_bank = value & 0x03;
        } else if addr <= 0x7FFF {
            self.banking_mode = if get_bit(value, 0) {
                BankingMode::Advanced
            } else {
                BankingMode::Simple
            };
        } else if 0xA000 <= addr && addr <= 0xBFFF {
            let at: usize = ((addr - 0xA000) as usize) + self.ram_offset();
            if self.ram_enable && at < self.ram_size {
                self.ram[at] = value;
                assert(self.ram =~= vstd::array::spec_array_update(
                    old(self).ram,
                    at as int,
                    value,
                ));
            }
        }
    }
}

/// Writing `n` to the ROM bank register makes the window at 0x4000 show the bank whose low
/// five bits are those of `n`, with 0 read as 1, and whose two high bits are the two-bit
/// register: never a bank whose low five bits are zero. With the two-bit register at zero and
/// `n` between 1 and 31 that is bank `n`.
pub proof fn rom_bank_select(m: MBC1, n: u8, offset: u16)
    requires
        m.wf(),
        offset < 0x4000,
    ensures
        m.spec_write8(0x2000, n).wf(),
        m.spec_write8(0x2000, n).rom_bank() % 32 != 0,
        m.spec_write8(0x2000, n).rom_bank() == m.ram_bank * 32 + low_bank_of(n),
        m.spec_write8(0x2000, n).spec_read8((0x4000 + offset) as u16) == m.rom_byte(
            m.ram_bank * 32 + low_bank_of(n),
            offset as int,
        ),
        1 <= n <= 31 ==> low_bank_of(n) == n,
        1 <= n <= 31 && m.ram_bank == 0 ==> m.spec_write8(0x2000, n).spec_read8(
            (0x4000 + offset) as u16,
        ) == m.rom_byte(n as int, offset as int),
        n == 0 ==> low_bank_of(n) == 1,
{
    assert(n & 0x1F <= 31) by (bit_vector);
    assert(1 <= n <= 31 ==> n & 0x1F == n) by (bit_vector);
    assert(n == 0 ==> n & 0x1F == 0) by (bit_vector);
}

} // verus!
