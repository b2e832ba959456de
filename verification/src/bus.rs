//! The memory bus: decodes every 16-bit address to the component that owns it.

use vstd::prelude::*;
use crate::cpu::registers::{high_byte, low_byte, pair, join_bytes, split_bytes};
use crate::gpu::{Gpu, LcdControlRegister, LcdStatusRegister};
use crate::gpu::palettes::Palette;
use crate::interrupts::Interrupts;
use crate::joypad::Joypad;
use crate::mbc::MemoryBankController;
use crate::serial::SerialTransfer;
use crate::timer::Timer;

verus! {

broadcast use vstd::array::group_array_axioms;

pub const WRAM_START: u16 = 0xC000;

pub const WRAM_END: u16 = 0xDFFF;

pub const WRAM_SIZE: usize = 0x2000;

pub const ECHO_RAM_START: u16 = 0xE000;

pub const ECHO_RAM_END: u16 = 0xFDFF;

pub const HRAM_START: u16 = 0xFF80;

pub const HRAM_END: u16 = 0xFFFE;

pub const HRAM_SIZE: usize = 127;

/// Clock cycles that a transfer into the sprite table takes.
pub const OAM_TRANSFER_PERIOD: u64 = 640;

/// Bytes that a transfer into the sprite table copies.
pub const OAM_TRANSFER_LENGTH: u16 = 160;

/// What an access can be worth telling about.
#[derive(Clone, Copy, Debug, PartialEq, Eq, Structural)]
pub enum Diagnostic {
    /// The address lies in the mirror of working RAM.
    EchoRam,
    /// The address lies in the prohibited region behind the sprite table.
    Prohibited,
}

/// The diagnostic that an access to `addr` deserves, if any.
pub open spec fn spec_diagnostic(addr: u16) -> Option<Diagnostic> {
    if 0xE000 <= addr <= 0xFDFF {
        Some(Diagnostic::EchoRam)
    } else if 0xFEA0 <= addr <= 0xFEFF {
        Some(Diagnostic::Prohibited)
    } else {
        None
    }
}

#[verifier::when_used_as_spec(spec_diagnostic)]
pub fn diagnostic(addr: u16) -> (r: Option<Diagnostic>)
    ensures
        r == spec_diagnostic(addr),
{
    if ECHO_RAM_START <= addr && addr <= ECHO_RAM_END {
        Some(Diagnostic::EchoRam)
    } else if 0xFEA0 <= addr && addr <= 0xFEFF {
        Some(Diagnostic::Prohibited)
    } else {
        None
    }
}

/// The address after `addr`, wrapping at the end of the address space.
pub open spec fn next_address(addr: u16) -> u16 {
    ((addr + 1) % 0x10000) as u16
}

/// An address of plain memory: what is written there is read back.
pub open spec fn plain_memory(addr: u16) -> bool {
    0x8000 <= addr <= 0x9FFF || 0xC000 <= addr <= 0xFE9F || 0xFF80 <= addr <= 0xFFFE
}

/// Working RAM, high RAM and the components that are reached through memory.
pub struct MemoryBus {
    pub mbc: MemoryBankController,
    pub gpu: Gpu,
    pub timer: Timer,
    pub interrupts: Interrupts,
    pub serial: SerialTransfer,
    pub joypad: Joypad,
    pub wram: [u8; 0x2000],
    pub hram: [u8; 127],
    /// The page that the last transfer into the sprite table was asked to copy.
    pub oam_transfer_source: u8,
    pub pending_oam_transfer: bool,
    /// Cycles counted since the pending transfer was asked for.
    pub oam_transfer_clock: u64,
}

impl MemoryBus {
    pub open spec fn wf(&self) -> bool {
        &&& self.mbc.wf()
        &&& self.timer.wf()
        &&& self.oam_transfer_clock <= 0x2_0000_0000
        &&& self.pending_oam_transfer ==> self.oam_transfer_clock < 640
    }

    pub open spec fn spec_read8(&self, addr: u16) -> u8 {
        if addr <= 0x7FFF {
            self.mbc.spec_read8(addr)
        } else if addr <= 0x9FFF {
            self.gpu.vram.spec_read8(addr)
        } else if addr <= 0xBFFF {
            self.mbc.spec_read8(addr)
        } else if addr <= 0xDFFF {
            self.wram[addr - 0xC000]
        } else if addr <= 0xFDFF {
            self.wram[addr - 0xE000]
        } else if addr <= 0xFE9F {
            self.gpu.oam.spec_read8(addr)
        } else if addr <= 0xFEFF {
            0xFF
        } else if addr == 0xFF00 {
            self.joypad.spec_get_byte()
        } else if addr == 0xFF01 {
            self.serial.data
        } else if addr == 0xFF02 {
            self.serial.control
        } else if addr == 0xFF04 {
            self.timer.divider
        } else if addr == 0xFF05 {
            self.timer.counter
        } else if addr == 0xFF06 {
            self.timer.modulo
        } else if addr == 0xFF07 {
            self.timer.control
        } else if addr == 0xFF0F {
            self.interrupts.flag
        } else if addr == 0xFF40 {
            self.gpu.lcd_control.0
        } else if addr == 0xFF41 {
            self.gpu.lcd_status.0
        } else if addr == 0xFF42 {
            self.gpu.viewport_y
        } else if addr == 0xFF43 {
            self.gpu.viewport_x
        } else if addr == 0xFF44 {
            self.gpu.lcd_y
        } else if addr == 0xFF45 {
            self.gpu.ly_compare
        } else if addr == 0xFF46 {
            self.oam_transfer_source
        } else if addr == 0xFF47 {
            self.gpu.bg_palette_data.0
        } else if addr == 0xFF48 {
            self.gpu.obj_palette_0_data.0
        } else if addr == 0xFF49 {
            self.gpu.obj_palette_1_data.0
        } else if addr == 0xFF4A {
            self.gpu.window_y
        } else if addr == 0xFF4B {
            self.gpu.window_x
        } else if 0xFF80 <= addr <= 0xFFFE {
            self.hram[addr - 0xFF80]
        } else if addr == 0xFFFF {
            self.interrupts.enable
        } else {
            0
        }
    }

    pub open spec fn spec_write8(self, addr: u16, value: u8) -> MemoryBus {
        if addr <= 0x7FFF {
            MemoryBus { mbc: self.mbc.spec_write8(addr, value), ..self }
        } else if addr <= 0x9FFF {
            MemoryBus {
                gpu: Gpu { vram: self.gpu.vram.spec_write8(addr, value), ..self.gpu },
                ..self
            }
        } else if addr <= 0xBFFF {
            MemoryBus { mbc: self.mbc.spec_write8(addr, value), ..self }
        } else if addr <= 0xDFFF {
            MemoryBus {
                wram: vstd::array::spec_array_update(self.wram, addr - 0xC000, value),
                ..self
            }
        } else if addr <= 0xFDFF {
            MemoryBus {
                wram: vstd::array::spec_array_update(self.wram, addr - 0xE000, value),
                ..self
            }
        } else if addr <= 0xFE9F {
            MemoryBus {
                gpu: Gpu { oam: self.gpu.oam.spec_write8(addr, value), ..self.gpu },
                ..self
            }
        } else if addr <= 0xFEFF {
            self
        } else if addr == 0xFF00 {
            MemoryBus { joypad: self.joypad.spec_set_byte(value), ..self }
        } else if addr == 0xFF01 {
            MemoryBus { serial: SerialTransfer { data: value, ..self.serial }, ..self }
        } else if addr == 0xFF02 {
            MemoryBus { serial: SerialTransfer { control: value, ..self.serial }, ..self }
        } else if addr == 0xFF04 {
            MemoryBus { timer: Timer { divider: value, ..self.timer }, ..self }
        } else if addr == 0xFF05 {
            MemoryBus { timer: Timer { counter: value, ..self.timer }, ..self }
        } else if addr == 0xFF06 {
            MemoryBus { timer: Timer { modulo: value, ..self.timer }, ..self }
        } else if addr == 0xFF07 {
            MemoryBus { timer: Timer { control: value, ..self.timer }, ..self }
        } else if addr == 0xFF0F {
            MemoryBus { interrupts: Interrupts { flag: value, ..self.interrupts }, ..self }
        } else if addr == 0xFF40 {
            MemoryBus { gpu: Gpu { lcd_control: LcdControlRegister(value), ..self.gpu }, ..self }
        } else if addr == 0xFF41 {
            MemoryBus { gpu: Gpu { lcd_status: LcdStatusRegister(value), ..self.gpu }, ..self }
        } else if addr == 0xFF42 {
            MemoryBus { gpu: Gpu { viewport_y: value, ..self.gpu }, ..self }
        } else if addr == 0xFF43 {
            MemoryBus { gpu: Gpu { viewport_x: value, ..self.gpu }, ..self }
        } else if addr == 0xFF45 {
            MemoryBus { gpu: Gpu { ly_compare: value, ..self.gpu }, ..self }
        } else if addr == 0xFF46 {
            MemoryBus {
                oam_transfer_source: value,
                pending_oam_transfer: true,
                oam_transfer_clock: 0,
                ..self
            }
        } else if addr == 0xFF47 {
            MemoryBus { gpu: Gpu { bg_palette_data: Palette(value), ..self.gpu }, ..self }
        } else if addr == 0xFF48 {
            MemoryBus { gpu: Gpu { obj_palette_0_data: Palette(value), ..self.gpu }, ..self }
        } else if addr == 0xFF49 {
            MemoryBus { gpu: Gpu { obj_palette_1_data: Palette(value), ..self.gpu }, ..self }
        } else if addr == 0xFF4A {
            MemoryBus { gpu: Gpu { window_y: value, ..self.gpu }, ..self }
        } else if addr == 0xFF4B {
            MemoryBus { gpu: Gpu { window_x: value, ..self.gpu }, ..self }
        } else if 0xFF80 <= addr <= 0xFFFE {
            MemoryBus {
                hram: vstd::array::spec_array_update(self.hram, addr - 0xFF80, value),
                ..self
            }
        } else if addr == 0xFFFF {
            MemoryBus { interrupts: Interrupts { enable: value, ..self.interrupts }, ..self }
        } else {
            self
        }
    }

    /// The 16-bit value whose low byte is at `addr` and whose high byte is at the next address.
    pub open spec fn spec_read16(&self, addr: u16) -> u16 {
        pair(self.spec_read8(next_address(addr)), self.spec_read8(addr))
    }

    /// The bus after the low byte of `value` was written to `addr` and then its high byte to
    /// the next address.
    pub open spec fn spec_write16(self, addr: u16, value: u16) -> MemoryBus {
        self.spec_write8(addr, low_byte(value)).spec_write8(next_address(addr), high_byte(value))
    }

    /// The bus after the first `n` bytes of a transfer into the sprite table were copied. Each
    /// byte is read from the bus as it is at that moment.
    pub open spec fn transfer_after(self, n: nat) -> MemoryBus
        decreases n,
    {
        if n == 0 {
            self
        } else {
            let before = self.transfer_after((n - 1) as nat);
            let value = before.spec_read8((self.oam_transfer_source * 0x100 + n - 1) as u16);
            MemoryBus {
                gpu: Gpu {
                    oam: before.gpu.oam.spec_write8((0xFE00 + n - 1) as u16, value),
                    ..before.gpu
                },
                ..before
            }
        }
    }

    /// The bus after `cycles` more cycles of a pending transfer into the sprite table: once 640
    /// cycles have been counted, 160 bytes are copied and nothing is pending any more.
    pub open spec fn spec_update_oam_transfer(self, cycles: u32) -> MemoryBus {
        if self.pending_oam_transfer {
            let counted = MemoryBus {
                oam_transfer_clock: (self.oam_transfer_clock + cycles) as u64,
                ..self
            };
            if counted.oam_transfer_clock >= 640 {
                MemoryBus { pending_oam_transfer: false, ..counted }.transfer_after(160)
            } else {
                counted
            }
        } else {
            self
        }
    }

    /// The bus after `cycles` clock cycles: the pixel unit, the timer and the serial port are
    /// updated in that order, then a pending transfer into the sprite table.
    pub open spec fn spec_update(self, cycles: u32) -> MemoryBus {
        let (gpu, after_gpu) = self.gpu.spec_update(self.interrupts, cycles);
        let (timer, interrupts) = self.timer.spec_update(after_gpu, cycles);
        MemoryBus {
            gpu,
            timer,
            interrupts,
            serial: self.serial.spec_update(),
            ..self
        }.spec_update_oam_transfer(cycles)
    }

    /// Every component behind the bus is in its state after power-on, working RAM and high RAM
    /// hold zeros, and no transfer into the sprite table is pending.
    pub open spec fn initial(&self, mbc: MemoryBankController) -> bool {
        &&& self.mbc == mbc
        &&& self.gpu.initial()
        &&& self.timer == (Timer {
            divider: 0x18,
            counter: 0,
            modulo: 0,
            control: 0xF8,
            timer_cycles: 0,
            divider_cycles: 0,
        })
        &&& self.interrupts == (Interrupts { enable: 0, flag: 0xE1 })
        &&& self.serial == (SerialTransfer { data: 0, control: 0x7E, byte: None })
        &&& self.joypad.initial()
        &&& self.oam_transfer_source == 0
        &&& !self.pending_oam_transfer
        &&& self.oam_transfer_clock == 0
        &&& forall|i: int| 0 <= i < 0x2000 ==> #[trigger] self.wram[i] == 0
        &&& forall|i: int| 0 <= i < 127 ==> #[trigger] self.hram[i] == 0
    }

    /// A bus around the given bank controller, every component in its state after power-on.
    pub fn new(mbc: MemoryBankController) -> (r: MemoryBus)
        requires
            mbc.wf(),
        ensures
            r.wf(),
            r.initial(mbc),
    {
        MemoryBus {
            mbc,
            gpu: Gpu::new(),
            timer: Timer::new(),
            interrupts: Interrupts::new(),
            serial: SerialTransfer::new(),
            joypad: Joypad::new(),
            wram: [0u8;0x2000],
            hram: [0u8;127],
            oam_transfer_source: 0,
            pending_oam_transfer: false,
            oam_transfer_clock: 0,
        }
    }

    /// Updates the components behind the bus for `cycles` elapsed clock cycles.
    pub fn update(&mut self, cycles: u32)
        requires
            old(self).wf(),
            old(self).gpu.clock + cycles <= u32::MAX,
        ensures
            final(self).wf(),
            *final(self) == old(self).spec_update(cycles),
            old(self).gpu.clock < 480 && cycles <= 24 ==> final(self).gpu.clock < 480,
    {
        self.gpu.update(&mut self.interrupts, cycles);
        self.timer.update(&mut self.interrupts, cycles);
        self.serial.update();
        self.update_oam_transfer(cycles);
    }

    #[verifier::when_used_as_spec(spec_read8)]
    pub fn read8(&self, addr: u16) -> (r: u8)
        requires
            self.wf(),
        ensures
            r == self.spec_read8(addr),
    {
        if addr <= 0x7FFF {
            self.mbc.read8(addr)
        } else if addr <= 0x9FFF {
            self.gpu.vram.read8(addr)
        } else if addr <= 0xBFFF {
            self.mbc.read8(addr)
        } else if addr <= WRAM_END {
            self.wram[(addr - WRAM_START) as usize]
        } else if addr <= ECHO_RAM_END {
            self.wram[(addr - ECHO_RAM_START) as usize]
        } else if addr <= 0xFE9F {
            self.gpu.oam.read8(addr)
        } else if addr <= 0xFEFF {
            0xFF
        } else if addr >= HRAM_START && addr <= HRAM_END {
            self.hram[(addr - HRAM_START) as usize]
        } else {
            match addr {
                0xFF00 => self.joypad.get_byte(),
                0xFF01 => self.serial.data,
                0xFF02 => self.serial.control,
                0xFF04 => self.timer.divider,
                0xFF05 => self.timer.counter,
                0xFF06 => self.timer.modulo,
                0xFF07 => self.timer.control,
                0xFF0F => self.interrupts.flag,
                0xFF40 => self.gpu.lcd_control.0,
                0xFF41 => self.gpu.lcd_status.0,
                0xFF42 => self.gpu.viewport_y,
                0xFF43 => self.gpu.viewport_x,
                0xFF44 => self.gpu.lcd_y,
                0xFF45 => self.gpu.ly_compare,
                0xFF46 => self.oam_transfer_source,
                0xFF47 => self.gpu.bg_palette_data.0,
                0xFF48 => self.gpu.obj_palette_0_data.0,
                0xFF49 => self.gpu.obj_palette_1_data.0,
                0xFF4A => self.gpu.window_y,
                0xFF4B => self.gpu.window_x,
                0xFFFF => self.interrupts.enable,
                _ => 0,
            }
        }
    }

    #[verifier::when_used_as_spec(spec_read16)]
    pub fn read16(&self, addr: u16) -> (r: u16)
        requires
            self.wf(),
        ensures
            r == self.spec_read16(addr),
    {
        let lsb = self.read8(addr);
        let msb = self.read8(following(addr));
        join_bytes(msb, lsb)
    }

    pub fn write8(&mut self, addr: u16, value: u8)
        requires
            old(self).wf(),
        ensures
            final(self).wf(),
            *final(self) == old(self).spec_write8(addr, value),
            final(self).gpu.clock == old(self).gpu.clock,
    {
        if addr <= 0x7FFF {
            self.mbc.write8(addr, value);
        } else if addr <= 0x9FFF {
            self.gpu.vram.write8(addr, value);
        } else if addr <= 0xBFFF {
            self.mbc.write8(addr, value);
        } else if addr <= WRAM_END {
            self.wram[(addr - WRAM_START) as usize] = value;
            assert(self.wram =~= vstd::array::spec_array_update(
                old(self).wram,
                addr - 0xC000,
                value,
            ));
        } else if addr <= ECHO_RAM_END {
            self.wram[(addr - ECHO_RAM_START) as usize] = value;
            assert(self.wram =~= vstd::array::spec_array_update(
                old(self).wram,
                addr - 0xE000,
                value,
            ));
        } else if addr <= 0xFE9F {
            self.gpu.oam.write8(addr, value);
        } else if addr <= 0xFEFF {
        } else if addr >= HRAM_START && addr <= HRAM_END {
            self.hram[(addr - HRAM_START) as usize] = value;
            assert(self.hram =~= vstd::array::spec_array_update(
                old(self).hram,
                addr - 0xFF80,
                value,
            ));
        } else {
            match addr {
                0xFF00 => self.joypad.set_byte(value),
                0xFF01 => { self.serial.data = value; },
                0xFF02 => { self.serial.control = value; },
                0xFF04 => { self.timer.divider = value; },
                0xFF05 => { self.timer.counter = value; },
                0xFF06 => { self.timer.modulo = value; },
                0xFF07 => { self.timer.control = value; },
                0xFF0F => { self.interrupts.flag = value; },
                0xFF40 => { self.gpu.lcd_control = LcdControlRegister(value); },
                0xFF41 => { self.gpu.lcd_status = LcdStatusRegister(value); },
                0xFF42 => { self.gpu.viewport_y = value; },
                0xFF43 => { self.gpu.viewport_x = value; },
                0xFF45 => { self.gpu.ly_compare = value; },
                0xFF46 => {
                    self.oam_transfer_source = value;
                    self.pending_oam_transfer = true;
                    self.oam_transfer_clock = 0;
                },
                0xFF47 => { self.gpu.bg_palette_data = Palette(value); },
                0xFF48 => { self.gpu.obj_palette_0_data = Palette(value); },
                0xFF49 => { self.gpu.obj_palette_1_data = Palette(value); },
                0xFF4A => { self.gpu.window_y = value; },
                0xFF4B => { self.gpu.window_x = value; },
                0xFFFF => { self.interrupts.enable = value; },
                _ => {},
            }
        }
    }

    pub fn write16(&mut self, addr: u16, value: u16)
        requires
            old(self).wf(),
        ensures
            final(self).wf(),
            *final(self) == old(self).spec_write16(addr, value),
            final(self).gpu.clock == old(self).gpu.clock,
    {
        let (msb, lsb) = split_bytes(value);
        self.write8(addr, lsb);
        self.write8(following(addr), msb);
    }

    fn update_oam_transfer(&mut self, cycles: u32)
        requires
            old(self).wf(),
        ensures
            final(self).wf(),
            *final(self) == old(self).spec_update_oam_transfer(cycles),
            final(self).gpu.clock == old(self).gpu.clock,
    {
        if self.pending_oam_transfer {
            self.oam_transfer_clock = self.oam_transfer_clock + (cycles as u64);
            if self.oam_transfer_clock >= OAM_TRANSFER_PERIOD {
                self.pending_oam_transfer = false;
                self.perform_oam_transfer();
            }
        }
    }

    fn perform_oam_transfer(&mut self)
        requires
            old(self).wf(),
        ensures
            final(self).wf(),
            *final(self) == old(self).transfer_after(160),
            final(self).gpu.clock == old(self).gpu.clock,
    {
        let start_address: u16 = (self.oam_transfer_source as u16) * 0x100;
        let mut offset: u16 = 0;
        while offset < OAM_TRANSFER_LENGTH
            invariant
                offset <= 160,
                start_address == old(self).oam_transfer_source * 0x100,
                self.wf(),
                self.gpu.clock == old(self).gpu.clock,
                *self == old(self).transfer_after(offset as nat),
            decreases 160 - offset,
        {
            let value = self.read8(start_address + offset);
            self.gpu.oam.write8(0xFE00 + offset, value);
            offset = offset + 1;
        }
    }
}

fn following(addr: u16) -> (r: u16)
    ensures
        r == next_address(addr),
{
    if addr == 0xFFFF {
        0
    } else {
        addr + 1
    }
}

/// A byte written to plain memory is read back from the same address.
pub proof fn lemma_write_then_read(bus: MemoryBus, addr: u16, value: u8)
    requires
        plain_memory(addr),
    ensures
        bus.spec_write8(addr, value).spec_read8(addr) == value,
{
}

/// A byte written to plain memory leaves every address of plain memory that is not the same
/// cell as it was. The mirror of working RAM shares its cells with working RAM.
pub proof fn lemma_write_keeps_others(bus: MemoryBus, addr: u16, value: u8, other: u16)
    requires
        plain_memory(addr),
        plain_memory(other),
        other != addr,
        !(0xC000 <= addr <= 0xFDFF && 0xC000 <= other <= 0xFDFF && (other - addr) % 0x2000 == 0),
    ensures
        bus.spec_write8(addr, value).spec_read8(other) == bus.spec_read8(other),
{
}

/// A 16-bit value written to plain memory is read back from the same address: both of its
/// bytes lie in plain memory, and the second write leaves the first byte alone.
pub proof fn write16_read16_round_trip(bus: MemoryBus, addr: u16, value: u16)
    requires
        plain_memory(addr),
        plain_memory(next_address(addr)),
    ensures
        bus.spec_write16(addr, value).spec_read16(addr) == value,
{
    let first = bus.spec_write8(addr, low_byte(value));
    lemma_write_then_read(bus, addr, low_byte(value));
    lemma_write_then_read(first, next_address(addr), high_byte(value));
    lemma_write_keeps_others(first, next_address(addr), high_byte(value), addr);
}

/// A 16-bit value written to cartridge RAM is read back from the same address, where the bank
/// controller lets both of its bytes reach RAM.
pub proof fn cartridge_ram_round_trip(bus: MemoryBus, addr: u16, value: u16)
    requires
        bus.mbc is Mbc1,
        bus.mbc->Mbc1_0.wf(),
        0xA000 <= addr < 0xBFFF,
        bus.mbc->Mbc1_0.ram_answers(addr),
        bus.mbc->Mbc1_0.ram_answers((addr + 1) as u16),
    ensures
        bus.spec_write16(addr, value).spec_read16(addr) == value,
{
}

/// What the first `n` bytes of a transfer into the sprite table leave, where the source page
/// is not the page of the sprite table itself: the first `n` bytes of the table are those that
/// the bus showed at the source before the transfer, and everything else is as it was.
proof fn lemma_transfer_after(bus: MemoryBus, n: nat)
    requires
        n <= 160,
        bus.oam_transfer_source != 0xFE,
    ensures
        bus.transfer_after(n) == (MemoryBus {
            gpu: Gpu { oam: bus.transfer_after(n).gpu.oam, ..bus.gpu },
            ..bus
        }),
        forall|i: int|
            0 <= i < 160 ==> #[trigger] bus.transfer_after(n).gpu.oam.data[i] == (if i < n {
                bus.spec_read8((bus.oam_transfer_source * 0x100 + i) as u16)
            } else {
                bus.gpu.oam.data[i]
            }),
    decreases n,
{
    if n > 0 {
        lemma_transfer_after(bus, (n - 1) as nat);
        let before = bus.transfer_after((n - 1) as nat);
        let from = (bus.oam_transfer_source * 0x100 + n - 1) as u16;
        assert(!(0xFE00 <= from <= 0xFE9F));
        assert(before.spec_read8(from) == bus.spec_read8(from));
    }
}

/// A transfer into the sprite table copies the 160 bytes that the bus shows from the start of
/// the source page on, and changes nothing but the sprite table. (A transfer from the page of
/// the sprite table itself reads what it is writing.)
pub proof fn oam_transfer_copies(bus: MemoryBus)
    requires
        bus.oam_transfer_source != 0xFE,
    ensures
        bus.transfer_after(160) == (MemoryBus {
            gpu: Gpu { oam: bus.transfer_after(160).gpu.oam, ..bus.gpu },
            ..bus
        }),
        forall|i: int|
            0 <= i < 160 ==> #[trigger] bus.transfer_after(160).gpu.oam.data[i] == bus.spec_read8(
                (bus.oam_transfer_source * 0x100 + i) as u16,
            ),
{
    lemma_transfer_after(bus, 160);
}

/// A transfer into the sprite table changes nothing but the pixel unit.
proof fn lemma_transfer_keeps_rest(bus: MemoryBus, n: nat)
    ensures
        bus.transfer_after(n) == (MemoryBus { gpu: bus.transfer_after(n).gpu, ..bus }),
    decreases n,
{
    if n > 0 {
        lemma_transfer_keeps_rest(bus, (n - 1) as nat);
    }
}

/// A serial transfer that was requested on the internal clock is complete after the next
/// update of the bus, however few cycles have passed: the data byte waits to be taken, and the
/// control register reads 0x01.
pub proof fn serial_transfer_completes(bus: MemoryBus, cycles: u32)
    requires
        bus.serial.control == 0x81,
    ensures
        bus.spec_update(cycles).serial == (SerialTransfer {
            control: 0x01,
            byte: Some(bus.serial.data),
            ..bus.serial
        }),
{
    let (gpu, after_gpu) = bus.gpu.spec_update(bus.interrupts, cycles);
    let (timer, interrupts) = bus.timer.spec_update(after_gpu, cycles);
    let updated = MemoryBus { gpu, timer, interrupts, serial: bus.serial.spec_update(), ..bus };
    if updated.pending_oam_transfer {
        let counted = MemoryBus {
            oam_transfer_clock: (updated.oam_transfer_clock + cycles) as u64,
            ..updated
        };
        lemma_transfer_keeps_rest(MemoryBus { pending_oam_transfer: false, ..counted }, 160);
    }
}

} // verus!
