//! The processor: registers, the interrupt switch, and the execution of one instruction or the
//! servicing of one interrupt per step.

pub mod alu;
pub mod ime;
pub mod opcode;
pub mod registers;

use vstd::prelude::*;
use crate::bits::{modify_bit, spec_modify_bit};
use crate::bus::{Diagnostic, MemoryBus, diagnostic, next_address, spec_diagnostic};
use crate::cpu::ime::InterruptMasterEnable;
use crate::cpu::opcode::Opcode;
use crate::cpu::registers::{Flag, Flags, Registers};

verus! {

/// An integer wrapped into the 16-bit address space.
pub open spec fn wrap16(x: int) -> u16 {
    (x % 0x10000) as u16
}

/// A byte taken as a signed offset.
pub open spec fn signed_offset(n: u8) -> int {
    if n < 128 {
        n as int
    } else {
        n - 256
    }
}

/// Whether the instruction byte is one of the eleven that name no instruction.
pub open spec fn spec_is_undefined(op: u8) -> bool {
    op == 0xD3 || op == 0xDB || op == 0xDD || op == 0xE3 || op == 0xE4 || op == 0xEB || op == 0xEC
        || op == 0xED || op == 0xF4 || op == 0xFC || op == 0xFD
}

#[verifier::when_used_as_spec(spec_is_undefined)]
pub fn is_undefined(op: u8) -> (r: bool)
    ensures
        r == spec_is_undefined(op),
{
    op == 0xD3 || op == 0xDB || op == 0xDD || op == 0xE3 || op == 0xE4 || op == 0xEB || op == 0xEC
        || op == 0xED || op == 0xF4 || op == 0xFC || op == 0xFD
}

fn advance(addr: u16, by: u16) -> (r: u16)
    ensures
        r == wrap16(addr + by),
{
    (((addr as u32) + (by as u32)) % 0x10000) as u16
}

fn retreat(addr: u16, by: u16) -> (r: u16)
    ensures
        r == wrap16(addr - by),
{
    (((addr as u32) + 0x10000 - (by as u32)) % 0x10000) as u16
}

fn jump_relative(addr: u16, n: u8) -> (r: u16)
    ensures
        r == wrap16(addr + signed_offset(n)),
{
    if n < 128 {
        advance(addr, n as u16)
    } else {
        retreat(addr, 256 - (n as u16))
    }
}

/// The result of one of the eight accumulator operations: add, add with carry, subtract,
/// subtract with carry, and, exclusive or, or, compare. A comparison keeps the accumulator.
pub open spec fn spec_alu(flags: Flags, op: u8, a: u8, x: u8) -> (Flags, u8) {
    if op == 0 {
        alu::spec_add8(flags, a, x)
    } else if op == 1 {
        alu::spec_adc8(flags, a, x)
    } else if op == 2 {
        alu::spec_sub8(flags, a, x)
    } else if op == 3 {
        alu::spec_sbc8(flags, a, x)
    } else if op == 4 {
        alu::spec_bitwise_and(flags, a, x)
    } else if op == 5 {
        alu::spec_bitwise_xor(flags, a, x)
    } else if op == 6 {
        alu::spec_bitwise_or(flags, a, x)
    } else {
        (alu::spec_sub8(flags, a, x).0, a)
    }
}

/// The result of one of the eight rotations and shifts of the prefixed table: rotate left,
/// rotate right, the same two through carry, shift left, arithmetic shift right, nibble swap,
/// logical shift right.
pub open spec fn spec_rotate(flags: Flags, op: u8, x: u8) -> (Flags, u8) {
    if op == 0 {
        alu::spec_rotate_left(flags, x)
    } else if op == 1 {
        alu::spec_rotate_right(flags, x)
    } else if op == 2 {
        alu::spec_rotate_left_through_carry_flag(flags, x)
    } else if op == 3 {
        alu::spec_rotate_right_through_carry_flag(flags, x)
    } else if op == 4 {
        alu::spec_shift_left(flags, x)
    } else if op == 5 {
        alu::spec_shift_right_leave_msb(flags, x)
    } else if op == 6 {
        alu::spec_swap_nibbles(flags, x)
    } else {
        alu::spec_shift_right_clear_msb(flags, x)
    }
}

fn alu_op(flags: &mut Flags, op: u8, a: u8, x: u8) -> (r: u8)
    ensures
        (*final(flags), r) == spec_alu(*old(flags), op, a, x),
{
    match op {
        0 => alu::add8(flags, a, x),
        1 => alu::adc8(flags, a, x),
        2 => alu::sub8(flags, a, x),
        3 => alu::sbc8(flags, a, x),
        4 => alu::bitwise_and(flags, a, x),
        5 => alu::bitwise_xor(flags, a, x),
        6 => alu::bitwise_or(flags, a, x),
        _ => {
            let _ = alu::sub8(flags, a, x);
            a
        },
    }
}

fn rotate_op(flags: &mut Flags, op: u8, x: u8) -> (r: u8)
    ensures
        (*final(flags), r) == spec_rotate(*old(flags), op, x),
{
    match op {
        0 => alu::rotate_left(flags, x),
        1 => alu::rotate_right(flags, x),
        2 => alu::rotate_left_through_carry_flag(flags, x),
        3 => alu::rotate_right_through_carry_flag(flags, x),
        4 => alu::shift_left(flags, x),
        5 => alu::shift_right_leave_msb(flags, x),
        6 => alu::swap_nibbles(flags, x),
        _ => alu::shift_right_clear_msb(flags, x),
    }
}

/// One more, unless the count is at its limit.
pub open spec fn spec_bump(count: u64) -> u64 {
    if count == u64::MAX {
        count
    } else {
        (count + 1) as u64
    }
}

fn bump(count: u64) -> (r: u64)
    ensures
        r == spec_bump(count),
{
    if count == u64::MAX {
        count
    } else {
        count + 1
    }
}

/// Counts of what the processor did that sound software never does. None of it stops the
/// processor.
#[derive(Clone, Copy, Debug, PartialEq, Eq, Structural)]
pub struct Diagnostics {
    /// Accesses to the mirror of working RAM.
    pub echo_ram: u64,
    /// Accesses to the prohibited region behind the sprite table.
    pub prohibited: u64,
    /// Instruction bytes that name no instruction.
    pub undefined_opcodes: u64,
}

impl Diagnostics {
    /// The counts after an access to `addr`.
    pub open spec fn spec_note(self, addr: u16) -> Diagnostics {
        match spec_diagnostic(addr) {
            Some(Diagnostic::EchoRam) => Diagnostics { echo_ram: spec_bump(self.echo_ram), ..self },
            Some(Diagnostic::Prohibited) => Diagnostics {
                prohibited: spec_bump(self.prohibited),
                ..self
            },
            None => self,
        }
    }

    /// The counts after an instruction byte that names no instruction.
    pub open spec fn spec_note_undefined(self) -> Diagnostics {
        Diagnostics { undefined_opcodes: spec_bump(self.undefined_opcodes), ..self }
    }
}

pub struct Cpu {
    pub regs: Registers,
    pub halted: bool,
    pub ime: InterruptMasterEnable,
    pub diagnostics: Diagnostics,
}

impl Cpu {
    pub open spec fn with_regs(self, regs: Registers) -> Cpu {
        Cpu { regs, ..self }
    }

    pub open spec fn with_pc(self, pc: u16) -> Cpu {
        self.with_regs(Registers { pc, ..self.regs })
    }

    pub open spec fn with_sp(self, sp: u16) -> Cpu {
        self.with_regs(Registers { sp, ..self.regs })
    }

    pub open spec fn with_a(self, a: u8) -> Cpu {
        self.with_regs(Registers { a, ..self.regs })
    }

    pub open spec fn with_flags(self, flags: Flags) -> Cpu {
        self.with_regs(Registers { flags, ..self.regs })
    }

    pub open spec fn with_hl(self, hl: u16) -> Cpu {
        self.with_regs(self.regs.spec_set_hl(hl))
    }

    /// The processor after it has counted an access to `addr`.
    pub open spec fn noted(self, addr: u16) -> Cpu {
        Cpu { diagnostics: self.diagnostics.spec_note(addr), ..self }
    }

    /// The processor after it has counted an access to `addr` and to the address behind it.
    pub open spec fn noted16(self, addr: u16) -> Cpu {
        self.noted(addr).noted(next_address(addr))
    }

    /// The processor after it has counted an instruction byte that names no instruction.
    pub open spec fn noted_undefined(self) -> Cpu {
        Cpu { diagnostics: self.diagnostics.spec_note_undefined(), ..self }
    }

    /// The byte at `addr`, and the processor that has read it.
    pub open spec fn spec_load8(self, bus: MemoryBus, addr: u16) -> (Cpu, u8) {
        (self.noted(addr), bus.spec_read8(addr))
    }

    /// The 16-bit value at `addr`, and the processor that has read it.
    pub open spec fn spec_load16(self, bus: MemoryBus, addr: u16) -> (Cpu, u16) {
        (self.noted16(addr), bus.spec_read16(addr))
    }

    /// The processor and the bus after the byte `value` was written to `addr`.
    pub open spec fn spec_save8(self, bus: MemoryBus, addr: u16, value: u8) -> (Cpu, MemoryBus) {
        (self.noted(addr), bus.spec_write8(addr, value))
    }

    /// The processor and the bus after the 16-bit `value` was written to `addr`.
    pub open spec fn spec_save16(self, bus: MemoryBus, addr: u16, value: u16) -> (Cpu, MemoryBus) {
        (self.noted16(addr), bus.spec_write16(addr, value))
    }

    /// The processor after it has loaded the byte at `addr` into A.
    pub open spec fn spec_load_a(self, bus: MemoryBus, addr: u16) -> Cpu {
        self.noted(addr).with_a(bus.spec_read8(addr))
    }

    /// The byte at PC, and the processor with PC moved behind it.
    pub open spec fn spec_fetch8(self, bus: MemoryBus) -> (Cpu, u8) {
        (self.noted(self.regs.pc).with_pc(wrap16(self.regs.pc + 1)), bus.spec_read8(self.regs.pc))
    }

    /// The 16-bit value at PC, and the processor with PC moved behind it.
    pub open spec fn spec_fetch16(self, bus: MemoryBus) -> (Cpu, u16) {
        (
            self.noted16(self.regs.pc).with_pc(wrap16(self.regs.pc + 2)),
            bus.spec_read16(self.regs.pc),
        )
    }

    /// The processor and the bus after `value` was pushed: SP goes down by two, and the value
    /// is written there.
    pub open spec fn spec_push(self, bus: MemoryBus, value: u16) -> (Cpu, MemoryBus) {
        let sp = wrap16(self.regs.sp - 2);
        self.with_sp(sp).spec_save16(bus, sp, value)
    }

    /// The 16-bit value at SP, and the processor with SP moved up by two.
    pub open spec fn spec_pop(self, bus: MemoryBus) -> (Cpu, u16) {
        (self.noted16(self.regs.sp).with_sp(wrap16(self.regs.sp + 2)), bus.spec_read16(self.regs.sp))
    }

    /// The flag condition that `ff` selects: zero clear, zero set, carry clear, carry set.
    pub open spec fn spec_condition(&self, ff: u8) -> bool {
        if ff == 0 {
            !self.regs.flags.spec_zero()
        } else if ff == 1 {
            self.regs.flags.spec_zero()
        } else if ff == 2 {
            !self.regs.flags.spec_carry()
        } else {
            self.regs.flags.spec_carry()
        }
    }

    /// The operand that `index` selects: the byte at HL for 6, else a register.
    pub open spec fn spec_operand(self, bus: MemoryBus, index: u8) -> u8 {
        if index == 6 {
            bus.spec_read8(self.regs.spec_hl())
        } else {
            self.regs.spec_get8(index)
        }
    }

    /// The processor after it has read the operand that `index` selects.
    pub open spec fn spec_operand_read(self, index: u8) -> Cpu {
        if index == 6 {
            self.noted(self.regs.spec_hl())
        } else {
            self
        }
    }

    /// The processor and the bus after `value` was stored where `index` selects: at HL for 6,
    /// else in a register.
    pub open spec fn spec_store(self, bus: MemoryBus, index: u8, value: u8) -> (Cpu, MemoryBus) {
        if index == 6 {
            self.spec_save8(bus, self.regs.spec_hl(), value)
        } else {
            (self.with_regs(self.regs.spec_set8(index, value)), bus)
        }
    }

    /// The processor after a relative jump by the signed byte `n`.
    pub open spec fn spec_jump_relative(self, n: u8) -> Cpu {
        self.with_pc(wrap16(self.regs.pc + signed_offset(n)))
    }

    /// Instructions 0x00 to 0x3F.
    pub open spec fn spec_execute_low(self, bus: MemoryBus, op: u8) -> (Cpu, MemoryBus, u32) {
        let y = ((op / 8) % 8) as u8;
        let z = (op % 8) as u8;
        let p = ((op / 16) % 4) as u8;
        let flags = self.regs.flags;
        if z == 0 {
            if y == 0 {
                (self, bus, 4)
            } else if y == 1 {
                let (c, nn) = self.spec_fetch16(bus);
                let (saved, b) = c.spec_save16(bus, nn, c.regs.sp);
                (saved, b, 20)
            } else if y == 2 {
                let (c, n) = self.spec_fetch8(bus);
                let resumed = if n != 0 {
                    c.with_pc(wrap16(c.regs.pc - 1))
                } else {
                    c
                };
                (Cpu { halted: true, ..resumed }, bus, 4)
            } else if y == 3 {
                let (c, n) = self.spec_fetch8(bus);
                (c.spec_jump_relative(n), bus, 12)
            } else {
                let (c, n) = self.spec_fetch8(bus);
                if c.spec_condition((y - 4) as u8) {
                    (c.spec_jump_relative(n), bus, 12)
                } else {
                    (c, bus, 8)
                }
            }
        } else if z == 1 {
            if y % 2 == 0 {
                let (c, nn) = self.spec_fetch16(bus);
                (c.with_regs(c.regs.spec_set16_with_sp(p, nn)), bus, 12)
            } else {
                let (f, r) = alu::spec_add16(
                    flags,
                    self.regs.spec_hl(),
                    self.regs.spec_get16_with_sp(p),
                );
                (self.with_flags(f).with_hl(r), bus, 8)
            }
        } else if z == 2 {
            let hl = self.regs.spec_hl();
            if y == 0 {
                (self.noted(self.regs.spec_bc()), bus.spec_write8(self.regs.spec_bc(), self.regs.a), 8)
            } else if y == 1 {
                (self.spec_load_a(bus, self.regs.spec_bc()), bus, 8)
            } else if y == 2 {
                (self.noted(self.regs.spec_de()), bus.spec_write8(self.regs.spec_de(), self.regs.a), 8)
            } else if y == 3 {
                (self.spec_load_a(bus, self.regs.spec_de()), bus, 8)
            } else if y == 4 {
                (self.noted(hl).with_hl(wrap16(hl + 1)), bus.spec_write8(hl, self.regs.a), 8)
            } else if y == 5 {
                (self.spec_load_a(bus, hl).with_hl(wrap16(hl + 1)), bus, 8)
            } else if y == 6 {
                (self.noted(hl).with_hl(wrap16(hl - 1)), bus.spec_write8(hl, self.regs.a), 8)
            } else {
                (self.spec_load_a(bus, hl).with_hl(wrap16(hl - 1)), bus, 8)
            }
        } else if z == 3 {
            let rr = self.regs.spec_get16_with_sp(p);
            if y % 2 == 0 {
                (self.with_regs(self.regs.spec_set16_with_sp(p, alu::spec_inc16(rr))), bus, 8)
            } else {
                (self.with_regs(self.regs.spec_set16_with_sp(p, alu::spec_dec16(rr))), bus, 8)
            }
        } else if z == 4 || z == 5 {
            let x = self.spec_operand(bus, y);
            let (f, r) = if z == 4 {
                alu::spec_inc8(flags, x)
            } else {
                alu::spec_dec8(flags, x)
            };
            let (c, b) = self.spec_operand_read(y).with_flags(f).spec_store(bus, y, r);
            (c, b, if y == 6 {
                12
            } else {
                4
            })
        } else if z == 6 {
            let (fetched, n) = self.spec_fetch8(bus);
            let (c, b) = fetched.spec_store(bus, y, n);
            (c, b, if y == 6 {
                12
            } else {
                8
            })
        } else {
            let a = self.regs.a;
            if y <= 3 {
                let (f, r) = if y == 0 {
                    alu::spec_rotate_left(flags, a)
                } else if y == 1 {
                    alu::spec_rotate_right(flags, a)
                } else if y == 2 {
                    alu::spec_rotate_left_through_carry_flag(flags, a)
                } else {
                    alu::spec_rotate_right_through_carry_flag(flags, a)
                };
                (self.with_a(r).with_flags(f.with(Flag::Zero, false)), bus, 4)
            } else if y == 4 {
                let (f, r) = alu::spec_daa(flags, a);
                (self.with_a(r).with_flags(f), bus, 4)
            } else if y == 5 {
                let (f, r) = alu::spec_bitwise_not(flags, a);
                (self.with_a(r).with_flags(f), bus, 4)
            } else if y == 6 {
                (
                    self.with_flags(
                        flags.with(Flag::Subtraction, false).with(Flag::HalfCarry, false).with(
                            Flag::Carry,
                            true,
                        ),
                    ),
                    bus,
                    4,
                )
            } else {
                (
                    self.with_flags(
                        flags.with(Flag::Subtraction, false).with(Flag::HalfCarry, false).toggled(
                            Flag::Carry,
                        ),
                    ),
                    bus,
                    4,
                )
            }
        }
    }

    /// Instructions 0x40 to 0x7F: loads between registers and the byte at HL, and HALT.
    pub open spec fn spec_execute_load(self, bus: MemoryBus, op: u8) -> (Cpu, MemoryBus, u32) {
        let y = ((op / 8) % 8) as u8;
        let z = (op % 8) as u8;
        if op == 0x76 {
            (Cpu { halted: true, ..self }, bus, 4)
        } else {
            let (c, b) = self.spec_operand_read(z).spec_store(bus, y, self.spec_operand(bus, z));
            (c, b, if y == 6 || z == 6 {
                8
            } else {
                4
            })
        }
    }

    /// Instructions 0x80 to 0xBF: accumulator operations on a register or the byte at HL.
    pub open spec fn spec_execute_alu(self, bus: MemoryBus, op: u8) -> (Cpu, MemoryBus, u32) {
        let y = ((op / 8) % 8) as u8;
        let z = (op % 8) as u8;
        let (f, r) = spec_alu(self.regs.flags, y, self.regs.a, self.spec_operand(bus, z));
        (self.spec_operand_read(z).with_a(r).with_flags(f), bus, if z == 6 {
            8
        } else {
            4
        })
    }

    /// Instructions 0xC0 to 0xFF but the prefix 0xCB.
    pub open spec fn spec_execute_high(self, bus: MemoryBus, op: u8) -> (Cpu, MemoryBus, u32) {
        let y = ((op / 8) % 8) as u8;
        let z = (op % 8) as u8;
        let p = ((op / 16) % 4) as u8;
        let flags = self.regs.flags;
        if z == 0 {
            if y <= 3 {
                if self.spec_condition(y) {
                    let (c, addr) = self.spec_pop(bus);
                    (c.with_pc(addr), bus, 20)
                } else {
                    (self, bus, 8)
                }
            } else if y == 4 {
                let (c, n) = self.spec_fetch8(bus);
                let (saved, b) = c.spec_save8(bus, (0xFF00 + n) as u16, c.regs.a);
                (saved, b, 12)
            } else if y == 5 {
                let (c, n) = self.spec_fetch8(bus);
                let (f, r) = alu::spec_add16_signed(flags, c.regs.sp, n);
                (c.with_flags(f).with_sp(r), bus, 16)
            } else if y == 6 {
                let (c, n) = self.spec_fetch8(bus);
                (c.spec_load_a(bus, (0xFF00 + n) as u16), bus, 12)
            } else {
                let (c, n) = self.spec_fetch8(bus);
                let (f, r) = alu::spec_add16_signed(flags, c.regs.sp, n);
                (c.with_flags(f).with_hl(r), bus, 12)
            }
        } else if z == 1 {
            if y % 2 == 0 {
                let (c, value) = self.spec_pop(bus);
                (c.with_regs(c.regs.spec_set16_with_af(p, value)), bus, 12)
            } else if p == 0 {
                let (c, addr) = self.spec_pop(bus);
                (c.with_pc(addr), bus, 16)
            } else if p == 1 {
                let (c, addr) = self.spec_pop(bus);
                (
                    Cpu {
                        ime: InterruptMasterEnable { enable_in_cycles: Some(0u8), ..c.ime },
                        ..c.with_pc(addr)
                    },
                    bus,
                    16,
                )
            } else if p == 2 {
                (self.with_pc(self.regs.spec_hl()), bus, 4)
            } else {
                (self.with_sp(self.regs.spec_hl()), bus, 8)
            }
        } else if z == 2 {
            if y <= 3 {
                let (c, nn) = self.spec_fetch16(bus);
                if c.spec_condition(y) {
                    (c.with_pc(nn), bus, 16)
                } else {
                    (c, bus, 12)
                }
            } else if y == 4 {
                let (saved, b) = self.spec_save8(bus, (0xFF00 + self.regs.c) as u16, self.regs.a);
                (saved, b, 8)
            } else if y == 5 {
                let (c, nn) = self.spec_fetch16(bus);
                let (saved, b) = c.spec_save8(bus, nn, c.regs.a);
                (saved, b, 16)
            } else if y == 6 {
                (self.spec_load_a(bus, (0xFF00 + self.regs.c) as u16), bus, 8)
            } else {
                let (c, nn) = self.spec_fetch16(bus);
                (c.spec_load_a(bus, nn), bus, 16)
            }
        } else if z == 3 {
            if y == 0 {
                let (c, nn) = self.spec_fetch16(bus);
                (c.with_pc(nn), bus, 16)
            } else if y == 6 {
                (
                    Cpu {
                        ime: InterruptMasterEnable { disable_in_cycles: Some(1u8), ..self.ime },
                        ..self
                    },
                    bus,
                    4,
                )
            } else if y == 7 {
                (
                    Cpu {
                        ime: InterruptMasterEnable { enable_in_cycles: Some(1u8), ..self.ime },
                        ..self
                    },
                    bus,
                    4,
                )
            } else {
                (self.noted_undefined(), bus, 4)
            }
        } else if z == 4 {
            if y <= 3 {
                let (c, nn) = self.spec_fetch16(bus);
                if c.spec_condition(y) {
                    let (pushed, b) = c.spec_push(bus, c.regs.pc);
                    (pushed.with_pc(nn), b, 24)
                } else {
                    (c, bus, 12)
                }
            } else {
                (self.noted_undefined(), bus, 4)
            }
        } else if z == 5 {
            if y % 2 == 0 {
                let (c, b) = self.spec_push(bus, self.regs.spec_get16_with_af(p));
                (c, b, 16)
            } else if p == 0 {
                let (c, nn) = self.spec_fetch16(bus);
                let (pushed, b) = c.spec_push(bus, c.regs.pc);
                (pushed.with_pc(nn), b, 24)
            } else {
                (self.noted_undefined(), bus, 4)
            }
        } else if z == 6 {
            let (c, n) = self.spec_fetch8(bus);
            let (f, r) = spec_alu(flags, y, c.regs.a, n);
            (c.with_a(r).with_flags(f), bus, 8)
        } else {
            let (c, b) = self.spec_push(bus, self.regs.pc);
            (c.with_pc((y * 8) as u16), b, 16)
        }
    }

    /// The instructions behind the prefix 0xCB: rotations and shifts, bit tests, bit resets
    /// and bit sets, each on a register or on the byte at HL.
    pub open spec fn spec_execute_cb(self, bus: MemoryBus, op: u8) -> (Cpu, MemoryBus, u32) {
        let y = ((op / 8) % 8) as u8;
        let z = (op % 8) as u8;
        let x = self.spec_operand(bus, z);
        let flags = self.regs.flags;
        if op < 0x40 {
            let (f, r) = spec_rotate(flags, y, x);
            let (c, b) = self.spec_operand_read(z).with_flags(f).spec_store(bus, z, r);
            (c, b, if z == 6 {
                16
            } else {
                8
            })
        } else if op < 0x80 {
            (self.spec_operand_read(z).with_flags(alu::spec_test_bit(flags, x, y)), bus, if z == 6 {
                12
            } else {
                8
            })
        } else {
            let (c, b) = self.spec_operand_read(z).spec_store(
                bus,
                z,
                spec_modify_bit(x, y, op >= 0xC0),
            );
            (c, b, if z == 6 {
                16
            } else {
                8
            })
        }
    }

    /// The processor, the bus and the cycles taken after the instruction `op` was executed; PC
    /// is already behind the instruction byte. The bytes that name no instruction do nothing
    /// and take four cycles.
    pub open spec fn spec_execute(self, bus: MemoryBus, op: u8) -> (Cpu, MemoryBus, u32) {
        if op == 0xCB {
            let (c, suffix) = self.spec_fetch8(bus);
            c.spec_execute_cb(bus, suffix)
        } else if op < 0x40 {
            self.spec_execute_low(bus, op)
        } else if op < 0x80 {
            self.spec_execute_load(bus, op)
        } else if op < 0xC0 {
            self.spec_execute_alu(bus, op)
        } else {
            self.spec_execute_high(bus, op)
        }
    }

    pub open spec fn spec_fetch_execute(self, bus: MemoryBus) -> (Cpu, MemoryBus, u32) {
        let (c, op) = self.spec_fetch8(bus);
        c.spec_execute(bus, op)
    }

    /// The processor, the bus and the cycles taken by the interrupt check that opens a step.
    /// With the switch open, the pending interrupt of highest priority is serviced: its flag is
    /// cleared, the switch is scheduled to close at once, PC is pushed and replaced by the
    /// handler address, for 16 cycles. With the switch closed a halted processor skips one
    /// byte. Either way a halted processor wakes up, for 4 cycles more.
    pub open spec fn spec_handle_interrupts(self, bus: MemoryBus) -> (Cpu, MemoryBus, u32) {
        match bus.interrupts.spec_next() {
            Some(source) => {
                let (c, b, cycles) = if self.ime.value {
                    let cleared = MemoryBus {
                        interrupts: bus.interrupts.spec_flag(source, false),
                        ..bus
                    };
                    let gated = Cpu {
                        ime: InterruptMasterEnable { disable_in_cycles: Some(0u8), ..self.ime },
                        ..self
                    };
                    let (pushed, written) = gated.spec_push(cleared, self.regs.pc);
                    (pushed.with_pc(source.spec_handler_address()), written, 16u32)
                } else if self.halted {
                    (self.with_pc(wrap16(self.regs.pc + 1)), bus, 0u32)
                } else {
                    (self, bus, 0u32)
                };
                if self.halted {
                    (Cpu { halted: false, ..c }, b, (cycles + 4) as u32)
                } else {
                    (c, b, cycles)
                }
            },
            None => (self, bus, 0u32),
        }
    }

    /// The processor, the bus and the cycles taken after one step: the interrupt check; where
    /// that took no cycles, four idle cycles when halted, else one instruction; then one tick
    /// of the interrupt switch.
    pub open spec fn spec_cycle(self, bus: MemoryBus) -> (Cpu, MemoryBus, u32) {
        let (c, b, interrupt_cycles) = self.spec_handle_interrupts(bus);
        let (stepped, after, cycles) = if interrupt_cycles > 0 {
            (c, b, interrupt_cycles)
        } else if c.halted {
            (c, b, 4u32)
        } else {
            c.spec_fetch_execute(b)
        };
        (Cpu { ime: stepped.ime.spec_cycle(), ..stepped }, after, cycles)
    }

    /// The processor as it is after the boot program has run.
    pub open spec fn spec_new() -> Cpu {
        Cpu {
            regs: Registers {
                a: 0x01,
                flags: Flags::spec_new(true, true, false, true),
                b: 0x00,
                c: 0x13,
                d: 0x00,
                e: 0xD8,
                h: 0x01,
                l: 0x4D,
                sp: 0xFFFE,
                pc: 0x0100,
            },
            halted: false,
            ime: InterruptMasterEnable {
                value: true,
                enable_in_cycles: None,
                disable_in_cycles: None,
            },
            diagnostics: Diagnostics { echo_ram: 0, prohibited: 0, undefined_opcodes: 0 },
        }
    }

    /// The processor as it is after the boot program has run.
    pub fn new() -> (r: Cpu)
        ensures
            r == Cpu::spec_new(),
    {
        Cpu {
            regs: Registers {
                a: 0x01,
                flags: Flags::new(true, true, false, true),
                b: 0x00,
                c: 0x13,
                d: 0x00,
                e: 0xD8,
                h: 0x01,
                l: 0x4D,
                sp: 0xFFFE,
                pc: 0x0100,
            },
            halted: false,
            ime: InterruptMasterEnable::new(true),
            diagnostics: Diagnostics { echo_ram: 0, prohibited: 0, undefined_opcodes: 0 },
        }
    }

    /// Performs one step and returns the clock cycles that it took.
    pub fn cycle(&mut self, bus: &mut MemoryBus) -> (cycles: u32)
        requires
            old(bus).wf(),
        ensures
            final(bus).wf(),
            final(bus).gpu.clock == old(bus).gpu.clock,
            (*final(self), *final(bus), cycles) == old(self).spec_cycle(*old(bus)),
            4 <= cycles <= 24,
    {
        let interrupt_cycles = self.handle_interrupts(bus);
        let cycles = if interrupt_cycles > 0 {
            interrupt_cycles
        } else if self.halted {
            4
        } else {
            self.fetch_execute(bus)
        };
        self.ime.cycle();
        cycles
    }

    /// The interrupt check that opens a step.
    pub fn handle_interrupts(&mut self, bus: &mut MemoryBus) -> (cycles: u32)
        requires
            old(bus).wf(),
        ensures
            final(bus).wf(),
            final(bus).gpu.clock == old(bus).gpu.clock,
            (*final(self), *final(bus), cycles) == old(self).spec_handle_interrupts(*old(bus)),
            cycles == 0 || cycles == 4 || cycles == 16 || cycles == 20,
    {
        let mut cycles: u32 = 0;
        match bus.interrupts.next_triggered_interrupt() {
            Some(source) => {
                if self.ime.enabled() {
                    bus.interrupts.flag(source, false);
                    self.ime.disable(0);
                    let pc = self.regs.pc;
                    self.stack_push(bus, pc);
                    self.regs.pc = source.handler_address();
                    cycles = cycles + 16;
                } else if self.halted {
                    self.regs.pc = advance(self.regs.pc, 1);
                }
                if self.halted {
                    self.halted = false;
                    cycles = cycles + 4;
                }
            },
            None => {},
        }
        cycles
    }

    /// Fetches the instruction byte at PC and executes it.
    pub fn fetch_execute(&mut self, bus: &mut MemoryBus) -> (cycles: u32)
        requires
            old(bus).wf(),
        ensures
            final(bus).wf(),
            final(bus).gpu.clock == old(bus).gpu.clock,
            (*final(self), *final(bus), cycles) == old(self).spec_fetch_execute(*old(bus)),
            4 <= cycles <= 24,
    {
        let opcode = Opcode(self.fetch8(bus));
        self.execute(opcode, bus)
    }

    /// Executes one instruction whose first byte was fetched already.
    pub fn execute(&mut self, opcode: Opcode, bus: &mut MemoryBus) -> (cycles: u32)
        requires
            old(bus).wf(),
        ensures
            final(bus).wf(),
            final(bus).gpu.clock == old(bus).gpu.clock,
            (*final(self), *final(bus), cycles) == old(self).spec_execute(*old(bus), opcode.0),
            4 <= cycles <= 24,
    {
        if opcode.0 == 0xCB {
            let suffix = Opcode(self.fetch8(bus));
            self.execute_cb(suffix, bus)
        } else if opcode.0 < 0x40 {
            self.execute_low(opcode, bus)
        } else if opcode.0 < 0x80 {
            self.execute_load(opcode, bus)
        } else if opcode.0 < 0xC0 {
            self.execute_alu(opcode, bus)
        } else {
            self.execute_high(opcode, bus)
        }
    }

    fn execute_low(&mut self, opcode: Opcode, bus: &mut MemoryBus) -> (cycles: u32)
        requires
            old(bus).wf(),
            opcode.0 < 0x40,
        ensures
            final(bus).wf(),
            final(bus).gpu.clock == old(bus).gpu.clock,
            (*final(self), *final(bus), cycles) == old(self).spec_execute_low(*old(bus), opcode.0),
            4 <= cycles <= 20,
    {
        let y = opcode.xxx();
        let z = opcode.yyy();
        let p = opcode.rr();
        match z {
            0 => {
                if y == 0 {
                    4
                } else if y == 1 {
                    let nn = self.fetch16(bus);
                    let sp = self.regs.sp;
                    self.save16(bus, nn, sp);
                    20
                } else if y == 2 {
                    let n = self.fetch8(bus);
                    if n != 0 {
                        self.regs.pc = retreat(self.regs.pc, 1);
                    }
                    self.halted = true;
                    4
                } else if y == 3 {
                    let n = self.fetch8(bus);
                    self.regs.pc = jump_relative(self.regs.pc, n);
                    12
                } else {
                    let n = self.fetch8(bus);
                    if self.evaluate_flag_condition(y - 4) {
                        self.regs.pc = jump_relative(self.regs.pc, n);
                        12
                    } else {
                        8
                    }
                }
            },
            1 => {
                if y % 2 == 0 {
                    let nn = self.fetch16(bus);
                    self.regs.set16_with_sp(p, nn);
                    12
                } else {
                    let hl = self.regs.hl();
                    let rr = self.regs.get16_with_sp(p);
                    let result = alu::add16(&mut self.regs.flags, hl, rr);
                    self.regs.set_hl(result);
                    8
                }
            },
            2 => {
                let hl = self.regs.hl();
                let a = self.regs.a;
                if y == 0 {
                    self.save8(bus, self.regs.bc(), a);
                } else if y == 1 {
                    self.load_a(bus, self.regs.bc());
                } else if y == 2 {
                    self.save8(bus, self.regs.de(), a);
                } else if y == 3 {
                    self.load_a(bus, self.regs.de());
                } else if y == 4 {
                    self.save8(bus, hl, a);
                    self.regs.set_hl(advance(hl, 1));
                } else if y == 5 {
                    self.load_a(bus, hl);
                    self.regs.set_hl(advance(hl, 1));
                } else if y == 6 {
                    self.save8(bus, hl, a);
                    self.regs.set_hl(retreat(hl, 1));
                } else {
                    self.load_a(bus, hl);
                    self.regs.set_hl(retreat(hl, 1));
                }
                8
            },
            3 => {
                let rr = self.regs.get16_with_sp(p);
                if y % 2 == 0 {
                    self.regs.set16_with_sp(p, alu::inc16(rr));
                } else {
                    self.regs.set16_with_sp(p, alu::dec16(rr));
                }
                8
            },
            4 | 5 => {
                let x = self.read_operand(bus, y);
                let result = if z == 4 {
                    alu::inc8(&mut self.regs.flags, x)
                } else {
                    alu::dec8(&mut self.regs.flags, x)
                };
                self.write_operand(bus, y, result);
                if y == 6 {
                    12
                } else {
                    4
                }
            },
            6 => {
                let n = self.fetch8(bus);
                self.write_operand(bus, y, n);
                if y == 6 {
                    12
                } else {
                    8
                }
            },
            _ => {
                let a = self.regs.a;
                if y <= 3 {
                    let result = if y == 0 {
                        alu::rotate_left(&mut self.regs.flags, a)
                    } else if y == 1 {
                        alu::rotate_right(&mut self.regs.flags, a)
                    } else if y == 2 {
                        alu::rotate_left_through_carry_flag(&mut self.regs.flags, a)
                    } else {
                        alu::rotate_right_through_carry_flag(&mut self.regs.flags, a)
                    };
                    self.regs.a = result;
                    self.regs.flags.set_zero(false);
                } else if y == 4 {
                    self.regs.a = alu::daa(&mut self.regs.flags, a);
                } else if y == 5 {
                    self.regs.a = alu::bitwise_not(&mut self.regs.flags, a);
                } else if y == 6 {
                    self.regs.flags.set_subtraction(false);
                    self.regs.flags.set_half_carry(false);
                    self.regs.flags.set_carry(true);
                } else {
                    self.regs.flags.set_subtraction(false);
                    self.regs.flags.set_half_carry(false);
                    self.regs.flags.toggle_carry();
                }
                4
            },
        }
    }

    fn execute_load(&mut self, opcode: Opcode, bus: &mut MemoryBus) -> (cycles: u32)
        requires
            old(bus).wf(),
            0x40 <= opcode.0 < 0x80,
        ensures
            final(bus).wf(),
            final(bus).gpu.clock == old(bus).gpu.clock,
            (*final(self), *final(bus), cycles) == old(self).spec_execute_load(*old(bus), opcode.0),
            4 <= cycles <= 8,
    {
        let y = opcode.xxx();
        let z = opcode.yyy();
        if opcode.0 == 0x76 {
            self.halted = true;
            4
        } else {
            let value = self.read_operand(bus, z);
            self.write_operand(bus, y, value);
            if y == 6 || z == 6 {
                8
            } else {
                4
            }
        }
    }

    fn execute_alu(&mut self, opcode: Opcode, bus: &mut MemoryBus) -> (cycles: u32)
        requires
            old(bus).wf(),
            0x80 <= opcode.0 < 0xC0,
        ensures
            *final(bus) == *old(bus),
            (*final(self), *final(bus), cycles) == old(self).spec_execute_alu(*old(bus), opcode.0),
            4 <= cycles <= 8,
    {
        let y = opcode.xxx();
        let z = opcode.yyy();
        let x = self.read_operand(bus, z);
        let a = self.regs.a;
        self.regs.a = alu_op(&mut self.regs.flags, y, a, x);
        if z == 6 {
            8
        } else {
            4
        }
    }

    fn execute_high(&mut self, opcode: Opcode, bus: &mut MemoryBus) -> (cycles: u32)
        requires
            old(bus).wf(),
            0xC0 <= opcode.0,
            opcode.0 != 0xCB,
        ensures
            final(bus).wf(),
            final(bus).gpu.clock == old(bus).gpu.clock,
            (*final(self), *final(bus), cycles) == old(self).spec_execute_high(*old(bus), opcode.0),
            4 <= cycles <= 24,
    {
        let y = opcode.xxx();
        let z = opcode.yyy();
        let p = opcode.rr();
        match z {
            0 => {
                if y <= 3 {
                    if self.evaluate_flag_condition(y) {
                        self.regs.pc = self.stack_pop(bus);
                        20
                    } else {
                        8
                    }
                } else if y == 4 {
                    let n = self.fetch8(bus);
                    let a = self.regs.a;
                    self.save8(bus, 0xFF00 + (n as u16), a);
                    12
                } else if y == 5 {
                    let n = self.fetch8(bus);
                    let sp = self.regs.sp;
                    self.regs.sp = alu::add16_with_signed_byte_operand(&mut self.regs.flags, sp, n);
                    16
                } else if y == 6 {
                    let n = self.fetch8(bus);
                    self.load_a(bus, 0xFF00 + (n as u16));
                    12
                } else {
                    let n = self.fetch8(bus);
                    let sp = self.regs.sp;
                    let result = alu::add16_with_signed_byte_operand(&mut self.regs.flags, sp, n);
                    self.regs.set_hl(result);
                    12
                }
            },
            1 => {
                if y % 2 == 0 {
                    let value = self.stack_pop(bus);
                    self.regs.set16_with_af(p, value);
                    12
                } else if p == 0 {
                    self.regs.pc = self.stack_pop(bus);
                    16
                } else if p == 1 {
                    self.regs.pc = self.stack_pop(bus);
                    self.ime.enable(0);
                    16
                } else if p == 2 {
                    self.regs.pc = self.regs.hl();
                    4
                } else {
                    self.regs.sp = self.regs.hl();
                    8
                }
            },
            2 => {
                if y <= 3 {
                    let nn = self.fetch16(bus);
                    if self.evaluate_flag_condition(y) {
                        self.regs.pc = nn;
                        16
                    } else {
                        12
                    }
                } else if y == 4 {
                    let a = self.regs.a;
                    self.save8(bus, 0xFF00 + (self.regs.c as u16), a);
                    8
                } else if y == 5 {
                    let nn = self.fetch16(bus);
                    let a = self.regs.a;
                    self.save8(bus, nn, a);
                    16
                } else if y == 6 {
                    self.load_a(bus, 0xFF00 + (self.regs.c as u16));
                    8
                } else {
                    let nn = self.fetch16(bus);
                    self.load_a(bus, nn);
                    16
                }
            },
            3 => {
                if y == 0 {
                    self.regs.pc = self.fetch16(bus);
                    16
                } else if y == 6 {
                    self.ime.disable(1);
                    4
                } else if y == 7 {
                    self.ime.enable(1);
                    4
                } else {
                    self.note_undefined();
                    4
                }
            },
            4 => {
                if y <= 3 {
                    let nn = self.fetch16(bus);
                    if self.evaluate_flag_condition(y) {
                        let pc = self.regs.pc;
                        self.stack_push(bus, pc);
                        self.regs.pc = nn;
                        24
                    } else {
                        12
                    }
                } else {
                    self.note_undefined();
                    4
                }
            },
            5 => {
                if y % 2 == 0 {
                    let value = self.regs.get16_with_af(p);
                    self.stack_push(bus, value);
                    16
                } else if p == 0 {
                    let nn = self.fetch16(bus);
                    let pc = self.regs.pc;
                    self.stack_push(bus, pc);
                    self.regs.pc = nn;
                    24
                } else {
                    self.note_undefined();
                    4
                }
            },
            6 => {
                let n = self.fetch8(bus);
                let a = self.regs.a;
                self.regs.a = alu_op(&mut self.regs.flags, y, a, n);
                8
            },
            _ => {
                let pc = self.regs.pc;
                self.stack_push(bus, pc);
                self.regs.pc = (y as u16) * 8;
                16
            },
        }
    }

    /// Executes one instruction of the prefixed table.
    pub fn execute_cb(&mut self, opcode: Opcode, bus: &mut MemoryBus) -> (cycles: u32)
        requires
            old(bus).wf(),
        ensures
            final(bus).wf(),
            final(bus).gpu.clock == old(bus).gpu.clock,
            (*final(self), *final(bus), cycles) == old(self).spec_execute_cb(*old(bus), opcode.0),
            8 <= cycles <= 16,
    {
        let y = opcode.xxx();
        let z = opcode.yyy();
        let x = self.read_operand(bus, z);
        if opcode.0 < 0x40 {
            let result = rotate_op(&mut self.regs.flags, y, x);
            self.write_operand(bus, z, result);
            if z == 6 {
                16
            } else {
                8
            }
        } else if opcode.0 < 0x80 {
            alu::test_bit(&mut self.regs.flags, x, y);
            if z == 6 {
                12
            } else {
                8
            }
        } else {
            let result = modify_bit(x, y, opcode.0 >= 0xC0);
            self.write_operand(bus, z, result);
            if z == 6 {
                16
            } else {
                8
            }
        }
    }

    fn read_operand(&mut self, bus: &MemoryBus, index: u8) -> (r: u8)
        requires
            bus.wf(),
            index < 8,
        ensures
            r == old(self).spec_operand(*bus, index),
            *final(self) == old(self).spec_operand_read(index),
    {
        if index == 6 {
            self.load8(bus, self.regs.hl())
        } else {
            self.regs.get8(index)
        }
    }

    /// Counts an access to `addr`.
    fn note(&mut self, addr: u16)
        ensures
            *final(self) == old(self).noted(addr),
    {
        match diagnostic(addr) {
            Some(Diagnostic::EchoRam) => {
                self.diagnostics.echo_ram = bump(self.diagnostics.echo_ram);
            },
            Some(Diagnostic::Prohibited) => {
                self.diagnostics.prohibited = bump(self.diagnostics.prohibited);
            },
            None => {},
        }
    }

    /// Counts an instruction byte that names no instruction.
    fn note_undefined(&mut self)
        ensures
            *final(self) == old(self).noted_undefined(),
    {
        self.diagnostics.undefined_opcodes = bump(self.diagnostics.undefined_opcodes);
    }

    fn load8(&mut self, bus: &MemoryBus, addr: u16) -> (r: u8)
        requires
            bus.wf(),
        ensures
            (*final(self), r) == old(self).spec_load8(*bus, addr),
    {
        self.note(addr);
        bus.read8(addr)
    }

    fn load16(&mut self, bus: &MemoryBus, addr: u16) -> (r: u16)
        requires
            bus.wf(),
        ensures
            (*final(self), r) == old(self).spec_load16(*bus, addr),
    {
        self.note(addr);
        self.note(advance(addr, 1));
        bus.read16(addr)
    }

    fn load_a(&mut self, bus: &MemoryBus, addr: u16)
        requires
            bus.wf(),
        ensures
            *final(self) == old(self).spec_load_a(*bus, addr),
    {
        self.regs.a = self.load8(bus, addr);
    }

    fn save8(&mut self, bus: &mut MemoryBus, addr: u16, value: u8)
        requires
            old(bus).wf(),
        ensures
            final(bus).wf(),
            final(bus).gpu.clock == old(bus).gpu.clock,
            (*final(self), *final(bus)) == old(self).spec_save8(*old(bus), addr, value),
    {
        self.note(addr);
        bus.write8(addr, value);
    }

    fn save16(&mut self, bus: &mut MemoryBus, addr: u16, value: u16)
        requires
            old(bus).wf(),
        ensures
            final(bus).wf(),
            final(bus).gpu.clock == old(bus).gpu.clock,
            (*final(self), *final(bus)) == old(self).spec_save16(*old(bus), addr, value),
    {
        self.note(addr);
        self.note(advance(addr, 1));
        bus.write16(addr, value);
    }

    fn write_operand(&mut self, bus: &mut MemoryBus, index: u8, value: u8)
        requires
            old(bus).wf(),
            index < 8,
        ensures
            final(bus).wf(),
            final(bus).gpu.clock == old(bus).gpu.clock,
            (*final(self), *final(bus)) == old(self).spec_store(*old(bus), index, value),
    {
        if index == 6 {
            self.save8(bus, self.regs.hl(), value);
        } else {
            self.regs.set8(index, value);
        }
    }

    fn fetch8(&mut self, bus: &MemoryBus) -> (r: u8)
        requires
            bus.wf(),
        ensures
            (*final(self), r) == old(self).spec_fetch8(*bus),
    {
        let value = self.load8(bus, self.regs.pc);
        self.regs.pc = advance(self.regs.pc, 1);
        value
    }

    fn fetch16(&mut self, bus: &MemoryBus) -> (r: u16)
        requires
            bus.wf(),
        ensures
            (*final(self), r) == old(self).spec_fetch16(*bus),
    {
        let value = self.load16(bus, self.regs.pc);
        self.regs.pc = advance(self.regs.pc, 2);
        value
    }

    fn stack_push(&mut self, bus: &mut MemoryBus, value: u16)
        requires
            old(bus).wf(),
        ensures
            final(bus).wf(),
            final(bus).gpu.clock == old(bus).gpu.clock,
            (*final(self), *final(bus)) == old(self).spec_push(*old(bus), value),
    {
        self.regs.sp = retreat(self.regs.sp, 2);
        self.save16(bus, self.regs.sp, value);
    }

    fn stack_pop(&mut self, bus: &MemoryBus) -> (r: u16)
        requires
            bus.wf(),
        ensures
            (*final(self), r) == old(self).spec_pop(*bus),
    {
        let value = self.load16(bus, self.regs.sp);
        self.regs.sp = advance(self.regs.sp, 2);
        value
    }

    /// Whether the flag condition that `ff` selects holds.
    #[verifier::when_used_as_spec(spec_condition)]
    pub fn evaluate_flag_condition(&self, ff: u8) -> (r: bool)
        requires
            ff < 4,
        ensures
            r == self.spec_condition(ff),
    {
        match ff {
            0 => !self.regs.flags.zero(),
            1 => self.regs.flags.zero(),
            2 => !self.regs.flags.carry(),
            _ => self.regs.flags.carry(),
        }
    }
}

/// A halted processor waits while no interrupt is pending: a step takes four cycles and
/// changes neither the registers nor the bus; only the countdowns of the interrupt switch go
/// on.
pub proof fn halted_step_waits(cpu: Cpu, bus: MemoryBus)
    requires
        cpu.halted,
        bus.interrupts.spec_next() is None,
    ensures
        cpu.spec_cycle(bus) == (Cpu { ime: cpu.ime.spec_cycle(), ..cpu }, bus, 4u32),
{
}

/// A halted processor whose interrupt switch is off wakes up when an interrupt becomes
/// pending, without servicing it: the step takes four cycles, moves PC on by one, and leaves
/// the bus and the interrupt flags as they are.
pub proof fn halted_step_wakes(cpu: Cpu, bus: MemoryBus)
    requires
        cpu.halted,
        !cpu.ime.value,
        bus.interrupts.spec_next() is Some,
    ensures
        cpu.spec_cycle(bus) == (
            Cpu { halted: false, ime: cpu.ime.spec_cycle(), ..cpu.with_pc(wrap16(cpu.regs.pc + 1)) },
            bus,
            4u32,
        ),
{
}

/// Where the bytes that name no instruction lie in the instruction table.
proof fn lemma_undefined_fields(op: u8)
    requires
        spec_is_undefined(op),
    ensures
        op >= 0xC0,
        op != 0xCB,
        ({
            let y = (op / 8) % 8;
            let z = op % 8;
            let p = (op / 16) % 4;
            (z == 3 && 2 <= y <= 5) || (z == 4 && y >= 4) || (z == 5 && y % 2 == 1 && p != 0)
        }),
{
}

/// An instruction byte that names no instruction is counted, takes four cycles and changes
/// nothing else.
pub proof fn undefined_opcode_is_counted(cpu: Cpu, bus: MemoryBus, op: u8)
    requires
        spec_is_undefined(op),
    ensures
        cpu.spec_execute(bus, op) == (cpu.noted_undefined(), bus, 4u32),
{
    lemma_undefined_fields(op);
    assert(cpu.spec_execute(bus, op) == cpu.spec_execute_high(bus, op));
}

} // verus!
