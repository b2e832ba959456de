//! The processor's register file and its flags byte.

use vstd::prelude::*;
use crate::bits::{get_bit, modify_bit, toggle_bit, spec_get_bit, spec_modify_bit, spec_toggle_bit};

verus! {

/// Bit position of the carry flag in the flags byte.
pub const CARRY_BIT: u8 = 4;

/// Bit position of the half-carry flag in the flags byte.
pub const HALF_CARRY_BIT: u8 = 5;

/// Bit position of the subtraction flag in the flags byte.
pub const SUBTRACTION_BIT: u8 = 6;

/// Bit position of the zero flag in the flags byte.
pub const ZERO_BIT: u8 = 7;

/// One of the four condition flags.
#[derive(Clone, Copy, Debug, PartialEq, Eq, Structural)]
pub enum Flag {
    Zero,
    Subtraction,
    HalfCarry,
    Carry,
}

impl Flag {
    /// The flag's bit position in the flags byte.
    pub open spec fn spec_bit(&self) -> u8 {
        match self {
            Flag::Zero => 7,
            Flag::Subtraction => 6,
            Flag::HalfCarry => 5,
            Flag::Carry => 4,
        }
    }

    #[verifier::when_used_as_spec(spec_bit)]
    pub fn bit(&self) -> (r: u8)
        ensures
            r == self.spec_bit(),
            4 <= r < 8,
    {
        match self {
            Flag::Zero => 7,
            Flag::Subtraction => 6,
            Flag::HalfCarry => 5,
            Flag::Carry => 4,
        }
    }
}

/// The flags byte: zero, subtraction, half carry and carry in bits 7 to 4.
#[derive(Clone, Copy, Debug, PartialEq, Eq, Structural)]
pub struct Flags(pub u8);

impl Default for Flags {
    fn default() -> (r: Flags)
        ensures
            r.0 == 0,
    {
        Flags(0)
    }
}

impl Flags {
    pub open spec fn spec_get(&self, flag: Flag) -> bool {
        spec_get_bit(self.0, flag.spec_bit())
    }

    pub open spec fn with(self, flag: Flag, value: bool) -> Flags {
        Flags(spec_modify_bit(self.0, flag.spec_bit(), value))
    }

    pub open spec fn toggled(self, flag: Flag) -> Flags {
        Flags(spec_toggle_bit(self.0, flag.spec_bit()))
    }

    pub open spec fn spec_carry(&self) -> bool {
        self.spec_get(Flag::Carry)
    }

    pub open spec fn spec_half_carry(&self) -> bool {
        self.spec_get(Flag::HalfCarry)
    }

    pub open spec fn spec_subtraction(&self) -> bool {
        self.spec_get(Flag::Subtraction)
    }

    pub open spec fn spec_zero(&self) -> bool {
        self.spec_get(Flag::Zero)
    }

    /// The flags with zero, subtraction and half carry replaced, in that order.
    pub open spec fn with_znh(self, z: bool, n: bool, h: bool) -> Flags {
        self.with(Flag::Zero, z).with(Flag::Subtraction, n).with(Flag::HalfCarry, h)
    }

    /// The flags with all four replaced: zero, subtraction, half carry, then carry.
    pub open spec fn with_znhc(self, z: bool, n: bool, h: bool, c: bool) -> Flags {
        self.with_znh(z, n, h).with(Flag::Carry, c)
    }

    /// The flags byte built from nothing by setting carry, half carry, subtraction and zero.
    pub open spec fn spec_new(c: bool, h: bool, n: bool, z: bool) -> Flags {
        Flags(0).with(Flag::Carry, c).with(Flag::HalfCarry, h).with(Flag::Subtraction, n).with(
            Flag::Zero,
            z,
        )
    }

    pub fn new(c: bool, h: bool, n: bool, z: bool) -> (r: Flags)
        ensures
            r == Flags::spec_new(c, h, n, z),
            r.spec_carry() == c,
            r.spec_half_carry() == h,
            r.spec_subtraction() == n,
            r.spec_zero() == z,
    {
        let mut f = Flags(0);
        f.set_carry(c);
        f.set_half_carry(h);
        f.set_subtraction(n);
        f.set_zero(z);
        proof {
            lemma_flag_updates(Flags(0), Flag::Carry, c);
            lemma_flag_updates(Flags(0).with(Flag::Carry, c), Flag::HalfCarry, h);
            lemma_flag_updates(
                Flags(0).with(Flag::Carry, c).with(Flag::HalfCarry, h),
                Flag::Subtraction,
                n,
            );
            lemma_flag_updates(
                Flags(0).with(Flag::Carry, c).with(Flag::HalfCarry, h).with(Flag::Subtraction, n),
                Flag::Zero,
                z,
            );
        }
        f
    }

    #[verifier::when_used_as_spec(spec_get)]
    pub fn get(&self, flag: Flag) -> (r: bool)
        ensures
            r == self.spec_get(flag),
    {
        get_bit(self.0, flag.bit())
    }

    /// Replaces one flag and hands the flags back, so that calls can be chained.
    pub fn set(&mut self, flag: Flag, value: bool) -> (r: &mut Flags)
        ensures
            *r == old(self).with(flag, value),
            *final(self) == *final(r),
    {
        self.0 = modify_bit(self.0, flag.bit(), value);
        self
    }

    /// Inverts one flag and hands the flags back, so that calls can be chained.
    pub fn toggle(&mut self, flag: Flag) -> (r: &mut Flags)
        ensures
            *r == old(self).toggled(flag),
            *final(self) == *final(r),
    {
        self.0 = toggle_bit(self.0, flag.bit());
        self
    }

    #[verifier::when_used_as_spec(spec_carry)]
    pub fn carry(&self) -> (r: bool)
        ensures
            r == self.spec_carry(),
    {
        get_bit(self.0, CARRY_BIT)
    }

    #[verifier::when_used_as_spec(spec_half_carry)]
    pub fn half_carry(&self) -> (r: bool)
        ensures
            r == self.spec_half_carry(),
    {
        get_bit(self.0, HALF_CARRY_BIT)
    }

    #[verifier::when_used_as_spec(spec_subtraction)]
    pub fn subtraction(&self) -> (r: bool)
        ensures
            r == self.spec_subtraction(),
    {
        get_bit(self.0, SUBTRACTION_BIT)
    }

    #[verifier::when_used_as_spec(spec_zero)]
    pub fn zero(&self) -> (r: bool)
        ensures
            r == self.spec_zero(),
    {
        get_bit(self.0, ZERO_BIT)
    }

    pub fn set_carry(&mut self, value: bool)
        ensures
            *final(self) == old(self).with(Flag::Carry, value),
    {
        self.0 = modify_bit(self.0, CARRY_BIT, value);
    }

    pub fn toggle_carry(&mut self)
        ensures
            *final(self) == old(self).toggled(Flag::Carry),
    {
        self.0 = toggle_bit(self.0, CARRY_BIT);
    }

    pub fn set_half_carry(&mut self, value: bool)
        ensures
            *final(self) == old(self).with(Flag::HalfCarry, value),
    {
        self.0 = modify_bit(self.0, HALF_CARRY_BIT, value);
    }

    pub fn set_subtraction(&mut self, value: bool)
        ensures
            *final(self) == old(self).with(Flag::Subtraction, value),
    {
        self.0 = modify_bit(self.0, SUBTRACTION_BIT, value);
    }

    pub fn set_zero(&mut self, value: bool)
        ensures
            *final(self) == old(self).with(Flag::Zero, value),
    {
        self.0 = modify_bit(self.0, ZERO_BIT, value);
    }
}

/// Replacing one flag gives that flag its new value, keeps the other three, and keeps the
/// byte's low nibble.
pub proof fn lemma_flag_updates(f: Flags, flag: Flag, value: bool)
    ensures
        forall|other: Flag| #[trigger]
            f.with(flag, value).spec_get(other) == (if other == flag {
                value
            } else {
                f.spec_get(other)
            }),
        f.with(flag, value).0 & 0x0F == f.0 & 0x0F,
{
    assert forall|other: Flag| #[trigger]
        f.with(flag, value).spec_get(other) == (if other == flag {
            value
        } else {
            f.spec_get(other)
        }) by {
        crate::bits::lemma_get_after_modify(f.0, flag.spec_bit(), value, other.spec_bit());
    }
    let bit = flag.spec_bit();
    assert(0x0Fu8 & (1u8 << bit) == 0) by (bit_vector)
        requires
            4 <= bit < 8,
    ;
    crate::bits::lemma_modify_keeps_mask(f.0, bit, value, 0x0F);
}

/// After replacing all four flags each reads back as given, and the low nibble is kept.
pub proof fn lemma_flags_znhc(f: Flags, z: bool, n: bool, h: bool, c: bool)
    ensures
        f.with_znhc(z, n, h, c).spec_zero() == z,
        f.with_znhc(z, n, h, c).spec_subtraction() == n,
        f.with_znhc(z, n, h, c).spec_half_carry() == h,
        f.with_znhc(z, n, h, c).spec_carry() == c,
        f.with_znhc(z, n, h, c).0 & 0x0F == f.0 & 0x0F,
{
    let f1 = f.with(Flag::Zero, z);
    let f2 = f1.with(Flag::Subtraction, n);
    let f3 = f2.with(Flag::HalfCarry, h);
    lemma_flag_updates(f, Flag::Zero, z);
    lemma_flag_updates(f1, Flag::Subtraction, n);
    lemma_flag_updates(f2, Flag::HalfCarry, h);
    lemma_flag_updates(f3, Flag::Carry, c);
}

/// After replacing zero, subtraction and half carry each reads back as given, and carry and
/// the low nibble are kept.
pub proof fn lemma_flags_znh(f: Flags, z: bool, n: bool, h: bool)
    ensures
        f.with_znh(z, n, h).spec_zero() == z,
        f.with_znh(z, n, h).spec_subtraction() == n,
        f.with_znh(z, n, h).spec_half_carry() == h,
        f.with_znh(z, n, h).spec_carry() == f.spec_carry(),
        f.with_znh(z, n, h).0 & 0x0F == f.0 & 0x0F,
{
    let f1 = f.with(Flag::Zero, z);
    let f2 = f1.with(Flag::Subtraction, n);
    lemma_flag_updates(f, Flag::Zero, z);
    lemma_flag_updates(f1, Flag::Subtraction, n);
    lemma_flag_updates(f2, Flag::HalfCarry, h);
}

/// The 16-bit value whose high byte is `hi` and whose low byte is `lo`.
pub open spec fn pair(hi: u8, lo: u8) -> u16 {
    (hi as u16 * 256 + lo as u16) as u16
}

/// The high byte of a 16-bit value.
pub open spec fn high_byte(value: u16) -> u8 {
    (value / 256) as u8
}

/// The low byte of a 16-bit value.
pub open spec fn low_byte(value: u16) -> u8 {
    (value % 256) as u8
}

pub fn join_bytes(hi: u8, lo: u8) -> (r: u16)
    ensures
        r == pair(hi, lo),
        high_byte(r) == hi,
        low_byte(r) == lo,
{
    (hi as u16) * 256 + (lo as u16)
}

pub fn split_bytes(value: u16) -> (r: (u8, u8))
    ensures
        r.0 == high_byte(value),
        r.1 == low_byte(value),
        pair(r.0, r.1) == value,
{
    ((value / 256) as u8, (value % 256) as u8)
}

/// The register file.
#[derive(Clone, Copy, Debug)]
pub struct Registers {
    pub a: u8,
    pub flags: Flags,
    pub b: u8,
    pub c: u8,
    pub d: u8,
    pub e: u8,
    pub h: u8,
    pub l: u8,
    pub sp: u16,
    pub pc: u16,
}

impl Default for Registers {
    fn default() -> (r: Registers)
        ensures
            r == (Registers {
                a: 0,
                flags: Flags(0),
                b: 0,
                c: 0,
                d: 0,
                e: 0,
                h: 0,
                l: 0,
                sp: 0,
                pc: 0,
            }),
    {
        Registers { a: 0, flags: Flags(0), b: 0, c: 0, d: 0, e: 0, h: 0, l: 0, sp: 0, pc: 0 }
    }
}

impl Registers {
    /// The 8-bit register that `index` selects: B, C, D, E, H, L, the flags byte, A.
    pub open spec fn spec_get8(&self, index: u8) -> u8 {
        match index {
            0 => self.b,
            1 => self.c,
            2 => self.d,
            3 => self.e,
            4 => self.h,
            5 => self.l,
            6 => self.flags.0,
            _ => self.a,
        }
    }

    /// The register file with the 8-bit register that `index` selects replaced.
    pub open spec fn spec_set8(self, index: u8, value: u8) -> Registers {
        match index {
            0 => Registers { b: value, ..self },
            1 => Registers { c: value, ..self },
            2 => Registers { d: value, ..self },
            3 => Registers { e: value, ..self },
            4 => Registers { h: value, ..self },
            5 => Registers { l: value, ..self },
            6 => Registers { flags: Flags(value), ..self },
            _ => Registers { a: value, ..self },
        }
    }

    pub open spec fn spec_af(&self) -> u16 {
        pair(self.a, self.flags.0)
    }

    pub open spec fn spec_bc(&self) -> u16 {
        pair(self.b, self.c)
    }

    pub open spec fn spec_de(&self) -> u16 {
        pair(self.d, self.e)
    }

    pub open spec fn spec_hl(&self) -> u16 {
        pair(self.h, self.l)
    }

    /// Writing AF keeps only the high nibble of the flags byte.
    pub open spec fn spec_set_af(self, value: u16) -> Registers {
        Registers { a: high_byte(value), flags: Flags(low_byte(value) & 0xF0), ..self }
    }

    pub open spec fn spec_set_bc(self, value: u16) -> Registers {
        Registers { b: high_byte(value), c: low_byte(value), ..self }
    }

    pub open spec fn spec_set_de(self, value: u16) -> Registers {
        Registers { d: high_byte(value), e: low_byte(value), ..self }
    }

    pub open spec fn spec_set_hl(self, value: u16) -> Registers {
        Registers { h: high_byte(value), l: low_byte(value), ..self }
    }

    /// The register pair that `index` selects among BC, DE, HL, with `last` standing for the
    /// fourth.
    pub open spec fn spec_get16(self, index: u8, last: u16) -> u16 {
        match index {
            0 => self.spec_bc(),
            1 => self.spec_de(),
            2 => self.spec_hl(),
            _ => last,
        }
    }

    pub open spec fn spec_get16_with_sp(&self, index: u8) -> u16 {
        self.spec_get16(index, self.sp)
    }

    pub open spec fn spec_get16_with_af(&self, index: u8) -> u16 {
        self.spec_get16(index, self.spec_af())
    }

    pub open spec fn spec_set16_with_sp(self, index: u8, value: u16) -> Registers {
        match index {
            0 => self.spec_set_bc(value),
            1 => self.spec_set_de(value),
            2 => self.spec_set_hl(value),
            _ => Registers { sp: value, ..self },
        }
    }

    pub open spec fn spec_set16_with_af(self, index: u8, value: u16) -> Registers {
        match index {
            0 => self.spec_set_bc(value),
            1 => self.spec_set_de(value),
            2 => self.spec_set_hl(value),
            _ => self.spec_set_af(value),
        }
    }

    #[verifier::when_used_as_spec(spec_get8)]
    pub fn get8(&self, index: u8) -> (r: u8)
        requires
            index < 8,
        ensures
            r == self.spec_get8(index),
    {
        match index {
            0 => self.b,
            1 => self.c,
            2 => self.d,
            3 => self.e,
            4 => self.h,
            5 => self.l,
            6 => self.flags.0,
            _ => self.a,
        }
    }

    pub fn set8(&mut self, index: u8, value: u8)
        requires
            index < 8,
        ensures
            *final(self) == old(self).spec_set8(index, value),
            final(self).spec_get8(index) == value,
            forall|other: u8| other < 8 && other != index ==> final(self).spec_get8(other) == old(
                self,
            ).spec_get8(other),
    {
        match index {
            0 => { self.b = value; },
            1 => { self.c = value; },
            2 => { self.d = value; },
            3 => { self.e = value; },
            4 => { self.h = value; },
            5 => { self.l = value; },
            6 => { self.flags = Flags(value); },
            _ => { self.a = value; },
        }
    }

    #[verifier::when_used_as_spec(spec_af)]
    pub fn af(&self) -> (r: u16)
        ensures
            r == self.spec_af(),
            high_byte(r) == self.a,
            low_byte(r) == self.flags.0,
    {
        join_bytes(self.a, self.flags.0)
    }

    #[verifier::when_used_as_spec(spec_bc)]
    pub fn bc(&self) -> (r: u16)
        ensures
            r == self.spec_bc(),
            high_byte(r) == self.b,
            low_byte(r) == self.c,
    {
        join_bytes(self.b, self.c)
    }

    #[verifier::when_used_as_spec(spec_de)]
    pub fn de(&self) -> (r: u16)
        ensures
            r == self.spec_de(),
            high_byte(r) == self.d,
            low_byte(r) == self.e,
    {
        join_bytes(self.d, self.e)
    }

    #[verifier::when_used_as_spec(spec_hl)]
    pub fn hl(&self) -> (r: u16)
        ensures
            r == self.spec_hl(),
            high_byte(r) == self.h,
            low_byte(r) == self.l,
    {
        join_bytes(self.h, self.l)
    }

    pub fn set_af(&mut self, value: u16)
        ensures
            *final(self) == old(self).spec_set_af(value),
            final(self).flags.0 & 0x0F == 0,
    {
        let (hi, lo) = split_bytes(value);
        self.a = hi;
        self.flags = Flags(lo & 0xF0);
        assert((lo & 0xF0) & 0x0F == 0) by (bit_vector);
    }

    pub fn set_bc(&mut self, value: u16)
        ensures
            *final(self) == old(self).spec_set_bc(value),
            final(self).spec_bc() == value,
    {
        let (hi, lo) = split_bytes(value);
        self.b = hi;
        self.c = lo;
    }

    pub fn set_de(&mut self, value: u16)
        ensures
            *final(self) == old(self).spec_set_de(value),
            final(self).spec_de() == value,
    {
        let (hi, lo) = split_bytes(value);
        self.d = hi;
        self.e = lo;
    }

    pub fn set_hl(&mut self, value: u16)
        ensures
            *final(self) == old(self).spec_set_hl(value),
            final(self).spec_hl() == value,
    {
        let (hi, lo) = split_bytes(value);
        self.h = hi;
        self.l = lo;
    }

    #[verifier::when_used_as_spec(spec_get16_with_sp)]
    pub fn get16_with_sp(&self, index: u8) -> (r: u16)
        requires
            index < 4,
        ensures
            r == self.spec_get16_with_sp(index),
    {
        self.get16(index, self.sp)
    }

    #[verifier::when_used_as_spec(spec_get16_with_af)]
    pub fn get16_with_af(&self, index: u8) -> (r: u16)
        requires
            index < 4,
        ensures
            r == self.spec_get16_with_af(index),
    {
        self.get16(index, self.af())
    }

    pub fn set16_with_sp(&mut self, index: u8, value: u16)
        requires
            index < 4,
        ensures
            *final(self) == old(self).spec_set16_with_sp(index, value),
            final(self).spec_get16_with_sp(index) == value,
    {
        if index == 3 {
            self.sp = value;
        } else {
            self.set16(index, value)
        }
    }

    pub fn set16_with_af(&mut self, index: u8, value: u16)
        requires
            index < 4,
        ensures
            *final(self) == old(self).spec_set16_with_af(index, value),
    {
        if index == 3 {
            self.set_af(value);
        } else {
            self.set16(index, value)
        }
    }

    fn set16(&mut self, index: u8, value: u16)
        requires
            index < 3,
        ensures
            *final(self) == old(self).spec_set16_with_sp(index, value),
            *final(self) == old(self).spec_set16_with_af(index, value),
            final(self).spec_get16(index, 0) == value,
    {
        match index {
            0 => self.set_bc(value),
            1 => self.set_de(value),
            _ => self.set_hl(value),
        }
    }

    fn get16(&self, index: u8, last: u16) -> (r: u16)
        requires
            index < 4,
        ensures
            r == self.spec_get16(index, last),
    {
        match index {
            0 => self.bc(),
            1 => self.de(),
            2 => self.hl(),
            _ => last,
        }
    }
}

/// A register pair is byte-exact with its two halves: joining two bytes and splitting the
/// result gives the bytes back, and splitting a value and joining the halves gives the value
/// back.
pub proof fn pair_is_byte_exact(hi: u8, lo: u8, value: u16)
    ensures
        high_byte(pair(hi, lo)) == hi,
        low_byte(pair(hi, lo)) == lo,
        pair(high_byte(value), low_byte(value)) == value,
{
}

/// Writing a register pair and reading it gives the value back, except that AF keeps only the
/// high nibble of its low byte; a write to one pair leaves the other pairs alone.
pub proof fn pairs_read_back(regs: Registers, value: u16)
    ensures
        regs.spec_set_bc(value).spec_bc() == value,
        regs.spec_set_de(value).spec_de() == value,
        regs.spec_set_hl(value).spec_hl() == value,
        regs.spec_set_af(value).a == high_byte(value),
        regs.spec_set_af(value).flags.0 & 0x0F == 0,
        regs.spec_set_af(value).flags.0 & 0xF0 == low_byte(value) & 0xF0,
        regs.spec_set_bc(value).spec_de() == regs.spec_de(),
        regs.spec_set_bc(value).spec_hl() == regs.spec_hl(),
        regs.spec_set_de(value).spec_bc() == regs.spec_bc(),
        regs.spec_set_hl(value).spec_bc() == regs.spec_bc(),
{
    let lo = low_byte(value);
    assert((lo & 0xF0) & 0x0F == 0 && (lo & 0xF0) & 0xF0 == lo & 0xF0) by (bit_vector);
}

} // verus!
