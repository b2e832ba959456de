//! Bit fields of an instruction byte.

use vstd::prelude::*;
use crate::bits::{get_bits, spec_get_bits};

verus! {

/// A single instruction byte.
#[derive(Clone, Copy, Debug)]
pub struct Opcode(pub u8);

impl Opcode {
    /// Bits 3 to 5: the destination register, or the bit number of a bit operation.
    pub open spec fn spec_xxx(&self) -> u8 {
        spec_get_bits(self.0, 3, 6)
    }

    /// Bits 0 to 2: the source register.
    pub open spec fn spec_yyy(&self) -> u8 {
        spec_get_bits(self.0, 0, 3)
    }

    /// Bits 4 and 5: the register pair.
    pub open spec fn spec_rr(&self) -> u8 {
        spec_get_bits(self.0, 4, 6)
    }

    /// Bits 3 and 4: the flag condition.
    pub open spec fn spec_ff(&self) -> u8 {
        spec_get_bits(self.0, 3, 5)
    }

    #[verifier::when_used_as_spec(spec_xxx)]
    pub fn xxx(&self) -> (r: u8)
        ensures
            r == self.spec_xxx(),
            r < 8,
            r as int == (self.0 as int / 8) % 8,
    {
        proof {
            lemma_fields(self.0);
        }
        get_bits(self.0, 3, 6)
    }

    #[verifier::when_used_as_spec(spec_yyy)]
    pub fn yyy(&self) -> (r: u8)
        ensures
            r == self.spec_yyy(),
            r < 8,
            r as int == self.0 as int % 8,
    {
        proof {
            lemma_fields(self.0);
        }
        get_bits(self.0, 0, 3)
    }

    #[verifier::when_used_as_spec(spec_rr)]
    pub fn rr(&self) -> (r: u8)
        ensures
            r == self.spec_rr(),
            r < 4,
            r as int == (self.0 as int / 16) % 4,
    {
        proof {
            lemma_fields(self.0);
        }
        get_bits(self.0, 4, 6)
    }

    #[verifier::when_used_as_spec(spec_ff)]
    pub fn ff(&self) -> (r: u8)
        ensures
            r == self.spec_ff(),
            r < 4,
            r as int == (self.0 as int / 8) % 4,
    {
        proof {
            lemma_fields(self.0);
        }
        get_bits(self.0, 3, 5)
    }
}

/// The four fields of an instruction byte, as quotients and remainders.
pub proof fn lemma_fields(op: u8)
    ensures
        spec_get_bits(op, 3, 6) == (op / 8) % 8,
        spec_get_bits(op, 0, 3) == op % 8,
        spec_get_bits(op, 4, 6) == (op / 16) % 4,
        spec_get_bits(op, 3, 5) == (op / 8) % 4,
{
    assert(((1u16 << 3u8) - 1) as u8 == 7u8) by (bit_vector);
    assert(((1u16 << 2u8) - 1) as u8 == 3u8) by (bit_vector);
    assert((op >> 3u8) & 7u8 == (op / 8) % 8 && (op >> 0u8) & 7u8 == op % 8 && (op >> 4u8) & 3u8
        == (op / 16) % 4 && (op >> 3u8) & 3u8 == (op / 8) % 4) by (bit_vector);
}

} // verus!
