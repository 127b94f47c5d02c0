//! The four status flags and their packed byte form.

use vstd::prelude::*;
use crate::conditionals::Conditional;

verus! {

/// Bit of the packed byte that holds the zero flag.
pub const Z_BIT_POS: u8 = 0;

/// Bit of the packed byte that holds the subtract flag.
pub const N_BIT_POS: u8 = 1;

/// Bit of the packed byte that holds the half-carry flag.
pub const H_BIT_POS: u8 = 2;

/// Bit of the packed byte that holds the carry flag.
pub const C_BIT_POS: u8 = 3;

/// The status flags: zero, subtract, half-carry and carry.
#[derive(Copy, Clone, Debug, PartialEq, Eq, Structural)]
pub struct RegFlags {
    pub z: bool,
    pub n: bool,
    pub h: bool,
    pub c: bool,
}

impl RegFlags {
    /// The flags with none set.
    pub open spec fn cleared() -> RegFlags {
        RegFlags { z: false, n: false, h: false, c: false }
    }

    /// Whether a branch on `condition` is taken under these flags.
    pub open spec fn meets(self, condition: Conditional) -> bool {
        match condition {
            Conditional::NotZero => !self.z,
            Conditional::Zero => self.z,
            Conditional::NotCarry => !self.c,
            Conditional::Carry => self.c,
            Conditional::Invalid => false,
        }
    }

    /// The packed byte as a number: each flag that is set adds the weight of its bit.
    pub open spec fn packed(self) -> int {
        (if self.z { 1int } else { 0 }) + (if self.n { 2int } else { 0 })
            + (if self.h { 4int } else { 0 }) + (if self.c { 8int } else { 0 })
    }

    /// The flags that a byte holds in its low four bits: bit `k` is set exactly
    /// when the byte, divided by two `k` times, is odd.
    pub open spec fn unpacked(byte: u8) -> RegFlags {
        RegFlags {
            z: byte % 2 == 1,
            n: (byte / 2) % 2 == 1,
            h: (byte / 4) % 2 == 1,
            c: (byte / 8) % 2 == 1,
        }
    }

    /// Resets all four flags.
    pub fn clear(&mut self)
        ensures
            *final(self) == RegFlags::cleared(),
    {
        *self = RegFlags { z: false, n: false, h: false, c: false };
    }

    /// Tells whether a branch on `condition` is taken under these flags.
    /// The reserved condition is never met.
    pub fn is_condition_met(&self, condition: &Conditional) -> (met: bool)
        ensures
            met == self.meets(*condition),
    {
        match *condition {
            Conditional::NotZero => !self.z,
            Conditional::Zero => self.z,
            Conditional::NotCarry => !self.c,
            Conditional::Carry => self.c,
            Conditional::Invalid => false,
        }
    }
}

impl Default for RegFlags {
    fn default() -> (flags: RegFlags)
        ensures
            flags == RegFlags::cleared(),
    {
        RegFlags { z: false, n: false, h: false, c: false }
    }
}

impl From<RegFlags> for u8 {
    fn from(flag: RegFlags) -> (byte: u8) {
        let z: u8 = if flag.z { 1 } else { 0 };
        let n: u8 = if flag.n { 1 } else { 0 };
        let h: u8 = if flag.h { 1 } else { 0 };
        let c: u8 = if flag.c { 1 } else { 0 };
        assert(z << Z_BIT_POS | n << N_BIT_POS | h << H_BIT_POS | c << C_BIT_POS == z + 2 * n + 4
            * h + 8 * c) by (bit_vector)
            requires
                z <= 1,
                n <= 1,
                h <= 1,
                c <= 1,
        ;
        z << Z_BIT_POS | n << N_BIT_POS | h << H_BIT_POS | c << C_BIT_POS
    }
}

impl vstd::std_specs::convert::FromSpecImpl<RegFlags> for u8 {
    open spec fn obeys_from_spec() -> bool {
        true
    }

    open spec fn from_spec(flag: RegFlags) -> u8 {
        flag.packed() as u8
    }
}

impl From<u8> for RegFlags {
    fn from(byte: u8) -> (flags: RegFlags) {
        assert(((byte >> Z_BIT_POS) & 1 != 0) == (byte % 2 == 1)) by (bit_vector);
        assert(((byte >> N_BIT_POS) & 1 != 0) == ((byte / 2) % 2 == 1)) by (bit_vector);
        assert(((byte >> H_BIT_POS) & 1 != 0) == ((byte / 4) % 2 == 1)) by (bit_vector);
        assert(((byte >> C_BIT_POS) & 1 != 0) == ((byte / 8) % 2 == 1)) by (bit_vector);
        let z = ((byte >> Z_BIT_POS) & 0b1) != 0;
        let n = ((byte >> N_BIT_POS) & 0b1) != 0;
        let h = ((byte >> H_BIT_POS) & 0b1) != 0;
        let c = ((byte >> C_BIT_POS) & 0b1) != 0;
        RegFlags { z, n, h, c }
    }
}

impl vstd::std_specs::convert::FromSpecImpl<u8> for RegFlags {
    open spec fn obeys_from_spec() -> bool {
        true
    }

    open spec fn from_spec(byte: u8) -> RegFlags {
        RegFlags::unpacked(byte)
    }
}

/// Packing the flags of a byte gives back the byte's low four bits and
/// nothing of its high four.
pub proof fn lemma_unpack_then_pack(byte: u8)
    ensures
        RegFlags::unpacked(byte).packed() == byte % 16,
        RegFlags::unpacked(byte).packed() == (byte & 0x0f),
{
    assert(byte & 0x0f == byte % 16) by (bit_vector);
}

/// Unpacking the packed byte of any flags gives back those flags.
pub proof fn lemma_pack_then_unpack(flags: RegFlags)
    ensures
        0 <= flags.packed() < 16,
        RegFlags::unpacked(flags.packed() as u8) == flags,
{
}

/// Two bytes hold the same flags exactly when their low four bits agree.
pub proof fn lemma_unpacked_reads_low_nibble(a: u8, b: u8)
    ensures
        RegFlags::unpacked(a) == RegFlags::unpacked(b) <==> a % 16 == b % 16,
{
    lemma_unpack_then_pack(a);
    lemma_unpack_then_pack(b);
}

/// A condition is met exactly when its flag stands as its name says: the
/// zero flag for the first two, the carry flag for the next two. The reserved
/// condition is never met.
pub proof fn lemma_conditions(flags: RegFlags)
    ensures
        flags.meets(Conditional::NotZero) == !flags.z,
        flags.meets(Conditional::Zero) == flags.z,
        flags.meets(Conditional::NotCarry) == !flags.c,
        flags.meets(Conditional::Carry) == flags.c,
        !flags.meets(Conditional::Invalid),
{
}

} // verus!
