//! The flags that modify one message of a combined transaction.
//!
//! The two sets are kept apart as types because the same quirk has another bit
//! in each; the numbers are those that Linux's I2C controllers expect.

use vstd::prelude::*;

verus! {

/// Flags to work around device quirks when reading.
#[derive(Clone, Copy, Debug, PartialEq, Eq, Structural, Hash)]
pub struct ReadFlags {
    bits: u16,
}

impl View for ReadFlags {
    type V = u16;

    closed spec fn view(&self) -> u16 {
        self.bits
    }
}

impl Default for ReadFlags {
    /// The empty set.
    fn default() -> (flags: Self)
        ensures
            flags@ == 0,
    {
        ReadFlags::empty()
    }
}

impl ReadFlags {
    /// The first received byte will indicate the remaining length of the transfer.
    pub const RECEIVE_LEN: u16 = 0x01;

    /// NACK bit is generated for this read.
    pub const NACK: u16 = 0x02;

    /// Flips the meaning of the read/write address bit for misbehaving devices.
    pub const REVERSE_RW: u16 = 0x04;

    /// Do not generate a START condition or the address start byte. When
    /// used for the first message, a START condition is still generated.
    ///
    /// This can be used to combine multiple buffers into a single I2C transfer,
    /// usually without a direction change.
    pub const NO_START: u16 = 0x08;

    /// Force a STOP condition after this message.
    pub const STOP: u16 = 0x10;

    /// Every bit that has a meaning.
    pub const ALL: u16 = 0x1f;

    #[verifier::type_invariant]
    closed spec fn known_bits_only(self) -> bool {
        Self::known(self.bits)
    }

    /// Whether `bits` holds no bit without a meaning. The bits with a meaning
    /// are the lowest ones, so that is a bound.
    pub open spec fn known(bits: u16) -> bool {
        bits <= Self::ALL
    }

    /// Every bit of `other` is set in `self`.
    pub open spec fn has(&self, other: u16) -> bool {
        self@ & other == other
    }

    /// Two sets with the same bits are the same set.
    pub proof fn lemma_same_bits(self, other: Self)
        requires
            self@ == other@,
        ensures
            self == other,
    {
    }

    /// The set without any flag.
    pub fn empty() -> (flags: Self)
        ensures
            flags@ == 0,
    {
        ReadFlags { bits: 0 }
    }

    /// The set of all flags.
    pub fn all() -> (flags: Self)
        ensures
            flags@ == Self::ALL,
    {
        ReadFlags { bits: 0x1f }
    }

    /// The flags as a number.
    pub fn bits(&self) -> (bits: u16)
        ensures
            bits == self@,
            Self::known(bits),
    {
        proof {
            use_type_invariant(self);
        }
        self.bits
    }

    /// The set that `bits` stands for, unless a bit of it has no meaning.
    pub fn from_bits(bits: u16) -> (flags: Option<Self>)
        ensures
            flags is Some <==> Self::known(bits),
            flags matches Some(f) ==> f@ == bits,
    {
        if bits <= 0x1f {
            Some(ReadFlags { bits })
        } else {
            None
        }
    }

    /// The set that `bits` stands for once the bits without a meaning are
    /// dropped.
    pub fn from_bits_truncate(bits: u16) -> (flags: Self)
        ensures
            flags@ == bits & Self::ALL,
    {
        let kept: u16 = bits & 0x1fu16;
        assert(kept <= 0x1f) by (bit_vector)
            requires
                kept == bits & 0x1fu16,
        ;
        ReadFlags { bits: kept }
    }

    /// Whether no flag is set.
    pub fn is_empty(&self) -> (none: bool)
        ensures
            none <==> self@ == 0,
    {
        self.bits == 0
    }

    /// Whether every flag of `other` is set in `self`.
    pub fn contains(&self, other: Self) -> (all: bool)
        ensures
            all <==> self.has(other@),
    {
        self.bits & other.bits == other.bits
    }

    /// Whether some flag of `other` is set in `self`.
    pub fn intersects(&self, other: Self) -> (some: bool)
        ensures
            some <==> self@ & other@ != 0,
    {
        self.bits & other.bits != 0
    }

    /// The flags of either set.
    pub fn union(self, other: Self) -> (flags: Self)
        ensures
            flags@ == self@ | other@,
    {
        proof {
            use_type_invariant(self);
            use_type_invariant(other);
        }
        let a: u16 = self.bits;
        let b: u16 = other.bits;
        assert((a | b) <= 0x1f) by (bit_vector)
            requires
                a <= 0x1f,
                b <= 0x1f,
        ;
        ReadFlags { bits: a | b }
    }

    /// The flags of both sets: what is left of a request once it is masked by
    /// what a master supports.
    pub fn intersection(self, other: Self) -> (flags: Self)
        ensures
            flags@ == self@ & other@,
    {
        proof {
            use_type_invariant(self);
        }
        let a: u16 = self.bits;
        let b: u16 = other.bits;
        assert((a & b) <= 0x1f) by (bit_vector)
            requires
                a <= 0x1f,
        ;
        ReadFlags { bits: a & b }
    }

    /// Sets the flags of `other`.
    pub fn insert(&mut self, other: Self)
        ensures
            final(self)@ == old(self)@ | other@,
    {
        *self = self.union(other);
    }

    /// Clears the flags of `other`.
    pub fn remove(&mut self, other: Self)
        ensures
            final(self)@ == old(self)@ & !other@,
    {
        proof {
            use_type_invariant(&*self);
        }
        let a: u16 = self.bits;
        let b: u16 = other.bits;
        assert((a & !b) <= 0x1f) by (bit_vector)
            requires
                a <= 0x1f,
        ;
        *self = ReadFlags { bits: a & !b };
    }
}

/// Flags to work around device quirks when writing.
#[derive(Clone, Copy, Debug, PartialEq, Eq, Structural, Hash)]
pub struct WriteFlags {
    bits: u16,
}

impl View for WriteFlags {
    type V = u16;

    closed spec fn view(&self) -> u16 {
        self.bits
    }
}

impl Default for WriteFlags {
    /// The empty set.
    fn default() -> (flags: Self)
        ensures
            flags@ == 0,
    {
        WriteFlags::empty()
    }
}

impl WriteFlags {
    /// Treat NACK as an ACK and prevent it from interrupting the transfer.
    pub const IGNORE_NACK: u16 = 0x01;

    /// Flips the meaning of the read/write address bit for misbehaving devices.
    pub const REVERSE_RW: u16 = 0x02;

    /// Do not generate a START condition or the address start byte. When
    /// used for the first message, a START condition is still generated.
    ///
    /// This can be used to combine multiple buffers into a single I2C transfer,
    /// usually without a direction change.
    pub const NO_START: u16 = 0x04;

    /// Force a STOP condition after this message.
    pub const STOP: u16 = 0x08;

    /// Every bit that has a meaning.
    pub const ALL: u16 = 0x0f;

    #[verifier::type_invariant]
    closed spec fn known_bits_only(self) -> bool {
        Self::known(self.bits)
    }

    /// Whether `bits` holds no bit without a meaning. The bits with a meaning
    /// are the lowest ones, so that is a bound.
    pub open spec fn known(bits: u16) -> bool {
        bits <= Self::ALL
    }

    /// Every bit of `other` is set in `self`.
    pub open spec fn has(&self, other: u16) -> bool {
        self@ & other == other
    }

    /// Two sets with the same bits are the same set.
    pub proof fn lemma_same_bits(self, other: Self)
        requires
            self@ == other@,
        ensures
            self == other,
    {
    }

    /// The set without any flag.
    pub fn empty() -> (flags: Self)
        ensures
            flags@ == 0,
    {
        WriteFlags { bits: 0 }
    }

    /// The set of all flags.
    pub fn all() -> (flags: Self)
        ensures
            flags@ == Self::ALL,
    {
        WriteFlags { bits: 0x0f }
    }

    /// The flags as a number.
    pub fn bits(&self) -> (bits: u16)
        ensures
            bits == self@,
            Self::known(bits),
    {
        proof {
            use_type_invariant(self);
        }
        self.bits
    }

    /// The set that `bits` stands for, unless a bit of it has no meaning.
    pub fn from_bits(bits: u16) -> (flags: Option<Self>)
        ensures
            flags is Some <==> Self::known(bits),
            flags matches Some(f) ==> f@ == bits,
    {
        if bits <= 0x0f {
            Some(WriteFlags { bits })
        } else {
            None
        }
    }

    /// The set that `bits` stands for once the bits without a meaning are
    /// dropped.
    pub fn from_bits_truncate(bits: u16) -> (flags: Self)
        ensures
            flags@ == bits & Self::ALL,
    {
        let kept: u16 = bits & 0x0fu16;
        assert(kept <= 0x0f) by (bit_vector)
            requires
                kept == bits & 0x0fu16,
        ;
        WriteFlags { bits: kept }
    }

    /// Whether no flag is set.
    pub fn is_empty(&self) -> (none: bool)
        ensures
            none <==> self@ == 0,
    {
        self.bits == 0
    }

    /// Whether every flag of `other` is set in `self`.
    pub fn contains(&self, other: Self) -> (all: bool)
        ensures
            all <==> self.has(other@),
    {
        self.bits & other.bits == other.bits
    }

    /// Whether some flag of `other` is set in `self`.
    pub fn intersects(&self, other: Self) -> (some: bool)
        ensures
            some <==> self@ & other@ != 0,
    {
        self.bits & other.bits != 0
    }

    /// The flags of either set.
    pub fn union(self, other: Self) -> (flags: Self)
        ensures
            flags@ == self@ | other@,
    {
        proof {
            use_type_invariant(self);
            use_type_invariant(other);
        }
        let a: u16 = self.bits;
        let b: u16 = other.bits;
        assert((a | b) <= 0x0f) by (bit_vector)
            requires
                a <= 0x0f,
                b <= 0x0f,
        ;
        WriteFlags { bits: a | b }
    }

    /// The flags of both sets: what is left of a request once it is masked by
    /// what a master supports.
    pub fn intersection(self, other: Self) -> (flags: Self)
        ensures
            flags@ == self@ & other@,
    {
        proof {
            use_type_invariant(self);
        }
        let a: u16 = self.bits;
        let b: u16 = other.bits;
        assert((a & b) <= 0x0f) by (bit_vector)
            requires
                a <= 0x0f,
        ;
        WriteFlags { bits: a & b }
    }

    /// Sets the flags of `other`.
    pub fn insert(&mut self, other: Self)
        ensures
            final(self)@ == old(self)@ | other@,
    {
        *self = self.union(other);
    }

    /// Clears the flags of `other`.
    pub fn remove(&mut self, other: Self)
        ensures
            final(self)@ == old(self)@ & !other@,
    {
        proof {
            use_type_invariant(&*self);
        }
        let a: u16 = self.bits;
        let b: u16 = other.bits;
        assert((a & !b) <= 0x0f) by (bit_vector)
            requires
                a <= 0x0f,
        ;
        *self = WriteFlags { bits: a & !b };
    }
}

} // verus!
