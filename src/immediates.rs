use vstd::prelude::*;
use crate::emitter::le_bytes;

verus! {

/// Two's complement of `v` on `n` bytes, read as an unsigned number.
pub open spec fn twos_complement(v: int, n: nat) -> nat {
    if v >= 0 {
        v as nat
    } else {
        (v + vstd::arithmetic::power2::pow2(8 * n)) as nat
    }
}

/// An operand that is written out as a little-endian displacement or immediate.
pub trait AsDisplacement: Sized + Copy {
    /// The bytes written for this operand.
    spec fn displacement_bytes(self) -> Seq<u8>;

    /// Bits and width in bytes of the operand.
    fn displacement(self) -> (r: (u64, usize))
        ensures
            r.1 <= 8,
            le_bytes(r.0 as nat, r.1 as nat) == self.displacement_bytes(),
    ;
}

/// An immediate value of a fixed width.
pub trait Immediate: Sized + Copy {
    /// Underlying signed value.
    spec fn spec_value(self) -> int;

    /// Width in bytes.
    spec fn spec_width() -> nat;

    /// Underlying signed value.
    fn value(self) -> (r: i64)
        ensures
            r == self.spec_value(),
    ;

    /// Zero.
    fn zero() -> (r: Self)
        ensures
            r.spec_value() == 0,
    ;

    /// One.
    fn one() -> (r: Self)
        ensures
            r.spec_value() == 1,
    ;

    /// Minimum.
    fn minimum() -> (r: Self)
        ensures
            r.spec_value() == -vstd::arithmetic::power2::pow2((8 * Self::spec_width() - 1) as nat),
    ;

    /// Maximum.
    fn maximum() -> (r: Self)
        ensures
            r.spec_value() == vstd::arithmetic::power2::pow2((8 * Self::spec_width() - 1) as nat) - 1,
    ;
}

/// An 8-bit immediate.
#[derive(Debug, Clone, Copy, PartialEq, Eq, Structural, Hash, Default)]
pub struct Immediate8Bit(pub i8);

/// A 16-bit immediate.
#[derive(Debug, Clone, Copy, PartialEq, Eq, Structural, Hash, Default)]
pub struct Immediate16Bit(pub i16);

/// A 32-bit immediate.
#[derive(Debug, Clone, Copy, PartialEq, Eq, Structural, Hash, Default)]
pub struct Immediate32Bit(pub i32);

/// A 64-bit immediate.
#[derive(Debug, Clone, Copy, PartialEq, Eq, Structural, Hash, Default)]
pub struct Immediate64Bit(pub i64);

impl Immediate for Immediate8Bit {
    open spec fn spec_value(self) -> int {
        self.0 as int
    }

    open spec fn spec_width() -> nat {
        1
    }

    fn value(self) -> (r: i64) {
        self.0 as i64
    }

    fn zero() -> (r: Self) {
        Immediate8Bit(0)
    }

    fn one() -> (r: Self) {
        Immediate8Bit(1)
    }

    fn minimum() -> (r: Self) {
        proof {
            vstd::arithmetic::power2::lemma2_to64();
        }
        Immediate8Bit(i8::MIN)
    }

    fn maximum() -> (r: Self) {
        proof {
            vstd::arithmetic::power2::lemma2_to64();
        }
        Immediate8Bit(i8::MAX)
    }
}

impl Immediate for Immediate16Bit {
    open spec fn spec_value(self) -> int {
        self.0 as int
    }

    open spec fn spec_width() -> nat {
        2
    }

    fn value(self) -> (r: i64) {
        self.0 as i64
    }

    fn zero() -> (r: Self) {
        Immediate16Bit(0)
    }

    fn one() -> (r: Self) {
        Immediate16Bit(1)
    }

    fn minimum() -> (r: Self) {
        proof {
            vstd::arithmetic::power2::lemma2_to64();
        }
        Immediate16Bit(i16::MIN)
    }

    fn maximum() -> (r: Self) {
        proof {
            vstd::arithmetic::power2::lemma2_to64();
        }
        Immediate16Bit(i16::MAX)
    }
}

impl Immediate for Immediate32Bit {
    open spec fn spec_value(self) -> int {
        self.0 as int
    }

    open spec fn spec_width() -> nat {
        4
    }

    fn value(self) -> (r: i64) {
        self.0 as i64
    }

    fn zero() -> (r: Self) {
        Immediate32Bit(0)
    }

    fn one() -> (r: Self) {
        Immediate32Bit(1)
    }

    fn minimum() -> (r: Self) {
        proof {
            vstd::arithmetic::power2::lemma2_to64();
        }
        Immediate32Bit(i32::MIN)
    }

    fn maximum() -> (r: Self) {
        proof {
            vstd::arithmetic::power2::lemma2_to64();
        }
        Immediate32Bit(i32::MAX)
    }
}

impl Immediate for Immediate64Bit {
    open spec fn spec_value(self) -> int {
        self.0 as int
    }

    open spec fn spec_width() -> nat {
        8
    }

    fn value(self) -> (r: i64) {
        self.0
    }

    fn zero() -> (r: Self) {
        Immediate64Bit(0)
    }

    fn one() -> (r: Self) {
        Immediate64Bit(1)
    }

    fn minimum() -> (r: Self) {
        proof {
            vstd::arithmetic::power2::lemma2_to64();
            vstd::arithmetic::power2::lemma2_to64_rest();
        }
        Immediate64Bit(i64::MIN)
    }

    fn maximum() -> (r: Self) {
        proof {
            vstd::arithmetic::power2::lemma2_to64();
            vstd::arithmetic::power2::lemma2_to64_rest();
        }
        Immediate64Bit(i64::MAX)
    }
}

impl AsDisplacement for Immediate8Bit {
    open spec fn displacement_bytes(self) -> Seq<u8> {
        le_bytes(twos_complement(self.0 as int, 1), 1)
    }

    fn displacement(self) -> (r: (u64, usize)) {
        proof {
            vstd::arithmetic::power2::lemma2_to64();
        }
        let v = self.0;
        if v >= 0 {
            (v as u64, 1)
        } else {
            ((v as i64 + 256) as u64, 1)
        }
    }
}

impl AsDisplacement for Immediate16Bit {
    open spec fn displacement_bytes(self) -> Seq<u8> {
        le_bytes(twos_complement(self.0 as int, 2), 2)
    }

    fn displacement(self) -> (r: (u64, usize)) {
        proof {
            vstd::arithmetic::power2::lemma2_to64();
        }
        let v = self.0;
        if v >= 0 {
            (v as u64, 2)
        } else {
            ((v as i64 + 0x1_0000) as u64, 2)
        }
    }
}

impl AsDisplacement for Immediate32Bit {
    open spec fn displacement_bytes(self) -> Seq<u8> {
        le_bytes(twos_complement(self.0 as int, 4), 4)
    }

    fn displacement(self) -> (r: (u64, usize)) {
        proof {
            vstd::arithmetic::power2::lemma2_to64();
        }
        let v = self.0;
        if v >= 0 {
            (v as u64, 4)
        } else {
            ((v as i64 + 0x1_0000_0000) as u64, 4)
        }
    }
}

impl AsDisplacement for Immediate64Bit {
    open spec fn displacement_bytes(self) -> Seq<u8> {
        le_bytes(twos_complement(self.0 as int, 8), 8)
    }

    fn displacement(self) -> (r: (u64, usize)) {
        proof {
            vstd::arithmetic::power2::lemma2_to64();
        }
        let v = self.0;
        if v >= 0 {
            (v as u64, 8)
        } else {
            let magnitude_less_one = (-(v + 1)) as u64;
            (u64::MAX - magnitude_less_one, 8)
        }
    }
}

} // verus!
