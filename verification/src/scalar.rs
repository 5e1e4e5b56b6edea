//! Real parameters as single-precision bit patterns.

use vstd::prelude::*;

verus! {

/// The sign bit of a single-precision bit pattern.
pub const SIGN_MASK: u32 = 0x8000_0000;

/// The eight exponent bits.
pub const EXPONENT_MASK: u32 = 0x7f80_0000;

/// Every bit but the sign.
pub const MAGNITUDE_MASK: u32 = 0x7fff_ffff;

/// A real parameter of the sky, held as the bit pattern of an IEEE 754
/// single-precision number: one sign bit, eight exponent bits, twenty-three
/// fraction bits.
///
/// The sky subsystem never computes with its parameters. It stores them,
/// copies them, compares them for identity and flips a sign; all of that is
/// exact on the bit pattern. Two scalars are equal when their bits are, so
/// the two zeros differ and a not-a-number equals itself.
#[derive(Clone, Copy, Debug, PartialEq, Eq, Structural)]
pub struct Scalar {
    pub bits: u32,
}

impl Scalar {
    /// Whether the sign bit is set.
    pub open spec fn sign_negative(self) -> bool {
        self.bits & SIGN_MASK != 0
    }

    /// The bits without the sign. Among finite scalars a larger magnitude
    /// is a larger absolute value.
    pub open spec fn magnitude(self) -> u32 {
        self.bits & MAGNITUDE_MASK
    }

    /// Neither an infinity nor a not-a-number: the exponent is not all ones.
    pub open spec fn finite(self) -> bool {
        self.bits & EXPONENT_MASK != EXPONENT_MASK
    }

    /// Positive or negative zero.
    pub open spec fn zero(self) -> bool {
        self.bits & MAGNITUDE_MASK == 0
    }

    /// Not a number: the exponent is all ones and the fraction is not zero.
    pub open spec fn nan(self) -> bool {
        self.magnitude() > EXPONENT_MASK
    }

    /// A number below zero: the sign is set, and the scalar is neither a
    /// zero nor a not-a-number.
    pub open spec fn negative(self) -> bool {
        self.sign_negative() && !self.zero() && !self.nan()
    }

    /// Equality of the numbers that two scalars stand for: the two zeros
    /// are equal, and a not-a-number equals nothing, not even itself.
    pub open spec fn same_number(self, other: Scalar) -> bool {
        &&& !self.nan()
        &&& !other.nan()
        &&& self.bits == other.bits || (self.zero() && other.zero())
    }

    /// A finite number above zero: the bits lie strictly between those of
    /// positive zero and those of positive infinity. Among such scalars the
    /// larger number has the larger bits.
    pub open spec fn positive(self) -> bool {
        0 < self.bits < EXPONENT_MASK
    }

    /// The scalar with its sign flipped.
    pub open spec fn negated(self) -> Scalar {
        Scalar { bits: self.bits ^ SIGN_MASK }
    }

    /// The scalar with its sign cleared.
    pub open spec fn absolute(self) -> Scalar {
        Scalar { bits: self.bits & MAGNITUDE_MASK }
    }

    /// The scalar with the given bit pattern.
    pub fn from_bits(bits: u32) -> (s: Scalar)
        ensures
            s.bits == bits,
    {
        Scalar { bits }
    }

    /// The bit pattern of the scalar.
    pub fn to_bits(self) -> (bits: u32)
        ensures
            bits == self.bits,
    {
        self.bits
    }

    /// Negation, as the unary minus of the number: the sign bit is flipped
    /// and nothing else, for zeros, infinities and not-a-numbers too.
    pub fn neg(self) -> (s: Scalar)
        ensures
            s == self.negated(),
    {
        Scalar { bits: self.bits ^ SIGN_MASK }
    }

    /// The absolute value: the sign bit is cleared.
    pub fn abs(self) -> (s: Scalar)
        ensures
            s == self.absolute(),
    {
        Scalar { bits: self.bits & MAGNITUDE_MASK }
    }

    /// Whether the sign bit is set.
    pub fn is_sign_negative(self) -> (b: bool)
        ensures
            b == self.sign_negative(),
    {
        self.bits & SIGN_MASK != 0
    }

    /// Whether the scalar is neither infinite nor a not-a-number.
    pub fn is_finite(self) -> (b: bool)
        ensures
            b == self.finite(),
    {
        self.bits & EXPONENT_MASK != EXPONENT_MASK
    }

    /// Whether the scalar is one of the two zeros.
    pub fn is_zero(self) -> (b: bool)
        ensures
            b == self.zero(),
    {
        self.bits & MAGNITUDE_MASK == 0
    }

    /// Whether the scalar is not a number.
    pub fn is_nan(self) -> (b: bool)
        ensures
            b == self.nan(),
    {
        self.bits & MAGNITUDE_MASK > EXPONENT_MASK
    }

    /// Whether the scalar is a number below zero.
    pub fn is_negative(self) -> (b: bool)
        ensures
            b == self.negative(),
    {
        self.is_sign_negative() && !self.is_zero() && !self.is_nan()
    }

    /// Whether the two scalars stand for the same number.
    pub fn is_same_number(self, other: Scalar) -> (b: bool)
        ensures
            b == self.same_number(other),
    {
        !self.is_nan() && !other.is_nan() && (self.bits == other.bits || (self.is_zero()
            && other.is_zero()))
    }

    /// Whether the scalar is a finite number above zero.
    pub fn is_positive(self) -> (b: bool)
        ensures
            b == self.positive(),
    {
        0 < self.bits && self.bits < EXPONENT_MASK
    }
}

/// Below the bits of positive infinity lie the finite scalars of clear
/// sign, and only they; the one zero among them has no bit set. So a
/// positive scalar is finite, of clear sign and no zero.
pub proof fn lemma_bits_below_infinity(s: Scalar)
    ensures
        s.bits < EXPONENT_MASK <==> s.finite() && !s.sign_negative(),
        s.bits == 0 <==> s.zero() && !s.sign_negative(),
        s.positive() <==> s.finite() && !s.sign_negative() && !s.zero(),
{
    let b = s.bits;
    assert(b < 0x7f80_0000u32 <==> (b & 0x7f80_0000u32 != 0x7f80_0000u32) && !(b & 0x8000_0000u32
        != 0)) by (bit_vector);
    assert(b == 0 <==> (b & 0x7fff_ffffu32 == 0) && !(b & 0x8000_0000u32 != 0)) by (bit_vector);
}

/// Negation flips the sign and keeps the magnitude, so it keeps finiteness
/// and zeroness, and the absolute value does not see it.
pub proof fn lemma_neg_keeps_magnitude(s: Scalar)
    ensures
        s.negated().sign_negative() == !s.sign_negative(),
        s.negated().magnitude() == s.magnitude(),
        s.negated().finite() == s.finite(),
        s.negated().zero() == s.zero(),
        s.negated().absolute() == s.absolute(),
{
    let b = s.bits;
    assert(((b ^ 0x8000_0000u32) & 0x8000_0000u32 != 0) == !(b & 0x8000_0000u32 != 0))
        by (bit_vector);
    assert((b ^ 0x8000_0000u32) & 0x7fff_ffffu32 == b & 0x7fff_ffffu32) by (bit_vector);
    assert((b ^ 0x8000_0000u32) & 0x7f80_0000u32 == b & 0x7f80_0000u32) by (bit_vector);
}

/// The absolute value has a clear sign and the same magnitude. It is the
/// scalar itself, bit for bit, exactly when the scalar's sign is clear, and
/// it stands for the same number exactly when the scalar is a number and
/// not below zero.
pub proof fn lemma_abs(s: Scalar)
    ensures
        !s.absolute().sign_negative(),
        s.absolute().magnitude() == s.magnitude(),
        s.absolute().absolute() == s.absolute(),
        !s.sign_negative() <==> s.absolute() == s,
        !s.nan() && !s.negative() <==> s.absolute().same_number(s),
{
    let b = s.bits;
    assert((b & 0x7fff_ffffu32) & 0x8000_0000u32 == 0) by (bit_vector);
    assert((b & 0x7fff_ffffu32) & 0x7fff_ffffu32 == b & 0x7fff_ffffu32) by (bit_vector);
    assert((b & 0x8000_0000u32 == 0) <==> (b & 0x7fff_ffffu32 == b)) by (bit_vector);
}

} // verus!
