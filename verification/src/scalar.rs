//! Binary32 values as bit patterns: classification, sign flip, ordering and
//! halving.
use vstd::prelude::*;
use vstd::arithmetic::power2::pow2;
use vstd::arithmetic::power2::lemma_pow2_unfold;
use vstd::arithmetic::power2::lemma2_to64;

verus! {

/// The bit that carries the sign.
pub const SIGN_BIT: u32 = 0x8000_0000;

/// Magnitude of an infinity. Every larger magnitude is a NaN.
pub const INFINITY_BITS: u32 = 0x7f80_0000;

/// Bit pattern of `1.0`.
pub const ONE_BITS: u32 = 0x3f80_0000;

/// Weight of the lowest exponent bit: the fraction takes the 23 bits below.
pub const EXPONENT_STEP: u32 = 0x0080_0000;

/// An IEEE 754 binary32 value, held as its 32 bits.
///
/// Equality on `Scalar` is equality of bit patterns: it tells `0.0` from
/// `-0.0` and finds a NaN equal to itself.
#[derive(Clone, Copy, PartialEq, Eq, Structural, Debug)]
pub struct Scalar {
    pub bits: u32,
}

impl Scalar {
    pub open spec fn spec_from_bits(bits: u32) -> Scalar {
        Scalar { bits }
    }

    /// The value with the given bit pattern.
    #[verifier::when_used_as_spec(spec_from_bits)]
    pub fn from_bits(bits: u32) -> (r: Scalar)
        ensures
            r == Scalar::spec_from_bits(bits),
    {
        Scalar { bits }
    }

    /// The bit pattern of `self`.
    pub fn to_bits(self) -> (r: u32)
        ensures
            r == self.bits,
    {
        self.bits
    }

    /// The 31 bits below the sign bit: exponent and fraction.
    pub open spec fn magnitude(self) -> int {
        self.bits as int % 0x8000_0000
    }

    pub open spec fn spec_is_negative(self) -> bool {
        self.bits >= SIGN_BIT
    }

    /// Whether the sign bit is set. True of `-0.0` and of half the NaNs.
    #[verifier::when_used_as_spec(spec_is_negative)]
    pub fn is_negative(self) -> (r: bool)
        ensures
            r == self.spec_is_negative(),
    {
        self.bits >= SIGN_BIT
    }

    pub open spec fn spec_is_nan(self) -> bool {
        self.magnitude() > INFINITY_BITS
    }

    /// Whether `self` is a NaN.
    #[verifier::when_used_as_spec(spec_is_nan)]
    pub fn is_nan(self) -> (r: bool)
        ensures
            r == self.spec_is_nan(),
    {
        self.bits % SIGN_BIT > INFINITY_BITS
    }

    pub open spec fn spec_is_finite(self) -> bool {
        self.magnitude() < INFINITY_BITS
    }

    /// Whether `self` is neither an infinity nor a NaN.
    #[verifier::when_used_as_spec(spec_is_finite)]
    pub fn is_finite(self) -> (r: bool)
        ensures
            r == self.spec_is_finite(),
    {
        self.bits % SIGN_BIT < INFINITY_BITS
    }

    /// Position of a non-NaN value on the number line: for two such values,
    /// the one with the smaller rank is the smaller number, and equal ranks
    /// mean equal numbers (both zeros have rank 0).
    pub open spec fn rank(self) -> int {
        if self.spec_is_negative() {
            -self.magnitude()
        } else {
            self.magnitude()
        }
    }

    pub open spec fn spec_neg(self) -> Scalar {
        if self.bits >= SIGN_BIT {
            Scalar { bits: (self.bits - SIGN_BIT) as u32 }
        } else {
            Scalar { bits: (self.bits + SIGN_BIT) as u32 }
        }
    }

    /// `-self`: the same magnitude under the other sign, for every value,
    /// NaNs and zeros included.
    #[verifier::when_used_as_spec(spec_neg)]
    pub fn neg(self) -> (r: Scalar)
        ensures
            r == self.spec_neg(),
    {
        if self.bits >= SIGN_BIT {
            Scalar { bits: self.bits - SIGN_BIT }
        } else {
            Scalar { bits: self.bits + SIGN_BIT }
        }
    }

    pub open spec fn spec_lt(self, other: Scalar) -> bool {
        !self.spec_is_nan() && !other.spec_is_nan() && self.rank() < other.rank()
    }

    /// `self < other` as IEEE 754 orders them: false whenever either side is
    /// a NaN, and `-0.0` is not below `0.0`.
    #[verifier::when_used_as_spec(spec_lt)]
    pub fn lt(self, other: Scalar) -> (r: bool)
        ensures
            r == self.spec_lt(other),
    {
        if self.is_nan() || other.is_nan() {
            return false;
        }
        let a: u32 = self.bits % SIGN_BIT;
        let b: u32 = other.bits % SIGN_BIT;
        if self.is_negative() {
            if other.is_negative() {
                b < a
            } else {
                a > 0 || b > 0
            }
        } else {
            !other.is_negative() && a < b
        }
    }

    pub open spec fn spec_le(self, other: Scalar) -> bool {
        !self.spec_is_nan() && !other.spec_is_nan() && self.rank() <= other.rank()
    }

    /// `self <= other` as IEEE 754 orders them: false whenever either side is
    /// a NaN.
    #[verifier::when_used_as_spec(spec_le)]
    pub fn le(self, other: Scalar) -> (r: bool)
        ensures
            r == self.spec_le(other),
    {
        if self.is_nan() || other.is_nan() {
            return false;
        }
        !other.lt(self)
    }

    /// The size of a finite value, counted in units of 2^-149, the smallest
    /// positive value there is. With exponent field `e` and fraction `f`,
    /// that is `f` where `e` is 0 and `(2^23 + f) * 2^(e - 1)` elsewhere.
    pub open spec fn units(self) -> nat {
        let e = self.magnitude() / 0x80_0000;
        let f = self.magnitude() % 0x80_0000;
        if e == 0 {
            f as nat
        } else {
            ((0x80_0000 + f) * pow2((e - 1) as nat)) as nat
        }
    }

    pub open spec fn spec_halved(self) -> Scalar {
        let m = self.magnitude();
        if m >= INFINITY_BITS {
            self
        } else if m >= 2 * EXPONENT_STEP {
            Scalar { bits: (self.bits - EXPONENT_STEP) as u32 }
        } else {
            let q = m / 2;
            let h = if m % 2 == 1 && q % 2 == 1 {
                q + 1
            } else {
                q
            };
            Scalar { bits: (self.bits - m + h) as u32 }
        }
    }

    /// `self * 0.5`, rounded as IEEE 754 rounds by default: to the nearest
    /// value, and to the one with an even last bit where two are equally
    /// near. Infinities stay what they are, and a NaN comes back unchanged.
    /// [`lemma_halved_is_half`] states the result over [`Scalar::units`].
    #[verifier::when_used_as_spec(spec_halved)]
    pub fn halved(self) -> (r: Scalar)
        ensures
            r == self.spec_halved(),
    {
        let m: u32 = self.bits % SIGN_BIT;
        if m >= INFINITY_BITS {
            self
        } else if m >= 2 * EXPONENT_STEP {
            Scalar { bits: self.bits - EXPONENT_STEP }
        } else {
            let q: u32 = m / 2;
            let h: u32 = if m % 2 == 1 && q % 2 == 1 {
                q + 1
            } else {
                q
            };
            Scalar { bits: self.bits - m + h }
        }
    }
}

/// Halving a finite value gives a finite value of the same sign and of half
/// the size. Where half the size is not a whole number of units, the result
/// is one of the two neighbours, the one with an even number of units.
pub proof fn lemma_halved_is_half(x: Scalar)
    requires
        x.spec_is_finite(),
    ensures
        x.spec_halved().spec_is_finite(),
        x.spec_halved().spec_is_negative() == x.spec_is_negative(),
        x.units() % 2 == 0 ==> 2 * x.spec_halved().units() == x.units(),
        x.units() % 2 == 1 ==> x.spec_halved().units() % 2 == 0 && (2 * x.spec_halved().units()
            == x.units() + 1 || 2 * x.spec_halved().units() == x.units() - 1),
{
    let m = x.magnitude();
    let r = x.spec_halved();
    lemma2_to64();
    if m >= 2 * EXPONENT_STEP {
        let e = m / 0x80_0000;
        let f = m % 0x80_0000;
        assert(r.magnitude() == m - 0x80_0000);
        assert(r.magnitude() / 0x80_0000 == e - 1);
        assert(r.magnitude() % 0x80_0000 == f);
        lemma_pow2_unfold((e - 1) as nat);
        let p = pow2((e - 2) as nat);
        assert(pow2((e - 1) as nat) == 2 * p);
        assert((0x80_0000 + f) * (2 * p) == 2 * ((0x80_0000 + f) * p)) by (nonlinear_arith);
        assert((0x80_0000 + f) * p >= 0) by (nonlinear_arith)
            requires
                f >= 0,
                p >= 0,
        ;
    } else {
        lemma_small_units(x);
        lemma_small_units(r);
    }
}

/// Below exponent field 2 the magnitude counts the units itself.
proof fn lemma_small_units(x: Scalar)
    requires
        x.magnitude() < 2 * EXPONENT_STEP,
    ensures
        x.units() == x.magnitude(),
{
    let e = x.magnitude() / 0x80_0000;
    let f = x.magnitude() % 0x80_0000;
    lemma2_to64();
    if e != 0 {
        assert(e == 1);
        assert(pow2((e - 1) as nat) == 1);
        assert((0x80_0000 + f) * 1 == 0x80_0000 + f);
    }
}

/// Halving leaves an infinity or a NaN unchanged.
pub proof fn lemma_halved_keeps_non_finite(x: Scalar)
    requires
        !x.spec_is_finite(),
    ensures
        x.spec_halved() == x,
{
}

/// Negating twice gives back the same bits.
pub proof fn lemma_neg_involution(x: Scalar)
    ensures
        x.spec_neg().spec_neg() == x,
{
}

/// Negation keeps the magnitude, flips the sign and mirrors the rank.
pub proof fn lemma_neg_mirrors(x: Scalar)
    ensures
        x.spec_neg().magnitude() == x.magnitude(),
        x.spec_neg().spec_is_negative() == !x.spec_is_negative(),
        x.spec_neg().spec_is_nan() == x.spec_is_nan(),
        x.spec_neg().rank() == -x.rank(),
{
}

/// On values that are not NaN, `le` is a total preorder and `lt` is its
/// strict part.
pub proof fn lemma_order_total(x: Scalar, y: Scalar, z: Scalar)
    requires
        !x.spec_is_nan(),
        !y.spec_is_nan(),
        !z.spec_is_nan(),
    ensures
        x.spec_le(x),
        x.spec_le(y) || y.spec_le(x),
        x.spec_le(y) && y.spec_le(z) ==> x.spec_le(z),
        x.spec_lt(y) <==> !y.spec_le(x),
{
}

} // verus!
