//! Numbers as the kernel carries them.
//!
//! The kernel never rounds: it compares, negates and selects. A number is
//! therefore held as the 64-bit pattern of a binary64 value (one sign bit,
//! eleven exponent bits, fifty-two fraction bits) and every operation here is
//! exact on that pattern. Arithmetic that rounds belongs to the caller.

use vstd::prelude::*;
use vstd::arithmetic::power2::{lemma_pow2_pos, lemma_pow2_strictly_increases, lemma_pow2_unfold, pow2};

verus! {

/// The sign bit of a pattern.
pub const SIGN_BIT: u64 = 0x8000_0000_0000_0000;

/// The magnitude of an infinity. Larger magnitudes are not numbers.
pub const INFINITE: u64 = 0x7ff0_0000_0000_0000;

/// The weight of the lowest exponent bit within a magnitude: two to the
/// fifty-second.
pub const FRACTION_SPAN: u64 = 0x10_0000_0000_0000;

/// A binary64 value, by its bit pattern.
#[derive(Clone, Copy, Debug, PartialEq, Eq, Structural)]
pub struct Scalar {
    pub bits: u64,
}

impl Scalar {
    /// The pattern without its sign bit.
    pub open spec fn magnitude(self) -> u64 {
        if self.bits >= SIGN_BIT {
            (self.bits - SIGN_BIT) as u64
        } else {
            self.bits
        }
    }

    /// The sign bit is set.
    pub open spec fn sign(self) -> bool {
        self.bits >= SIGN_BIT
    }

    /// The pattern stands for no number.
    pub open spec fn nan(self) -> bool {
        self.magnitude() > INFINITE
    }

    /// The place of a number in the order of all numbers: its magnitude,
    /// counted downwards from zero where the sign bit is set. The two zeros
    /// share the place 0, the infinities stand at the two ends.
    pub open spec fn rank(self) -> int {
        if self.sign() {
            -(self.magnitude() as int)
        } else {
            self.magnitude() as int
        }
    }

    /// The exponent field of the pattern.
    pub open spec fn exponent(self) -> nat {
        (self.magnitude() / FRACTION_SPAN) as nat
    }

    /// The fraction field of the pattern.
    pub open spec fn fraction(self) -> nat {
        (self.magnitude() % FRACTION_SPAN) as nat
    }

    /// The absolute value of the number that a pattern below the infinities
    /// stands for, counted in units of two to the minus 1074: the fraction
    /// alone where the exponent field is zero, and else the fraction under a
    /// leading one, doubled once for each exponent above one.
    pub open spec fn size(self) -> nat {
        if self.exponent() == 0 {
            self.fraction()
        } else {
            ((FRACTION_SPAN + self.fraction()) * pow2((self.exponent() - 1) as nat)) as nat
        }
    }

    /// The number that a pattern below the infinities stands for, in units
    /// of two to the minus 1074.
    pub open spec fn value(self) -> int {
        if self.sign() {
            -(self.size() as int)
        } else {
            self.size() as int
        }
    }

    /// `self < other` between numbers; false as soon as one side is no number.
    pub open spec fn lt(self, other: Scalar) -> bool {
        !self.nan() && !other.nan() && self.rank() < other.rank()
    }

    /// `self <= other` between numbers; false as soon as one side is no number.
    pub open spec fn le(self, other: Scalar) -> bool {
        !self.nan() && !other.nan() && self.rank() <= other.rank()
    }

    /// `self > 0`.
    pub open spec fn positive(self) -> bool {
        !self.nan() && self.rank() > 0
    }

    /// The same magnitude under the opposite sign bit.
    pub open spec fn negated(self) -> Scalar {
        if self.bits >= SIGN_BIT {
            Scalar { bits: (self.bits - SIGN_BIT) as u64 }
        } else {
            Scalar { bits: (self.bits + SIGN_BIT) as u64 }
        }
    }

    /// The lesser of two values, where a value that is no number gives way to
    /// the other and the first is kept between values that compare equal.
    pub open spec fn min_of(self, other: Scalar) -> Scalar {
        if self.nan() {
            other
        } else if other.nan() {
            self
        } else if other.lt(self) {
            other
        } else {
            self
        }
    }

    /// The greater of two values, where a value that is no number gives way to
    /// the other and the first is kept between values that compare equal.
    pub open spec fn max_of(self, other: Scalar) -> Scalar {
        if self.nan() {
            other
        } else if other.nan() {
            self
        } else if self.lt(other) {
            other
        } else {
            self
        }
    }

    /// Positive zero.
    pub open spec fn zero_value() -> Scalar {
        Scalar { bits: 0 }
    }

    /// The number one.
    pub open spec fn one_value() -> Scalar {
        Scalar { bits: 0x3ff0_0000_0000_0000 }
    }

    /// The value with the given pattern.
    pub fn from_bits(bits: u64) -> (r: Scalar)
        ensures
            r.bits == bits,
    {
        Scalar { bits }
    }

    /// The pattern of the value.
    pub fn to_bits(self) -> (r: u64)
        ensures
            r == self.bits,
    {
        self.bits
    }

    /// Positive zero.
    pub fn zero() -> (r: Scalar)
        ensures
            r == Scalar::zero_value(),
            r.rank() == 0,
            !r.nan(),
    {
        Scalar { bits: 0 }
    }

    /// The number one.
    pub fn one() -> (r: Scalar)
        ensures
            r == Scalar::one_value(),
            r.positive(),
    {
        Scalar { bits: 0x3ff0_0000_0000_0000 }
    }

    /// Whether the pattern stands for no number.
    pub fn is_nan(self) -> (r: bool)
        ensures
            r == self.nan(),
    {
        let magnitude: u64 = if self.bits >= SIGN_BIT {
            self.bits - SIGN_BIT
        } else {
            self.bits
        };
        magnitude > INFINITE
    }

    /// The place of the value among the numbers, as a machine integer.
    fn key(self) -> (k: i64)
        ensures
            k == self.rank(),
    {
        if self.bits >= SIGN_BIT {
            let magnitude: u64 = self.bits - SIGN_BIT;
            -(magnitude as i64)
        } else {
            self.bits as i64
        }
    }

    /// The value under the opposite sign. Negation is exact: it mirrors the
    /// place of a number about zero and leaves what is no number so.
    pub fn neg(self) -> (r: Scalar)
        ensures
            r == self.negated(),
            r.rank() == -self.rank(),
            r.nan() == self.nan(),
            r.negated() == self,
    {
        if self.bits >= SIGN_BIT {
            Scalar { bits: self.bits - SIGN_BIT }
        } else {
            Scalar { bits: self.bits + SIGN_BIT }
        }
    }

    /// `self < other`.
    pub fn less_than(self, other: Scalar) -> (r: bool)
        ensures
            r == self.lt(other),
    {
        !self.is_nan() && !other.is_nan() && self.key() < other.key()
    }

    /// `self > other`.
    pub fn greater_than(self, other: Scalar) -> (r: bool)
        ensures
            r == other.lt(self),
    {
        other.less_than(self)
    }

    /// `self >= other`.
    pub fn at_least(self, other: Scalar) -> (r: bool)
        ensures
            r == other.le(self),
    {
        !self.is_nan() && !other.is_nan() && other.key() <= self.key()
    }

    /// `self > 0`.
    pub fn is_positive(self) -> (r: bool)
        ensures
            r == self.positive(),
            r == Scalar::zero_value().lt(self),
    {
        !self.is_nan() && self.key() > 0
    }

    /// The lesser of the two values.
    pub fn min(self, other: Scalar) -> (r: Scalar)
        ensures
            r == self.min_of(other),
            !self.nan() && !other.nan() ==> r.rank() == vstd::math::min(self.rank(), other.rank()),
    {
        if self.is_nan() {
            other
        } else if other.is_nan() {
            self
        } else if other.less_than(self) {
            other
        } else {
            self
        }
    }

    /// The greater of the two values.
    pub fn max(self, other: Scalar) -> (r: Scalar)
        ensures
            r == self.max_of(other),
            !self.nan() && !other.nan() ==> r.rank() == vstd::math::max(self.rank(), other.rank()),
    {
        if self.is_nan() {
            other
        } else if other.is_nan() {
            self
        } else if self.less_than(other) {
            other
        } else {
            self
        }
    }
}

/// A greater magnitude stands for a greater absolute value.
pub proof fn lemma_size_grows_with_magnitude(a: Scalar, b: Scalar)
    requires
        a.magnitude() < b.magnitude(),
    ensures
        a.size() < b.size(),
{
    let span = FRACTION_SPAN as int;
    let ea = a.exponent();
    let eb = b.exponent();
    let fa = a.fraction() as int;
    let fb = b.fraction() as int;
    assert(ea <= eb);
    if ea == eb {
        if ea > 0 {
            let p = pow2((ea - 1) as nat) as int;
            lemma_pow2_pos((ea - 1) as nat);
            assert((span + fa) * p < (span + fb) * p) by (nonlinear_arith)
                requires
                    fa < fb,
                    p > 0,
            ;
        }
    } else {
        let pb = pow2((eb - 1) as nat) as int;
        lemma_pow2_pos((eb - 1) as nat);
        assert(span * pb <= (span + fb) * pb) by (nonlinear_arith)
            requires
                fb >= 0,
                pb > 0,
        ;
        if ea == 0 {
            assert(span <= span * pb) by (nonlinear_arith)
                requires
                    pb >= 1,
                    span > 0,
            ;
        } else {
            let pa = pow2((ea - 1) as nat) as int;
            lemma_pow2_pos((ea - 1) as nat);
            lemma_pow2_unfold(ea);
            if ea < eb - 1 {
                lemma_pow2_strictly_increases(ea, (eb - 1) as nat);
            }
            assert((span + fa) * pa < span * (2 * pa)) by (nonlinear_arith)
                requires
                    fa < span,
                    pa > 0,
            ;
            assert(span * (2 * pa) <= span * pb) by (nonlinear_arith)
                requires
                    2 * pa <= pb,
                    span > 0,
            ;
        }
    }
}

/// The order of ranks is the order of the numbers themselves: one value
/// ranks below another exactly where it stands for the smaller number, two
/// values share a rank exactly where they stand for the same number, and
/// negation turns a number into its opposite.
pub proof fn lemma_rank_orders_values(a: Scalar, b: Scalar)
    ensures
        a.rank() < b.rank() <==> a.value() < b.value(),
        a.rank() == b.rank() <==> a.value() == b.value(),
        a.negated().value() == -a.value(),
        a.magnitude() == 0 <==> a.value() == 0,
{
    if a.magnitude() < b.magnitude() {
        lemma_size_grows_with_magnitude(a, b);
    }
    if b.magnitude() < a.magnitude() {
        lemma_size_grows_with_magnitude(b, a);
    }
    let zero = Scalar { bits: 0 };
    if zero.magnitude() < a.magnitude() {
        lemma_size_grows_with_magnitude(zero, a);
    }
    if zero.magnitude() < b.magnitude() {
        lemma_size_grows_with_magnitude(zero, b);
    }
    assert(a.negated().magnitude() == a.magnitude());
}

} // verus!
