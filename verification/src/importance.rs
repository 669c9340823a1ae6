//! Importance scores.
//!
//! A score is a single-precision number, kept as its IEEE 754 bit pattern. The
//! memory logic only ever compares scores, and does so exactly as the numbers
//! compare: zero has one value whatever its sign, infinities lie beyond every
//! finite number, and a NaN compares false with everything.

use crate::chunk::NewMemoryChunk;
use vstd::arithmetic::power2::{
    lemma_pow2_pos, lemma_pow2_strictly_increases, lemma_pow2_unfold, pow2,
};
use vstd::prelude::*;

verus! {

/// The bit pattern of positive infinity; larger magnitudes are NaNs.
pub const INFINITY_BITS: u32 = 0x7f80_0000;

/// The sign bit, which is also one past the largest magnitude.
pub const SIGN_BIT: u32 = 0x8000_0000;

/// The weight of the lowest exponent bit, and the implicit leading one of a
/// normal number.
pub const EXPONENT_UNIT: u32 = 0x80_0000;

/// The bit pattern of one half, the middle of the scale from zero to one.
pub const NEUTRAL_BITS: u32 = 0x3f00_0000;

/// An importance score.
#[derive(Debug, Clone, Copy, PartialEq, Eq, Structural)]
pub struct Importance {
    /// The IEEE 754 single-precision bit pattern of the score.
    pub bits: u32,
}

/// The magnitude bits of a pattern: all but the sign.
pub open spec fn magnitude(bits: u32) -> int {
    if bits < SIGN_BIT {
        bits as int
    } else {
        bits - SIGN_BIT
    }
}

/// The absolute value that magnitude bits stand for, in units of the smallest
/// positive number. An infinity counts as the number after the largest finite
/// one.
pub open spec fn scaled_magnitude(mag: int) -> int {
    let exponent = mag / (EXPONENT_UNIT as int);
    let fraction = mag % (EXPONENT_UNIT as int);
    if exponent == 0 {
        fraction
    } else {
        (EXPONENT_UNIT + fraction) * pow2((exponent - 1) as nat)
    }
}

impl Importance {
    /// The score is not a number.
    pub open spec fn is_nan(self) -> bool {
        magnitude(self.bits) > INFINITY_BITS
    }

    /// The score's value, in units of the smallest positive number.
    pub open spec fn value(self) -> int {
        if self.bits < SIGN_BIT {
            scaled_magnitude(magnitude(self.bits))
        } else {
            -scaled_magnitude(magnitude(self.bits))
        }
    }

    /// `self < other` as numbers.
    pub open spec fn lt(self, other: Importance) -> bool {
        !self.is_nan() && !other.is_nan() && self.value() < other.value()
    }

    /// `self >= other` as numbers.
    pub open spec fn ge(self, other: Importance) -> bool {
        !self.is_nan() && !other.is_nan() && self.value() >= other.value()
    }

    /// The score zero.
    pub fn zero() -> (r: Importance)
        ensures
            r.bits == 0,
            r.value() == 0,
    {
        Importance { bits: 0 }
    }

    fn nan(&self) -> (r: bool)
        ensures
            r == self.is_nan(),
    {
        if self.bits < SIGN_BIT {
            self.bits > INFINITY_BITS
        } else {
            self.bits - SIGN_BIT > INFINITY_BITS
        }
    }

    /// The magnitude with the score's sign: ordered as the values are.
    fn signed_magnitude(&self) -> (r: i64)
        ensures
            r == if self.bits < SIGN_BIT {
                magnitude(self.bits)
            } else {
                -magnitude(self.bits)
            },
    {
        if self.bits < SIGN_BIT {
            self.bits as i64
        } else {
            -((self.bits - SIGN_BIT) as i64)
        }
    }

    /// Whether the score is below `other`.
    pub fn is_below(&self, other: &Importance) -> (r: bool)
        ensures
            r == self.lt(*other),
    {
        proof {
            lemma_value_order(*self, *other);
        }
        !self.nan() && !other.nan() && self.signed_magnitude() < other.signed_magnitude()
    }

    /// Whether the score is `other` or above.
    pub fn is_at_least(&self, other: &Importance) -> (r: bool)
        ensures
            r == self.ge(*other),
    {
        proof {
            lemma_value_order(*self, *other);
        }
        !self.nan() && !other.nan() && self.signed_magnitude() >= other.signed_magnitude()
    }
}

/// The caller's estimate where there is one, and the middle of the scale where
/// there is none.
pub open spec fn estimate(importance: Option<Importance>) -> Importance {
    match importance {
        Some(i) => i,
        None => Importance { bits: NEUTRAL_BITS },
    }
}

/// The score that a chunk is written with.
pub fn score(chunk: &NewMemoryChunk) -> (r: Importance)
    ensures
        r == estimate(chunk@.importance),
{
    match chunk.importance {
        Some(i) => i,
        None => Importance { bits: NEUTRAL_BITS },
    }
}

proof fn lemma_scaled_magnitude_increases(a: int, b: int)
    requires
        0 <= a < b,
    ensures
        0 <= scaled_magnitude(a) < scaled_magnitude(b),
{
    let unit = EXPONENT_UNIT as int;
    let (ea, fa) = (a / unit, a % unit);
    let (eb, fb) = (b / unit, b % unit);
    assert(a == ea * unit + fa && b == eb * unit + fb);
    assert(0 <= ea <= eb);
    lemma_pow2_pos((eb - 1) as nat);
    lemma_pow2_pos((ea - 1) as nat);
    if ea == eb {
        assert(fa < fb);
        if ea > 0 {
            let p = pow2((ea - 1) as nat) as int;
            assert((unit + fa) * p < (unit + fb) * p) by (nonlinear_arith)
                requires
                    0 <= fa < fb,
                    p > 0,
                    unit > 0,
            ;
            assert(0 <= (unit + fa) * p) by (nonlinear_arith)
                requires
                    0 <= fa,
                    p > 0,
                    unit > 0,
            ;
        }
    } else {
        let pb = pow2((eb - 1) as nat) as int;
        assert((unit + fb) * pb >= unit * pb) by (nonlinear_arith)
            requires
                0 <= fb,
                pb > 0,
        ;
        if ea == 0 {
            assert(unit * pb >= unit) by (nonlinear_arith)
                requires
                    pb >= 1,
                    unit > 0,
            ;
        } else {
            let pa = pow2((ea - 1) as nat) as int;
            assert(pow2(ea as nat) == 2 * pa) by {
                lemma_pow2_unfold(ea as nat);
            }
            if ea < eb - 1 {
                lemma_pow2_strictly_increases(ea as nat, (eb - 1) as nat);
            }
            assert(2 * pa <= pb);
            assert((unit + fa) * pa < unit * pb) by (nonlinear_arith)
                requires
                    0 <= fa < unit,
                    0 < pa,
                    2 * pa <= pb,
            ;
            assert(0 <= (unit + fa) * pa) by (nonlinear_arith)
                requires
                    0 <= fa,
                    pa > 0,
                    unit > 0,
            ;
        }
    }
}

/// Scores are ordered as their signed magnitude bits are.
pub(crate) proof fn lemma_value_order(a: Importance, b: Importance)
    ensures
        ({
            let x = if a.bits < SIGN_BIT {
                magnitude(a.bits)
            } else {
                -magnitude(a.bits)
            };
            let y = if b.bits < SIGN_BIT {
                magnitude(b.bits)
            } else {
                -magnitude(b.bits)
            };
            a.value() < b.value() <==> x < y
        }),
{
    let (ma, mb) = (magnitude(a.bits), magnitude(b.bits));
    if ma < mb {
        lemma_scaled_magnitude_increases(ma, mb);
    }
    if mb < ma {
        lemma_scaled_magnitude_increases(mb, ma);
    }
    if 0 < ma {
        lemma_scaled_magnitude_increases(0, ma);
    }
    if 0 < mb {
        lemma_scaled_magnitude_increases(0, mb);
    }
}

} // verus!
