//! Probabilities as single-precision bit patterns.
//!
//! A single-precision number that is not negative and not above one has a
//! pattern of at most `ONE_BITS`. Such a pattern stands for the number
//! `significand / 2^binary_places`. Numbers of this kind compare as their
//! patterns compare as unsigned integers (`lemma_patterns_order_as_numbers`),
//! which is why the rest of the crate never leaves integer arithmetic.

use vstd::arithmetic::power2::{lemma2_to64, lemma_pow2_adds, lemma_pow2_pos, lemma_pow2_strictly_increases, pow2};
use vstd::prelude::*;

verus! {

/// The bit pattern of the single-precision number one.
pub const ONE_BITS: u32 = 0x3F80_0000;

/// The integer that a pattern scales by a power of two: the 23 stored fraction
/// bits, with the implicit leading one unless the exponent field is zero.
pub open spec fn significand(bits: u32) -> int {
    if bits / 0x80_0000 == 0 {
        (bits % 0x80_0000) as int
    } else {
        0x80_0000 + bits % 0x80_0000
    }
}

/// The number of binary places of a pattern of at most `ONE_BITS`: 149 where
/// the exponent field is zero, else 150 less the exponent field.
pub open spec fn binary_places(bits: u32) -> nat {
    if bits / 0x80_0000 == 0 {
        149
    } else {
        (150 - bits / 0x80_0000) as nat
    }
}

/// Whether the number that `a` stands for is less than the number that `b`
/// stands for, both patterns being at most `ONE_BITS`: the two fractions are
/// compared by cross-multiplication.
pub open spec fn is_less(a: u32, b: u32) -> bool {
    significand(a) * pow2(binary_places(b)) < significand(b) * pow2(binary_places(a))
}

/// Of two patterns the lower stands for the lower number.
proof fn lemma_lower_pattern_is_less(a: u32, b: u32)
    requires
        a < b <= ONE_BITS,
    ensures
        is_less(a, b),
{
    let sa = significand(a);
    let sb = significand(b);
    let pa = binary_places(a);
    let pb = binary_places(b);
    let ua = pow2(pa) as int;
    let ub = pow2(pb) as int;
    lemma_pow2_pos(pa);
    lemma_pow2_pos(pb);
    if a / 0x80_0000 == b / 0x80_0000 {
        assert(sa < sb);
        assert(ua == ub);
        assert(sa * ub < sb * ua) by (nonlinear_arith)
            requires
                sa < sb,
                ua == ub,
                ub > 0,
        ;
    } else {
        assert(a / 0x80_0000 < b / 0x80_0000);
        assert(pb <= pa);
        let d = (pa - pb) as nat;
        let ud = pow2(d) as int;
        lemma_pow2_pos(d);
        lemma_pow2_adds(pb, d);
        assert(ua == ub * ud);
        lemma2_to64();
        if d >= 1 {
            if d > 1 {
                lemma_pow2_strictly_increases(1, d);
            }
            assert(ud >= 2);
        }
        assert(sa < sb * ud) by (nonlinear_arith)
            requires
                0 <= sa < 0x100_0000,
                sb >= 0x80_0000,
                ud >= 1,
                sa < 0x80_0000 || ud >= 2,
        ;
        assert(sa * ub < sb * (ub * ud)) by (nonlinear_arith)
            requires
                sa < sb * ud,
                ub > 0,
        ;
    }
}

/// Numbers between zero and one compare as their patterns do.
pub proof fn lemma_patterns_order_as_numbers(a: u32, b: u32)
    requires
        a <= ONE_BITS,
        b <= ONE_BITS,
    ensures
        a < b <==> is_less(a, b),
{
    if a < b {
        lemma_lower_pattern_is_less(a, b);
    } else if b < a {
        lemma_lower_pattern_is_less(b, a);
    }
}

/// A single-precision number in the closed interval from zero to one.
#[derive(Clone, Copy, Debug, PartialEq, Eq)]
pub struct Probability {
    bits: u32,
}

impl Probability {
    #[verifier::type_invariant]
    spec fn within_unit_interval(self) -> bool {
        self.bits <= ONE_BITS
    }

    /// The IEEE 754 bit pattern of this probability.
    pub closed spec fn bits(self) -> u32 {
        self.bits
    }

    /// Accepts the bit pattern of a number between zero and one. Patterns of
    /// negative numbers, of numbers above one, of infinities and of NaNs are
    /// turned down.
    pub fn from_bits(bits: u32) -> (out: Option<Probability>)
        ensures
            match out {
                Some(p) => bits <= ONE_BITS && p.bits() == bits,
                None => bits > ONE_BITS,
            },
    {
        if bits <= ONE_BITS {
            Some(Probability { bits })
        } else {
            None
        }
    }

    /// The bit pattern, which never exceeds that of one.
    pub fn to_bits(self) -> (out: u32)
        ensures
            out == self.bits(),
            out <= ONE_BITS,
    {
        proof {
            use_type_invariant(&self);
        }
        self.bits
    }
}

} // verus!
