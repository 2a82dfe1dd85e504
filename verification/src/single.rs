//! Single-precision numbers, held by their IEEE-754 bit pattern.
//!
//! The detector reports scores and coordinates in single precision. This
//! library never computes with them; it carries them and compares them. A
//! `Single` holds the 32 bits of such a number, and its meaning is given
//! here as an integer: the number in units of 2^-149, the weight of the
//! lowest bit of the smallest subnormal.

use vstd::prelude::*;
use vstd::arithmetic::div_mod::{
    lemma_basic_div, lemma_div_by_multiple, lemma_div_multiples_vanish_quotient,
};
use vstd::arithmetic::mul::{lemma_mul_is_associative, lemma_mul_is_commutative};
use vstd::arithmetic::power2::{
    pow2, lemma2_to64, lemma_pow2_adds, lemma_pow2_pos, lemma_pow2_strictly_increases,
    lemma_pow2_unfold,
};

verus! {

/// A single-precision number, by its bits.
#[derive(Clone, Copy, Debug)]
pub struct Single {
    pub bits: u32,
}

/// Magnitude, in units of 2^-149, of a number with biased exponent `e` and
/// fraction field `f`.
pub open spec fn magnitude_of(e: nat, f: nat) -> nat {
    if e == 0 {
        f
    } else {
        (0x80_0000 + f) * pow2((e - 1) as nat)
    }
}

impl Single {
    /// The sign bit is set.
    pub open spec fn negative(self) -> bool {
        self.bits >= 0x8000_0000
    }

    /// The eight exponent bits, as stored.
    pub open spec fn exponent(self) -> nat {
        ((self.bits / 0x80_0000) % 0x100) as nat
    }

    /// The twenty-three fraction bits.
    pub open spec fn fraction(self) -> nat {
        (self.bits % 0x80_0000) as nat
    }

    /// Not a number: all exponent bits set and some fraction bit set.
    pub open spec fn nan(self) -> bool {
        self.exponent() == 255 && self.fraction() != 0
    }

    /// Absolute value in units of 2^-149. An infinity gets 2^277, which lies
    /// above every finite magnitude, so that it compares as IEEE-754 asks.
    pub open spec fn magnitude(self) -> nat {
        magnitude_of(self.exponent(), self.fraction())
    }

    /// The number in units of 2^-149. Meaningful where `!self.nan()`; both
    /// zeros give 0.
    pub open spec fn scaled(self) -> int {
        if self.negative() {
            -(self.magnitude() as int)
        } else {
            self.magnitude() as int
        }
    }

    /// `self < other` as IEEE-754 defines it: false when either is not a
    /// number, else the order of the values.
    pub open spec fn less(self, other: Single) -> bool {
        !self.nan() && !other.nan() && self.scaled() < other.scaled()
    }

    /// `self <= other` as IEEE-754 defines it.
    pub open spec fn at_most(self, other: Single) -> bool {
        !self.nan() && !other.nan() && self.scaled() <= other.scaled()
    }

    /// The whole part of the absolute value.
    pub open spec fn whole(self) -> nat {
        self.magnitude() / pow2(149)
    }

    /// The number as a conversion to `u32` gives it: cut towards zero; the
    /// largest `u32` where that lies above it; 0 for a negative number and
    /// for what is not a number.
    pub open spec fn truncated_u32(self) -> u32 {
        if self.nan() || self.negative() {
            0
        } else if self.whole() > u32::MAX {
            u32::MAX
        } else {
            self.whole() as u32
        }
    }

    /// The number as a conversion to `i32` gives it: cut towards zero; the
    /// nearest `i32` where that lies outside the type; 0 for what is not a
    /// number.
    pub open spec fn truncated_i32(self) -> i32 {
        if self.nan() {
            0
        } else if self.negative() {
            if self.whole() > 0x8000_0000 {
                i32::MIN
            } else {
                (-(self.whole() as int)) as i32
            }
        } else {
            if self.whole() > i32::MAX {
                i32::MAX
            } else {
                self.whole() as i32
            }
        }
    }

    /// One unit in the last place, in units of 2^-149.
    pub open spec fn ulp(self) -> nat {
        if self.exponent() == 0 {
            1
        } else {
            pow2((self.exponent() - 1) as nat)
        }
    }

    /// This number lies within half a unit in the last place of `num / den`:
    /// it is a correctly rounded `num / den`.
    pub open spec fn rounds(self, num: int, den: int) -> bool {
        &&& !self.nan()
        &&& den > 0
        &&& 2 * (den * self.scaled() - num * pow2(149)) <= den * self.ulp()
        &&& 2 * (num * pow2(149) - den * self.scaled()) <= den * self.ulp()
    }

    /// The bits below the sign bit: exponent and fraction together.
    pub open spec fn low_bits(self) -> nat {
        (self.bits % 0x8000_0000) as nat
    }

    /// An integer that orders numbers as their values do.
    pub open spec fn rank(self) -> int {
        if self.negative() {
            -(self.low_bits() as int)
        } else {
            self.low_bits() as int
        }
    }

    /// The number with the given bit pattern.
    pub fn from_bits(bits: u32) -> (r: Single)
        ensures
            r.bits == bits,
    {
        Single { bits }
    }

    /// The bit pattern.
    pub fn to_bits(self) -> (bits: u32)
        ensures
            bits == self.bits,
    {
        self.bits
    }

    /// Positive zero.
    pub fn zero() -> (r: Single)
        ensures
            r.bits == 0,
            !r.nan(),
            r.scaled() == 0,
    {
        Single { bits: 0 }
    }

    /// The number one.
    pub fn one() -> (r: Single)
        ensures
            r.bits == 0x3F80_0000,
            !r.nan(),
            r.scaled() == pow2(149),
    {
        proof {
            lemma_normal_parts(0x3F80_0000, 127, 0);
            lemma_pow2_split(149, 126);
            lemma2_to64();
        }
        Single { bits: 0x3F80_0000 }
    }

    /// Whether this is not a number.
    pub fn is_nan(self) -> (r: bool)
        ensures
            r == self.nan(),
    {
        (self.bits / 0x80_0000) % 0x100 == 255 && self.bits % 0x80_0000 != 0
    }

    /// The whole part of the absolute value where it is below 2^32, and
    /// 2^32 where it is not.
    fn whole_capped(self) -> (w: u64)
        ensures
            w == if self.whole() < 0x1_0000_0000 {
                self.whole()
            } else {
                0x1_0000_0000
            },
    {
        let e: u32 = (self.bits / 0x80_0000) % 0x100;
        let m: u64 = 0x80_0000 + (self.bits % 0x80_0000) as u64;
        proof {
            lemma_whole(self);
            lemma2_to64();
        }
        if e < 127 {
            proof {
                if e >= 1 {
                    if 150 - e > 24 {
                        lemma_pow2_strictly_increases(24, (150 - e) as nat);
                    }
                    lemma_basic_div(m as int, pow2((150 - e) as nat) as int);
                }
            }
            0
        } else if e >= 159 {
            proof {
                let c = pow2((e - 150) as nat);
                if e > 159 {
                    lemma_pow2_strictly_increases(9, (e - 150) as nat);
                }
                assert(m * c >= 0x1_0000_0000) by (nonlinear_arith)
                    requires
                        m >= 0x80_0000,
                        c >= 0x200,
                ;
            }
            0x1_0000_0000
        } else if e >= 150 {
            let c = power_of_two(e - 150);
            proof {
                if e < 158 {
                    lemma_pow2_strictly_increases((e - 150) as nat, 8);
                }
                assert(m * c < 0x1_0000_0000) by (nonlinear_arith)
                    requires
                        m < 0x100_0000,
                        c <= 0x100,
                ;
            }
            m * c
        } else {
            let b = power_of_two(150 - e);
            proof {
                lemma_pow2_pos((150 - e) as nat);
            }
            m / b
        }
    }

    /// The number converted to `u32`, as the language converts it.
    pub fn to_u32(self) -> (r: u32)
        ensures
            r == self.truncated_u32(),
    {
        if self.is_nan() || self.bits >= 0x8000_0000 {
            return 0;
        }
        let w = self.whole_capped();
        if w > 0xFFFF_FFFF {
            0xFFFF_FFFF
        } else {
            w as u32
        }
    }

    /// The number converted to `i32`, as the language converts it.
    pub fn to_i32(self) -> (r: i32)
        ensures
            r == self.truncated_i32(),
    {
        if self.is_nan() {
            return 0;
        }
        let w = self.whole_capped();
        if self.bits >= 0x8000_0000 {
            if w > 0x8000_0000 {
                i32::MIN
            } else {
                (-(w as i64)) as i32
            }
        } else {
            if w > 0x7FFF_FFFF {
                i32::MAX
            } else {
                w as i32
            }
        }
    }

    fn ranked(self) -> (k: i64)
        ensures
            k == self.rank(),
    {
        let low: u32 = self.bits % 0x8000_0000;
        if self.bits >= 0x8000_0000 {
            -(low as i64)
        } else {
            low as i64
        }
    }

    /// `self < other`, as the hardware comparison of the two numbers gives it.
    pub fn lt(self, other: Single) -> (r: bool)
        ensures
            r == self.less(other),
    {
        proof {
            lemma_rank_orders(self, other);
        }
        !self.is_nan() && !other.is_nan() && self.ranked() < other.ranked()
    }

    /// `self <= other`, as the hardware comparison of the two numbers gives it.
    pub fn le(self, other: Single) -> (r: bool)
        ensures
            r == self.at_most(other),
    {
        proof {
            lemma_rank_orders(self, other);
        }
        !self.is_nan() && !other.is_nan() && self.ranked() <= other.ranked()
    }
}

/// 2^k, for a small k.
fn power_of_two(k: u32) -> (p: u64)
    requires
        k <= 32,
    ensures
        p == pow2(k as nat),
{
    let mut p: u64 = 1;
    let mut i: u32 = 0;
    proof {
        lemma2_to64();
    }
    while i < k
        invariant
            i <= k <= 32,
            p == pow2(i as nat),
            p <= 0x1_0000_0000,
        decreases k - i,
    {
        proof {
            lemma_pow2_unfold((i + 1) as nat);
            if i + 1 < 32 {
                lemma_pow2_strictly_increases((i + 1) as nat, 32);
            }
            lemma2_to64();
        }
        p = p * 2;
        i += 1;
    }
    p
}

/// The whole part of the absolute value, by the size of the exponent: none
/// below the normal numbers; the significand cut by a power of two where the
/// exponent is small; the significand times a power of two where it is large.
pub proof fn lemma_whole(s: Single)
    ensures
        s.exponent() == 0 ==> s.whole() == 0,
        1 <= s.exponent() < 150 ==> s.whole() == (0x80_0000 + s.fraction()) / pow2(
            (150 - s.exponent()) as nat,
        ),
        s.exponent() >= 150 ==> s.whole() == (0x80_0000 + s.fraction()) * pow2(
            (s.exponent() - 150) as nat,
        ),
{
    let (e, f) = (s.exponent(), s.fraction());
    let m = (0x80_0000 + f) as int;
    let unit = pow2(149) as int;
    lemma_pow2_pos(149);
    if e == 0 {
        lemma2_to64();
        lemma_pow2_strictly_increases(23, 149);
        lemma_basic_div(f as int, unit);
    } else if e < 150 {
        let a = pow2((e - 1) as nat) as int;
        let b = pow2((150 - e) as nat) as int;
        lemma_pow2_pos((e - 1) as nat);
        lemma_pow2_pos((150 - e) as nat);
        lemma_pow2_adds((150 - e) as nat, (e - 1) as nat);
        assert(unit == b * a);
        lemma_div_multiples_vanish_quotient(a, m, b);
        lemma_mul_is_commutative(a, m);
        lemma_mul_is_commutative(a, b);
        assert(s.magnitude() == m * a);
    } else {
        let c = pow2((e - 150) as nat) as int;
        lemma_pow2_pos((e - 150) as nat);
        lemma_pow2_adds((e - 150) as nat, 149);
        assert(pow2((e - 1) as nat) == c * unit);
        lemma_mul_is_associative(m, c, unit);
        assert(s.magnitude() == (m * c) * unit);
        assert(0 <= m * c) by (nonlinear_arith)
            requires
                0 <= m,
                0 <= c,
        ;
        lemma_div_by_multiple(m * c, unit);
    }
}

/// A bit pattern below the sign bit splits into the exponent `e` and the
/// fraction `f` that it was put together from.
pub proof fn lemma_normal_parts(bits: u32, e: nat, f: nat)
    requires
        e < 0x100,
        f < 0x80_0000,
        bits == e * 0x80_0000 + f,
    ensures
        !(Single { bits }).negative(),
        (Single { bits }).exponent() == e,
        (Single { bits }).fraction() == f,
{
}

/// 2^hi is 2^(hi - lo) times 2^lo.
pub proof fn lemma_pow2_split(hi: nat, lo: nat)
    requires
        lo <= hi,
    ensures
        pow2(hi) == pow2((hi - lo) as nat) * pow2(lo),
{
    lemma_pow2_adds((hi - lo) as nat, lo);
}

/// A positive normal number with exponent `e` and fraction `f` is a
/// correctly rounded `num / den` when its significand, against `num / den`
/// brought to the same exponent, is off by at most half a unit. `k` is
/// 2^(150 - e), the factor that brings 1 to that exponent.
pub proof fn lemma_rounds_normal(bits: u32, e: nat, f: nat, num: int, den: int, k: nat)
    requires
        1 <= e < 151,
        f < 0x80_0000,
        bits == e * 0x80_0000 + f,
        den > 0,
        k == pow2((150 - e) as nat),
        2 * (den * (0x80_0000 + f) - num * k) <= den,
        2 * (num * k - den * (0x80_0000 + f)) <= den,
    ensures
        (Single { bits }).rounds(num, den),
        (Single { bits }).scaled() == (0x80_0000 + f) * pow2((e - 1) as nat),
        pow2(149) == k * pow2((e - 1) as nat),
{
    let s = Single { bits };
    let p = pow2((e - 1) as nat);
    let m = 0x80_0000 + f;
    lemma_normal_parts(bits, e, f);
    lemma_pow2_split(149, (e - 1) as nat);
    lemma_pow2_pos((e - 1) as nat);
    assert(s.scaled() == m * p);
    assert(s.ulp() == p);
    assert(pow2(149) == k * p);
    assert(2 * (den * (m * p) - num * (k * p)) <= den * p) by (nonlinear_arith)
        requires
            p > 0,
            2 * (den * m - num * k) <= den,
    ;
    assert(2 * (num * (k * p) - den * (m * p)) <= den * p) by (nonlinear_arith)
        requires
            p > 0,
            2 * (num * k - den * m) <= den,
    ;
}

/// The magnitude grows strictly with the pair of exponent and fraction, the
/// exponent counting first.
pub proof fn lemma_magnitude_increases(e1: nat, f1: nat, e2: nat, f2: nat)
    requires
        f1 < 0x80_0000,
        f2 < 0x80_0000,
        e1 < e2 || (e1 == e2 && f1 < f2),
    ensures
        magnitude_of(e1, f1) < magnitude_of(e2, f2),
{
    if e1 == e2 {
        if e1 != 0 {
            let p = pow2((e1 - 1) as nat);
            lemma_pow2_pos((e1 - 1) as nat);
            assert((0x80_0000 + f1) * p < (0x80_0000 + f2) * p) by (nonlinear_arith)
                requires
                    p > 0,
                    f1 < f2,
            ;
        }
    } else {
        let q = pow2((e2 - 1) as nat);
        lemma_pow2_pos((e2 - 1) as nat);
        // Everything with exponent e1 lies below 2^23 * 2^e1.
        let top = 0x80_0000 * pow2(e1);
        assert(magnitude_of(e1, f1) < top) by {
            if e1 == 0 {
                lemma2_to64();
            } else {
                let p = pow2((e1 - 1) as nat);
                lemma_pow2_pos((e1 - 1) as nat);
                lemma_pow2_unfold(e1);
                assert(pow2(e1) == 2 * p);
                assert((0x80_0000 + f1) * p < 0x80_0000 * (2 * p)) by (nonlinear_arith)
                    requires
                        p > 0,
                        f1 < 0x80_0000,
                ;
            }
        }
        assert(pow2(e1) <= q) by {
            if e1 < e2 - 1 {
                lemma_pow2_strictly_increases(e1, (e2 - 1) as nat);
            }
        }
        let r = pow2(e1);
        assert(0x80_0000 * r <= (0x80_0000 + f2) * q) by (nonlinear_arith)
            requires
                r <= q,
                0 <= f2,
                0 <= r,
        ;
    }
}

/// Exponent and fraction, read as one integer, order two numbers as their
/// magnitudes do.
pub proof fn lemma_low_bits_order(a: Single, b: Single)
    ensures
        a.low_bits() < b.low_bits() <==> a.magnitude() < b.magnitude(),
        a.low_bits() == b.low_bits() <==> a.magnitude() == b.magnitude(),
{
    let (x, y) = (a.bits, b.bits);
    assert(x % 0x8000_0000 == ((x / 0x80_0000) % 0x100) * 0x80_0000 + x % 0x80_0000)
        by (bit_vector);
    assert(y % 0x8000_0000 == ((y / 0x80_0000) % 0x100) * 0x80_0000 + y % 0x80_0000)
        by (bit_vector);
    let (ea, fa) = (a.exponent(), a.fraction());
    let (eb, fb) = (b.exponent(), b.fraction());
    assert(a.low_bits() == ea * 0x80_0000 + fa);
    assert(b.low_bits() == eb * 0x80_0000 + fb);
    if ea < eb || (ea == eb && fa < fb) {
        lemma_magnitude_increases(ea, fa, eb, fb);
    } else if eb < ea || (eb == ea && fb < fa) {
        lemma_magnitude_increases(eb, fb, ea, fa);
    }
}

/// The rank orders two numbers as their values do.
pub proof fn lemma_rank_orders(a: Single, b: Single)
    ensures
        a.rank() < b.rank() <==> a.scaled() < b.scaled(),
        a.rank() == b.rank() <==> a.scaled() == b.scaled(),
{
    let zero = Single { bits: 0 };
    assert(zero.low_bits() == 0 && zero.magnitude() == 0);
    lemma_low_bits_order(a, b);
    lemma_low_bits_order(a, zero);
    lemma_low_bits_order(b, zero);
}

} // verus!
