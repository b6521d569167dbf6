//! Floating-point numbers by their bit patterns.
//!
//! The library carries such numbers, orders them and clamps them; it does not
//! compute with them.
use vstd::prelude::*;
use vstd::arithmetic::power2::{lemma2_to64, lemma2_to64_rest, lemma_pow2_adds, lemma_pow2_pos, lemma_pow2_strictly_increases, lemma_pow2_unfold, pow2};
use vstd::arithmetic::div_mod::{lemma_div_is_ordered_by_denominator, lemma_div_multiples_vanish};
use vstd::bits::lemma_u64_shr_is_div;
use crate::geometry::saturated;

verus! {

/// A double-precision number, held as its IEEE 754 bit pattern.
#[derive(Clone, Copy, Debug, PartialEq, Eq, Structural)]
pub struct F64 {
    pub bits: u64,
}

/// A single-precision number, held as its IEEE 754 bit pattern.
#[derive(Clone, Copy, Debug, PartialEq, Eq, Structural)]
pub struct F32 {
    pub bits: u32,
}

/// The bits of one.
pub const ONE_BITS: u64 = 0x3FF0_0000_0000_0000;

impl F64 {
    /// The bits but for the sign.
    pub open spec fn magnitude(self) -> int {
        if self.bits < 0x8000_0000_0000_0000 {
            self.bits as int
        } else {
            self.bits - 0x8000_0000_0000_0000
        }
    }

    /// Not a number: it compares with nothing.
    pub open spec fn nan(self) -> bool {
        self.magnitude() > 0x7FF0_0000_0000_0000
    }

    /// Where the number stands among the others: numbers compare as their ranks
    /// do, and the two zeros have the same one.
    pub open spec fn rank(self) -> int {
        if self.bits < 0x8000_0000_0000_0000 {
            self.magnitude()
        } else {
            -self.magnitude()
        }
    }

    pub open spec fn below(self, other: F64) -> bool {
        !self.nan() && !other.nan() && self.rank() < other.rank()
    }

    pub open spec fn at_most(self, other: F64) -> bool {
        !self.nan() && !other.nan() && self.rank() <= other.rank()
    }

    pub open spec fn same_number(self, other: F64) -> bool {
        !self.nan() && !other.nan() && self.rank() == other.rank()
    }

    pub fn from_bits(bits: u64) -> (f: F64)
        ensures
            f.bits == bits,
    {
        F64 { bits }
    }

    pub fn to_bits(&self) -> (bits: u64)
        ensures
            bits == self.bits,
    {
        self.bits
    }

    fn size_bits(&self) -> (m: u64)
        ensures
            m == self.magnitude(),
    {
        if self.bits < 0x8000_0000_0000_0000 {
            self.bits
        } else {
            self.bits - 0x8000_0000_0000_0000
        }
    }

    pub fn is_nan(&self) -> (r: bool)
        ensures
            r == self.nan(),
    {
        self.size_bits() > 0x7FF0_0000_0000_0000
    }

    fn position(&self) -> (r: i64)
        requires
            !self.nan(),
        ensures
            r == self.rank(),
    {
        let m: i64 = self.size_bits() as i64;
        if self.bits < 0x8000_0000_0000_0000 {
            m
        } else {
            -m
        }
    }

    /// `self < other`.
    pub fn lt(&self, other: F64) -> (r: bool)
        ensures
            r == self.below(other),
    {
        !self.is_nan() && !other.is_nan() && self.position() < other.position()
    }

    /// `self <= other`.
    pub fn le(&self, other: F64) -> (r: bool)
        ensures
            r == self.at_most(other),
    {
        !self.is_nan() && !other.is_nan() && self.position() <= other.position()
    }

    /// `self == other` as numbers.
    pub fn equals(&self, other: F64) -> (r: bool)
        ensures
            r == self.same_number(other),
    {
        !self.is_nan() && !other.is_nan() && self.position() == other.position()
    }

    pub open spec fn clamped(self, low: F64, high: F64) -> F64 {
        if self.below(low) {
            low
        } else if high.below(self) {
            high
        } else {
            self
        }
    }

    /// The number of `low..=high` nearest to this one; not-a-number stays.
    pub fn clamp(&self, low: F64, high: F64) -> (r: F64)
        requires
            low.at_most(high),
        ensures
            r == self.clamped(low, high),
    {
        if self.lt(low) {
            low
        } else if high.lt(*self) {
            high
        } else {
            *self
        }
    }

    pub open spec fn raised(self, low: F64) -> F64 {
        if self.nan() || self.below(low) {
            low
        } else {
            self
        }
    }

    /// The larger of this number and `low`; `low` for not-a-number.
    pub fn at_least(&self, low: F64) -> (r: F64)
        ensures
            r == self.raised(low),
    {
        if self.is_nan() || self.lt(low) {
            low
        } else {
            *self
        }
    }
}

/// The position of the highest bit of `a`.
pub open spec fn top_bit(a: nat) -> nat
    decreases a,
{
    if a <= 1 {
        0
    } else {
        1 + top_bit(a / 2)
    }
}

proof fn top_bit_bounds(a: nat)
    requires
        a >= 1,
    ensures
        pow2(top_bit(a)) <= a < pow2(top_bit(a) + 1),
    decreases a,
{
    lemma2_to64();
    if a > 1 {
        top_bit_bounds(a / 2);
        lemma_pow2_unfold(top_bit(a));
        lemma_pow2_unfold(top_bit(a) + 1);
    }
}

proof fn top_bit_at_most(a: nat, p: nat)
    requires
        1 <= a < pow2(p + 1),
    ensures
        top_bit(a) <= p,
{
    top_bit_bounds(a);
    if top_bit(a) > p {
        if top_bit(a) > p + 1 {
            lemma_pow2_strictly_increases(p + 1, top_bit(a));
        }
    }
}

impl F64 {
    /// The exponent field.
    pub open spec fn exponent(self) -> int {
        self.magnitude() / 0x10_0000_0000_0000
    }

    /// The significand, with its leading bit.
    pub open spec fn significand(self) -> int {
        let fraction = self.magnitude() % 0x10_0000_0000_0000;
        if self.exponent() == 0 {
            fraction
        } else {
            0x10_0000_0000_0000 + fraction
        }
    }

    /// The power of two by which the significand counts: the absolute value is
    /// `significand * 2^scale`.
    pub open spec fn scale(self) -> int {
        (if self.exponent() == 0 {
            1
        } else {
            self.exponent()
        }) - 1075
    }

    /// The absolute value, rounded down.
    pub open spec fn whole(self) -> int {
        if self.scale() >= 0 {
            self.significand() * pow2(self.scale() as nat)
        } else {
            self.significand() / (pow2((-self.scale()) as nat) as int)
        }
    }

    /// The absolute value, rounded to the nearest whole number; halves away from zero.
    pub open spec fn nearest(self) -> int {
        if self.scale() >= 0 {
            self.significand() * pow2(self.scale() as nat)
        } else {
            (self.significand() + pow2((-self.scale() - 1) as nat)) / (pow2(
                (-self.scale()) as nat,
            ) as int)
        }
    }

    pub open spec fn signed(self, absolute: int) -> int {
        if self.bits < 0x8000_0000_0000_0000 {
            absolute
        } else {
            -absolute
        }
    }

    /// The number converted to `i32` by dropping its fraction; not-a-number gives 0.
    pub open spec fn truncated(self) -> int {
        if self.nan() {
            0
        } else {
            saturated(self.signed(self.whole()))
        }
    }

    /// The number rounded to the nearest `i32`; not-a-number gives 0.
    pub open spec fn rounded(self) -> int {
        if self.nan() {
            0
        } else {
            saturated(self.signed(self.nearest()))
        }
    }

    proof fn large_is_large(self)
        requires
            self.exponent() >= 1054,
        ensures
            self.whole() >= 0x8000_0000,
            self.nearest() >= 0x8000_0000,
    {
        lemma2_to64();
        lemma2_to64_rest();
        let sig = self.significand();
        assert(sig >= 0x10_0000_0000_0000);
        if self.scale() >= 0 {
            lemma_pow2_pos(self.scale() as nat);
            let p = pow2(self.scale() as nat);
            assert(sig * p >= sig) by (nonlinear_arith)
                requires
                    p >= 1,
                    sig >= 0,
            ;
        } else {
            let s = (-self.scale()) as nat;
            assert(1 <= s <= 21);
            lemma_pow2_pos(s);
            lemma_pow2_pos((s - 1) as nat);
            if s < 21 {
                lemma_pow2_strictly_increases(s, 21);
            }
            let p = pow2(s) as int;
            assert(p <= 0x20_0000);
            lemma_div_is_ordered_by_denominator(sig, p, 0x20_0000);
            assert(sig / 0x20_0000 >= 0x8000_0000);
            let more = sig + pow2((s - 1) as nat);
            lemma_div_is_ordered_by_denominator(more, p, 0x20_0000);
            assert(more / 0x20_0000 >= 0x8000_0000);
        }
    }

    proof fn small_is_small(self)
        requires
            self.exponent() < 1054,
        ensures
            self.scale() <= -22,
            0 <= self.significand() < 0x20_0000_0000_0000,
            -self.scale() > 53 ==> self.whole() == 0 && self.nearest() == 0,
            0 <= self.whole() <= 0x7fff_ffff,
            0 <= self.nearest() <= 0x8000_0000,
    {
        lemma2_to64();
        lemma2_to64_rest();
        let s = (-self.scale()) as nat;
        let sig = self.significand();
        lemma_pow2_pos(s);
        let p = pow2(s) as int;
        lemma_pow2_unfold(s);
        let half = pow2((s - 1) as nat) as int;
        assert(p == 2 * half);
        lemma_pow2_pos((s - 1) as nat);
        if s > 53 {
            if s > 54 {
                lemma_pow2_strictly_increases(54, s);
            }
            assert(p >= 0x40_0000_0000_0000);
            assert(sig / p == 0) by {
                vstd::arithmetic::div_mod::lemma_basic_div(sig, p);
            }
            assert((sig + half) / p == 0) by {
                vstd::arithmetic::div_mod::lemma_basic_div(sig + half, p);
            }
        } else {
            if s > 22 {
                lemma_pow2_strictly_increases(22, s);
            }
            assert(p >= 0x40_0000);
            lemma_div_is_ordered_by_denominator(sig, 0x40_0000, p);
            assert(sig / 0x40_0000 <= 0x7fff_ffff);
            vstd::arithmetic::div_mod::lemma_div_pos_is_pos(sig, p);
            vstd::arithmetic::div_mod::lemma_div_pos_is_pos(sig + half, p);
            assert((sig + half) / p <= sig / p + 1) by {
                vstd::arithmetic::div_mod::lemma_div_is_ordered(sig + half, sig + p, p);
                vstd::arithmetic::div_mod::lemma_div_plus_one(sig, p);
            }
        }
    }

    /// The number as an `i32`, its fraction dropped, saturating at the bounds;
    /// not-a-number gives 0.
    pub fn trunc_i32(&self) -> (n: i32)
        ensures
            n == self.truncated(),
    {
        if self.is_nan() {
            return 0;
        }
        let negative = self.bits >= 0x8000_0000_0000_0000;
        let size: u64 = self.size_bits();
        let exponent: u64 = size / 0x10_0000_0000_0000;
        if exponent >= 1054 {
            proof {
                self.large_is_large();
            }
            return if negative {
                -0x8000_0000
            } else {
                0x7fff_ffff
            };
        }
        proof {
            self.small_is_small();
        }
        let fraction: u64 = size % 0x10_0000_0000_0000;
        let significand: u64 = if exponent == 0 {
            fraction
        } else {
            0x10_0000_0000_0000 + fraction
        };
        let shift: u64 = 1075 - (if exponent == 0 {
            1
        } else {
            exponent
        });
        if shift > 53 {
            return 0;
        }
        proof {
            lemma_u64_shr_is_div(significand, shift);
        }
        let whole: i32 = (significand >> shift) as i32;
        if negative {
            -whole
        } else {
            whole
        }
    }

    /// The nearest `i32`, halves away from zero, saturating at the bounds;
    /// not-a-number gives 0.
    pub fn round_i32(&self) -> (n: i32)
        ensures
            n == self.rounded(),
    {
        if self.is_nan() {
            return 0;
        }
        let negative = self.bits >= 0x8000_0000_0000_0000;
        let size: u64 = self.size_bits();
        let exponent: u64 = size / 0x10_0000_0000_0000;
        if exponent >= 1054 {
            proof {
                self.large_is_large();
            }
            return if negative {
                -0x8000_0000
            } else {
                0x7fff_ffff
            };
        }
        proof {
            self.small_is_small();
        }
        let fraction: u64 = size % 0x10_0000_0000_0000;
        let significand: u64 = if exponent == 0 {
            fraction
        } else {
            0x10_0000_0000_0000 + fraction
        };
        let shift: u64 = 1075 - (if exponent == 0 {
            1
        } else {
            exponent
        });
        if shift > 53 {
            return 0;
        }
        proof {
            lemma2_to64();
            lemma2_to64_rest();
            if shift < 53 {
                lemma_pow2_strictly_increases((shift - 1) as nat, 52);
            }
            vstd::bits::lemma_u64_shl_is_mul(1, (shift - 1) as u64);
        }
        let half: u64 = 1u64 << (shift - 1);
        let sum: u64 = significand + half;
        proof {
            lemma_u64_shr_is_div(sum, shift);
        }
        let nearest: i64 = (sum >> shift) as i64;
        if negative {
            (-nearest) as i32
        } else if nearest > 0x7fff_ffff {
            0x7fff_ffff
        } else {
            nearest as i32
        }
    }

    /// The double of a whole number.
    pub open spec fn of_int(n: int) -> F64 {
        let a = (if n < 0 {
            -n
        } else {
            n
        }) as nat;
        let p = top_bit(a);
        let positive = if a == 0 {
            0
        } else {
            (1023 + p) * 0x10_0000_0000_0000 + (a - pow2(p)) * pow2((52 - p) as nat)
        };
        F64 {
            bits: (if n < 0 {
                0x8000_0000_0000_0000 + positive
            } else {
                positive
            }) as u64,
        }
    }

    proof fn of_int_fields(a: nat)
        requires
            1 <= a < 0x4_0000_0000,
        ensures
            0 <= top_bit(a) <= 33,
            0 <= (a - pow2(top_bit(a))) * pow2((52 - top_bit(a)) as nat) < 0x10_0000_0000_0000,
            0x10_0000_0000_0000 + (a - pow2(top_bit(a))) * pow2((52 - top_bit(a)) as nat) == a
                * pow2((52 - top_bit(a)) as nat),
    {
        lemma2_to64();
        lemma2_to64_rest();
        let p = top_bit(a);
        top_bit_bounds(a);
        top_bit_at_most(a, 33);
        lemma_pow2_adds(p, (52 - p) as nat);
        lemma_pow2_unfold(p + 1);
        let q = pow2(p) as int;
        let r = pow2((52 - p) as nat) as int;
        lemma_pow2_pos((52 - p) as nat);
        assert(q * r == 0x10_0000_0000_0000);
        assert((a - q) * r == a * r - q * r) by (nonlinear_arith);
        assert(0 <= (a - q) * r < q * r) by (nonlinear_arith)
            requires
                0 <= a - q < q,
                r > 0,
        ;
    }

    /// The double of a whole number is exactly that number.
    pub proof fn of_int_is_exact(n: i32)
        ensures
            !F64::of_int(n as int).nan(),
            F64::of_int(n as int).signed(F64::of_int(n as int).whole()) == n,
            F64::of_int(n as int).truncated() == n,
    {
        let f = F64::of_int(n as int);
        let a = (if n < 0 {
            -(n as int)
        } else {
            n as int
        }) as nat;
        lemma2_to64();
        lemma2_to64_rest();
        if a == 0 {
            assert(f.bits == 0);
            f.small_is_small();
        } else {
            F64::of_int_fields(a);
            let p = top_bit(a);
            let fraction = (a - pow2(p)) * pow2((52 - p) as nat);
            assert(f.magnitude() == (1023 + p) * 0x10_0000_0000_0000 + fraction);
            assert(f.exponent() == 1023 + p);
            assert(f.magnitude() % 0x10_0000_0000_0000 == fraction);
            assert(f.scale() == p - 52);
            lemma_pow2_pos((52 - p) as nat);
            let r = pow2((52 - p) as nat) as int;
            assert(f.significand() == a * r);
            lemma_div_multiples_vanish(a as int, r);
            assert(f.whole() == f.significand() / r);
        }
    }

    /// The conversion keeps the order of the numbers.
    pub proof fn of_int_keeps_order(m: i32, n: i32)
        ensures
            F64::of_int(m as int).below(F64::of_int(n as int)) <==> m < n,
    {
        F64::of_int_is_exact(m);
        F64::of_int_is_exact(n);
        let a = if m < 0 { -(m as int) } else { m as int };
        let b = if n < 0 { -(n as int) } else { n as int };
        F64::magnitudes_keep_order(m as int, n as int);
        F64::magnitudes_keep_order(n as int, m as int);
        if a > 0 {
            F64::of_int_fields(a as nat);
        }
        if b > 0 {
            F64::of_int_fields(b as nat);
        }
        if a == b {
            assert(F64::of_int(m as int).magnitude() == F64::of_int(n as int).magnitude());
        }
    }

    proof fn magnitudes_keep_order(m: int, n: int)
        requires
            -0x4_0000_0000 < m < 0x4_0000_0000,
            -0x4_0000_0000 < n < 0x4_0000_0000,
        ensures
            (if m < 0 { -m } else { m }) < (if n < 0 { -n } else { n })
                ==> F64::of_int(m).magnitude() < F64::of_int(n).magnitude(),
    {
        let a = (if m < 0 { -m } else { m }) as nat;
        let b = (if n < 0 { -n } else { n }) as nat;
        if a < b {
            F64::of_int_fields(b);
            if a > 0 {
                F64::of_int_fields(a);
                let p = top_bit(a);
                let q = top_bit(b);
                top_bit_bounds(a);
                top_bit_bounds(b);
                if p > q {
                    if p > q + 1 {
                        lemma_pow2_strictly_increases(q + 1, p);
                    }
                    assert(false);
                }
                if p == q {
                    let r = pow2((52 - p) as nat) as int;
                    lemma_pow2_pos((52 - p) as nat);
                    assert((a - pow2(p)) * r < (b - pow2(p)) * r) by (nonlinear_arith)
                        requires
                            a < b,
                            r > 0,
                    ;
                }
            }
        }
    }

    /// The bits of the double of a positive number.
    fn positive_bits(whole: u64) -> (bits: u64)
        requires
            0 < whole < 0x4_0000_0000,
        ensures
            F64::of_int(whole as int) == (F64 { bits }),
            0x3FF0_0000_0000_0000 <= bits < 0x8000_0000_0000_0000,
    {
        proof {
            F64::of_int_fields(whole as nat);
            lemma2_to64();
            lemma2_to64_rest();
        }
        let mut m: u64 = whole;
        let mut p: u64 = 0;
        let mut q: u64 = 1;
        let mut r: u64 = 0x10_0000_0000_0000;
        while m > 1
            invariant
                1 <= m <= whole < 0x4_0000_0000,
                p + top_bit(m as nat) == top_bit(whole as nat),
                top_bit(whole as nat) <= 33,
                q == pow2(p as nat),
                r == pow2((52 - p) as nat),
                q <= 0x2_0000_0000,
            decreases m,
        {
            proof {
                lemma_pow2_unfold((p + 1) as nat);
                lemma_pow2_unfold((52 - p) as nat);
                lemma2_to64();
                lemma2_to64_rest();
                if p + 1 < 33 {
                    lemma_pow2_strictly_increases((p + 1) as nat, 33);
                }
            }
            m = m / 2;
            p = p + 1;
            q = q * 2;
            r = r / 2;
        }
        proof {
            top_bit_bounds(whole as nat);
        }
        let fraction: u64 = (whole - q) * r;
        (1023 + p) * 0x10_0000_0000_0000 + fraction
    }

    /// The double of a whole number.
    pub fn from_i32(n: i32) -> (f: F64)
        ensures
            f == F64::of_int(n as int),
    {
        if n == 0 {
            return F64 { bits: 0 };
        }
        if n < 0 {
            let size: u64 = F64::positive_bits((-(n as i64)) as u64);
            proof {
                F64::of_int_fields((-(n as int)) as nat);
            }
            F64 { bits: 0x8000_0000_0000_0000 + size }
        } else {
            F64 { bits: F64::positive_bits(n as u64) }
        }
    }

    /// The double of a natural number.
    pub fn from_u32(n: u32) -> (f: F64)
        ensures
            f == F64::of_int(n as int),
    {
        if n == 0 {
            return F64 { bits: 0 };
        }
        F64 { bits: F64::positive_bits(n as u64) }
    }

    /// The double of half of an odd number.
    pub open spec fn half_of(n: int) -> F64 {
        F64 { bits: (F64::of_int(n).bits - 0x10_0000_0000_0000) as u64 }
    }

    /// The double of half of an odd number.
    pub fn half(n: i64) -> (f: F64)
        requires
            n % 2 != 0,
            -0x4_0000_0000 < n < 0x4_0000_0000,
        ensures
            f == F64::half_of(n as int),
    {
        if n < 0 {
            let size: u64 = F64::positive_bits((-n) as u64);
            proof {
                F64::of_int_fields((-(n as int)) as nat);
            }
            F64 { bits: 0x8000_0000_0000_0000 + (size - 0x10_0000_0000_0000) }
        } else {
            F64 { bits: F64::positive_bits(n as u64) - 0x10_0000_0000_0000 }
        }
    }

    /// A whole number lies strictly between the halves next to it.
    pub proof fn int_between_halves(n: i32)
        ensures
            F64::half_of(2 * n - 1).below(F64::of_int(n as int)),
            F64::of_int(n as int).below(F64::half_of(2 * n + 1)),
    {
        let low = 2 * n - 1;
        let high = 2 * n + 1;
        F64::half_is_exact(low);
        F64::half_is_exact(high);
        F64::half_magnitude(low);
        F64::half_magnitude(high);
        if n != 0 {
            F64::doubling_adds_one(n as int);
            F64::half_magnitude(n as int);
            F64::of_int_is_exact(n);
            F64::magnitudes_keep_order(low, 2 * n);
            F64::magnitudes_keep_order(2 * n, low);
            F64::magnitudes_keep_order(high, 2 * n);
            F64::magnitudes_keep_order(2 * n, high);
        } else {
            assert(F64::of_int(0).bits == 0);
        }
    }

    /// A half lies one exponent below its number.
    proof fn half_magnitude(n: int)
        requires
            n != 0,
            -0x4_0000_0000 < n < 0x4_0000_0000,
        ensures
            F64::half_of(n).magnitude() == F64::of_int(n).magnitude() - 0x10_0000_0000_0000,
            F64::of_int(n).magnitude() >= 0x3FF0_0000_0000_0000,
            n < 0 <==> F64::of_int(n).bits >= 0x8000_0000_0000_0000,
    {
        F64::of_int_fields((if n < 0 {
            -n
        } else {
            n
        }) as nat);
    }

    /// Twice a number lies one exponent above it.
    proof fn doubling_adds_one(n: int)
        requires
            n != 0,
            -0x2_0000_0000 < n < 0x2_0000_0000,
        ensures
            F64::of_int(2 * n).magnitude() == F64::of_int(n).magnitude() + 0x10_0000_0000_0000,
    {
        let a = (if n < 0 {
            -n
        } else {
            n
        }) as nat;
        let p = top_bit(a);
        F64::of_int_fields(a);
        F64::of_int_fields(2 * a);
        assert(top_bit(2 * a) == 1 + p);
        lemma_pow2_unfold(p + 1);
        lemma_pow2_unfold((52 - p) as nat);
        let q = pow2(p) as int;
        let r = pow2((52 - p - 1) as nat) as int;
        assert((2 * a - 2 * q) * r == (a - q) * (2 * r)) by (nonlinear_arith);
    }

    /// One has this pattern.
    pub proof fn one_is(n: int)
        requires
            n == 1 || n == -1,
        ensures
            F64::of_int(n).magnitude() == ONE_BITS,
            n < 0 <==> F64::of_int(n).bits >= 0x8000_0000_0000_0000,
    {
        lemma2_to64();
        assert(top_bit(1) == 0);
        F64::half_magnitude(n);
        assert((1 - pow2(0)) * pow2(52) == 0);
    }

    /// Half of a number has its digits, and an exponent that is one less.
    pub proof fn half_is_exact(n: int)
        requires
            n != 0,
            -0x4_0000_0000 < n < 0x4_0000_0000,
        ensures
            !F64::half_of(n).nan(),
            F64::half_of(n).significand() == F64::of_int(n).significand(),
            F64::half_of(n).scale() == F64::of_int(n).scale() - 1,
            n < 0 <==> F64::half_of(n).bits >= 0x8000_0000_0000_0000,
    {
        let a = (if n < 0 {
            -n
        } else {
            n
        }) as nat;
        F64::of_int_fields(a);
        let p = top_bit(a);
        let fraction = (a - pow2(p)) * pow2((52 - p) as nat);
        assert(F64::of_int(n).magnitude() == (1023 + p) * 0x10_0000_0000_0000 + fraction);
        assert(F64::half_of(n).magnitude() == (1022 + p) * 0x10_0000_0000_0000 + fraction);
        assert(F64::of_int(n).exponent() == 1023 + p);
        assert(F64::half_of(n).exponent() == 1022 + p);
    }
}

/// A clamped number lies between the bounds, and clamping again changes nothing.
pub proof fn clamp_is_bounded(f: F64, low: F64, high: F64)
    requires
        low.at_most(high),
        !f.nan(),
    ensures
        low.at_most(f.clamped(low, high)),
        f.clamped(low, high).at_most(high),
        f.clamped(low, high).clamped(low, high) == f.clamped(low, high),
{
}

impl F32 {
    /// The bits but for the sign.
    pub open spec fn magnitude(self) -> int {
        if self.bits < 0x8000_0000 {
            self.bits as int
        } else {
            self.bits - 0x8000_0000
        }
    }

    pub open spec fn nan(self) -> bool {
        self.magnitude() > 0x7F80_0000
    }

    pub open spec fn same_number(self, other: F32) -> bool {
        !self.nan() && !other.nan() && (self.bits == other.bits || (self.magnitude() == 0
            && other.magnitude() == 0))
    }

    fn size_bits(&self) -> (m: u32)
        ensures
            m == self.magnitude(),
    {
        if self.bits < 0x8000_0000 {
            self.bits
        } else {
            self.bits - 0x8000_0000
        }
    }

    /// `self == other` as numbers.
    pub fn equals(&self, other: F32) -> (r: bool)
        ensures
            r == self.same_number(other),
    {
        let a: u32 = self.size_bits();
        let b: u32 = other.size_bits();
        a <= 0x7F80_0000 && b <= 0x7F80_0000 && (self.bits == other.bits || (a == 0 && b == 0))
    }
}

/// Numbers are in one order: one of two is below the other or they are the same,
/// and what is no number is neither. Both zeros are the same number.
pub proof fn numbers_are_in_one_order(a: F64, b: F64, c: F64)
    ensures
        !a.nan() && !b.nan() ==> (a.below(b) || b.below(a) || a.same_number(b)),
        a.below(b) ==> !b.below(a) && !a.same_number(b),
        a.at_most(b) <==> a.below(b) || a.same_number(b),
        a.below(b) && b.below(c) ==> a.below(c),
        a.nan() ==> !a.below(b) && !b.below(a) && !a.at_most(b) && !b.at_most(a) && !a.same_number(a),
        (F64 { bits: 0 }).same_number(F64 { bits: 0x8000_0000_0000_0000 }),
        (F64 { bits: 0 }).below(F64 { bits: 0x3FF0_0000_0000_0000 }),
        (F64 { bits: 0xBFF0_0000_0000_0000 }).below(F64 { bits: 0 }),
{
}

/// A raised number is not below its least value, and stays where it is not; what
/// is no number becomes that value.
pub proof fn raised_numbers_are_not_below(a: F64, low: F64)
    requires
        !low.nan(),
    ensures
        low.at_most(a.raised(low)),
        low.at_most(a) ==> a.raised(low) == a,
        !low.at_most(a) ==> a.raised(low) == low,
{
}

/// A number between its bounds stays, one below the lower becomes that, and one
/// above the upper becomes that.
pub proof fn clamped_numbers_stop_at_the_bounds(a: F64, low: F64, high: F64)
    requires
        low.at_most(high),
    ensures
        low.at_most(a) && a.at_most(high) ==> a.clamped(low, high) == a,
        a.below(low) ==> a.clamped(low, high) == low,
        high.below(a) ==> a.clamped(low, high) == high,
        !a.nan() ==> low.at_most(a.clamped(low, high)) && a.clamped(low, high).at_most(high),
{
}

} // verus!
