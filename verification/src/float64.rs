//! Double-precision numbers as their bit patterns, and the little arithmetic on
//! them that billing and sizing need, in integers.
//!
//! A finite double is `mantissa * 2^exponent` with a mantissa below `2^53`.
//! Arithmetic rounds to the nearest double, ties to the even mantissa.
use vstd::arithmetic::power2::*;
use vstd::prelude::*;

verus! {

pub const TWO_52: u64 = 0x10_0000_0000_0000;

pub const TWO_53: u64 = 0x20_0000_0000_0000;

/// The sign bit of a double.
pub const SIGN: u64 = 0x8000_0000_0000_0000;

/// The bit pattern of positive infinity; what is above it is not a number.
pub const INFINITE: u64 = 0x7ff0_0000_0000_0000;

/// A double-precision number, held as its bit pattern.
#[derive(Clone, Copy, Debug, PartialEq, Eq, Structural)]
pub struct F64 {
    pub bits: u64,
}

/// `m * 2^p`, rounded down.
pub open spec fn scaled_floor(m: nat, p: int) -> nat {
    if p >= 0 {
        m * pow2(p as nat)
    } else {
        m / pow2((-p) as nat)
    }
}

/// `m * 2^p`, rounded up.
pub open spec fn scaled_ceiling(m: nat, p: int) -> nat {
    if p >= 0 {
        m * pow2(p as nat)
    } else {
        ((m + pow2((-p) as nat) - 1) / (pow2((-p) as nat) as int)) as nat
    }
}

/// `num / den` rounded to the nearest integer, ties to the even one.
pub open spec fn nearest_integer(num: nat, den: nat) -> nat {
    let q = num / den;
    let r = num % den;
    if 2 * r > den || (2 * r == den && q % 2 == 1) {
        q + 1
    } else {
        q
    }
}

/// How far a ratio is from having a quotient of fifty-three bits.
pub open spec fn distance(num: nat, den: nat) -> nat {
    if num >= den * 0x20_0000_0000_0000 {
        (num - den) as nat
    } else if num < den * 0x10_0000_0000_0000 {
        (den * 0x10_0000_0000_0000 - num) as nat
    } else {
        0
    }
}

/// The mantissa and the exponent of the double nearest to `num / den * 2^e`: the
/// ratio is halved or doubled until its quotient has fifty-three bits, and that
/// quotient is rounded.
pub open spec fn nearest(num: nat, den: nat, e: int) -> (nat, int)
    decreases distance(num, den),
{
    if num == 0 || den == 0 {
        (0, 0)
    } else if num >= den * 0x20_0000_0000_0000 {
        nearest(num, den * 2, e + 1)
    } else if num < den * 0x10_0000_0000_0000 {
        nearest(num * 2, den, e - 1)
    } else {
        let m = nearest_integer(num, den);
        if m == TWO_53 {
            (TWO_52 as nat, e + 1)
        } else {
            (m, e)
        }
    }
}

/// The double with this mantissa and exponent.
pub open spec fn encoded(m: nat, e: int) -> F64 {
    if m == 0 {
        F64 { bits: 0 }
    } else {
        F64 { bits: ((e + 1075) * 0x10_0000_0000_0000 + m - 0x10_0000_0000_0000) as u64 }
    }
}

/// The double nearest to `num / den * 2^e`, inside the normal range.
pub open spec fn double(num: nat, den: nat, e: int) -> F64 {
    encoded(nearest(num, den, e).0, nearest(num, den, e).1)
}

impl F64 {
    pub open spec fn is_negative(self) -> bool {
        self.bits >= SIGN
    }

    /// The bit pattern without the sign.
    pub open spec fn magnitude(self) -> int {
        if self.is_negative() {
            self.bits - SIGN
        } else {
            self.bits as int
        }
    }

    pub open spec fn is_nan(self) -> bool {
        self.magnitude() > INFINITE
    }

    pub open spec fn is_finite(self) -> bool {
        self.magnitude() < INFINITE
    }

    pub open spec fn mantissa(self) -> nat {
        let fraction = (self.magnitude() % 0x10_0000_0000_0000) as nat;
        if self.magnitude() < TWO_52 {
            fraction
        } else {
            TWO_52 as nat + fraction
        }
    }

    pub open spec fn exponent(self) -> int {
        let biased = self.magnitude() / 0x10_0000_0000_0000;
        if biased == 0 {
            -1074
        } else {
            biased - 1075
        }
    }

    /// Above zero. Not a number is not.
    pub open spec fn above_zero(self) -> bool {
        !self.is_negative() && self.bits > 0 && !self.is_nan()
    }

    /// At or below zero. Not a number is not.
    pub open spec fn at_most_zero(self) -> bool {
        !self.is_nan() && (self.is_negative() || self.bits == 0)
    }

    /// The number times `2^scale`, cut to an integer between zero and `max`.
    pub open spec fn truncated(self, scale: nat, max: nat) -> nat {
        if self.is_nan() || self.is_negative() {
            0
        } else if !self.is_finite() || scaled_floor(self.mantissa(), self.exponent() + scale)
            > max {
            max
        } else {
            scaled_floor(self.mantissa(), self.exponent() + scale)
        }
    }

    /// The number times `c / d * 2^shift`, rounded once.
    pub open spec fn product(self, c: nat, d: nat, shift: int) -> F64 {
        double(self.mantissa() * c, d, self.exponent() + shift)
    }

    /// Neither negative nor extreme: zero, or a normal number with an exponent
    /// well inside the range of doubles.
    pub open spec fn moderate(self) -> bool {
        self.bits == 0 || (!self.is_negative() && self.is_finite() && self.mantissa() >= TWO_52
            && -800 <= self.exponent() <= 800)
    }

    /// `k` times the number, rounded to the nearest integer, ties to the even one.
    pub open spec fn rounded(self, k: nat) -> nat {
        if self.exponent() >= 0 {
            k * self.mantissa() * pow2(self.exponent() as nat)
        } else {
            nearest_integer(k * self.mantissa(), pow2((-self.exponent()) as nat))
        }
    }

    /// The number rounded up to an integer, at most `max`.
    pub open spec fn ceiling(self, max: nat) -> nat {
        let whole = scaled_ceiling(self.mantissa(), self.exponent());
        if whole > max {
            max
        } else {
            whole
        }
    }
}

/// Whether a number is above zero.
pub fn above_zero(x: F64) -> (r: bool)
    ensures
        r == x.above_zero(),
{
    0 < x.bits && x.bits <= INFINITE
}

/// Whether a number is neither infinite nor not a number.
pub fn is_finite(x: F64) -> (r: bool)
    ensures
        r == x.is_finite(),
{
    x.bits < INFINITE || (SIGN <= x.bits && x.bits - SIGN < INFINITE)
}

/// `2^p`.
fn power_of_two(p: u32) -> (r: u128)
    requires
        p <= 120,
    ensures
        r == pow2(p as nat),
        0 < r <= 0x100_0000_0000_0000_0000_0000_0000_0000,
{
    let mut r: u128 = 1;
    let mut i: u32 = 0;
    proof {
        lemma2_to64();
        lemma2_to64_rest();
        lemma_pow2_adds(60, 60);
    }
    while i < p
        invariant
            i <= p <= 120,
            r == pow2(i as nat),
            pow2(120) == 0x100_0000_0000_0000_0000_0000_0000_0000,
        decreases p - i,
    {
        proof {
            lemma_pow2_unfold((i + 1) as nat);
            if i + 1 < 120 {
                lemma_pow2_strictly_increases((i + 1) as nat, 120);
            }
        }
        r = r * 2;
        i = i + 1;
    }
    proof {
        lemma_pow2_pos(p as nat);
        if p < 120 {
            lemma_pow2_strictly_increases(p as nat, 120);
        }
    }
    r
}

/// `m * 2^p` rounded down, but at most `max`.
fn floor_at_most(m: u64, p: i64, max: u64) -> (r: u64)
    requires
        m < TWO_53,
        p >= 12 ==> m == 0 || m >= TWO_52,
    ensures
        r == (if scaled_floor(m as nat, p as int) > max {
            max as nat
        } else {
            scaled_floor(m as nat, p as int)
        }),
{
    proof {
        lemma2_to64();
        lemma2_to64_rest();
    }
    let whole: u128 = if m == 0 {
        proof {
            if p >= 0 {
                assert(0 * pow2(p as nat) == 0) by (nonlinear_arith);
            } else {
                lemma_pow2_pos((-p) as nat);
                assert(0nat / pow2((-p) as nat) == 0) by (nonlinear_arith)
                    requires
                        pow2((-p) as nat) > 0,
                ;
            }
        }
        0
    } else if p >= 12 {
        proof {
            if p > 12 {
                lemma_pow2_strictly_increases(12, p as nat);
            }
            assert(m * pow2(p as nat) >= TWO_52 * 4096) by (nonlinear_arith)
                requires
                    m >= TWO_52,
                    pow2(p as nat) >= 4096,
            ;
        }
        0x1_0000_0000_0000_0000
    } else if p >= 0 {
        proof {
            if p < 11 {
                lemma_pow2_strictly_increases(p as nat, 11);
            }
            assert(m * pow2(p as nat) <= TWO_53 * 2048) by (nonlinear_arith)
                requires
                    0 <= m < TWO_53,
                    0 <= pow2(p as nat) <= 2048,
            ;
        }
        (m as u128) * power_of_two(p as u32)
    } else if p <= -53 {
        proof {
            if p < -53 {
                lemma_pow2_strictly_increases(53, (-p) as nat);
            }
            vstd::arithmetic::div_mod::lemma_basic_div(m as int, pow2((-p) as nat) as int);
        }
        0
    } else {
        (m as u128) / power_of_two((-p) as u32)
    };
    if whole > (max as u128) {
        max
    } else {
        whole as u64
    }
}

/// `m * 2^p` rounded up, but at most `max`.
fn ceiling_at_most(m: u64, p: i64, max: u64) -> (r: u64)
    requires
        m < TWO_53,
        p >= 12 ==> m == 0 || m >= TWO_52,
        -120 <= p,
    ensures
        r == (if scaled_ceiling(m as nat, p as int) > max {
            max as nat
        } else {
            scaled_ceiling(m as nat, p as int)
        }),
{
    if p >= 0 {
        return floor_at_most(m, p, max);
    }
    let d: u128 = power_of_two((-p) as u32);
    let whole: u128 = ((m as u128) + d - 1) / d;
    if whole > (max as u128) {
        max
    } else {
        whole as u64
    }
}

/// Doubling a positive number often enough passes any bound.
proof fn lemma_doublings(small: nat, k: nat, bound: nat, limit: nat)
    requires
        small >= 1,
        small * pow2(k) < bound,
        bound <= small * pow2(limit),
    ensures
        k < limit,
{
    if k >= limit {
        if k > limit {
            lemma_pow2_strictly_increases(limit, k);
        }
        assert(small * pow2(k) >= small * pow2(limit)) by (nonlinear_arith)
            requires
                pow2(k) >= pow2(limit),
        ;
    }
}

/// The mantissa and the exponent of the double nearest to `num / den * 2^e`.
fn nearest_double(num: u128, den: u128, e: i64) -> (r: (u64, i64))
    requires
        num < 0x400_0000_0000_0000_0000_0000_0000,
        0 < den < 8192,
        -2000 <= e <= 2000,
    ensures
        (r.0 as nat, r.1 as int) == nearest(num as nat, den as nat, e as int),
        num == 0 ==> r.0 == 0,
        num > 0 ==> TWO_52 <= r.0 < TWO_53,
        num > 0 ==> e - 66 <= r.1 <= e + 55,
        num > 0 && num >= den ==> r.1 >= e - 52,
        num >= TWO_52 ==> r.1 >= e - 13,
        num > 0 && num < den * 0x20_0000_0000_0000 ==> r.1 <= e + 1,
        num > 0 && num < den * 0x2_0000_0000_0000_0000 ==> r.1 <= e + 13,
{
    if num == 0 {
        return (0, 0);
    }
    proof {
        lemma2_to64();
        lemma2_to64_rest();
        lemma_pow2_adds(60, 6);
        assert(den * pow2(0) == den) by (nonlinear_arith)
            requires
                pow2(0) == 1,
        ;
        assert(num * pow2(0) == num) by (nonlinear_arith)
            requires
                pow2(0) == 1,
        ;
    }
    let mut d: u128 = den;
    let mut k: i64 = 0;
    while num >= d * 0x20_0000_0000_0000u128
        invariant
            0 < num < 0x400_0000_0000_0000_0000_0000_0000,
            0 < den < 8192,
            0 < d <= 0x80_0000_0000_0000,
            0 <= k <= 54,
            d == den * pow2(k as nat),
            k == 0 ==> d == den,
            k > 0 ==> num >= d * 0x10_0000_0000_0000,
            pow2(55) == 0x80_0000_0000_0000,
            pow2(12) == 4096,
            num < den * 0x20_0000_0000_0000 ==> k == 0,
            num < den * 0x2_0000_0000_0000_0000 ==> k <= 12,
            nearest(num as nat, den as nat, e as int) == nearest(num as nat, d as nat, e + k),
        decreases num - d,
    {
        assert(d < 0x20_0000_0000_0000);
        let ghost before = k;
        d = d * 2;
        k = k + 1;
        proof {
            lemma_pow2_unfold(k as nat);
            assert(den * pow2(k as nat) == 2 * (den * pow2(before as nat))) by (nonlinear_arith)
                requires
                    pow2(k as nat) == 2 * pow2(before as nat),
            ;
            assert(den * pow2(55) >= 0x80_0000_0000_0000) by (nonlinear_arith)
                requires
                    den >= 1,
                    pow2(55) == 0x80_0000_0000_0000,
            ;
            lemma_doublings(den as nat, k as nat, 0x80_0000_0000_0000, 55);
            if num < den * 0x2_0000_0000_0000_0000 {
                assert(den * pow2(12) == den * 4096) by (nonlinear_arith)
                    requires
                        pow2(12) == 4096,
                ;
                lemma_doublings(den as nat, before as nat, den as nat * 4096, 12);
            }
        }
    }
    let mut n: u128 = num;
    let mut j: i64 = 0;
    while n < d * 0x10_0000_0000_0000u128
        invariant
            0 < num,
            0 < d <= 0x80_0000_0000_0000,
            0 <= j <= 66,
            0 <= k <= 54,
            k > 0 ==> num >= d * 0x10_0000_0000_0000,
            k == 0 ==> d == den,
            0 < den < 8192,
            j > 0 ==> k == 0,
            num > 0 && num >= den ==> j <= 52,
            num >= TWO_52 ==> j <= 13,
            n == num * pow2(j as nat),
            0 < num <= n < d * 0x20_0000_0000_0000,
            pow2(66) == 0x4_0000_0000_0000_0000,
            pow2(52) == 0x10_0000_0000_0000,
            pow2(13) == 8192,
            nearest(num as nat, den as nat, e as int) == nearest(n as nat, d as nat, e + k - j),
        decreases d * 0x20_0000_0000_0000 - n,
    {
        let ghost before = j;
        n = n * 2;
        j = j + 1;
        proof {
            lemma_pow2_unfold(j as nat);
            assert(num * pow2(j as nat) == 2 * (num * pow2(before as nat))) by (nonlinear_arith)
                requires
                    pow2(j as nat) == 2 * pow2(before as nat),
            ;
            let bound = d as nat * 0x10_0000_0000_0000;
            assert(num * pow2(66) >= 0x4_0000_0000_0000_0000) by (nonlinear_arith)
                requires
                    num >= 1,
                    pow2(66) == 0x4_0000_0000_0000_0000,
            ;
            lemma_doublings(num as nat, before as nat, bound, 66);
            if num >= den {
                assert(num * pow2(52) >= den * 0x10_0000_0000_0000) by (nonlinear_arith)
                    requires
                        num >= den,
                        pow2(52) == 0x10_0000_0000_0000,
                ;
                lemma_doublings(num as nat, before as nat, bound, 52);
            }
            if num >= TWO_52 {
                assert(num * pow2(13) >= 8192 * 0x10_0000_0000_0000) by (nonlinear_arith)
                    requires
                        num >= 0x10_0000_0000_0000,
                        pow2(13) == 8192,
                ;
                lemma_doublings(num as nat, before as nat, bound, 13);
            }
        }
    }
    let q: u128 = n / d;
    let r: u128 = n % d;
    proof {
        assert(0x10_0000_0000_0000 <= q < 0x20_0000_0000_0000) by (nonlinear_arith)
            requires
                q == n / d,
                d > 0,
                d * 0x10_0000_0000_0000 <= n < d * 0x20_0000_0000_0000,
        ;
    }
    let up = 2 * r > d || (2 * r == d && q % 2 == 1);
    let m: u128 = if up {
        q + 1
    } else {
        q
    };
    if m == TWO_53 as u128 {
        (TWO_52, e + k - j + 1)
    } else {
        (m as u64, e + k - j)
    }
}

/// What was encoded is read back.
proof fn lemma_encoded(m: nat, e: int)
    requires
        m == 0 || TWO_52 <= m < TWO_53,
        -1074 <= e <= 971,
    ensures
        encoded(m, e).mantissa() == m,
        m > 0 ==> encoded(m, e).exponent() == e,
        !encoded(m, e).is_negative(),
        encoded(m, e).is_finite(),
        m == 0 <==> encoded(m, e).bits == 0,
{
}

fn encode(m: u64, e: i64) -> (r: F64)
    requires
        m == 0 || TWO_52 <= m < TWO_53,
        -1074 <= e <= 971,
    ensures
        r == encoded(m as nat, e as int),
{
    if m == 0 {
        F64 { bits: 0 }
    } else {
        F64 { bits: ((e + 1075) as u64) * 0x10_0000_0000_0000 + (m - TWO_52) }
    }
}

fn unsigned_bits(x: F64) -> (r: u64)
    ensures
        r == x.magnitude(),
        r < SIGN,
{
    if x.bits >= SIGN {
        x.bits - SIGN
    } else {
        x.bits
    }
}

fn mantissa_of(x: F64) -> (r: u64)
    ensures
        r == x.mantissa(),
        r < TWO_53,
{
    let bits: u64 = unsigned_bits(x);
    if bits < TWO_52 {
        bits % 0x10_0000_0000_0000
    } else {
        TWO_52 + bits % 0x10_0000_0000_0000
    }
}

fn exponent_of(x: F64) -> (r: i64)
    ensures
        r == x.exponent(),
        -1074 <= r <= 972,
        r > -1074 ==> x.mantissa() >= TWO_52,
{
    let biased: u64 = unsigned_bits(x) / 0x10_0000_0000_0000;
    if biased == 0 {
        -1074
    } else {
        biased as i64 - 1075
    }
}

/// The double nearest to an integer.
pub open spec fn double_of_int(n: int) -> F64 {
    if n < 0 {
        F64 { bits: (SIGN + double((-n) as nat, 1, 0).bits) as u64 }
    } else {
        double(n as nat, 1, 0)
    }
}

/// The double nearest to `n`.
pub fn from_u64(n: u64) -> (r: F64)
    ensures
        r == double_of_int(n as int),
        r.moderate(),
        r.bits != 0 ==> -52 <= r.exponent() <= 13,
        r.bits == 0 <==> n == 0,
{
    let (m, e) = nearest_double(n as u128, 1, 0);
    proof {
        lemma_encoded(m as nat, e as int);
    }
    encode(m, e)
}

/// The double nearest to `n`.
pub fn from_i64(n: i64) -> (r: F64)
    ensures
        r == double_of_int(n as int),
{
    if n >= 0 {
        return from_u64(n as u64);
    }
    let magnitude: u64 = (-(n as i128)) as u64;
    let positive = from_u64(magnitude);
    F64 { bits: SIGN + positive.bits }
}

/// `x` times `2^scale`, cut to an integer between zero and `max`.
pub fn truncate(x: F64, scale: u32, max: u64) -> (r: u64)
    requires
        scale <= 100,
    ensures
        r == x.truncated(scale as nat, max as nat),
{
    if x.bits > INFINITE {
        return 0;
    }
    if x.bits == INFINITE {
        return max;
    }
    floor_at_most(mantissa_of(x), exponent_of(x) + scale as i64, max)
}

/// `x` times `c / d * 2^shift`, rounded once.
pub fn times(x: F64, c: u64, d: u64, shift: i64) -> (r: F64)
    requires
        x.moderate(),
        0 < c < TWO_53,
        0 < d < 8192,
        -100 <= shift <= 100,
    ensures
        r == x.product(c as nat, d as nat, shift as int),
        r.bits == 0 <==> x.bits == 0,
        !r.is_negative() && r.is_finite(),
        r.bits != 0 ==> r.mantissa() >= TWO_52 && x.exponent() + shift - 13 <= r.exponent()
            <= x.exponent() + shift + 55,
        r.bits != 0 && c == 1 ==> r.exponent() <= x.exponent() + shift + 1,
        r.bits != 0 && c <= 4096 ==> r.exponent() <= x.exponent() + shift + 13,
{
    let m: u64 = mantissa_of(x);
    if m == 0 {
        assert(0 * c == 0) by (nonlinear_arith);
        return F64 { bits: 0 };
    }
    proof {
        assert(c == 1 ==> m * c == m) by (nonlinear_arith);
        assert(0x10_0000_0000_0000 <= m * c < 0x400_0000_0000_0000_0000_0000_0000) by (nonlinear_arith)
            requires
                0x10_0000_0000_0000 <= m < 0x20_0000_0000_0000,
                0 < c < 0x20_0000_0000_0000,
        ;
        assert(c <= 4096 ==> m * c < 0x2_0000_0000_0000_0000) by (nonlinear_arith)
            requires
                0 <= m < 0x20_0000_0000_0000,
                0 < c,
        ;
    }
    let (q, e) = nearest_double((m as u128) * (c as u128), d as u128, exponent_of(x) + shift);
    proof {
        lemma_encoded(q as nat, e as int);
    }
    encode(q, e)
}

/// `x` rounded up to an integer, at most `max`.
pub fn round_up(x: F64, max: u64) -> (r: u64)
    requires
        x.bits == 0 || (x.moderate() && -120 <= x.exponent()),
    ensures
        r == x.ceiling(max as nat),
{
    if x.bits == 0 {
        proof {
            lemma_ceiling_of_zero(max as nat);
        }
        return 0;
    }
    ceiling_at_most(mantissa_of(x), exponent_of(x), max)
}

/// `k` times `x`, rounded to the nearest integer.
pub fn round(x: F64, k: u64) -> (r: u128)
    requires
        x.bits == 0 || (x.moderate() && -120 <= x.exponent() <= 60),
        k <= 10,
    ensures
        r == x.rounded(k as nat),
{
    let m: u64 = mantissa_of(x);
    if m == 0 {
        proof {
            lemma_pow2_pos(1074);
            let p = pow2(1074);
            assert(k * 0 == 0);
            assert(0nat / p == 0 && 0nat % p == 0) by (nonlinear_arith)
                requires
                    p > 0,
            ;
        }
        return 0;
    }
    let e: i64 = exponent_of(x);
    assert(m * k < 0x200_0000_0000_0000) by (nonlinear_arith)
        requires
            0 <= m < 0x20_0000_0000_0000,
            0 <= k <= 10,
    ;
    let n: u128 = (m as u128) * (k as u128);
    assert(n == k * m) by (nonlinear_arith)
        requires
            n == m * k,
    ;
    if e >= 0 {
        proof {
            lemma2_to64();
            lemma2_to64_rest();
            if e < 60 {
                lemma_pow2_strictly_increases(e as nat, 60);
            }
        }
        let p: u128 = power_of_two(e as u32);
        assert(n * p < 0x100_0000_0000_0000_0000_0000_0000_0000) by (nonlinear_arith)
            requires
                0 <= n < 0x200_0000_0000_0000,
                0 <= p <= 0x1000_0000_0000_0000,
        ;
        return n * p;
    }
    let den: u128 = power_of_two((-e) as u32);
    let q: u128 = n / den;
    let r: u128 = n % den;
    assert(q <= n) by (nonlinear_arith)
        requires
            q == n / den,
            den > 0,
            n >= 0,
    ;
    if 2 * r > den || (2 * r == den && q % 2 == 1) {
        q + 1
    } else {
        q
    }
}

/// `x` times one hundred, rounded once and cut to an integer that fits: an amount
/// of whole cents.
pub open spec fn hundredfold(x: F64) -> nat {
    if x.is_nan() || x.is_negative() {
        0
    } else if !x.is_finite() {
        u64::MAX as nat
    } else {
        let (m, e) = nearest(x.mantissa() * 100, 1, x.exponent());
        if scaled_floor(m, e) > u64::MAX {
            u64::MAX as nat
        } else {
            scaled_floor(m, e)
        }
    }
}

/// A dollar amount as whole cents.
pub fn dollars_to_cents(x: F64) -> (r: u64)
    ensures
        r == hundredfold(x),
{
    if x.bits > INFINITE {
        return 0;
    }
    if x.bits == INFINITE {
        return u64::MAX;
    }
    let n: u128 = (mantissa_of(x) as u128) * 100;
    let (m, e) = nearest_double(n, 1, exponent_of(x));
    floor_at_most(m, e, u64::MAX)
}

// ---- numbers that stay above zero -------------------------------------------

impl F64 {
    /// Above zero and normal, with an exponent between two bounds.
    pub open spec fn between(self, low: int, high: int) -> bool {
        !self.is_negative() && self.is_finite() && TWO_52 <= self.mantissa() < TWO_53 && low
            <= self.exponent() <= high
    }
}

/// How far the exponent of the nearest double is moved: up at most one more than the
/// ratio has bits too many, down at most by what it has too few.
proof fn lemma_nearest_bounds(num: nat, den: nat, e: int, up: nat, down: nat)
    requires
        num > 0,
        den > 0,
        num < den * 0x20_0000_0000_0000 * pow2(up),
        den * 0x10_0000_0000_0000 <= num * pow2(down),
    ensures
        TWO_52 <= nearest(num, den, e).0 < TWO_53,
        e - down <= nearest(num, den, e).1 <= e + up + 1,
    decreases up + down,
{
    lemma2_to64();
    if num >= den * 0x20_0000_0000_0000 {
        assert(up > 0);
        let less = (up - 1) as nat;
        lemma_pow2_unfold(up);
        assert(den * 0x20_0000_0000_0000 * pow2(up) == den * 2 * 0x20_0000_0000_0000 * pow2(less))
            by (nonlinear_arith)
            requires
                pow2(up) == 2 * pow2(less),
        ;
        lemma_pow2_pos(down);
        assert(num * pow2(down) >= num) by (nonlinear_arith)
            requires
                pow2(down) >= 1,
        ;
        lemma_nearest_bounds(num, den * 2, e + 1, less, down);
    } else if num < den * 0x10_0000_0000_0000 {
        if down == 0 {
            assert(num * pow2(down) == num) by (nonlinear_arith)
                requires
                    pow2(down) == 1,
            ;
        }
        let less = (down - 1) as nat;
        lemma_pow2_unfold(down);
        assert(num * pow2(down) == num * 2 * pow2(less)) by (nonlinear_arith)
            requires
                pow2(down) == 2 * pow2(less),
        ;
        lemma_pow2_pos(up);
        assert(den * 0x20_0000_0000_0000 * pow2(up) >= den * 0x20_0000_0000_0000)
            by (nonlinear_arith)
            requires
                pow2(up) >= 1,
        ;
        if up > 0 {
            assert(den * 0x20_0000_0000_0000 * pow2(0) == den * 0x20_0000_0000_0000);
            lemma_nearest_bounds(num * 2, den, e - 1, 0, less);
        } else {
            lemma_nearest_bounds(num * 2, den, e - 1, up, less);
        }
    } else {
        let q = num / den;
        assert(0x10_0000_0000_0000 <= q < 0x20_0000_0000_0000) by (nonlinear_arith)
            requires
                q == num / den,
                den > 0,
                den * 0x10_0000_0000_0000 <= num < den * 0x20_0000_0000_0000,
        ;
    }
}

/// A positive integer is a normal double.
pub proof fn lemma_integer_between(n: int)
    requires
        0 < n <= u64::MAX,
    ensures
        double_of_int(n).between(-52, 12),
        (double_of_int(n).mantissa(), double_of_int(n).exponent()) == nearest(n as nat, 1, 0),
{
    lemma2_to64();
    lemma2_to64_rest();
    lemma_nearest_bounds(n as nat, 1, 0, 11, 52);
    let (m, e) = nearest(n as nat, 1, 0);
    lemma_encoded(m, e);
}

/// A product with a ratio is a normal double, with an exponent not far away.
pub proof fn lemma_product_between(
    x: F64,
    c: nat,
    d: nat,
    shift: int,
    up: nat,
    down: nat,
    low: int,
    high: int,
)
    requires
        x.between(low, high),
        0 < c,
        0 < d,
        c <= d * pow2(up),
        d <= c * pow2(down),
        -1000 <= low + shift - down,
        high + shift + up <= 900,
    ensures
        x.product(c, d, shift).between(low + shift - down, high + shift + up + 1),
        (x.product(c, d, shift).mantissa(), x.product(c, d, shift).exponent()) == nearest(
            x.mantissa() * c,
            d,
            x.exponent() + shift,
        ),
{
    let m = x.mantissa();
    assert(m * c > 0) by (nonlinear_arith)
        requires
            m > 0,
            c > 0,
    ;
    assert(m * c < d * 0x20_0000_0000_0000 * pow2(up)) by (nonlinear_arith)
        requires
            m < 0x20_0000_0000_0000,
            0 < c,
            c <= d * pow2(up),
    ;
    assert(d * 0x10_0000_0000_0000 <= m * c * pow2(down)) by (nonlinear_arith)
        requires
            0x10_0000_0000_0000 <= m,
            d <= c * pow2(down),
    ;
    lemma_nearest_bounds(m * c, d, x.exponent() + shift, up, down);
    let (r, e) = nearest(m * c, d, x.exponent() + shift);
    lemma_encoded(r, e);
}

/// A number above zero is not rounded up to zero.
pub proof fn lemma_ceiling_positive(x: F64, max: nat, low: int, high: int)
    requires
        x.between(low, high),
        max > 0,
    ensures
        x.ceiling(max) > 0,
{
    let m = x.mantissa();
    if x.exponent() >= 0 {
        lemma_pow2_pos(x.exponent() as nat);
        let p = pow2(x.exponent() as nat);
        assert(m * p > 0) by (nonlinear_arith)
            requires
                m > 0,
                p > 0,
        ;
    } else {
        lemma_pow2_pos((-x.exponent()) as nat);
        let p = pow2((-x.exponent()) as nat) as int;
        assert((m + p - 1) / p >= 1) by (nonlinear_arith)
            requires
                m >= 1,
                p > 0,
        ;
    }
}

/// Zero rounded up is zero.
pub proof fn lemma_ceiling_of_zero(max: nat)
    ensures
        (F64 { bits: 0 }).ceiling(max) == 0,
{
    lemma_pow2_pos(1074);
    let p = pow2(1074) as int;
    assert((0 + p - 1) / p == 0) by (nonlinear_arith)
        requires
            p > 0,
    ;
}

// ---- rounding ---------------------------------------------------------------

/// Whether `m * 2^f` differs from `num / den * 2^e` by at most half of `2^f`.
pub open spec fn within_half(num: nat, den: nat, e: int, m: nat, f: int) -> bool {
    if f >= e {
        let unit = den * pow2((f - e) as nat);
        -unit <= 2 * (m * unit - num) <= unit
    } else {
        -den <= 2 * (m * den - num * pow2((e - f) as nat)) <= den
    }
}

/// The nearest double is nearest: it is off by at most half a unit of its last place.
pub proof fn law_rounded_to_nearest(num: nat, den: nat, e: int)
    requires
        num > 0,
        den > 0,
    ensures
        within_half(num, den, e, nearest(num, den, e).0, nearest(num, den, e).1),
    decreases distance(num, den),
{
    lemma2_to64();
    let (m, f) = nearest(num, den, e);
    if num >= den * 0x20_0000_0000_0000 {
        law_rounded_to_nearest(num, den * 2, e + 1);
        if f >= e + 1 {
            let less = pow2((f - e - 1) as nat);
            lemma_pow2_unfold((f - e) as nat);
            assert(den * 2 * less == den * (2 * less)) by (nonlinear_arith);
        } else {
            let more = pow2((e + 1 - f) as nat);
            let less = pow2((e - f) as nat);
            lemma_pow2_unfold((e + 1 - f) as nat);
            assert(m * (den * 2) == 2 * (m * den)) by (nonlinear_arith);
            assert(num * (2 * less) == 2 * (num * less)) by (nonlinear_arith);
            if f == e {
                assert(den * 1 == den && num * 1 == num);
            }
        }
    } else if num < den * 0x10_0000_0000_0000 {
        law_rounded_to_nearest(num * 2, den, e - 1);
        if f >= e {
            let unit = den * pow2((f - e) as nat);
            lemma_pow2_unfold((f - e + 1) as nat);
            let wide = den * pow2((f - e + 1) as nat);
            let p = pow2((f - e) as nat);
            assert(den * (2 * p) == 2 * (den * p)) by (nonlinear_arith);
            assert(m * (2 * unit) == 2 * (m * unit)) by (nonlinear_arith);
        } else if f == e - 1 {
            assert(den * pow2(0) == den);
        } else {
            let less = pow2((e - 1 - f) as nat);
            lemma_pow2_unfold((e - f) as nat);
            assert(num * 2 * less == num * (2 * less)) by (nonlinear_arith);
        }
    } else {
        let q = num / den;
        let r = num % den;
        assert(num == q * den + r) by (nonlinear_arith)
            requires
                q == num / den,
                r == num % den,
                den > 0,
        ;
        assert((q + 1) * den == q * den + den) by (nonlinear_arith);
        assert(den * pow2(0) == den);
        if nearest_integer(num, den) == TWO_53 {
            assert(den * pow2(1) == den * 2);
            assert(0x10_0000_0000_0000 * (den * 2) == 0x20_0000_0000_0000 * den);
        }
    }
}

/// A number rounded up is the least integer that is not below it.
pub proof fn law_rounded_up(m: nat, e: int)
    ensures
        ({
            let whole = scaled_ceiling(m, e);
            if e >= 0 {
                whole == m * pow2(e as nat)
            } else {
                (whole - 1) * pow2((-e) as nat) < m <= whole * pow2((-e) as nat)
            }
        }),
{
    if e < 0 {
        lemma_pow2_pos((-e) as nat);
        let p = pow2((-e) as nat) as int;
        let whole = (m + p - 1) / p;
        assert((whole - 1) * p < m <= whole * p && whole >= 0) by (nonlinear_arith)
            requires
                whole == (m + p - 1) / p,
                p > 0,
                m >= 0,
        ;
    }
}

} // verus!
