//! Exact arithmetic: where a result is a whole number that a double can hold, rounding
//! changes nothing.
use crate::float64::{above_zero, distance, dollars_to_cents, double_of_int, from_i64, from_u64};
use crate::float64::{hundredfold, is_finite, law_rounded_to_nearest, law_rounded_up};
use crate::float64::{lemma_ceiling_of_zero, lemma_integer_between, lemma_product_between};
use crate::float64::{nearest, round, round_up, scaled_ceiling, scaled_floor, times, truncate};
use crate::float64::{within_half, F64, TWO_52, TWO_53};
use crate::float_order::lemma_nearest_shifts;
use vstd::arithmetic::div_mod::{lemma_fundamental_div_mod, lemma_fundamental_div_mod_converse};
use vstd::arithmetic::power2::*;
use vstd::prelude::*;

verus! {

/// Whether a double stands for a natural number exactly.
pub open spec fn stands_for(x: F64, n: nat) -> bool {
    if n == 0 {
        x.bits == 0
    } else {
        x.between(-52, 0) && x.mantissa() == n * pow2((-x.exponent()) as nat)
    }
}

proof fn lemma_whole(n: nat, e: int)
    requires
        0 < n < TWO_53,
    ensures
        ({
            let (m, f) = nearest(n, 1, e);
            e - 52 <= f <= e && m == n * pow2((e - f) as nat) && TWO_52 <= m < TWO_53
        }),
    decreases TWO_53 - n,
{
    lemma2_to64();
    lemma2_to64_rest();
    if n < 0x10_0000_0000_0000 {
        assert(n * pow2(52) >= TWO_52) by (nonlinear_arith)
            requires
                n >= 1,
                pow2(52) == 0x10_0000_0000_0000,
        ;
        lemma_small(n, e, 52);
    } else {
        assert(n / 1 == n && n % 1 == 0);
        assert(n * pow2(0) == n);
    }
}

proof fn lemma_small(n: nat, e: int, k: nat)
    requires
        0 < n < TWO_53,
        n * pow2(k) >= TWO_52,
    ensures
        ({
            let (m, f) = nearest(n, 1, e);
            e - k <= f <= e && m == n * pow2((e - f) as nat) && TWO_52 <= m < TWO_53
        }),
    decreases k,
{
    lemma2_to64();
    if n < 0x10_0000_0000_0000 {
        assert(k > 0) by {
            assert(n * pow2(0) == n);
        }
        let less = (k - 1) as nat;
        lemma_pow2_unfold(k);
        assert(n * 2 * pow2(less) == n * pow2(k)) by (nonlinear_arith)
            requires
                pow2(k) == 2 * pow2(less),
        ;
        lemma_small(n * 2, e - 1, less);
        let (m, f) = nearest(n * 2, 1, e - 1);
        lemma_pow2_unfold((e - f) as nat);
        assert(n * 2 * pow2((e - 1 - f) as nat) == n * pow2((e - f) as nat)) by (nonlinear_arith)
            requires
                pow2((e - f) as nat) == 2 * pow2((e - 1 - f) as nat),
        ;
    } else {
        assert(n / 1 == n && n % 1 == 0);
        assert(n * pow2(0) == n);
    }
}

/// A natural number below 2^53 is held exactly.
pub proof fn law_whole_numbers_exact(n: u64, r: F64)
    requires
        call_ensures(from_u64, (n,), r),
        n < TWO_53,
    ensures
        stands_for(r, n as nat),
{
    lemma_stands_for(n as nat);
}

pub proof fn lemma_stands_for(n: nat)
    requires
        n < TWO_53,
    ensures
        stands_for(double_of_int(n as int), n),
{
    if n > 0 {
        lemma_integer_between(n as int);
        lemma_whole(n, 0);
    }
}

proof fn lemma_common_factor(num: nat, den: nat, k: nat, e: int)
    requires
        num > 0,
        den > 0,
        k > 0,
    ensures
        nearest(num * k, den * k, e) == nearest(num, den, e),
    decreases distance(num, den),
{
    let (a, b) = (num * k, den * k);
    assert(a > 0 && b > 0) by (nonlinear_arith)
        requires
            a == num * k,
            b == den * k,
            num > 0,
            den > 0,
            k > 0,
    ;
    assert(a >= b * 0x20_0000_0000_0000 <==> num >= den * 0x20_0000_0000_0000) by (nonlinear_arith)
        requires
            a == num * k,
            b == den * k,
            k > 0,
    ;
    assert(a < b * 0x10_0000_0000_0000 <==> num < den * 0x10_0000_0000_0000) by (nonlinear_arith)
        requires
            a == num * k,
            b == den * k,
            k > 0,
    ;
    if num >= den * 0x20_0000_0000_0000 {
        lemma_common_factor(num, den * 2, k, e + 1);
        assert(den * 2 * k == b * 2) by (nonlinear_arith)
            requires
                b == den * k,
        ;
    } else if num < den * 0x10_0000_0000_0000 {
        lemma_common_factor(num * 2, den, k, e - 1);
        assert(num * 2 * k == a * 2) by (nonlinear_arith)
            requires
                a == num * k,
        ;
    } else {
        let q = num / den;
        let r = num % den;
        lemma_fundamental_div_mod(num as int, den as int);
        assert(a == q * b + r * k) by (nonlinear_arith)
            requires
                num == den * q + r,
                a == num * k,
                b == den * k,
        ;
        assert(0 <= r * k < b) by (nonlinear_arith)
            requires
                0 <= r < den,
                b == den * k,
                k > 0,
        ;
        lemma_fundamental_div_mod_converse(a as int, b as int, q as int, (r * k) as int);
        assert(2 * (r * k) > b <==> 2 * r > den) by (nonlinear_arith)
            requires
                b == den * k,
                k > 0,
        ;
        assert(2 * (r * k) == b <==> 2 * r == den) by (nonlinear_arith)
            requires
                b == den * k,
                k > 0,
        ;
    }
}

/// A product with a ratio that is a whole number is that number.
pub proof fn lemma_whole_product(x: F64, n: nat, c: nat, d: nat, q: nat)
    requires
        n > 0,
        stands_for(x, n),
        c > 0,
        d > 0,
        n * c == q * d,
        q < TWO_53,
    ensures
        x.product(c, d, 0) == double_of_int(q as int),
        stands_for(x.product(c, d, 0), q),
{
    let (m, e) = (x.mantissa(), x.exponent());
    let k = (-e) as nat;
    assert(q > 0) by (nonlinear_arith)
        requires
            n * c == q * d,
            n > 0,
            c > 0,
            q >= 0,
            d > 0,
    ;
    assert(m * c == q * d * pow2(k)) by (nonlinear_arith)
        requires
            m == n * pow2(k),
            n * c == q * d,
    ;
    assert(q * d > 0) by (nonlinear_arith)
        requires
            q > 0,
            d > 0,
    ;
    lemma_nearest_shifts(q * d, d, 0, k);
    lemma_common_factor(q, 1, d, 0);
    assert(1 * d == d);
    lemma_stands_for(q);
}

/// A whole number rounded up is itself.
pub proof fn lemma_whole_ceiling(x: F64, n: nat, max: nat)
    requires
        stands_for(x, n),
        n <= max,
    ensures
        x.ceiling(max) == n,
{
    if n == 0 {
        lemma_ceiling_of_zero(max);
    } else {
        let k = (-x.exponent()) as nat;
        lemma_pow2_pos(k);
        lemma2_to64();
        let p = pow2(k) as int;
        if x.exponent() == 0 {
            assert(n * pow2(0) == n);
            assert(x.mantissa() * pow2(0) == x.mantissa());
        } else {
            lemma_fundamental_div_mod_converse(n * p + p - 1, p, n as int, p - 1);
        }
    }
}

/// A whole number of gibibytes is that many times 1024 mebibytes.
pub proof fn lemma_whole_truncated(x: F64, n: nat, max: nat)
    requires
        stands_for(x, n),
        1024 * n <= max,
    ensures
        x.truncated(0, max) == n,
        x.truncated(10, max) == 1024 * n,
{
    lemma2_to64();
    if n == 0 {
        lemma_pow2_pos(1074);
        lemma_pow2_pos(1064);
        assert(0nat / pow2(1074) == 0) by (nonlinear_arith)
            requires
                pow2(1074) > 0,
        ;
        assert(0nat / pow2(1064) == 0) by (nonlinear_arith)
            requires
                pow2(1064) > 0,
        ;
    } else {
        let (m, e) = (x.mantissa(), x.exponent());
        let k = (-e) as nat;
        lemma_pow2_pos(k);
        let p = pow2(k);
        lemma_fundamental_div_mod_converse((n * p) as int, p as int, n as int, 0);
        if e == 0 {
            assert(n * pow2(0) == n);
            assert(m * pow2(0) == m);
        }
        if k <= 10 {
            let j = (10 - k) as nat;
            lemma_pow2_adds(k, j);
            assert(p * pow2(j) == 1024);
            assert(n * p * pow2(j) == n * (p * pow2(j))) by (nonlinear_arith);
            assert((e + 10) as nat == j);
            assert(scaled_floor(m, e + 10) == 1024 * n);
        } else {
            let j = (k - 10) as nat;
            lemma_pow2_adds(10, j);
            lemma_pow2_pos(j);
            let w = pow2(j);
            assert(n * (1024 * w) == 1024 * n * w) by (nonlinear_arith);
            lemma_fundamental_div_mod_converse(
                (n * (1024 * w)) as int,
                w as int,
                (1024 * n) as int,
                0,
            );
            assert(p == 1024 * w);
            assert((-(e + 10)) as nat == j);
            assert(scaled_floor(m, e + 10) == 1024 * n);
        }
    }
}

/// A whole number of dollars is a hundred times as many cents.
pub proof fn law_whole_dollars(n: u64, x: F64, r: u64)
    requires
        call_ensures(from_u64, (n,), x),
        call_ensures(dollars_to_cents, (x,), r),
        100 * n < TWO_53,
    ensures
        r == 100 * n,
{
    lemma_whole_dollars(n as nat);
}

pub proof fn lemma_whole_dollars(n: nat)
    requires
        100 * n < TWO_53,
    ensures
        hundredfold(double_of_int(n as int)) == 100 * n,
{
    let x = double_of_int(n as int);
    lemma_stands_for(n);
    if n == 0 {
        lemma_pow2_pos(0);
        assert(0 * 100 == 0);
    } else {
        let (m, e) = (x.mantissa(), x.exponent());
        let k = (-e) as nat;
        assert(m * 100 == n * 100 * pow2(k)) by (nonlinear_arith)
            requires
                m == n * pow2(k),
        ;
        lemma_nearest_shifts(n * 100, 1, 0, k);
        lemma_whole(n * 100, 0);
        let (w, f) = nearest(n * 100, 1, 0);
        let j = (-f) as nat;
        lemma_pow2_pos(j);
        lemma2_to64();
        let p = pow2(j);
        lemma_fundamental_div_mod_converse(
            (n * 100 * p) as int,
            p as int,
            (n * 100) as int,
            0,
        );
        if f == 0 {
            assert(n * 100 * pow2(0) == n * 100);
            assert(w * pow2(0) == w);
        }
    }
}

/// A number is above zero where its bits are those of neither a zero, a negative number
/// nor no number at all; and it is finite where its bits without the sign are below those
/// of infinity.
pub proof fn law_kinds_of_numbers(x: F64, positive: bool, finite: bool)
    requires
        call_ensures(above_zero, (x,), positive),
        call_ensures(is_finite, (x,), finite),
    ensures
        positive <==> 0 < x.bits <= 0x7ff0_0000_0000_0000,
        finite <==> x.bits % 0x8000_0000_0000_0000 < 0x7ff0_0000_0000_0000,
{
}

/// A negative integer is its magnitude with the sign bit set; others are their own.
pub proof fn law_signed_integers(n: i64, r: F64, magnitude: F64)
    requires
        call_ensures(from_i64, (n,), r),
        call_ensures(from_u64, ((if n < 0 { -n } else { n as int }) as u64,), magnitude),
    ensures
        n >= 0 ==> r == magnitude,
        n < 0 ==> r.bits == 0x8000_0000_0000_0000 + magnitude.bits,
{
    let m: int = if n < 0 {
        -n
    } else {
        n as int
    };
    if m > 0 {
        lemma_integer_between(m);
    }
}

/// Any natural number is held by the double nearest to it: off by at most half a unit of
/// its last place.
pub proof fn law_integers_nearest(n: u64, r: F64)
    requires
        call_ensures(from_u64, (n,), r),
        n > 0,
    ensures
        within_half(n as nat, 1, 0, r.mantissa(), r.exponent()),
        !r.is_negative(),
{
    lemma_integer_between(n as int);
    law_rounded_to_nearest(n as nat, 1, 0);
}

/// Whether `r` is `m * 2^p` cut to an integer, or `max` where that is less.
pub open spec fn is_cut(m: nat, p: int, max: nat, r: nat) -> bool {
    if p >= 0 {
        r == m * pow2(p as nat) || (r == max && max <= m * pow2(p as nat))
    } else {
        let unit = pow2((-p) as nat);
        r * unit <= m && (m < (r + 1) * unit || r == max)
    }
}

pub proof fn lemma_cut(m: nat, p: int, max: nat)
    ensures
        ({
            let whole = scaled_floor(m, p);
            is_cut(
                m,
                p,
                max,
                if whole > max {
                    max
                } else {
                    whole
                },
            )
        }),
{
    if p < 0 {
        let unit = pow2((-p) as nat);
        lemma_pow2_pos((-p) as nat);
        let whole = m / unit;
        let rest = m % unit;
        lemma_fundamental_div_mod(m as int, unit as int);
        assert(whole * unit <= m && m < (whole + 1) * unit) by (nonlinear_arith)
            requires
                m == unit * whole + rest,
                0 <= rest < unit,
        ;
        if whole > max {
            assert(max * unit <= whole * unit) by (nonlinear_arith)
                requires
                    max < whole,
                    unit > 0,
            ;
        }
    }
}

/// A number times a power of two is cut to an integer: nothing for a negative number and
/// for no number at all, and the most that is allowed for one that is larger.
pub proof fn law_numbers_cut(x: F64, scale: u32, max: u64, r: u64)
    requires
        call_ensures(truncate, (x, scale, max), r),
    ensures
        x.bits > 0x7ff0_0000_0000_0000 ==> r == 0,
        x.bits == 0x7ff0_0000_0000_0000 ==> r == max,
        x.bits < 0x7ff0_0000_0000_0000 ==> is_cut(
            x.mantissa(),
            x.exponent() + scale,
            max as nat,
            r as nat,
        ),
{
    lemma_cut(x.mantissa(), x.exponent() + scale, max as nat);
}

/// A number is rounded up to the least integer that is not below it, or to the most that
/// is allowed.
pub proof fn law_numbers_rounded_up(x: F64, max: u64, r: u64)
    requires
        call_ensures(round_up, (x, max), r),
        x.bits == 0 || x.moderate(),
    ensures
        x.bits == 0 ==> r == 0,
        r <= max,
        x.exponent() >= 0 && r < max ==> r == x.mantissa() * pow2(x.exponent() as nat),
        x.exponent() < 0 ==> {
            let unit = pow2((-x.exponent()) as nat);
            (r - 1) * unit < x.mantissa() && (x.mantissa() <= r * unit || r == max)
        },
{
    let (m, e) = (x.mantissa(), x.exponent());
    law_rounded_up(m, e);
    if x.bits == 0 {
        lemma_ceiling_of_zero(max as nat);
    }
    if e < 0 {
        let unit = pow2((-e) as nat);
        let whole = scaled_ceiling(m, e);
        lemma_pow2_pos((-e) as nat);
        if whole > max {
            assert((max - 1) * unit <= (whole - 1) * unit) by (nonlinear_arith)
                requires
                    max < whole,
                    unit > 0,
            ;
        }
    }
}

/// A number times a ratio is rounded once: off by at most half a unit of its last place;
/// nothing times a ratio is nothing.
pub proof fn law_products_nearest(x: F64, c: u64, d: u64, shift: i64, r: F64)
    requires
        call_ensures(times, (x, c, d, shift), r),
        x.bits == 0 || x.between(-400, 400),
        0 < c < TWO_53,
        0 < d < 8192,
        -100 <= shift <= 100,
    ensures
        x.bits == 0 ==> r.bits == 0,
        x.bits != 0 ==> within_half(
            x.mantissa() * c as nat,
            d as nat,
            x.exponent() + shift,
            r.mantissa(),
            r.exponent(),
        ),
        !r.is_negative(),
{
    if x.bits != 0 {
        lemma2_to64();
        lemma2_to64_rest();
        let (cn, dn) = (c as nat, d as nat);
        assert(cn <= dn * pow2(53)) by (nonlinear_arith)
            requires
                cn < 0x20_0000_0000_0000,
                dn >= 1,
                pow2(53) == 0x20_0000_0000_0000,
        ;
        assert(dn <= cn * pow2(13)) by (nonlinear_arith)
            requires
                dn < 8192,
                cn >= 1,
                pow2(13) == 8192,
        ;
        lemma_product_between(x, cn, dn, shift as int, 53, 13, -400, 400);
        let n = x.mantissa() * cn;
        assert(n > 0) by (nonlinear_arith)
            requires
                n == x.mantissa() * cn,
                x.mantissa() > 0,
                cn > 0,
        ;
        law_rounded_to_nearest(n, dn, x.exponent() + shift);
    }
}

/// A dollar amount times a hundred is rounded to the nearest double and cut to whole
/// cents: nothing for a negative amount and for none, and the most that can be held for
/// one that is larger.
pub proof fn law_dollars_cut(x: F64, r: u64)
    requires
        call_ensures(dollars_to_cents, (x,), r),
    ensures
        x.bits > 0x7ff0_0000_0000_0000 ==> r == 0,
        x.bits == 0x7ff0_0000_0000_0000 ==> r == u64::MAX,
        0 < x.bits < 0x7ff0_0000_0000_0000 && x.mantissa() > 0 ==> exists|m: nat, e: int|
            #[trigger] within_half(x.mantissa() * 100, 1, x.exponent(), m, e) && is_cut(
                m,
                e,
                u64::MAX as nat,
                r as nat,
            ),
{
    if 0 < x.bits < 0x7ff0_0000_0000_0000 && x.mantissa() > 0 {
        let (m, e) = nearest(x.mantissa() * 100, 1, x.exponent());
        law_rounded_to_nearest(x.mantissa() * 100, 1, x.exponent());
        lemma_cut(m, e, u64::MAX as nat);
        assert(within_half(x.mantissa() * 100, 1, x.exponent(), m, e));
    }
}

/// The mantissa and the exponent of a number that is not negative make up its bits: a
/// mantissa of fifty-three bits with the exponent above it, or, below that, the bits
/// alone.
pub proof fn law_bits_of_numbers(x: F64)
    requires
        x.bits < 0x7ff0_0000_0000_0000,
    ensures
        x.bits >= 0x10_0000_0000_0000 ==> {
            &&& 0x10_0000_0000_0000 <= x.mantissa() < 0x20_0000_0000_0000
            &&& x.bits == (x.exponent() + 1075) * 0x10_0000_0000_0000 + x.mantissa()
                - 0x10_0000_0000_0000
        },
        x.bits < 0x10_0000_0000_0000 ==> x.mantissa() == x.bits && x.exponent() == -1074,
{
}

/// A small multiple of a number is rounded to the nearest integer: off by at most a half.
pub proof fn law_numbers_rounded(x: F64, k: u64, r: u128)
    requires
        call_ensures(round, (x, k), r),
    ensures
        x.exponent() >= 0 ==> r == k * x.mantissa() * pow2(x.exponent() as nat),
        x.exponent() < 0 ==> {
            let unit = pow2((-x.exponent()) as nat);
            -unit <= 2 * (r * unit - k * x.mantissa()) <= unit
        },
{
    if x.exponent() < 0 {
        let unit = pow2((-x.exponent()) as nat);
        lemma_pow2_pos((-x.exponent()) as nat);
        let n = k as nat * x.mantissa();
        let (q, s) = (n / unit, n % unit);
        lemma_fundamental_div_mod(n as int, unit as int);
        assert(n == q * unit + s) by (nonlinear_arith)
            requires
                n == unit * q + s,
        ;
        assert((q + 1) * unit == q * unit + unit) by (nonlinear_arith);
    }
}

} // verus!
