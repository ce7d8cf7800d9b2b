//! Rounding keeps the order of numbers: of two doubles, integers or products with the
//! same ratio, the one that is not above the other is not above it after rounding.
use crate::float64::{distance, double_of_int, nearest, nearest_integer, scaled_ceiling, F64};
use crate::float64::{lemma_integer_between, lemma_product_between};
use crate::float64::{law_rounded_up, TWO_52, TWO_53};
use vstd::arithmetic::power2::*;
use vstd::prelude::*;

verus! {

/// Whether one mantissa and exponent stand for no more than another pair does, where
/// both mantissas have fifty-three bits.
pub open spec fn not_above(a: (nat, int), b: (nat, int)) -> bool {
    a.1 < b.1 || (a.1 == b.1 && a.0 <= b.0)
}

/// Whether one double above zero is not above another.
pub open spec fn at_most(x: F64, y: F64) -> bool {
    not_above((x.mantissa(), x.exponent()), (y.mantissa(), y.exponent()))
}

/// Where the exponent of the nearest double lies, by the size of the ratio.
proof fn lemma_place(num: nat, den: nat, e: int)
    requires
        num > 0,
        den > 0,
    ensures
        ({
            let (m, f) = nearest(num, den, e);
            &&& TWO_52 <= m < TWO_53
            &&& num < den * 0x20_0000_0000_0000 ==> not_above((m, f), (TWO_52 as nat, e + 1))
            &&& num < den * 0x10_0000_0000_0000 ==> not_above((m, f), (TWO_52 as nat, e))
            &&& num >= den * 0x10_0000_0000_0000 ==> f >= e
            &&& num >= den * 0x20_0000_0000_0000 ==> f >= e + 1
        }),
    decreases distance(num, den),
{
    if num >= den * 0x20_0000_0000_0000 {
        lemma_place(num, den * 2, e + 1);
    } else if num < den * 0x10_0000_0000_0000 {
        lemma_place(num * 2, den, e - 1);
    } else {
        let q = num / den;
        assert(0x10_0000_0000_0000 <= q < 0x20_0000_0000_0000) by (nonlinear_arith)
            requires
                q == num / den,
                den > 0,
                den * 0x10_0000_0000_0000 <= num < den * 0x20_0000_0000_0000,
        ;
    }
}

/// A larger numerator is not rounded to a smaller integer.
proof fn lemma_nearest_integer_order(a: nat, b: nat, den: nat)
    requires
        a <= b,
        den > 0,
    ensures
        nearest_integer(a, den) <= nearest_integer(b, den),
{
    let (q, r) = (a / den, a % den);
    let (s, t) = (b / den, b % den);
    assert(a == q * den + r && 0 <= r < den) by (nonlinear_arith)
        requires
            q == a / den,
            r == a % den,
            den > 0,
    ;
    assert(b == s * den + t && 0 <= t < den) by (nonlinear_arith)
        requires
            s == b / den,
            t == b % den,
            den > 0,
    ;
    assert(q <= s) by (nonlinear_arith)
        requires
            q == a / den,
            s == b / den,
            a <= b,
            den > 0,
    ;
}

/// A larger ratio is not rounded to a smaller double.
proof fn lemma_nearest_order(a: nat, b: nat, den: nat, e: int)
    requires
        0 < a <= b,
        den > 0,
    ensures
        not_above(nearest(a, den, e), nearest(b, den, e)),
    decreases distance(a, den) + distance(b, den),
{
    lemma_place(a, den, e);
    lemma_place(b, den, e);
    if a >= den * 0x20_0000_0000_0000 {
        lemma_nearest_order(a, b, den * 2, e + 1);
    } else if b < den * 0x10_0000_0000_0000 {
        lemma_nearest_order(a * 2, b * 2, den, e - 1);
    } else if a >= den * 0x10_0000_0000_0000 && b < den * 0x20_0000_0000_0000 {
        lemma_nearest_integer_order(a, b, den);
    }
}

/// Doubling the ratio and lowering the exponent by one changes nothing.
proof fn lemma_nearest_shift(num: nat, den: nat, e: int)
    requires
        num > 0,
        den > 0,
    ensures
        nearest(num * 2, den, e - 1) == nearest(num, den, e),
    decreases distance(num, den),
{
    if num < den * 0x10_0000_0000_0000 {
    } else if num >= den * 0x20_0000_0000_0000 {
        assert(num * 2 >= den * 0x20_0000_0000_0000);
        lemma_nearest_shift(num, den * 2, e + 1);
    } else {
        assert(nearest(num * 2, den, e - 1) == nearest(num * 2, den * 2, e));
        let q = num / den;
        let r = num % den;
        assert((num * 2) / (den * 2) == q && (num * 2) % (den * 2) == r * 2) by (nonlinear_arith)
            requires
                q == num / den,
                r == num % den,
                den > 0,
        ;
    }
}

/// The same for any number of doublings.
pub proof fn lemma_nearest_shifts(num: nat, den: nat, e: int, k: nat)
    requires
        num > 0,
        den > 0,
    ensures
        nearest(num * pow2(k), den, e - k) == nearest(num, den, e),
    decreases k,
{
    lemma2_to64();
    if k == 0 {
        assert(num * pow2(0) == num);
    } else {
        let less = (k - 1) as nat;
        lemma_nearest_shifts(num, den, e, less);
        lemma_pow2_unfold(k);
        lemma_pow2_pos(less);
        let n = num * pow2(less);
        assert(n > 0) by (nonlinear_arith)
            requires
                n == num * pow2(less),
                num > 0,
                pow2(less) > 0,
        ;
        assert(num * pow2(k) == n * 2) by (nonlinear_arith)
            requires
                n == num * pow2(less),
                pow2(k) == 2 * pow2(less),
        ;
        lemma_nearest_shift(n, den, e - less);
    }
}

/// Mantissas and exponents in order stand for numbers in order.
proof fn lemma_scaled_order(m: nat, n: nat, k: nat)
    requires
        TWO_52 <= m < TWO_53,
        TWO_52 <= n < TWO_53,
        k == 0 ==> m <= n,
    ensures
        m <= n * pow2(k),
{
    lemma2_to64();
    if k == 0 {
        assert(n * pow2(0) == n);
    } else {
        if k > 1 {
            lemma_pow2_strictly_increases(1, k);
        }
        assert(m <= n * pow2(k)) by (nonlinear_arith)
            requires
                m < 0x20_0000_0000_0000,
                n >= 0x10_0000_0000_0000,
                pow2(k) >= 2,
        ;
    }
}

/// Positive integers in order give doubles in order.
pub proof fn law_integers_keep_order(a: int, b: int)
    requires
        0 < a <= b <= u64::MAX,
    ensures
        at_most(double_of_int(a), double_of_int(b)),
{
    lemma_integer_between(a);
    lemma_integer_between(b);
    lemma_nearest_order(a as nat, b as nat, 1, 0);
}

/// Numbers in order have products with a ratio in order.
pub proof fn law_products_keep_order(
    x: F64,
    y: F64,
    c: nat,
    d: nat,
    shift: int,
    up: nat,
    down: nat,
    low: int,
    high: int,
)
    requires
        x.between(low, high),
        y.between(low, high),
        at_most(x, y),
        0 < c <= d * pow2(up),
        0 < d <= c * pow2(down),
        -1000 <= low + shift - down,
        high + shift + up <= 900,
    ensures
        at_most(x.product(c, d, shift), y.product(c, d, shift)),
{
    lemma_product_between(x, c, d, shift, up, down, low, high);
    lemma_product_between(y, c, d, shift, up, down, low, high);
    let (m, n) = (x.mantissa(), y.mantissa());
    let k = (y.exponent() - x.exponent()) as nat;
    lemma_scaled_order(m, n, k);
    let wide = n * c * pow2(k);
    assert(0 < m * c <= wide) by (nonlinear_arith)
        requires
            0 < m,
            m <= n * pow2(k),
            wide == n * c * pow2(k),
            c > 0,
    ;
    assert(n * c > 0) by (nonlinear_arith)
        requires
            n > 0,
            c > 0,
    ;
    lemma_nearest_shifts(n * c, d, y.exponent() + shift, k);
    lemma_nearest_order(m * c, wide, d, x.exponent() + shift);
}

/// Numbers in order are rounded up to integers in order.
pub proof fn law_rounding_up_keeps_order(x: F64, y: F64, max: nat, low: int, high: int)
    requires
        x.between(low, high),
        y.between(low, high),
        at_most(x, y),
    ensures
        x.ceiling(max) <= y.ceiling(max),
{
    let (m, e) = (x.mantissa(), x.exponent());
    let (n, f) = (y.mantissa(), y.exponent());
    let k = (f - e) as nat;
    let a = scaled_ceiling(m, e);
    let b = scaled_ceiling(n, f);
    lemma_scaled_order(m, n, k);
    law_rounded_up(m, e);
    law_rounded_up(n, f);
    if e >= 0 {
        let p = pow2(e as nat);
        lemma_pow2_adds(e as nat, k);
        assert(m * p <= n * pow2(f as nat)) by (nonlinear_arith)
            requires
                m <= n * pow2(k),
                pow2(f as nat) == p * pow2(k),
        ;
    } else {
        let p = pow2((-e) as nat);
        lemma_pow2_pos((-e) as nat);
        // The number above, in units of the one below.
        assert(m <= b * p) by {
            if f >= 0 {
                lemma_pow2_adds((-e) as nat, f as nat);
                let q = pow2(f as nat);
                assert(m <= b * p) by (nonlinear_arith)
                    requires
                        m <= n * pow2(k),
                        pow2(k) == p * q,
                        b == n * q,
                ;
            } else {
                lemma_pow2_adds(k, (-f) as nat);
                let q = pow2((-f) as nat);
                assert(m <= b * p) by (nonlinear_arith)
                    requires
                        m <= n * pow2(k),
                        n <= b * q,
                        p == pow2(k) * q,
                        pow2(k) >= 0,
                ;
            }
        }
        assert(a <= b) by (nonlinear_arith)
            requires
                (a - 1) * p < m,
                m <= b * p,
                p > 0,
        ;
    }
}

} // verus!
