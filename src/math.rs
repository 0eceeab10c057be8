//! Integer powers, and what it means for an extended float to stand for one.

use vstd::prelude::*;
use vstd::arithmetic::power::{pow, lemma_pow_adds, lemma_pow_positive};
use vstd::arithmetic::mul::lemma_mul_strictly_positive;

verus! {

/// The non-negative part of `i`.
pub open spec fn nonneg(i: int) -> nat {
    if i >= 0 {
        i as nat
    } else {
        0
    }
}

/// Numerator of `b^p / 2^x` as a fraction of integers.
pub open spec fn ratio_num(b: int, p: int, x: int) -> int {
    pow(b, nonneg(p)) * pow(2, nonneg(-x))
}

/// Denominator of `b^p / 2^x` as a fraction of integers.
pub open spec fn ratio_den(b: int, p: int, x: int) -> int {
    pow(b, nonneg(-p)) * pow(2, nonneg(x))
}

/// `m * 2^x == b^p`.
pub open spec fn is_exact_power(m: int, x: int, b: int, p: int) -> bool {
    m * ratio_den(b, p, x) == ratio_num(b, p, x)
}

/// `|m * 2^x - b^p| <= 2^x / 2`: `m` is `b^p / 2^x` rounded to nearest.
pub open spec fn is_rounded_power(m: int, x: int, b: int, p: int) -> bool {
    &&& (2 * m - 1) * ratio_den(b, p, x) <= 2 * ratio_num(b, p, x)
    &&& 2 * ratio_num(b, p, x) <= (2 * m + 1) * ratio_den(b, p, x)
}

/// `|m * 2^x - b^p| < (h / 2) * 2^x`: `m` lies within `h` half units of `b^p / 2^x`.
pub open spec fn is_power_near(m: int, x: int, b: int, p: int, h: int) -> bool {
    &&& (2 * m - h) * ratio_den(b, p, x) < 2 * ratio_num(b, p, x)
    &&& 2 * ratio_num(b, p, x) < (2 * m + h) * ratio_den(b, p, x)
}

pub proof fn lemma_ratio_positive(b: int, p: int, x: int)
    requires
        b > 0,
    ensures
        ratio_num(b, p, x) > 0,
        ratio_den(b, p, x) > 0,
{
    lemma_pow_positive(b, nonneg(p));
    lemma_pow_positive(b, nonneg(-p));
    lemma_pow_positive(2, nonneg(x));
    lemma_pow_positive(2, nonneg(-x));
    lemma_mul_strictly_positive(pow(b, nonneg(p)), pow(2, nonneg(-x)));
    lemma_mul_strictly_positive(pow(b, nonneg(-p)), pow(2, nonneg(x)));
}

/// `pow(b, e1) * pow(b, e2) * pow(b, e3) == pow(b, e1 + e2 + e3)`.
proof fn lemma_pow_adds3(b: int, e1: nat, e2: nat, e3: nat)
    ensures
        pow(b, e1) * pow(b, e2) * pow(b, e3) == pow(b, e1 + e2 + e3),
{
    lemma_pow_adds(b, e1, e2);
    lemma_pow_adds(b, e1 + e2, e3);
}

/// `(b^p1 / 2^x1) * (b^p2 / 2^x2) == (b^(p1 + p2) / 2^(x1 + x2 + s)) * 2^s`, with each
/// fraction written as its numerator and denominator and the equation cross-multiplied.
pub proof fn lemma_ratio_product(b: int, p1: int, x1: int, p2: int, x2: int, s: nat)
    ensures
        ratio_num(b, p1 + p2, x1 + x2 + s) * ratio_den(b, p1, x1) * ratio_den(b, p2, x2) * pow(
            2,
            s,
        ) == ratio_num(b, p1, x1) * ratio_num(b, p2, x2) * ratio_den(b, p1 + p2, x1 + x2 + s),
{
    let p = p1 + p2;
    let x = x1 + x2 + s;
    let nb = pow(b, nonneg(p));
    let nt = pow(2, nonneg(-x));
    let db = pow(b, nonneg(-p));
    let dt = pow(2, nonneg(x));
    let n1b = pow(b, nonneg(p1));
    let n1t = pow(2, nonneg(-x1));
    let d1b = pow(b, nonneg(-p1));
    let d1t = pow(2, nonneg(x1));
    let n2b = pow(b, nonneg(p2));
    let n2t = pow(2, nonneg(-x2));
    let d2b = pow(b, nonneg(-p2));
    let d2t = pow(2, nonneg(x2));
    let s2 = pow(2, s);
    assert((nb * nt) * (d1b * d1t) * (d2b * d2t) * s2 == (nb * d1b * d2b) * (nt * d1t * d2t
        * s2)) by (nonlinear_arith);
    assert((n1b * n1t) * (n2b * n2t) * (db * dt) == (n1b * n2b * db) * (n1t * n2t * dt))
        by (nonlinear_arith);
    lemma_pow_adds3(b, nonneg(p), nonneg(-p1), nonneg(-p2));
    lemma_pow_adds3(b, nonneg(p1), nonneg(p2), nonneg(-p));
    lemma_pow_adds3(2, nonneg(-x), nonneg(x1), nonneg(x2));
    lemma_pow_adds(2, nonneg(-x) + nonneg(x1) + nonneg(x2), s);
    lemma_pow_adds3(2, nonneg(-x1), nonneg(-x2), nonneg(x));
    assert(nonneg(p) + nonneg(-p1) + nonneg(-p2) == nonneg(p1) + nonneg(p2) + nonneg(-p));
    assert(nonneg(-x) + nonneg(x1) + nonneg(x2) + s == nonneg(-x1) + nonneg(-x2) + nonneg(x));
}

/// `10^n`, unfolded ten digits at a time.
pub open spec fn pow10_by_tens(n: nat) -> int
    decreases n,
{
    if n >= 10 {
        10_000_000_000 * pow10_by_tens((n - 10) as nat)
    } else if n > 0 {
        10 * pow10_by_tens((n - 1) as nat)
    } else {
        1
    }
}

/// `2^n`, unfolded sixty-four bits at a time.
pub open spec fn pow2_by_words(n: nat) -> int
    decreases n,
{
    if n >= 64 {
        0x1_0000_0000_0000_0000 * pow2_by_words((n - 64) as nat)
    } else if n >= 8 {
        256 * pow2_by_words((n - 8) as nat)
    } else if n > 0 {
        2 * pow2_by_words((n - 1) as nat)
    } else {
        1
    }
}

/// `10^p * 2^s`, unfolded so that every step multiplies by a constant.
pub open spec fn pow10_times_pow2(p: nat, s: nat) -> int
    decreases s,
{
    if s >= 64 {
        0x1_0000_0000_0000_0000 * pow10_times_pow2(p, (s - 64) as nat)
    } else if s >= 8 {
        256 * pow10_times_pow2(p, (s - 8) as nat)
    } else if s > 0 {
        2 * pow10_times_pow2(p, (s - 1) as nat)
    } else {
        pow10_by_tens(p)
    }
}

pub proof fn lemma_pow10_times_pow2(p: nat, s: nat)
    ensures
        pow10_times_pow2(p, s) == pow10_by_tens(p) * pow2_by_words(s),
    decreases s,
{
    let a = pow10_by_tens(p);
    if s >= 64 {
        lemma_pow10_times_pow2(p, (s - 64) as nat);
        let b = pow2_by_words((s - 64) as nat);
        assert(0x1_0000_0000_0000_0000 * (a * b) == a * (0x1_0000_0000_0000_0000 * b))
            by (nonlinear_arith);
    } else if s >= 8 {
        lemma_pow10_times_pow2(p, (s - 8) as nat);
        let b = pow2_by_words((s - 8) as nat);
        assert(256 * (a * b) == a * (256 * b)) by (nonlinear_arith);
    } else if s > 0 {
        lemma_pow10_times_pow2(p, (s - 1) as nat);
        let b = pow2_by_words((s - 1) as nat);
        assert(2 * (a * b) == a * (2 * b)) by (nonlinear_arith);
    }
}

/// `is_rounded_power(m, x, 10, p)`, with the powers in a form that unfolds quickly.
pub open spec fn is_rounded_power10_by_tens(m: int, x: int, p: int) -> bool {
    if p >= 0 && x >= 0 {
        (2 * m - 1) * pow2_by_words(x as nat) <= 2 * pow10_by_tens(p as nat) <= (2 * m + 1)
            * pow2_by_words(x as nat)
    } else if p >= 0 {
        2 * m - 1 <= 2 * pow10_times_pow2(p as nat, (-x) as nat) <= 2 * m + 1
    } else if x < 0 {
        (2 * m - 1) * pow10_by_tens((-p) as nat) <= 2 * pow2_by_words((-x) as nat) <= (2 * m
            + 1) * pow10_by_tens((-p) as nat)
    } else {
        (2 * m - 1) * pow10_by_tens((-p) as nat) * pow2_by_words(x as nat) <= 2 <= (2 * m + 1)
            * pow10_by_tens((-p) as nat) * pow2_by_words(x as nat)
    }
}

/// `is_exact_power(m, x, 10, p)` for `p >= 0`, with the powers in a form that unfolds quickly.
pub open spec fn is_exact_power10_by_tens(m: int, x: int, p: nat) -> bool {
    if x >= 0 {
        m * pow2_by_words(x as nat) == pow10_by_tens(p)
    } else {
        m == pow10_times_pow2(p, (-x) as nat)
    }
}

/// The quickly unfolding forms say what the general ones say.
pub proof fn lemma_power10_by_tens(m: int, x: int, p: int)
    ensures
        is_rounded_power10_by_tens(m, x, p) ==> is_rounded_power(m, x, 10, p),
        p >= 0 ==> (is_exact_power10_by_tens(m, x, p as nat) ==> is_exact_power(m, x, 10, p)),
{
    reveal(pow);
    lemma_pow10_times_pow2(nonneg(p), nonneg(-x));
    lemma_pow10_by_tens(nonneg(p));
    lemma_pow10_by_tens(nonneg(-p));
    lemma_pow2_by_words(nonneg(x));
    lemma_pow2_by_words(nonneg(-x));
    let a = pow10_by_tens(nonneg(-p));
    let b = pow2_by_words(nonneg(x));
    assert(m * a * b == m * (a * b)) by (nonlinear_arith);
    assert((2 * m - 1) * a * b == (2 * m - 1) * (a * b)) by (nonlinear_arith);
    assert((2 * m + 1) * a * b == (2 * m + 1) * (a * b)) by (nonlinear_arith);
}

pub proof fn lemma_pow10_by_tens(n: nat)
    ensures
        pow(10, n) == pow10_by_tens(n),
    decreases n,
{
    if n >= 10 {
        lemma_pow_adds(10, 10, (n - 10) as nat);
        assert(pow(10, 10) == 10_000_000_000) by {
            reveal_with_fuel(pow, 11);
        }
        lemma_pow10_by_tens((n - 10) as nat);
    } else if n > 0 {
        lemma_pow10_by_tens((n - 1) as nat);
        reveal(pow);
    } else {
        reveal(pow);
    }
}

pub proof fn lemma_pow2_by_words(n: nat)
    ensures
        pow(2, n) == pow2_by_words(n),
    decreases n,
{
    if n >= 64 {
        lemma_pow_adds(2, 64, (n - 64) as nat);
        assert(pow(2, 64) == 0x1_0000_0000_0000_0000) by {
            assert(pow(2, 8) == 256) by {
                reveal_with_fuel(pow, 9);
            }
            lemma_pow_adds(2, 8, 8);
            assert(pow(2, 16) == 0x1_0000);
            lemma_pow_adds(2, 16, 16);
            assert(pow(2, 32) == 0x1_0000_0000);
            lemma_pow_adds(2, 32, 32);
        }
        lemma_pow2_by_words((n - 64) as nat);
    } else if n >= 8 {
        lemma_pow_adds(2, 8, (n - 8) as nat);
        assert(pow(2, 8) == 256) by {
            reveal_with_fuel(pow, 9);
        }
        lemma_pow2_by_words((n - 8) as nat);
    } else if n > 0 {
        lemma_pow2_by_words((n - 1) as nat);
        reveal(pow);
    } else {
        reveal(pow);
    }
}

} // verus!
