//! Extended-precision floats and the table set that composes cached powers of a base.

use vstd::prelude::*;
use crate::math::{
    is_exact_power,
    is_power_near,
    is_rounded_power,
    lemma_pow2_by_words,
    lemma_ratio_positive,
    lemma_ratio_product,
    pow2_by_words,
    ratio_den,
    ratio_num,
};
use vstd::arithmetic::power::pow;
use vstd::arithmetic::div_mod::{
    lemma_fundamental_div_mod,
    lemma_fundamental_div_mod_converse_div,
    lemma_fundamental_div_mod_converse_mod,
};

verus! {

/// `2^64`, the weight of the upper word of a 128-bit product.
pub const WORD: u128 = 0x1_0000_0000_0000_0000;

/// The bound on the binary exponents that a well-formed table holds.
pub const EXP_LIMIT: i32 = 0x1000_0000;

/// The real value `mant * 2^exp`.
#[derive(Clone, Copy, Debug, PartialEq, Eq, Structural)]
pub struct ExtendedFloat {
    pub mant: u64,
    pub exp: i32,
}

impl ExtendedFloat {
    /// The most significant bit of the mantissa is set.
    pub open spec fn is_normalized(self) -> bool {
        self.mant >= 0x8000_0000_0000_0000
    }

    /// The exponent lies well inside `i32`.
    pub open spec fn has_bounded_exp(self) -> bool {
        -EXP_LIMIT <= self.exp <= EXP_LIMIT
    }
}

/// The upper 64 bits of the 128-bit product of two mantissas.
pub open spec fn mul_high(a: u64, b: u64) -> int {
    (a as int * b as int) / (WORD as int)
}

/// The product of two extended floats: the upper word of the mantissas' product,
/// shifted left by one bit, with the exponent lowered by one, when its top bit is clear.
pub open spec fn compose(a: ExtendedFloat, b: ExtendedFloat) -> ExtendedFloat {
    let hi = mul_high(a.mant, b.mant);
    let x = a.exp + b.exp + 64;
    if hi >= 0x8000_0000_0000_0000 {
        ExtendedFloat { mant: hi as u64, exp: x as i32 }
    } else {
        ExtendedFloat { mant: (2 * hi) as u64, exp: (x - 1) as i32 }
    }
}

/// Multiplies two normalized extended floats through a 128-bit product.
pub fn multiply(a: ExtendedFloat, b: ExtendedFloat) -> (r: ExtendedFloat)
    requires
        a.is_normalized(),
        b.is_normalized(),
        a.has_bounded_exp(),
        b.has_bounded_exp(),
    ensures
        r == compose(a, b),
        r.is_normalized(),
{
    let am = a.mant as u128;
    let bm = b.mant as u128;
    assert(am * bm < WORD * WORD) by (nonlinear_arith)
        requires
            am < WORD,
            bm < WORD,
    ;
    assert(am * bm >= 0x8000_0000_0000_0000 * 0x8000_0000_0000_0000) by (nonlinear_arith)
        requires
            am >= 0x8000_0000_0000_0000,
            bm >= 0x8000_0000_0000_0000,
    ;
    let p: u128 = am * bm;
    let hi: u64 = (p / WORD) as u64;
    assert(hi >= 0x4000_0000_0000_0000);
    let x: i32 = a.exp + b.exp + 64;
    if hi >= 0x8000_0000_0000_0000 {
        ExtendedFloat { mant: hi, exp: x }
    } else {
        ExtendedFloat { mant: hi * 2, exp: x - 1 }
    }
}

/// Parallel mantissas and exponents of precomputed extended floats.
pub struct ExtendedFloatArray {
    pub mant: &'static [u64],
    pub exp: &'static [i32],
}

impl ExtendedFloatArray {
    pub open spec fn wf(&self) -> bool {
        self.mant@.len() == self.exp@.len()
    }

    pub open spec fn spec_len(&self) -> int {
        self.mant@.len() as int
    }

    pub open spec fn spec_at(&self, i: int) -> ExtendedFloat {
        ExtendedFloat { mant: self.mant@[i], exp: self.exp@[i] }
    }

    /// Every entry is normalized and has a bounded exponent.
    pub open spec fn entries_normalized(&self) -> bool {
        forall|i: int|
            0 <= i < self.spec_len() ==> {
                &&& (#[trigger] self.spec_at(i)).is_normalized()
                &&& self.spec_at(i).has_bounded_exp()
            }
    }

    pub fn len(&self) -> (r: usize)
        requires
            self.wf(),
        ensures
            r == self.spec_len(),
    {
        self.mant.len()
    }

    /// The entry at index `i`.
    pub fn at(&self, i: usize) -> (r: ExtendedFloat)
        requires
            self.wf(),
            i < self.spec_len(),
        ensures
            r == self.spec_at(i as int),
    {
        ExtendedFloat { mant: self.mant[i], exp: self.exp[i] }
    }
}

/// The cached powers of one base: `small` holds `base^0 .. base^(step - 1)`, `large`
/// holds `base^((j - bias) * step)` at index `j`, and `small_int` holds the small
/// powers as exact integers.
pub struct ModeratePathPowers {
    pub small: ExtendedFloatArray,
    pub large: ExtendedFloatArray,
    pub small_int: &'static [u64],
    pub step: i32,
    pub bias: i32,
}

impl ModeratePathPowers {
    /// The shape that `get_power` relies on.
    pub open spec fn wf(&self) -> bool {
        &&& self.small.wf()
        &&& self.large.wf()
        &&& 0 < self.step <= 64
        &&& self.small.spec_len() == self.step
        &&& self.small_int@.len() == self.step
        &&& 0 <= self.bias < self.large.spec_len() <= 0x100_0000
        &&& self.small.entries_normalized()
        &&& self.large.entries_normalized()
    }

    /// Every table entry stands for the power of `base` that its index names:
    /// small entries and small integers exactly, large entries rounded to nearest.
    pub open spec fn approximates_powers_of(&self, base: int) -> bool {
        &&& forall|i: int|
            0 <= i < self.step ==> #[trigger] self.small_int@[i] == pow(base, i as nat)
        &&& forall|i: int|
            0 <= i < self.step ==> is_exact_power(
                self.small.mant@[i] as int,
                self.small.exp@[i] as int,
                base,
                i,
            )
        &&& forall|j: int|
            0 <= j < self.large.spec_len() ==> is_rounded_power(
                self.large.mant@[j] as int,
                self.large.exp@[j] as int,
                base,
                self.large_power(j),
            )
    }

    /// The power of the base that large entry `j` stands for.
    pub open spec fn large_power(&self, j: int) -> int {
        (j - self.bias) * self.step
    }

    /// The smallest exponent that the tables cover.
    pub open spec fn min_exponent(&self) -> int {
        -self.bias * self.step
    }

    /// The largest exponent that the tables cover.
    pub open spec fn max_exponent(&self) -> int {
        (self.large.spec_len() - self.bias) * self.step - 1
    }

    /// `floor(e / step) + bias`.
    pub open spec fn large_index(&self, e: int) -> int {
        e / (self.step as int) + self.bias
    }

    /// `e mod step`, in `[0, step)`.
    pub open spec fn small_index(&self, e: int) -> int {
        e % (self.step as int)
    }

    /// The cached power for `e`, whether it is exact, or `None` when `e` lies outside
    /// the tables. A small exponent is read from `small` exactly; a multiple of `step`
    /// is a large entry as it stands; any other exponent multiplies the two.
    pub open spec fn spec_get_power(&self, e: int) -> Option<(ExtendedFloat, bool)> {
        let li = self.large_index(e);
        if 0 <= li < self.large.spec_len() {
            if 0 <= e < self.step {
                Some((self.small.spec_at(e), true))
            } else if self.small_index(e) == 0 {
                Some((self.large.spec_at(li), false))
            } else {
                Some(
                    (
                        compose(self.large.spec_at(li), self.small.spec_at(self.small_index(e))),
                        false,
                    ),
                )
            }
        } else {
            None
        }
    }

    /// The cached power of the base for exponent `e`: `(power, exact)`, or `None` when
    /// `e` is outside `[min_exponent, max_exponent]`.
    pub fn get_power(&self, e: i32) -> (r: Option<(ExtendedFloat, bool)>)
        requires
            self.wf(),
        ensures
            r == self.spec_get_power(e as int),
            r is Some <==> self.min_exponent() <= e <= self.max_exponent(),
    {
        let step = self.step as i64;
        assert(0 <= self.bias as i64 * step <= 0x100_0000 * 64) by (nonlinear_arith)
            requires
                0 <= self.bias <= 0x100_0000,
                0 < step <= 64,
        ;
        let biased: i64 = e as i64 + (self.bias as i64) * step;
        proof {
            lemma_index_split(e as int, self.bias as int, step as int, self.large.spec_len());
        }
        if biased < 0 {
            return None;
        }
        let li: usize = (biased as u64 / step as u64) as usize;
        let si: usize = (biased as u64 % step as u64) as usize;
        assert(li == self.large_index(e as int));
        assert(si == self.small_index(e as int));
        if li >= self.large.len() {
            return None;
        }
        if 0 <= e && (e as i64) < step {
            Some((self.small.at(e as usize), true))
        } else if si == 0 {
            Some((self.large.at(li), false))
        } else {
            let r = multiply(self.large.at(li), self.small.at(si));
            Some((r, false))
        }
    }
}

/// Splitting `e + bias * step` by `step` gives the floor quotient of `e` shifted by
/// `bias`, and the remainder of `e`.
proof fn lemma_index_split(e: int, bias: int, step: int, len: int)
    requires
        0 < step,
        0 <= bias < len,
    ensures
        (e + bias * step) / step == e / step + bias,
        (e + bias * step) % step == e % step,
        (e + bias * step < 0) <==> e / step + bias < 0,
        (e + bias * step) / step >= len <==> e / step + bias >= len,
        0 <= e / step + bias < len <==> -bias * step <= e <= (len - bias) * step - 1,
{
    let q = e / step;
    let r = e % step;
    lemma_fundamental_div_mod(e, step);
    assert(e + bias * step == (q + bias) * step + r) by (nonlinear_arith)
        requires
            e == step * q + r,
    ;
    lemma_fundamental_div_mod_converse_div(e + bias * step, step, q + bias, r);
    lemma_fundamental_div_mod_converse_mod(e + bias * step, step, q + bias, r);
    assert(0 <= q + bias < len <==> -bias * step <= e <= (len - bias) * step - 1) by (nonlinear_arith)
        requires
            e == step * q + r,
            0 <= r < step,
            0 < step,
    ;
}

/// Multiplying a rounded power of `b` by an exact one and keeping the upper word of
/// the product lands within one and a half units of that word of the true power,
/// which is within three units of the result.
pub proof fn lemma_compose_error(a: ExtendedFloat, c: ExtendedFloat, b: int, p1: int, p2: int)
    requires
        b > 0,
        a.is_normalized(),
        c.is_normalized(),
        a.has_bounded_exp(),
        c.has_bounded_exp(),
        is_rounded_power(a.mant as int, a.exp as int, b, p1),
        is_exact_power(c.mant as int, c.exp as int, b, p2),
    ensures
        is_power_near(mul_high(a.mant, c.mant), a.exp + c.exp + 64, b, p1 + p2, 3),
        is_power_near(compose(a, c).mant as int, compose(a, c).exp as int, b, p1 + p2, 6),
{
    let m1 = a.mant as int;
    let m2 = c.mant as int;
    let x1 = a.exp as int;
    let x2 = c.exp as int;
    let w = WORD as int;
    let hi = mul_high(a.mant, c.mant);
    let x = x1 + x2 + 64;
    let p = p1 + p2;
    let n1 = ratio_num(b, p1, x1);
    let d1 = ratio_den(b, p1, x1);
    let n2 = ratio_num(b, p2, x2);
    let d2 = ratio_den(b, p2, x2);
    let n = ratio_num(b, p, x);
    let d = ratio_den(b, p, x);
    lemma_ratio_positive(b, p1, x1);
    lemma_ratio_positive(b, p2, x2);
    lemma_ratio_positive(b, p, x);
    lemma_ratio_product(b, p1, x1, p2, x2, 64);
    lemma_pow2_by_words(64);
    assert(pow2_by_words(64) == w) by {
        reveal_with_fuel(pow2_by_words, 2);
    }
    assert(n * d1 * d2 * w == n1 * n2 * d);
    lemma_fundamental_div_mod(m1 * m2, w);
    assert(hi * w <= m1 * m2 < (hi + 1) * w);
    assert(m1 * m2 < w * w) by (nonlinear_arith)
        requires
            0 <= m1 < w,
            0 <= m2 < w,
    ;
    assert(0 <= hi < w) by (nonlinear_arith)
        requires
            hi * w <= m1 * m2 < (hi + 1) * w,
            m1 * m2 < w * w,
            0 <= m1 * m2,
            w > 0,
    ;
    let k = d1 * d2 * w;
    let q = d1 * d2;
    assert(q > 0 && k > 0) by (nonlinear_arith)
        requires
            d1 > 0,
            d2 > 0,
            w > 0,
            q == d1 * d2,
            k == d1 * d2 * w,
    ;
    assert(n * k == n1 * n2 * d) by (nonlinear_arith)
        requires
            n * d1 * d2 * w == n1 * n2 * d,
            k == d1 * d2 * w,
    ;
    // The rounded factor, scaled by the exact one.
    assert((2 * m1 - 1) * m2 * q <= 2 * (n1 * n2) <= (2 * m1 + 1) * m2 * q) by (nonlinear_arith)
        requires
            (2 * m1 - 1) * d1 <= 2 * n1 <= (2 * m1 + 1) * d1,
            m2 * d2 == n2,
            m2 * d2 > 0,
            q == d1 * d2,
    ;
    assert((2 * hi - 1) * w * q < 2 * (n1 * n2)) by (nonlinear_arith)
        requires
            (2 * m1 - 1) * m2 * q <= 2 * (n1 * n2),
            hi * w <= m1 * m2,
            m2 < w,
            q > 0,
    ;
    assert(2 * (n1 * n2) < (2 * hi + 3) * w * q) by (nonlinear_arith)
        requires
            2 * (n1 * n2) <= (2 * m1 + 1) * m2 * q,
            m1 * m2 < (hi + 1) * w,
            m2 < w,
            q > 0,
    ;
    assert((2 * hi - 1) * d * k < 2 * n * k < (2 * hi + 3) * d * k) by (nonlinear_arith)
        requires
            (2 * hi - 1) * w * q < 2 * (n1 * n2) < (2 * hi + 3) * w * q,
            n * k == n1 * n2 * d,
            k == q * w,
            d > 0,
    ;
    assert((2 * hi - 1) * d < 2 * n < (2 * hi + 3) * d) by (nonlinear_arith)
        requires
            (2 * hi - 1) * d * k < 2 * n * k < (2 * hi + 3) * d * k,
            k > 0,
    ;
    assert((2 * hi - 3) * d < (2 * hi - 1) * d) by (nonlinear_arith)
        requires
            d > 0,
    ;
    if hi < 0x8000_0000_0000_0000 {
        let n0 = ratio_num(b, p, x - 1);
        let d0 = ratio_den(b, p, x - 1);
        lemma_ratio_positive(b, p, x - 1);
        lemma_ratio_product(b, p, x - 1, 0, 0, 1);
        assert(ratio_num(b, 0, 0) == 1 && ratio_den(b, 0, 0) == 1 && pow(2, 1) == 2) by {
            reveal(pow);
        }
        assert(n * d0 * 2 == n0 * d);
        assert((4 * hi - 6) * d0 < 2 * n0 < (4 * hi + 6) * d0) by (nonlinear_arith)
            requires
                (2 * hi - 1) * d < 2 * n < (2 * hi + 3) * d,
                n * d0 * 2 == n0 * d,
                d > 0,
                d0 > 0,
        ;
        assert(compose(a, c).mant as int == 2 * hi && compose(a, c).exp as int == x - 1);
    } else {
        assert((2 * hi - 6) * d < 2 * n < (2 * hi + 6) * d) by (nonlinear_arith)
            requires
                (2 * hi - 1) * d < 2 * n < (2 * hi + 3) * d,
                d > 0,
        ;
        assert(compose(a, c).mant as int == hi && compose(a, c).exp as int == x);
    }
}

/// For a table that approximates the powers of `base`, the cached power for any
/// covered exponent lies within three units in its last place of `base^e`; one
/// marked exact equals it.
pub proof fn lemma_get_power_error(t: &ModeratePathPowers, base: int, e: int)
    requires
        t.wf(),
        t.approximates_powers_of(base),
        base > 0,
        t.min_exponent() <= e <= t.max_exponent(),
    ensures
        t.spec_get_power(e) matches Some((f, exact)) && is_power_near(
            f.mant as int,
            f.exp as int,
            base,
            e,
            6,
        ) && (exact ==> is_exact_power(f.mant as int, f.exp as int, base, e)),
{
    let step = t.step as int;
    lemma_index_split(e, t.bias as int, step, t.large.spec_len());
    lemma_fundamental_div_mod(e, step);
    let li = t.large_index(e);
    let si = t.small_index(e);
    let p1 = t.large_power(li);
    assert(p1 == (e / step) * step && p1 + si == e) by (nonlinear_arith)
        requires
            li == e / step + t.bias,
            p1 == (li - t.bias) * step,
            e == step * (e / step) + si,
    ;
    if 0 <= e < step {
        let f = t.small.spec_at(e);
        lemma_ratio_positive(base, e, f.exp as int);
        let n = ratio_num(base, e, f.exp as int);
        let d = ratio_den(base, e, f.exp as int);
        assert(f.mant * d == n);
        assert((2 * f.mant - 6) * d < 2 * n < (2 * f.mant + 6) * d) by (nonlinear_arith)
            requires
                f.mant * d == n,
                d > 0,
        ;
    } else if si == 0 {
        let f = t.large.spec_at(li);
        lemma_ratio_positive(base, e, f.exp as int);
        let n = ratio_num(base, e, f.exp as int);
        let d = ratio_den(base, e, f.exp as int);
        assert((2 * f.mant - 1) * d <= 2 * n <= (2 * f.mant + 1) * d);
        assert((2 * f.mant - 6) * d < 2 * n < (2 * f.mant + 6) * d) by (nonlinear_arith)
            requires
                (2 * f.mant - 1) * d <= 2 * n <= (2 * f.mant + 1) * d,
                d > 0,
        ;
    } else {
        let a = t.large.spec_at(li);
        let c = t.small.spec_at(si);
        lemma_compose_error(a, c, base, p1, si);
    }
}

} // verus!
