//! What holds of the tables that `get_powers` hands out.

use vstd::prelude::*;
use vstd::arithmetic::power::pow;
use crate::base10::{BASE10_LARGE_EXPONENT, is_table_for};
use crate::base10_proofs::lemma_base10_table;
use crate::cached::{ModeratePathPowers, lemma_get_power_error};
use crate::math::{is_exact_power, is_power_near, is_rounded_power};

verus! {

/// The most negative decimal exponent that converting an IEEE double through a
/// 64-bit mantissa needs: the smallest subnormal divided by `2^64`.
pub const DOUBLE_MIN_DECIMAL_EXPONENT: i32 = -343;

/// The largest decimal exponent that converting an IEEE double needs.
pub const DOUBLE_MAX_DECIMAL_EXPONENT: i32 = 309;

/// Every mantissa of every small and large entry has its most significant bit set.
pub proof fn lemma_entries_normalized(base: int, t: &ModeratePathPowers)
    requires
        is_table_for(t, base),
    ensures
        forall|i: int| 0 <= i < t.small.spec_len() ==> t.small.mant@[i] >= 0x8000_0000_0000_0000u64,
        forall|j: int| 0 <= j < t.large.spec_len() ==> t.large.mant@[j] >= 0x8000_0000_0000_0000u64,
{
    lemma_base10_table(t);
    assert forall|i: int| 0 <= i < t.small.spec_len() implies t.small.mant@[i]
        >= 0x8000_0000_0000_0000u64 by {
        assert(t.small.spec_at(i).is_normalized());
    }
    assert forall|j: int| 0 <= j < t.large.spec_len() implies t.large.mant@[j]
        >= 0x8000_0000_0000_0000u64 by {
        assert(t.large.spec_at(j).is_normalized());
    }
}

/// The large entries stand for the powers `min_exponent, min_exponent + step, ...`
/// with no gap, each rounded to nearest, their binary exponents strictly increase,
/// and together with the small entries they cover every decimal exponent that a
/// double needs.
pub proof fn lemma_large_coverage(base: int, t: &ModeratePathPowers)
    requires
        is_table_for(t, base),
    ensures
        t.large_power(0) == t.min_exponent(),
        forall|j: int|
            0 <= j < t.large.spec_len() ==> is_rounded_power(
                #[trigger] t.large.mant@[j] as int,
                t.large.exp@[j] as int,
                base,
                t.large_power(j),
            ),
        forall|j: int|
            0 <= j < t.large.spec_len() - 1 ==> #[trigger] t.large_power(j + 1) == t.large_power(j)
                + t.step,
        forall|j: int|
            0 <= j < t.large.spec_len() - 1 ==> #[trigger] t.large.exp@[j] < t.large.exp@[j + 1],
        t.min_exponent() <= DOUBLE_MIN_DECIMAL_EXPONENT,
        t.max_exponent() >= DOUBLE_MAX_DECIMAL_EXPONENT,
        t.max_exponent() < t.large_power(t.large.spec_len() - 1) + t.step,
{
    lemma_base10_table(t);
    assert forall|j: int| 0 <= j < t.large.spec_len() implies is_rounded_power(
        #[trigger] t.large.mant@[j] as int,
        t.large.exp@[j] as int,
        base,
        t.large_power(j),
    ) by {
        assert(t.large.spec_at(j).is_normalized());
    }
    assert forall|j: int| 0 <= j < t.large.spec_len() - 1 implies #[trigger] t.large_power(j + 1)
        == t.large_power(j) + t.step by {
        assert((j + 1 - t.bias) * t.step == (j - t.bias) * t.step + t.step) by (nonlinear_arith);
    }
    assert forall|j: int| 0 <= j < t.large.spec_len() - 1 implies #[trigger] t.large.exp@[j]
        < t.large.exp@[j + 1] by {
        assert(BASE10_LARGE_EXPONENT@[j] < BASE10_LARGE_EXPONENT@[j + 1]);
    }
}

/// Each small integer is exactly `base^i`, as is the small entry beside it, and the
/// integer read as an extended float with exponent zero has the same value.
pub proof fn lemma_small_powers_exact(base: int, t: &ModeratePathPowers)
    requires
        is_table_for(t, base),
    ensures
        forall|i: int| 0 <= i < t.step ==> #[trigger] t.small_int@[i] == pow(base, i as nat),
        forall|i: int|
            0 <= i < t.step ==> is_exact_power(
                #[trigger] t.small.mant@[i] as int,
                t.small.exp@[i] as int,
                base,
                i,
            ),
        forall|i: int|
            0 <= i < t.step ==> is_exact_power(#[trigger] t.small_int@[i] as int, 0, base, i),
{
    lemma_base10_table(t);
    reveal(pow);
    assert forall|i: int| 0 <= i < t.step implies is_exact_power(
        #[trigger] t.small.mant@[i] as int,
        t.small.exp@[i] as int,
        base,
        i,
    ) by {
        assert(t.small_int@[i] == pow(base, i as nat));
    }
}

/// `get_power` fails one step outside the covered exponents and succeeds at both ends.
pub proof fn lemma_boundaries(base: int, t: &ModeratePathPowers)
    requires
        is_table_for(t, base),
    ensures
        t.min_exponent() == -350,
        t.max_exponent() == 309,
        t.spec_get_power(t.min_exponent() - 1) is None,
        t.spec_get_power(t.max_exponent() + 1) is None,
        t.spec_get_power(t.min_exponent()) is Some,
        t.spec_get_power(t.max_exponent()) is Some,
{
}

/// For every covered exponent the cached power lies within three units in the last
/// place of its mantissa of `base^e`; one marked exact equals `base^e`.
pub proof fn lemma_cached_power_error(base: int, t: &ModeratePathPowers, e: int)
    requires
        is_table_for(t, base),
        t.min_exponent() <= e <= t.max_exponent(),
    ensures
        t.spec_get_power(e) matches Some((f, exact)) && is_power_near(
            f.mant as int,
            f.exp as int,
            base,
            e,
            6,
        ) && (exact ==> is_exact_power(f.mant as int, f.exp as int, base, e)),
{
    lemma_base10_table(t);
    lemma_get_power_error(t, base, e);
}

} // verus!
