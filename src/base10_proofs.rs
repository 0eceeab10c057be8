//! Proofs that the base-ten tables hold what their entries claim.
//!
//! Each large entry is checked on its own by evaluating both powers exactly, which
//! keeps each check within the solver's limits.

use vstd::prelude::*;
use vstd::arithmetic::power::pow;
use crate::base10::{
    BASE10_LARGE_EXPONENT,
    BASE10_LARGE_MANTISSA,
    BASE10_SMALL_EXPONENT,
    BASE10_SMALL_INT_POWERS,
    BASE10_SMALL_MANTISSA,
    is_base10_table,
};
use crate::cached::{ExtendedFloat, ModeratePathPowers};
use crate::math::{
    is_exact_power,
    is_rounded_power,
    is_exact_power10_by_tens,
    is_rounded_power10_by_tens,
    lemma_pow10_by_tens,
    lemma_power10_by_tens,
    pow10_by_tens,
    pow2_by_words,
    pow10_times_pow2,
};

verus! {

spec fn entry_shaped(m: u64, x: i32) -> bool {
    ExtendedFloat { mant: m, exp: x }.is_normalized() && ExtendedFloat {
        mant: m,
        exp: x,
    }.has_bounded_exp()
}

spec fn large_entry_ok(j: int) -> bool {
    &&& entry_shaped(BASE10_LARGE_MANTISSA@[j], BASE10_LARGE_EXPONENT@[j])
    &&& is_rounded_power10_by_tens(
        BASE10_LARGE_MANTISSA@[j] as int,
        BASE10_LARGE_EXPONENT@[j] as int,
        (j - 35) * 10,
    )
}

spec fn small_entry_ok(i: int) -> bool {
    &&& entry_shaped(BASE10_SMALL_MANTISSA@[i], BASE10_SMALL_EXPONENT@[i])
    &&& is_exact_power10_by_tens(
        BASE10_SMALL_MANTISSA@[i] as int,
        BASE10_SMALL_EXPONENT@[i] as int,
        i as nat,
    )
    &&& BASE10_SMALL_INT_POWERS@[i] == pow10_by_tens(i as nat)
}

spec fn small_entries_from(i: nat) -> bool
    decreases 10 - i,
{
    if i < 10 {
        small_entry_ok(i as int) && small_entries_from(i + 1)
    } else {
        true
    }
}

#[verifier::spinoff_prover]
#[verifier::rlimit(50)]
proof fn lemma_large_entry_0()
    ensures
        large_entry_ok(0),
{
    assert(23110251922507705395 * pow10_by_tens(350) <= 2 * pow2_by_words(1226)) by {
        reveal_with_fuel(pow10_by_tens, 45);
        reveal_with_fuel(pow2_by_words, 45);
        reveal_with_fuel(pow10_times_pow2, 45);
    }
    assert(2 * pow2_by_words(1226) <= 23110251922507705397 * pow10_by_tens(350)) by {
        reveal_with_fuel(pow10_by_tens, 45);
        reveal_with_fuel(pow2_by_words, 45);
        reveal_with_fuel(pow10_times_pow2, 45);
    }
    assert(is_rounded_power10_by_tens(11555125961253852698, -1226, -350));
}

#[verifier::spinoff_prover]
#[verifier::rlimit(50)]
proof fn lemma_large_entry_1()
    ensures
        large_entry_ok(1),
{
    assert(26903874150602735339 * pow10_by_tens(340) <= 2 * pow2_by_words(1193)) by {
        reveal_with_fuel(pow10_by_tens, 45);
        reveal_with_fuel(pow2_by_words, 45);
        reveal_with_fuel(pow10_times_pow2, 45);
    }
    assert(2 * pow2_by_words(1193) <= 26903874150602735341 * pow10_by_tens(340)) by {
        reveal_with_fuel(pow10_by_tens, 45);
        reveal_with_fuel(pow2_by_words, 45);
        reveal_with_fuel(pow10_times_pow2, 45);
    }
    assert(is_rounded_power10_by_tens(13451937075301367670, -1193, -340));
}

#[verifier::spinoff_prover]
#[verifier::rlimit(50)]
proof fn lemma_large_entry_2()
    ensures
        large_entry_ok(2),
{
    assert(31320231676337699569 * pow10_by_tens(330) <= 2 * pow2_by_words(1160)) by {
        reveal_with_fuel(pow10_by_tens, 45);
        reveal_with_fuel(pow2_by_words, 45);
        reveal_with_fuel(pow10_times_pow2, 45);
    }
    assert(2 * pow2_by_words(1160) <= 31320231676337699571 * pow10_by_tens(330)) by {
        reveal_with_fuel(pow10_by_tens, 45);
        reveal_with_fuel(pow2_by_words, 45);
        reveal_with_fuel(pow10_times_pow2, 45);
    }
    assert(is_rounded_power10_by_tens(15660115838168849785, -1160, -330));
}

#[verifier::spinoff_prover]
#[verifier::rlimit(50)]
proof fn lemma_large_entry_3()
    ensures
        large_entry_ok(3),
{
    assert(36461548502950113697 * pow10_by_tens(320) <= 2 * pow2_by_words(1127)) by {
        reveal_with_fuel(pow10_by_tens, 45);
        reveal_with_fuel(pow2_by_words, 45);
        reveal_with_fuel(pow10_times_pow2, 45);
    }
    assert(2 * pow2_by_words(1127) <= 36461548502950113699 * pow10_by_tens(320)) by {
        reveal_with_fuel(pow10_by_tens, 45);
        reveal_with_fuel(pow2_by_words, 45);
        reveal_with_fuel(pow10_times_pow2, 45);
    }
    assert(is_rounded_power10_by_tens(18230774251475056849, -1127, -320));
}

#[verifier::spinoff_prover]
#[verifier::rlimit(50)]
proof fn lemma_large_entry_4()
    ensures
        large_entry_ok(4),
{
    assert(21223414516396653893 * pow10_by_tens(310) <= 2 * pow2_by_words(1093)) by {
        reveal_with_fuel(pow10_by_tens, 45);
        reveal_with_fuel(pow2_by_words, 45);
        reveal_with_fuel(pow10_times_pow2, 45);
    }
    assert(2 * pow2_by_words(1093) <= 21223414516396653895 * pow10_by_tens(310)) by {
        reveal_with_fuel(pow10_by_tens, 45);
        reveal_with_fuel(pow2_by_words, 45);
        reveal_with_fuel(pow10_times_pow2, 45);
    }
    assert(is_rounded_power10_by_tens(10611707258198326947, -1093, -310));
}

#[verifier::spinoff_prover]
#[verifier::rlimit(50)]
proof fn lemma_large_entry_5()
    ensures
        large_entry_ok(5),
{
    assert(24707306311927565715 * pow10_by_tens(300) <= 2 * pow2_by_words(1060)) by {
        reveal_with_fuel(pow10_by_tens, 45);
        reveal_with_fuel(pow2_by_words, 45);
        reveal_with_fuel(pow10_times_pow2, 45);
    }
    assert(2 * pow2_by_words(1060) <= 24707306311927565717 * pow10_by_tens(300)) by {
        reveal_with_fuel(pow10_by_tens, 45);
        reveal_with_fuel(pow2_by_words, 45);
        reveal_with_fuel(pow10_times_pow2, 45);
    }
    assert(is_rounded_power10_by_tens(12353653155963782858, -1060, -300));
}

#[verifier::spinoff_prover]
#[verifier::rlimit(50)]
proof fn lemma_large_entry_6()
    ensures
        large_entry_ok(6),
{
    assert(28763090157797054523 * pow10_by_tens(290) <= 2 * pow2_by_words(1027)) by {
        reveal_with_fuel(pow10_by_tens, 45);
        reveal_with_fuel(pow2_by_words, 45);
        reveal_with_fuel(pow10_times_pow2, 45);
    }
    assert(2 * pow2_by_words(1027) <= 28763090157797054525 * pow10_by_tens(290)) by {
        reveal_with_fuel(pow10_by_tens, 45);
        reveal_with_fuel(pow2_by_words, 45);
        reveal_with_fuel(pow10_times_pow2, 45);
    }
    assert(is_rounded_power10_by_tens(14381545078898527262, -1027, -290));
}

#[verifier::spinoff_prover]
#[verifier::rlimit(50)]
proof fn lemma_large_entry_7()
    ensures
        large_entry_ok(7),
{
    assert(33484643974570853779 * pow10_by_tens(280) <= 2 * pow2_by_words(994)) by {
        reveal_with_fuel(pow10_by_tens, 45);
        reveal_with_fuel(pow2_by_words, 45);
        reveal_with_fuel(pow10_times_pow2, 45);
    }
    assert(2 * pow2_by_words(994) <= 33484643974570853781 * pow10_by_tens(280)) by {
        reveal_with_fuel(pow10_by_tens, 45);
        reveal_with_fuel(pow2_by_words, 45);
        reveal_with_fuel(pow10_times_pow2, 45);
    }
    assert(is_rounded_power10_by_tens(16742321987285426890, -994, -280));
}

#[verifier::spinoff_prover]
#[verifier::rlimit(50)]
proof fn lemma_large_entry_8()
    ensures
        large_entry_ok(8),
{
    assert(19490628022799998159 * pow10_by_tens(270) <= 2 * pow2_by_words(960)) by {
        reveal_with_fuel(pow10_by_tens, 45);
        reveal_with_fuel(pow2_by_words, 45);
        reveal_with_fuel(pow10_times_pow2, 45);
    }
    assert(2 * pow2_by_words(960) <= 19490628022799998161 * pow10_by_tens(270)) by {
        reveal_with_fuel(pow10_by_tens, 45);
        reveal_with_fuel(pow2_by_words, 45);
        reveal_with_fuel(pow10_times_pow2, 45);
    }
    assert(is_rounded_power10_by_tens(9745314011399999080, -960, -270));
}

#[verifier::spinoff_prover]
#[verifier::rlimit(50)]
proof fn lemma_large_entry_9()
    ensures
        large_entry_ok(9),
{
    assert(22690077338833359721 * pow10_by_tens(260) <= 2 * pow2_by_words(927)) by {
        reveal_with_fuel(pow10_by_tens, 45);
        reveal_with_fuel(pow2_by_words, 45);
        reveal_with_fuel(pow10_times_pow2, 45);
    }
    assert(2 * pow2_by_words(927) <= 22690077338833359723 * pow10_by_tens(260)) by {
        reveal_with_fuel(pow10_by_tens, 45);
        reveal_with_fuel(pow2_by_words, 45);
        reveal_with_fuel(pow10_times_pow2, 45);
    }
    assert(is_rounded_power10_by_tens(11345038669416679861, -927, -260));
}

#[verifier::spinoff_prover]
#[verifier::rlimit(50)]
proof fn lemma_large_entry_10()
    ensures
        large_entry_ok(10),
{
    assert(26414726556783262317 * pow10_by_tens(250) <= 2 * pow2_by_words(894)) by {
        reveal_with_fuel(pow10_by_tens, 45);
        reveal_with_fuel(pow2_by_words, 45);
        reveal_with_fuel(pow10_times_pow2, 45);
    }
    assert(2 * pow2_by_words(894) <= 26414726556783262319 * pow10_by_tens(250)) by {
        reveal_with_fuel(pow10_by_tens, 45);
        reveal_with_fuel(pow2_by_words, 45);
        reveal_with_fuel(pow10_times_pow2, 45);
    }
    assert(is_rounded_power10_by_tens(13207363278391631159, -894, -250));
}

#[verifier::spinoff_prover]
#[verifier::rlimit(50)]
proof fn lemma_large_entry_11()
    ensures
        large_entry_ok(11),
{
    assert(30750788930784052141 * pow10_by_tens(240) <= 2 * pow2_by_words(861)) by {
        reveal_with_fuel(pow10_by_tens, 45);
        reveal_with_fuel(pow2_by_words, 45);
        reveal_with_fuel(pow10_times_pow2, 45);
    }
    assert(2 * pow2_by_words(861) <= 30750788930784052143 * pow10_by_tens(240)) by {
        reveal_with_fuel(pow10_by_tens, 45);
        reveal_with_fuel(pow2_by_words, 45);
        reveal_with_fuel(pow10_times_pow2, 45);
    }
    assert(is_rounded_power10_by_tens(15375394465392026071, -861, -240));
}

#[verifier::spinoff_prover]
#[verifier::rlimit(50)]
proof fn lemma_large_entry_12()
    ensures
        large_entry_ok(12),
{
    assert(35798629898093701505 * pow10_by_tens(230) <= 2 * pow2_by_words(828)) by {
        reveal_with_fuel(pow10_by_tens, 45);
        reveal_with_fuel(pow2_by_words, 45);
        reveal_with_fuel(pow10_times_pow2, 45);
    }
    assert(2 * pow2_by_words(828) <= 35798629898093701507 * pow10_by_tens(230)) by {
        reveal_with_fuel(pow10_by_tens, 45);
        reveal_with_fuel(pow2_by_words, 45);
        reveal_with_fuel(pow10_times_pow2, 45);
    }
    assert(is_rounded_power10_by_tens(17899314949046850753, -828, -230));
}

#[verifier::spinoff_prover]
#[verifier::rlimit(50)]
proof fn lemma_large_entry_13()
    ensures
        large_entry_ok(13),
{
    assert(20837545102749544605 * pow10_by_tens(220) <= 2 * pow2_by_words(794)) by {
        reveal_with_fuel(pow10_by_tens, 45);
        reveal_with_fuel(pow2_by_words, 45);
        reveal_with_fuel(pow10_times_pow2, 45);
    }
    assert(2 * pow2_by_words(794) <= 20837545102749544607 * pow10_by_tens(220)) by {
        reveal_with_fuel(pow10_by_tens, 45);
        reveal_with_fuel(pow2_by_words, 45);
        reveal_with_fuel(pow10_times_pow2, 45);
    }
    assert(is_rounded_power10_by_tens(10418772551374772303, -794, -220));
}

#[verifier::spinoff_prover]
#[verifier::rlimit(50)]
proof fn lemma_large_entry_14()
    ensures
        large_entry_ok(14),
{
    assert(24258095192198577111 * pow10_by_tens(210) <= 2 * pow2_by_words(761)) by {
        reveal_with_fuel(pow10_by_tens, 45);
        reveal_with_fuel(pow2_by_words, 45);
        reveal_with_fuel(pow10_times_pow2, 45);
    }
    assert(2 * pow2_by_words(761) <= 24258095192198577113 * pow10_by_tens(210)) by {
        reveal_with_fuel(pow10_by_tens, 45);
        reveal_with_fuel(pow2_by_words, 45);
        reveal_with_fuel(pow10_times_pow2, 45);
    }
    assert(is_rounded_power10_by_tens(12129047596099288556, -761, -210));
}

#[verifier::spinoff_prover]
#[verifier::rlimit(50)]
proof fn lemma_large_entry_15()
    ensures
        large_entry_ok(15),
{
    assert(28240139587082174969 * pow10_by_tens(200) <= 2 * pow2_by_words(728)) by {
        reveal_with_fuel(pow10_by_tens, 45);
        reveal_with_fuel(pow2_by_words, 45);
        reveal_with_fuel(pow10_times_pow2, 45);
    }
    assert(2 * pow2_by_words(728) <= 28240139587082174971 * pow10_by_tens(200)) by {
        reveal_with_fuel(pow10_by_tens, 45);
        reveal_with_fuel(pow2_by_words, 45);
        reveal_with_fuel(pow10_times_pow2, 45);
    }
    assert(is_rounded_power10_by_tens(14120069793541087485, -728, -200));
}

#[verifier::spinoff_prover]
#[verifier::rlimit(50)]
proof fn lemma_large_entry_16()
    ensures
        large_entry_ok(16),
{
    assert(32875849384677334419 * pow10_by_tens(190) <= 2 * pow2_by_words(695)) by {
        reveal_with_fuel(pow10_by_tens, 45);
        reveal_with_fuel(pow2_by_words, 45);
        reveal_with_fuel(pow10_times_pow2, 45);
    }
    assert(2 * pow2_by_words(695) <= 32875849384677334421 * pow10_by_tens(190)) by {
        reveal_with_fuel(pow10_by_tens, 45);
        reveal_with_fuel(pow2_by_words, 45);
        reveal_with_fuel(pow10_times_pow2, 45);
    }
    assert(is_rounded_power10_by_tens(16437924692338667210, -695, -190));
}

#[verifier::spinoff_prover]
#[verifier::rlimit(50)]
proof fn lemma_large_entry_17()
    ensures
        large_entry_ok(17),
{
    assert(19136262932255243893 * pow10_by_tens(180) <= 2 * pow2_by_words(661)) by {
        reveal_with_fuel(pow10_by_tens, 45);
        reveal_with_fuel(pow2_by_words, 45);
        reveal_with_fuel(pow10_times_pow2, 45);
    }
    assert(2 * pow2_by_words(661) <= 19136262932255243895 * pow10_by_tens(180)) by {
        reveal_with_fuel(pow10_by_tens, 45);
        reveal_with_fuel(pow2_by_words, 45);
        reveal_with_fuel(pow10_times_pow2, 45);
    }
    assert(is_rounded_power10_by_tens(9568131466127621947, -661, -180));
}

#[verifier::spinoff_prover]
#[verifier::rlimit(50)]
proof fn lemma_large_entry_18()
    ensures
        large_entry_ok(18),
{
    assert(22277542078233375091 * pow10_by_tens(170) <= 2 * pow2_by_words(628)) by {
        reveal_with_fuel(pow10_by_tens, 45);
        reveal_with_fuel(pow2_by_words, 45);
        reveal_with_fuel(pow10_times_pow2, 45);
    }
    assert(2 * pow2_by_words(628) <= 22277542078233375093 * pow10_by_tens(170)) by {
        reveal_with_fuel(pow10_by_tens, 45);
        reveal_with_fuel(pow2_by_words, 45);
        reveal_with_fuel(pow10_times_pow2, 45);
    }
    assert(is_rounded_power10_by_tens(11138771039116687546, -628, -170));
}

#[verifier::spinoff_prover]
#[verifier::rlimit(50)]
proof fn lemma_large_entry_19()
    ensures
        large_entry_ok(19),
{
    assert(25934472305506205989 * pow10_by_tens(160) <= 2 * pow2_by_words(595)) by {
        reveal_with_fuel(pow10_by_tens, 45);
        reveal_with_fuel(pow2_by_words, 45);
        reveal_with_fuel(pow10_times_pow2, 45);
    }
    assert(2 * pow2_by_words(595) <= 25934472305506205991 * pow10_by_tens(160)) by {
        reveal_with_fuel(pow10_by_tens, 45);
        reveal_with_fuel(pow2_by_words, 45);
        reveal_with_fuel(pow10_times_pow2, 45);
    }
    assert(is_rounded_power10_by_tens(12967236152753102995, -595, -160));
}

#[verifier::spinoff_prover]
#[verifier::rlimit(50)]
proof fn lemma_large_entry_20()
    ensures
        large_entry_ok(20),
{
    assert(30191699398572330817 * pow10_by_tens(150) <= 2 * pow2_by_words(562)) by {
        reveal_with_fuel(pow10_by_tens, 45);
        reveal_with_fuel(pow2_by_words, 45);
        reveal_with_fuel(pow10_times_pow2, 45);
    }
    assert(2 * pow2_by_words(562) <= 30191699398572330819 * pow10_by_tens(150)) by {
        reveal_with_fuel(pow10_by_tens, 45);
        reveal_with_fuel(pow2_by_words, 45);
        reveal_with_fuel(pow10_times_pow2, 45);
    }
    assert(is_rounded_power10_by_tens(15095849699286165409, -562, -150));
}

#[verifier::spinoff_prover]
#[verifier::rlimit(50)]
proof fn lemma_large_entry_21()
    ensures
        large_entry_ok(21),
{
    assert(35147764019868721739 * pow10_by_tens(140) <= 2 * pow2_by_words(529)) by {
        reveal_with_fuel(pow10_by_tens, 45);
        reveal_with_fuel(pow2_by_words, 45);
        reveal_with_fuel(pow10_times_pow2, 45);
    }
    assert(2 * pow2_by_words(529) <= 35147764019868721741 * pow10_by_tens(140)) by {
        reveal_with_fuel(pow10_by_tens, 45);
        reveal_with_fuel(pow2_by_words, 45);
        reveal_with_fuel(pow10_times_pow2, 45);
    }
    assert(is_rounded_power10_by_tens(17573882009934360870, -529, -140));
}

#[verifier::spinoff_prover]
#[verifier::rlimit(50)]
proof fn lemma_large_entry_22()
    ensures
        large_entry_ok(22),
{
    assert(20458691299350886687 * pow10_by_tens(130) <= 2 * pow2_by_words(495)) by {
        reveal_with_fuel(pow10_by_tens, 45);
        reveal_with_fuel(pow2_by_words, 45);
        reveal_with_fuel(pow10_times_pow2, 45);
    }
    assert(2 * pow2_by_words(495) <= 20458691299350886689 * pow10_by_tens(130)) by {
        reveal_with_fuel(pow10_by_tens, 45);
        reveal_with_fuel(pow2_by_words, 45);
        reveal_with_fuel(pow10_times_pow2, 45);
    }
    assert(is_rounded_power10_by_tens(10229345649675443344, -495, -130));
}

#[verifier::spinoff_prover]
#[verifier::rlimit(50)]
proof fn lemma_large_entry_23()
    ensures
        large_entry_ok(23),
{
    assert(23817051317718446589 * pow10_by_tens(120) <= 2 * pow2_by_words(462)) by {
        reveal_with_fuel(pow10_by_tens, 45);
        reveal_with_fuel(pow2_by_words, 45);
        reveal_with_fuel(pow10_times_pow2, 45);
    }
    assert(2 * pow2_by_words(462) <= 23817051317718446591 * pow10_by_tens(120)) by {
        reveal_with_fuel(pow10_by_tens, 45);
        reveal_with_fuel(pow2_by_words, 45);
        reveal_with_fuel(pow10_times_pow2, 45);
    }
    assert(is_rounded_power10_by_tens(11908525658859223295, -462, -120));
}

#[verifier::spinoff_prover]
#[verifier::rlimit(50)]
proof fn lemma_large_entry_24()
    ensures
        large_entry_ok(24),
{
    assert(27726696941208148595 * pow10_by_tens(110) <= 2 * pow2_by_words(429)) by {
        reveal_with_fuel(pow10_by_tens, 45);
        reveal_with_fuel(pow2_by_words, 45);
        reveal_with_fuel(pow10_times_pow2, 45);
    }
    assert(2 * pow2_by_words(429) <= 27726696941208148597 * pow10_by_tens(110)) by {
        reveal_with_fuel(pow10_by_tens, 45);
        reveal_with_fuel(pow2_by_words, 45);
        reveal_with_fuel(pow10_times_pow2, 45);
    }
    assert(is_rounded_power10_by_tens(13863348470604074298, -429, -110));
}

#[verifier::spinoff_prover]
#[verifier::rlimit(50)]
proof fn lemma_large_entry_25()
    ensures
        large_entry_ok(25),
{
    assert(32278123476086357369 * pow10_by_tens(100) <= 2 * pow2_by_words(396)) by {
        reveal_with_fuel(pow10_by_tens, 45);
        reveal_with_fuel(pow2_by_words, 45);
        reveal_with_fuel(pow10_times_pow2, 45);
    }
    assert(2 * pow2_by_words(396) <= 32278123476086357371 * pow10_by_tens(100)) by {
        reveal_with_fuel(pow10_by_tens, 45);
        reveal_with_fuel(pow2_by_words, 45);
        reveal_with_fuel(pow10_times_pow2, 45);
    }
    assert(is_rounded_power10_by_tens(16139061738043178685, -396, -100));
}

#[verifier::spinoff_prover]
#[verifier::rlimit(50)]
proof fn lemma_large_entry_26()
    ensures
        large_entry_ok(26),
{
    assert(18788340662190665823 * pow10_by_tens(90) <= 2 * pow2_by_words(362)) by {
        reveal_with_fuel(pow10_by_tens, 45);
        reveal_with_fuel(pow2_by_words, 45);
        reveal_with_fuel(pow10_times_pow2, 45);
    }
    assert(2 * pow2_by_words(362) <= 18788340662190665825 * pow10_by_tens(90)) by {
        reveal_with_fuel(pow10_by_tens, 45);
        reveal_with_fuel(pow2_by_words, 45);
        reveal_with_fuel(pow10_times_pow2, 45);
    }
    assert(is_rounded_power10_by_tens(9394170331095332912, -362, -90));
}

#[verifier::spinoff_prover]
#[verifier::rlimit(50)]
proof fn lemma_large_entry_27()
    ensures
        large_entry_ok(27),
{
    assert(21872507247830119243 * pow10_by_tens(80) <= 2 * pow2_by_words(329)) by {
        reveal_with_fuel(pow10_by_tens, 45);
        reveal_with_fuel(pow2_by_words, 45);
        reveal_with_fuel(pow10_times_pow2, 45);
    }
    assert(2 * pow2_by_words(329) <= 21872507247830119245 * pow10_by_tens(80)) by {
        reveal_with_fuel(pow10_by_tens, 45);
        reveal_with_fuel(pow2_by_words, 45);
        reveal_with_fuel(pow10_times_pow2, 45);
    }
    assert(is_rounded_power10_by_tens(10936253623915059622, -329, -80));
}

#[verifier::spinoff_prover]
#[verifier::rlimit(50)]
proof fn lemma_large_entry_28()
    ensures
        large_entry_ok(28),
{
    assert(25462949704181076077 * pow10_by_tens(70) <= 2 * pow2_by_words(296)) by {
        reveal_with_fuel(pow10_by_tens, 45);
        reveal_with_fuel(pow2_by_words, 45);
        reveal_with_fuel(pow10_times_pow2, 45);
    }
    assert(2 * pow2_by_words(296) <= 25462949704181076079 * pow10_by_tens(70)) by {
        reveal_with_fuel(pow10_by_tens, 45);
        reveal_with_fuel(pow2_by_words, 45);
        reveal_with_fuel(pow10_times_pow2, 45);
    }
    assert(is_rounded_power10_by_tens(12731474852090538039, -296, -70));
}

#[verifier::spinoff_prover]
#[verifier::rlimit(50)]
proof fn lemma_large_entry_29()
    ensures
        large_entry_ok(29),
{
    assert(29642774844752946027 * pow10_by_tens(60) <= 2 * pow2_by_words(263)) by {
        reveal_with_fuel(pow10_by_tens, 45);
        reveal_with_fuel(pow2_by_words, 45);
        reveal_with_fuel(pow10_times_pow2, 45);
    }
    assert(2 * pow2_by_words(263) <= 29642774844752946029 * pow10_by_tens(60)) by {
        reveal_with_fuel(pow10_by_tens, 45);
        reveal_with_fuel(pow2_by_words, 45);
        reveal_with_fuel(pow10_times_pow2, 45);
    }
    assert(is_rounded_power10_by_tens(14821387422376473014, -263, -60));
}

#[verifier::spinoff_prover]
#[verifier::rlimit(50)]
proof fn lemma_large_entry_30()
    ensures
        large_entry_ok(30),
{
    assert(34508731733952818937 * pow10_by_tens(50) <= 2 * pow2_by_words(230)) by {
        reveal_with_fuel(pow10_by_tens, 45);
        reveal_with_fuel(pow2_by_words, 45);
        reveal_with_fuel(pow10_times_pow2, 45);
    }
    assert(2 * pow2_by_words(230) <= 34508731733952818939 * pow10_by_tens(50)) by {
        reveal_with_fuel(pow10_by_tens, 45);
        reveal_with_fuel(pow2_by_words, 45);
        reveal_with_fuel(pow10_times_pow2, 45);
    }
    assert(is_rounded_power10_by_tens(17254365866976409469, -230, -50));
}

#[verifier::spinoff_prover]
#[verifier::rlimit(50)]
proof fn lemma_large_entry_31()
    ensures
        large_entry_ok(31),
{
    assert(20086725553237378443 * pow10_by_tens(40) <= 2 * pow2_by_words(196)) by {
        reveal_with_fuel(pow10_by_tens, 45);
        reveal_with_fuel(pow2_by_words, 45);
        reveal_with_fuel(pow10_times_pow2, 45);
    }
    assert(2 * pow2_by_words(196) <= 20086725553237378445 * pow10_by_tens(40)) by {
        reveal_with_fuel(pow10_by_tens, 45);
        reveal_with_fuel(pow2_by_words, 45);
        reveal_with_fuel(pow10_times_pow2, 45);
    }
    assert(is_rounded_power10_by_tens(10043362776618689222, -196, -40));
}

#[verifier::spinoff_prover]
#[verifier::rlimit(50)]
proof fn lemma_large_entry_32()
    ensures
        large_entry_ok(32),
{
    assert(23384026197294446691 * pow10_by_tens(30) <= 2 * pow2_by_words(163)) by {
        reveal_with_fuel(pow10_by_tens, 45);
        reveal_with_fuel(pow2_by_words, 45);
        reveal_with_fuel(pow10_times_pow2, 45);
    }
    assert(2 * pow2_by_words(163) <= 23384026197294446693 * pow10_by_tens(30)) by {
        reveal_with_fuel(pow10_by_tens, 45);
        reveal_with_fuel(pow2_by_words, 45);
        reveal_with_fuel(pow10_times_pow2, 45);
    }
    assert(is_rounded_power10_by_tens(11692013098647223346, -163, -30));
}

#[verifier::spinoff_prover]
#[verifier::rlimit(50)]
proof fn lemma_large_entry_33()
    ensures
        large_entry_ok(33),
{
    assert(27222589353675077077 * pow10_by_tens(20) <= 2 * pow2_by_words(130)) by {
        reveal_with_fuel(pow10_by_tens, 45);
        reveal_with_fuel(pow2_by_words, 45);
        reveal_with_fuel(pow10_times_pow2, 45);
    }
    assert(2 * pow2_by_words(130) <= 27222589353675077079 * pow10_by_tens(20)) by {
        reveal_with_fuel(pow10_by_tens, 45);
        reveal_with_fuel(pow2_by_words, 45);
        reveal_with_fuel(pow10_times_pow2, 45);
    }
    assert(is_rounded_power10_by_tens(13611294676837538539, -130, -20));
}

#[verifier::spinoff_prover]
#[verifier::rlimit(50)]
proof fn lemma_large_entry_34()
    ensures
        large_entry_ok(34),
{
    assert(31691265005705735037 * pow10_by_tens(10) <= 2 * pow2_by_words(97)) by {
        reveal_with_fuel(pow10_by_tens, 45);
        reveal_with_fuel(pow2_by_words, 45);
        reveal_with_fuel(pow10_times_pow2, 45);
    }
    assert(2 * pow2_by_words(97) <= 31691265005705735039 * pow10_by_tens(10)) by {
        reveal_with_fuel(pow10_by_tens, 45);
        reveal_with_fuel(pow2_by_words, 45);
        reveal_with_fuel(pow10_times_pow2, 45);
    }
    assert(is_rounded_power10_by_tens(15845632502852867519, -97, -10));
}

#[verifier::spinoff_prover]
#[verifier::rlimit(50)]
proof fn lemma_large_entry_35()
    ensures
        large_entry_ok(35),
{
    assert(18446744073709551615 <= 2 * pow10_times_pow2(0, 63)) by {
        reveal_with_fuel(pow10_by_tens, 45);
        reveal_with_fuel(pow2_by_words, 45);
        reveal_with_fuel(pow10_times_pow2, 45);
    }
    assert(2 * pow10_times_pow2(0, 63) <= 18446744073709551617) by {
        reveal_with_fuel(pow10_by_tens, 45);
        reveal_with_fuel(pow2_by_words, 45);
        reveal_with_fuel(pow10_times_pow2, 45);
    }
    assert(is_rounded_power10_by_tens(9223372036854775808, -63, 0));
}

#[verifier::spinoff_prover]
#[verifier::rlimit(50)]
proof fn lemma_large_entry_36()
    ensures
        large_entry_ok(36),
{
    assert(21474836479999999999 <= 2 * pow10_times_pow2(10, 30)) by {
        reveal_with_fuel(pow10_by_tens, 45);
        reveal_with_fuel(pow2_by_words, 45);
        reveal_with_fuel(pow10_times_pow2, 45);
    }
    assert(2 * pow10_times_pow2(10, 30) <= 21474836480000000001) by {
        reveal_with_fuel(pow10_by_tens, 45);
        reveal_with_fuel(pow2_by_words, 45);
        reveal_with_fuel(pow10_times_pow2, 45);
    }
    assert(is_rounded_power10_by_tens(10737418240000000000, -30, 10));
}

#[verifier::spinoff_prover]
#[verifier::rlimit(50)]
proof fn lemma_large_entry_37()
    ensures
        large_entry_ok(37),
{
    assert(24999999999999999999 * pow2_by_words(3) <= 2 * pow10_by_tens(20)) by {
        reveal_with_fuel(pow10_by_tens, 45);
        reveal_with_fuel(pow2_by_words, 45);
        reveal_with_fuel(pow10_times_pow2, 45);
    }
    assert(2 * pow10_by_tens(20) <= 25000000000000000001 * pow2_by_words(3)) by {
        reveal_with_fuel(pow10_by_tens, 45);
        reveal_with_fuel(pow2_by_words, 45);
        reveal_with_fuel(pow10_times_pow2, 45);
    }
    assert(is_rounded_power10_by_tens(12500000000000000000, 3, 20));
}

#[verifier::spinoff_prover]
#[verifier::rlimit(50)]
proof fn lemma_large_entry_38()
    ensures
        large_entry_ok(38),
{
    assert(29103830456733703613 * pow2_by_words(36) <= 2 * pow10_by_tens(30)) by {
        reveal_with_fuel(pow10_by_tens, 45);
        reveal_with_fuel(pow2_by_words, 45);
        reveal_with_fuel(pow10_times_pow2, 45);
    }
    assert(2 * pow10_by_tens(30) <= 29103830456733703615 * pow2_by_words(36)) by {
        reveal_with_fuel(pow10_by_tens, 45);
        reveal_with_fuel(pow2_by_words, 45);
        reveal_with_fuel(pow10_times_pow2, 45);
    }
    assert(is_rounded_power10_by_tens(14551915228366851807, 36, 30));
}

#[verifier::spinoff_prover]
#[verifier::rlimit(50)]
proof fn lemma_large_entry_39()
    ensures
        large_entry_ok(39),
{
    assert(33881317890172013561 * pow2_by_words(69) <= 2 * pow10_by_tens(40)) by {
        reveal_with_fuel(pow10_by_tens, 45);
        reveal_with_fuel(pow2_by_words, 45);
        reveal_with_fuel(pow10_times_pow2, 45);
    }
    assert(2 * pow10_by_tens(40) <= 33881317890172013563 * pow2_by_words(69)) by {
        reveal_with_fuel(pow10_by_tens, 45);
        reveal_with_fuel(pow2_by_words, 45);
        reveal_with_fuel(pow10_times_pow2, 45);
    }
    assert(is_rounded_power10_by_tens(16940658945086006781, 69, 40));
}

#[verifier::spinoff_prover]
#[verifier::rlimit(50)]
proof fn lemma_large_entry_40()
    ensures
        large_entry_ok(40),
{
    assert(19721522630525295135 * pow2_by_words(103) <= 2 * pow10_by_tens(50)) by {
        reveal_with_fuel(pow10_by_tens, 45);
        reveal_with_fuel(pow2_by_words, 45);
        reveal_with_fuel(pow10_times_pow2, 45);
    }
    assert(2 * pow10_by_tens(50) <= 19721522630525295137 * pow2_by_words(103)) by {
        reveal_with_fuel(pow10_by_tens, 45);
        reveal_with_fuel(pow2_by_words, 45);
        reveal_with_fuel(pow10_times_pow2, 45);
    }
    assert(is_rounded_power10_by_tens(9860761315262647568, 103, 50));
}

#[verifier::spinoff_prover]
#[verifier::rlimit(50)]
proof fn lemma_large_entry_41()
    ensures
        large_entry_ok(41),
{
    assert(22958874039497802889 * pow2_by_words(136) <= 2 * pow10_by_tens(60)) by {
        reveal_with_fuel(pow10_by_tens, 45);
        reveal_with_fuel(pow2_by_words, 45);
        reveal_with_fuel(pow10_times_pow2, 45);
    }
    assert(2 * pow10_by_tens(60) <= 22958874039497802891 * pow2_by_words(136)) by {
        reveal_with_fuel(pow10_by_tens, 45);
        reveal_with_fuel(pow2_by_words, 45);
        reveal_with_fuel(pow10_times_pow2, 45);
    }
    assert(is_rounded_power10_by_tens(11479437019748901445, 136, 60));
}

#[verifier::spinoff_prover]
#[verifier::rlimit(50)]
proof fn lemma_large_entry_42()
    ensures
        large_entry_ok(42),
{
    assert(26727647100921956461 * pow2_by_words(169) <= 2 * pow10_by_tens(70)) by {
        reveal_with_fuel(pow10_by_tens, 45);
        reveal_with_fuel(pow2_by_words, 45);
        reveal_with_fuel(pow10_times_pow2, 45);
    }
    assert(2 * pow10_by_tens(70) <= 26727647100921956463 * pow2_by_words(169)) by {
        reveal_with_fuel(pow10_by_tens, 45);
        reveal_with_fuel(pow2_by_words, 45);
        reveal_with_fuel(pow10_times_pow2, 45);
    }
    assert(is_rounded_power10_by_tens(13363823550460978231, 169, 70));
}

#[verifier::spinoff_prover]
#[verifier::rlimit(50)]
proof fn lemma_large_entry_43()
    ensures
        large_entry_ok(43),
{
    assert(31115076389305708535 * pow2_by_words(202) <= 2 * pow10_by_tens(80)) by {
        reveal_with_fuel(pow10_by_tens, 45);
        reveal_with_fuel(pow2_by_words, 45);
        reveal_with_fuel(pow10_times_pow2, 45);
    }
    assert(2 * pow10_by_tens(80) <= 31115076389305708537 * pow2_by_words(202)) by {
        reveal_with_fuel(pow10_by_tens, 45);
        reveal_with_fuel(pow2_by_words, 45);
        reveal_with_fuel(pow10_times_pow2, 45);
    }
    assert(is_rounded_power10_by_tens(15557538194652854268, 202, 80));
}

#[verifier::spinoff_prover]
#[verifier::rlimit(50)]
proof fn lemma_large_entry_44()
    ensures
        large_entry_ok(44),
{
    assert(36222716315306849469 * pow2_by_words(235) <= 2 * pow10_by_tens(90)) by {
        reveal_with_fuel(pow10_by_tens, 45);
        reveal_with_fuel(pow2_by_words, 45);
        reveal_with_fuel(pow10_times_pow2, 45);
    }
    assert(2 * pow10_by_tens(90) <= 36222716315306849471 * pow2_by_words(235)) by {
        reveal_with_fuel(pow10_by_tens, 45);
        reveal_with_fuel(pow2_by_words, 45);
        reveal_with_fuel(pow10_times_pow2, 45);
    }
    assert(is_rounded_power10_by_tens(18111358157653424735, 235, 90));
}

#[verifier::spinoff_prover]
#[verifier::rlimit(50)]
proof fn lemma_large_entry_45()
    ensures
        large_entry_ok(45),
{
    assert(21084395886461046447 * pow2_by_words(269) <= 2 * pow10_by_tens(100)) by {
        reveal_with_fuel(pow10_by_tens, 45);
        reveal_with_fuel(pow2_by_words, 45);
        reveal_with_fuel(pow10_times_pow2, 45);
    }
    assert(2 * pow10_by_tens(100) <= 21084395886461046449 * pow2_by_words(269)) by {
        reveal_with_fuel(pow10_by_tens, 45);
        reveal_with_fuel(pow2_by_words, 45);
        reveal_with_fuel(pow10_times_pow2, 45);
    }
    assert(is_rounded_power10_by_tens(10542197943230523224, 269, 100));
}

#[verifier::spinoff_prover]
#[verifier::rlimit(50)]
proof fn lemma_large_entry_46()
    ensures
        large_entry_ok(46),
{
    assert(24545467326488632765 * pow2_by_words(302) <= 2 * pow10_by_tens(110)) by {
        reveal_with_fuel(pow10_by_tens, 45);
        reveal_with_fuel(pow2_by_words, 45);
        reveal_with_fuel(pow10_times_pow2, 45);
    }
    assert(2 * pow10_by_tens(110) <= 24545467326488632767 * pow2_by_words(302)) by {
        reveal_with_fuel(pow10_by_tens, 45);
        reveal_with_fuel(pow2_by_words, 45);
        reveal_with_fuel(pow10_times_pow2, 45);
    }
    assert(is_rounded_power10_by_tens(12272733663244316383, 302, 110));
}

#[verifier::spinoff_prover]
#[verifier::rlimit(50)]
proof fn lemma_large_entry_47()
    ensures
        large_entry_ok(47),
{
    assert(28574684782056874555 * pow2_by_words(335) <= 2 * pow10_by_tens(120)) by {
        reveal_with_fuel(pow10_by_tens, 45);
        reveal_with_fuel(pow2_by_words, 45);
        reveal_with_fuel(pow10_times_pow2, 45);
    }
    assert(2 * pow10_by_tens(120) <= 28574684782056874557 * pow2_by_words(335)) by {
        reveal_with_fuel(pow10_by_tens, 45);
        reveal_with_fuel(pow2_by_words, 45);
        reveal_with_fuel(pow10_times_pow2, 45);
    }
    assert(is_rounded_power10_by_tens(14287342391028437278, 335, 120));
}

#[verifier::spinoff_prover]
#[verifier::rlimit(50)]
proof fn lemma_large_entry_48()
    ensures
        large_entry_ok(48),
{
    assert(33265311250063677499 * pow2_by_words(368) <= 2 * pow10_by_tens(130)) by {
        reveal_with_fuel(pow10_by_tens, 45);
        reveal_with_fuel(pow2_by_words, 45);
        reveal_with_fuel(pow10_times_pow2, 45);
    }
    assert(2 * pow10_by_tens(130) <= 33265311250063677501 * pow2_by_words(368)) by {
        reveal_with_fuel(pow10_by_tens, 45);
        reveal_with_fuel(pow2_by_words, 45);
        reveal_with_fuel(pow10_times_pow2, 45);
    }
    assert(is_rounded_power10_by_tens(16632655625031838750, 368, 130));
}

#[verifier::spinoff_prover]
#[verifier::rlimit(50)]
proof fn lemma_large_entry_49()
    ensures
        large_entry_ok(49),
{
    assert(19362959574246591363 * pow2_by_words(402) <= 2 * pow10_by_tens(140)) by {
        reveal_with_fuel(pow10_by_tens, 45);
        reveal_with_fuel(pow2_by_words, 45);
        reveal_with_fuel(pow10_times_pow2, 45);
    }
    assert(2 * pow10_by_tens(140) <= 19362959574246591365 * pow2_by_words(402)) by {
        reveal_with_fuel(pow10_by_tens, 45);
        reveal_with_fuel(pow2_by_words, 45);
        reveal_with_fuel(pow10_times_pow2, 45);
    }
    assert(is_rounded_power10_by_tens(9681479787123295682, 402, 140));
}

#[verifier::spinoff_prover]
#[verifier::rlimit(50)]
proof fn lemma_large_entry_50()
    ensures
        large_entry_ok(50),
{
    assert(22541451703578456495 * pow2_by_words(435) <= 2 * pow10_by_tens(150)) by {
        reveal_with_fuel(pow10_by_tens, 45);
        reveal_with_fuel(pow2_by_words, 45);
        reveal_with_fuel(pow10_times_pow2, 45);
    }
    assert(2 * pow10_by_tens(150) <= 22541451703578456497 * pow2_by_words(435)) by {
        reveal_with_fuel(pow10_by_tens, 45);
        reveal_with_fuel(pow2_by_words, 45);
        reveal_with_fuel(pow10_times_pow2, 45);
    }
    assert(is_rounded_power10_by_tens(11270725851789228248, 435, 150));
}

#[verifier::spinoff_prover]
#[verifier::rlimit(50)]
proof fn lemma_large_entry_51()
    ensures
        large_entry_ok(51),
{
    assert(26241703545183940435 * pow2_by_words(468) <= 2 * pow10_by_tens(160)) by {
        reveal_with_fuel(pow10_by_tens, 45);
        reveal_with_fuel(pow2_by_words, 45);
        reveal_with_fuel(pow10_times_pow2, 45);
    }
    assert(2 * pow10_by_tens(160) <= 26241703545183940437 * pow2_by_words(468)) by {
        reveal_with_fuel(pow10_by_tens, 45);
        reveal_with_fuel(pow2_by_words, 45);
        reveal_with_fuel(pow10_times_pow2, 45);
    }
    assert(is_rounded_power10_by_tens(13120851772591970218, 468, 160));
}

#[verifier::spinoff_prover]
#[verifier::rlimit(50)]
proof fn lemma_large_entry_52()
    ensures
        large_entry_ok(52),
{
    assert(30549363634996046819 * pow2_by_words(501) <= 2 * pow10_by_tens(170)) by {
        reveal_with_fuel(pow10_by_tens, 45);
        reveal_with_fuel(pow2_by_words, 45);
        reveal_with_fuel(pow10_times_pow2, 45);
    }
    assert(2 * pow10_by_tens(170) <= 30549363634996046821 * pow2_by_words(501)) by {
        reveal_with_fuel(pow10_by_tens, 45);
        reveal_with_fuel(pow2_by_words, 45);
        reveal_with_fuel(pow10_times_pow2, 45);
    }
    assert(is_rounded_power10_by_tens(15274681817498023410, 501, 170));
}

#[verifier::spinoff_prover]
#[verifier::rlimit(50)]
proof fn lemma_large_entry_53()
    ensures
        large_entry_ok(53),
{
    assert(35564139991761239735 * pow2_by_words(534) <= 2 * pow10_by_tens(180)) by {
        reveal_with_fuel(pow10_by_tens, 45);
        reveal_with_fuel(pow2_by_words, 45);
        reveal_with_fuel(pow10_times_pow2, 45);
    }
    assert(2 * pow10_by_tens(180) <= 35564139991761239737 * pow2_by_words(534)) by {
        reveal_with_fuel(pow10_by_tens, 45);
        reveal_with_fuel(pow2_by_words, 45);
        reveal_with_fuel(pow10_times_pow2, 45);
    }
    assert(is_rounded_power10_by_tens(17782069995880619868, 534, 180));
}

#[verifier::spinoff_prover]
#[verifier::rlimit(50)]
proof fn lemma_large_entry_54()
    ensures
        large_entry_ok(54),
{
    assert(20701054013195237921 * pow2_by_words(568) <= 2 * pow10_by_tens(190)) by {
        reveal_with_fuel(pow10_by_tens, 45);
        reveal_with_fuel(pow2_by_words, 45);
        reveal_with_fuel(pow10_times_pow2, 45);
    }
    assert(2 * pow10_by_tens(190) <= 20701054013195237923 * pow2_by_words(568)) by {
        reveal_with_fuel(pow10_by_tens, 45);
        reveal_with_fuel(pow2_by_words, 45);
        reveal_with_fuel(pow10_times_pow2, 45);
    }
    assert(is_rounded_power10_by_tens(10350527006597618961, 568, 190));
}

#[verifier::spinoff_prover]
#[verifier::rlimit(50)]
proof fn lemma_large_entry_55()
    ensures
        large_entry_ok(55),
{
    assert(24099198651028841177 * pow2_by_words(601) <= 2 * pow10_by_tens(200)) by {
        reveal_with_fuel(pow10_by_tens, 45);
        reveal_with_fuel(pow2_by_words, 45);
        reveal_with_fuel(pow10_times_pow2, 45);
    }
    assert(2 * pow10_by_tens(200) <= 24099198651028841179 * pow2_by_words(601)) by {
        reveal_with_fuel(pow10_by_tens, 45);
        reveal_with_fuel(pow2_by_words, 45);
        reveal_with_fuel(pow10_times_pow2, 45);
    }
    assert(is_rounded_power10_by_tens(12049599325514420589, 601, 200));
}

#[verifier::spinoff_prover]
#[verifier::rlimit(50)]
proof fn lemma_large_entry_56()
    ensures
        large_entry_ok(56),
{
    assert(28055159667307558907 * pow2_by_words(634) <= 2 * pow10_by_tens(210)) by {
        reveal_with_fuel(pow10_by_tens, 45);
        reveal_with_fuel(pow2_by_words, 45);
        reveal_with_fuel(pow10_times_pow2, 45);
    }
    assert(2 * pow10_by_tens(210) <= 28055159667307558909 * pow2_by_words(634)) by {
        reveal_with_fuel(pow10_by_tens, 45);
        reveal_with_fuel(pow2_by_words, 45);
        reveal_with_fuel(pow10_times_pow2, 45);
    }
    assert(is_rounded_power10_by_tens(14027579833653779454, 634, 210));
}

#[verifier::spinoff_prover]
#[verifier::rlimit(50)]
proof fn lemma_large_entry_57()
    ensures
        large_entry_ok(57),
{
    assert(32660504415756509299 * pow2_by_words(667) <= 2 * pow10_by_tens(220)) by {
        reveal_with_fuel(pow10_by_tens, 45);
        reveal_with_fuel(pow2_by_words, 45);
        reveal_with_fuel(pow10_times_pow2, 45);
    }
    assert(2 * pow10_by_tens(220) <= 32660504415756509301 * pow2_by_words(667)) by {
        reveal_with_fuel(pow10_by_tens, 45);
        reveal_with_fuel(pow2_by_words, 45);
        reveal_with_fuel(pow10_times_pow2, 45);
    }
    assert(is_rounded_power10_by_tens(16330252207878254650, 667, 220));
}

#[verifier::spinoff_prover]
#[verifier::rlimit(50)]
proof fn lemma_large_entry_58()
    ensures
        large_entry_ok(58),
{
    assert(19010915662951598235 * pow2_by_words(701) <= 2 * pow10_by_tens(230)) by {
        reveal_with_fuel(pow10_by_tens, 45);
        reveal_with_fuel(pow2_by_words, 45);
        reveal_with_fuel(pow10_times_pow2, 45);
    }
    assert(2 * pow10_by_tens(230) <= 19010915662951598237 * pow2_by_words(701)) by {
        reveal_with_fuel(pow10_by_tens, 45);
        reveal_with_fuel(pow2_by_words, 45);
        reveal_with_fuel(pow10_times_pow2, 45);
    }
    assert(is_rounded_power10_by_tens(9505457831475799118, 701, 230));
}

#[verifier::spinoff_prover]
#[verifier::rlimit(50)]
proof fn lemma_large_entry_59()
    ensures
        large_entry_ok(59),
{
    assert(22131618651272261323 * pow2_by_words(734) <= 2 * pow10_by_tens(240)) by {
        reveal_with_fuel(pow10_by_tens, 45);
        reveal_with_fuel(pow2_by_words, 45);
        reveal_with_fuel(pow10_times_pow2, 45);
    }
    assert(2 * pow10_by_tens(240) <= 22131618651272261325 * pow2_by_words(734)) by {
        reveal_with_fuel(pow10_by_tens, 45);
        reveal_with_fuel(pow2_by_words, 45);
        reveal_with_fuel(pow10_times_pow2, 45);
    }
    assert(is_rounded_power10_by_tens(11065809325636130662, 734, 240));
}

#[verifier::spinoff_prover]
#[verifier::rlimit(50)]
proof fn lemma_large_entry_60()
    ensures
        large_entry_ok(60),
{
    assert(25764595078388533231 * pow2_by_words(767) <= 2 * pow10_by_tens(250)) by {
        reveal_with_fuel(pow10_by_tens, 45);
        reveal_with_fuel(pow2_by_words, 45);
        reveal_with_fuel(pow10_times_pow2, 45);
    }
    assert(2 * pow10_by_tens(250) <= 25764595078388533233 * pow2_by_words(767)) by {
        reveal_with_fuel(pow10_by_tens, 45);
        reveal_with_fuel(pow2_by_words, 45);
        reveal_with_fuel(pow10_times_pow2, 45);
    }
    assert(is_rounded_power10_by_tens(12882297539194266616, 767, 250));
}

#[verifier::spinoff_prover]
#[verifier::rlimit(50)]
proof fn lemma_large_entry_61()
    ensures
        large_entry_ok(61),
{
    assert(29993936277912619095 * pow2_by_words(800) <= 2 * pow10_by_tens(260)) by {
        reveal_with_fuel(pow10_by_tens, 45);
        reveal_with_fuel(pow2_by_words, 45);
        reveal_with_fuel(pow10_times_pow2, 45);
    }
    assert(2 * pow10_by_tens(260) <= 29993936277912619097 * pow2_by_words(800)) by {
        reveal_with_fuel(pow10_by_tens, 45);
        reveal_with_fuel(pow2_by_words, 45);
        reveal_with_fuel(pow10_times_pow2, 45);
    }
    assert(is_rounded_power10_by_tens(14996968138956309548, 800, 260));
}

#[verifier::spinoff_prover]
#[verifier::rlimit(50)]
proof fn lemma_large_entry_62()
    ensures
        large_entry_ok(62),
{
    assert(34917537446497728927 * pow2_by_words(833) <= 2 * pow10_by_tens(270)) by {
        reveal_with_fuel(pow10_by_tens, 45);
        reveal_with_fuel(pow2_by_words, 45);
        reveal_with_fuel(pow10_times_pow2, 45);
    }
    assert(2 * pow10_by_tens(270) <= 34917537446497728929 * pow2_by_words(833)) by {
        reveal_with_fuel(pow10_by_tens, 45);
        reveal_with_fuel(pow2_by_words, 45);
        reveal_with_fuel(pow10_times_pow2, 45);
    }
    assert(is_rounded_power10_by_tens(17458768723248864464, 833, 270));
}

#[verifier::spinoff_prover]
#[verifier::rlimit(50)]
proof fn lemma_large_entry_63()
    ensures
        large_entry_ok(63),
{
    assert(20324681796190403941 * pow2_by_words(867) <= 2 * pow10_by_tens(280)) by {
        reveal_with_fuel(pow10_by_tens, 45);
        reveal_with_fuel(pow2_by_words, 45);
        reveal_with_fuel(pow10_times_pow2, 45);
    }
    assert(2 * pow10_by_tens(280) <= 20324681796190403943 * pow2_by_words(867)) by {
        reveal_with_fuel(pow10_by_tens, 45);
        reveal_with_fuel(pow2_by_words, 45);
        reveal_with_fuel(pow10_times_pow2, 45);
    }
    assert(is_rounded_power10_by_tens(10162340898095201971, 867, 280));
}

#[verifier::spinoff_prover]
#[verifier::rlimit(50)]
proof fn lemma_large_entry_64()
    ensures
        large_entry_ok(64),
{
    assert(23661043723335494219 * pow2_by_words(900) <= 2 * pow10_by_tens(290)) by {
        reveal_with_fuel(pow10_by_tens, 45);
        reveal_with_fuel(pow2_by_words, 45);
        reveal_with_fuel(pow10_times_pow2, 45);
    }
    assert(2 * pow10_by_tens(290) <= 23661043723335494221 * pow2_by_words(900)) by {
        reveal_with_fuel(pow10_by_tens, 45);
        reveal_with_fuel(pow2_by_words, 45);
        reveal_with_fuel(pow10_times_pow2, 45);
    }
    assert(is_rounded_power10_by_tens(11830521861667747110, 900, 290));
}

#[verifier::spinoff_prover]
#[verifier::rlimit(50)]
proof fn lemma_large_entry_65()
    ensures
        large_entry_ok(65),
{
    assert(27545080198132775513 * pow2_by_words(933) <= 2 * pow10_by_tens(300)) by {
        reveal_with_fuel(pow10_by_tens, 45);
        reveal_with_fuel(pow2_by_words, 45);
        reveal_with_fuel(pow10_times_pow2, 45);
    }
    assert(2 * pow10_by_tens(300) <= 27545080198132775515 * pow2_by_words(933)) by {
        reveal_with_fuel(pow10_by_tens, 45);
        reveal_with_fuel(pow2_by_words, 45);
        reveal_with_fuel(pow10_times_pow2, 45);
    }
    assert(is_rounded_power10_by_tens(13772540099066387757, 933, 300));
}

#[verifier::spinoff_prover]
#[verifier::rlimit(50)]
proof fn lemma_small_entries()
    ensures
        forall|k: int| 0 <= k < 10 ==> small_entry_ok(k),
{
    assert(small_entries_from(0)) by {
        reveal_with_fuel(small_entries_from, 11);
        reveal_with_fuel(pow10_by_tens, 10);
        reveal_with_fuel(pow2_by_words, 20);
        reveal_with_fuel(pow10_times_pow2, 20);
    }
    lemma_small_entries_all(0);
}

proof fn lemma_small_entries_all(i: nat)
    requires
        small_entries_from(i),
    ensures
        forall|k: int| i <= k < 10 ==> small_entry_ok(k),
    decreases 10 - i,
{
    if i < 10 {
        lemma_small_entries_all(i + 1);
    }
}

/// The base-ten tables are well formed and hold the powers of ten that their
/// indices name.
pub proof fn lemma_base10_table(t: &ModeratePathPowers)
    requires
        is_base10_table(t),
    ensures
        t.wf(),
        t.approximates_powers_of(10),
{
    lemma_large_entry_0();
    lemma_large_entry_1();
    lemma_large_entry_2();
    lemma_large_entry_3();
    lemma_large_entry_4();
    lemma_large_entry_5();
    lemma_large_entry_6();
    lemma_large_entry_7();
    lemma_large_entry_8();
    lemma_large_entry_9();
    lemma_large_entry_10();
    lemma_large_entry_11();
    lemma_large_entry_12();
    lemma_large_entry_13();
    lemma_large_entry_14();
    lemma_large_entry_15();
    lemma_large_entry_16();
    lemma_large_entry_17();
    lemma_large_entry_18();
    lemma_large_entry_19();
    lemma_large_entry_20();
    lemma_large_entry_21();
    lemma_large_entry_22();
    lemma_large_entry_23();
    lemma_large_entry_24();
    lemma_large_entry_25();
    lemma_large_entry_26();
    lemma_large_entry_27();
    lemma_large_entry_28();
    lemma_large_entry_29();
    lemma_large_entry_30();
    lemma_large_entry_31();
    lemma_large_entry_32();
    lemma_large_entry_33();
    lemma_large_entry_34();
    lemma_large_entry_35();
    lemma_large_entry_36();
    lemma_large_entry_37();
    lemma_large_entry_38();
    lemma_large_entry_39();
    lemma_large_entry_40();
    lemma_large_entry_41();
    lemma_large_entry_42();
    lemma_large_entry_43();
    lemma_large_entry_44();
    lemma_large_entry_45();
    lemma_large_entry_46();
    lemma_large_entry_47();
    lemma_large_entry_48();
    lemma_large_entry_49();
    lemma_large_entry_50();
    lemma_large_entry_51();
    lemma_large_entry_52();
    lemma_large_entry_53();
    lemma_large_entry_54();
    lemma_large_entry_55();
    lemma_large_entry_56();
    lemma_large_entry_57();
    lemma_large_entry_58();
    lemma_large_entry_59();
    lemma_large_entry_60();
    lemma_large_entry_61();
    lemma_large_entry_62();
    lemma_large_entry_63();
    lemma_large_entry_64();
    lemma_large_entry_65();
    lemma_small_entries();
    assert forall|j: int| 0 <= j < t.large.spec_len() implies is_rounded_power(
        t.large.mant@[j] as int,
        t.large.exp@[j] as int,
        10,
        t.large_power(j),
    ) by {
        assert(large_entry_ok(j));
        lemma_power10_by_tens(t.large.mant@[j] as int, t.large.exp@[j] as int, (j - 35) * 10);
    }
    assert forall|j: int| 0 <= j < t.large.spec_len() implies {
        &&& (#[trigger] t.large.spec_at(j)).is_normalized()
        &&& t.large.spec_at(j).has_bounded_exp()
    } by {
        assert(large_entry_ok(j));
    }
    assert forall|i: int| 0 <= i < t.step implies #[trigger] t.small_int@[i] == pow(
        10,
        i as nat,
    ) by {
        assert(small_entry_ok(i));
        lemma_pow10_by_tens(i as nat);
    }
    assert forall|i: int| 0 <= i < t.step implies is_exact_power(
        t.small.mant@[i] as int,
        t.small.exp@[i] as int,
        10,
        i,
    ) by {
        assert(small_entry_ok(i));
        lemma_power10_by_tens(t.small.mant@[i] as int, t.small.exp@[i] as int, i);
    }
    assert forall|i: int| 0 <= i < t.small.spec_len() implies {
        &&& (#[trigger] t.small.spec_at(i)).is_normalized()
        &&& t.small.spec_at(i).has_bounded_exp()
    } by {
        assert(small_entry_ok(i));
    }
}

} // verus!
