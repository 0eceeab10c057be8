//! Precomputed powers of ten as normalized extended-precision floats.
//!
//! Large entry `j` is `10^((j - 35) * 10)` with its 64-bit mantissa rounded to
//! nearest; small entry `i` is `10^i` exactly. The large entries span `10^-350` to
//! `10^300`, which with the small ones covers every exponent that an IEEE double
//! conversion with a 64-bit mantissa needs.

use vstd::prelude::*;
use crate::cached::{ExtendedFloatArray, ModeratePathPowers};
use crate::base10_proofs::lemma_base10_table;

verus! {

pub const BASE10_SMALL_MANTISSA: [u64; 10] = [
    9223372036854775808,      // 10^0
    11529215046068469760,     // 10^1
    14411518807585587200,     // 10^2
    18014398509481984000,     // 10^3
    11258999068426240000,     // 10^4
    14073748835532800000,     // 10^5
    17592186044416000000,     // 10^6
    10995116277760000000,     // 10^7
    13743895347200000000,     // 10^8
    17179869184000000000,     // 10^9
];

pub const BASE10_SMALL_EXPONENT: [i32; 10] = [
    -63,                      // 10^0
    -60,                      // 10^1
    -57,                      // 10^2
    -54,                      // 10^3
    -50,                      // 10^4
    -47,                      // 10^5
    -44,                      // 10^6
    -40,                      // 10^7
    -37,                      // 10^8
    -34,                      // 10^9
];

pub const BASE10_LARGE_MANTISSA: [u64; 66] = [
    11555125961253852698,     // 10^-350
    13451937075301367670,     // 10^-340
    15660115838168849785,     // 10^-330
    18230774251475056849,     // 10^-320
    10611707258198326947,     // 10^-310
    12353653155963782858,     // 10^-300
    14381545078898527262,     // 10^-290
    16742321987285426890,     // 10^-280
    9745314011399999080,      // 10^-270
    11345038669416679861,     // 10^-260
    13207363278391631159,     // 10^-250
    15375394465392026071,     // 10^-240
    17899314949046850753,     // 10^-230
    10418772551374772303,     // 10^-220
    12129047596099288556,     // 10^-210
    14120069793541087485,     // 10^-200
    16437924692338667210,     // 10^-190
    9568131466127621947,      // 10^-180
    11138771039116687546,     // 10^-170
    12967236152753102995,     // 10^-160
    15095849699286165409,     // 10^-150
    17573882009934360870,     // 10^-140
    10229345649675443344,     // 10^-130
    11908525658859223295,     // 10^-120
    13863348470604074298,     // 10^-110
    16139061738043178685,     // 10^-100
    9394170331095332912,      // 10^-90
    10936253623915059622,     // 10^-80
    12731474852090538039,     // 10^-70
    14821387422376473014,     // 10^-60
    17254365866976409469,     // 10^-50
    10043362776618689222,     // 10^-40
    11692013098647223346,     // 10^-30
    13611294676837538539,     // 10^-20
    15845632502852867519,     // 10^-10
    9223372036854775808,      // 10^0
    10737418240000000000,     // 10^10
    12500000000000000000,     // 10^20
    14551915228366851807,     // 10^30
    16940658945086006781,     // 10^40
    9860761315262647568,      // 10^50
    11479437019748901445,     // 10^60
    13363823550460978231,     // 10^70
    15557538194652854268,     // 10^80
    18111358157653424735,     // 10^90
    10542197943230523224,     // 10^100
    12272733663244316383,     // 10^110
    14287342391028437278,     // 10^120
    16632655625031838750,     // 10^130
    9681479787123295682,      // 10^140
    11270725851789228248,     // 10^150
    13120851772591970218,     // 10^160
    15274681817498023410,     // 10^170
    17782069995880619868,     // 10^180
    10350527006597618961,     // 10^190
    12049599325514420589,     // 10^200
    14027579833653779454,     // 10^210
    16330252207878254650,     // 10^220
    9505457831475799118,      // 10^230
    11065809325636130662,     // 10^240
    12882297539194266616,     // 10^250
    14996968138956309548,     // 10^260
    17458768723248864464,     // 10^270
    10162340898095201971,     // 10^280
    11830521861667747110,     // 10^290
    13772540099066387757,     // 10^300
];

pub const BASE10_LARGE_EXPONENT: [i32; 66] = [
    -1226,                    // 10^-350
    -1193,                    // 10^-340
    -1160,                    // 10^-330
    -1127,                    // 10^-320
    -1093,                    // 10^-310
    -1060,                    // 10^-300
    -1027,                    // 10^-290
    -994,                     // 10^-280
    -960,                     // 10^-270
    -927,                     // 10^-260
    -894,                     // 10^-250
    -861,                     // 10^-240
    -828,                     // 10^-230
    -794,                     // 10^-220
    -761,                     // 10^-210
    -728,                     // 10^-200
    -695,                     // 10^-190
    -661,                     // 10^-180
    -628,                     // 10^-170
    -595,                     // 10^-160
    -562,                     // 10^-150
    -529,                     // 10^-140
    -495,                     // 10^-130
    -462,                     // 10^-120
    -429,                     // 10^-110
    -396,                     // 10^-100
    -362,                     // 10^-90
    -329,                     // 10^-80
    -296,                     // 10^-70
    -263,                     // 10^-60
    -230,                     // 10^-50
    -196,                     // 10^-40
    -163,                     // 10^-30
    -130,                     // 10^-20
    -97,                      // 10^-10
    -63,                      // 10^0
    -30,                      // 10^10
    3,                        // 10^20
    36,                       // 10^30
    69,                       // 10^40
    103,                      // 10^50
    136,                      // 10^60
    169,                      // 10^70
    202,                      // 10^80
    235,                      // 10^90
    269,                      // 10^100
    302,                      // 10^110
    335,                      // 10^120
    368,                      // 10^130
    402,                      // 10^140
    435,                      // 10^150
    468,                      // 10^160
    501,                      // 10^170
    534,                      // 10^180
    568,                      // 10^190
    601,                      // 10^200
    634,                      // 10^210
    667,                      // 10^220
    701,                      // 10^230
    734,                      // 10^240
    767,                      // 10^250
    800,                      // 10^260
    833,                      // 10^270
    867,                      // 10^280
    900,                      // 10^290
    933,                      // 10^300
];

pub const BASE10_SMALL_INT_POWERS: [u64; 10] = [
    1,
    10,
    100,
    1000,
    10000,
    100000,
    1000000,
    10000000,
    100000000,
    1000000000,
];

pub const BASE10_STEP: i32 = 10;

pub const BASE10_BIAS: i32 = 35;

/// `t` holds exactly the tables above.
pub open spec fn is_base10_table(t: &ModeratePathPowers) -> bool {
    &&& t.small.mant@ == BASE10_SMALL_MANTISSA@
    &&& t.small.exp@ == BASE10_SMALL_EXPONENT@
    &&& t.large.mant@ == BASE10_LARGE_MANTISSA@
    &&& t.large.exp@ == BASE10_LARGE_EXPONENT@
    &&& t.small_int@ == BASE10_SMALL_INT_POWERS@
    &&& t.step == BASE10_STEP
    &&& t.bias == BASE10_BIAS
}

/// `t` is the table set that `get_powers(base)` hands out.
pub open spec fn is_table_for(t: &ModeratePathPowers, base: int) -> bool {
    base == 10 && is_base10_table(t)
}

/// The table set for `base`, or `None` where the base has none.
pub fn get_powers(base: u32) -> (r: Option<ModeratePathPowers>)
    ensures
        r is Some <==> base == 10,
        r matches Some(t) ==> {
            &&& is_table_for(&t, base as int)
            &&& t.wf()
            &&& t.approximates_powers_of(base as int)
        },
{
    if base == 10 {
        let t = ModeratePathPowers {
            small: ExtendedFloatArray { mant: &BASE10_SMALL_MANTISSA, exp: &BASE10_SMALL_EXPONENT },
            large: ExtendedFloatArray { mant: &BASE10_LARGE_MANTISSA, exp: &BASE10_LARGE_EXPONENT },
            small_int: &BASE10_SMALL_INT_POWERS,
            step: BASE10_STEP,
            bias: BASE10_BIAS,
        };
        proof {
            lemma_base10_table(&t);
        }
        Some(t)
    } else {
        None
    }
}

} // verus!
