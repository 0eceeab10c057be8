use cached_powers::base10::get_powers;
use cached_powers::cached::{multiply, ExtendedFloat, ModeratePathPowers};

fn powers() -> ModeratePathPowers {
    get_powers(10).unwrap()
}

fn power(e: i32) -> (u64, i32, bool) {
    let (f, exact) = powers().get_power(e).unwrap();
    (f.mant, f.exp, exact)
}

#[test]
fn only_base_ten_has_tables() {
    assert!(get_powers(10).is_some());
    assert!(get_powers(2).is_none());
    assert!(get_powers(16).is_none());
    assert!(get_powers(0).is_none());
}

#[test]
fn table_shape() {
    let p = powers();
    assert_eq!(p.step, 10);
    assert_eq!(p.bias, 35);
    assert_eq!(p.small.len(), 10);
    assert_eq!(p.large.len(), 66);
    assert_eq!(p.small_int.len(), 10);
}

#[test]
fn power_zero() {
    assert_eq!(power(0), (9223372036854775808, -63, true));
}

#[test]
fn power_nine() {
    assert_eq!(power(9), (17179869184000000000, -34, true));
    assert_eq!(powers().small_int[9], 1000000000);
}

#[test]
fn power_twenty_is_large_entry() {
    let p = powers();
    let e = p.large.at((p.bias + 2) as usize);
    assert_eq!((e.mant, e.exp), (12500000000000000000, 3));
    assert_eq!(power(20), (12500000000000000000, 3, false));
}

#[test]
fn power_most_negative() {
    assert_eq!(power(-350), (11555125961253852698, -1226, false));
    let p = powers();
    let first = p.large.at(0);
    assert_eq!((first.mant, first.exp), (11555125961253852698, -1226));
}

#[test]
fn power_composed() {
    assert_eq!(power(305), (10507614211323843198, 950, false));
    assert_eq!(power(-1), (14757395258967641293, -67, false));
    assert_eq!(power(-343), (13774783565108600494, -1203, false));
    assert_eq!(power(15), (16384000000000000000, -14, false));
    assert_eq!(power(309), (12826677504057425779, 963, false));
    assert_eq!(power(10), (10737418240000000000, -30, false));
}

#[test]
fn boundaries() {
    let p = powers();
    assert!(p.get_power(-351).is_none());
    assert!(p.get_power(310).is_none());
    assert!(p.get_power(-350).is_some());
    assert!(p.get_power(309).is_some());
    assert!(p.get_power(i32::MIN).is_none());
    assert!(p.get_power(i32::MAX).is_none());
}

#[test]
fn large_entry_rounded_to_nearest() {
    let p = powers();
    let e = p.large.at(34);
    assert_eq!((e.mant, e.exp), (15845632502852867519, -97));
    let e = p.large.at(65);
    assert_eq!((e.mant, e.exp), (13772540099066387757, 933));
}

#[test]
fn every_entry_normalized() {
    let p = powers();
    for i in 0..p.small.len() {
        assert!(p.small.at(i).mant >= 1u64 << 63);
    }
    for j in 0..p.large.len() {
        assert!(p.large.at(j).mant >= 1u64 << 63);
    }
}

#[test]
fn large_exponents_increase() {
    let p = powers();
    for j in 1..p.large.len() {
        assert!(p.large.at(j - 1).exp < p.large.at(j).exp);
    }
}

#[test]
fn small_powers_exact() {
    let p = powers();
    let mut want: u64 = 1;
    for i in 0..p.small.len() {
        assert_eq!(p.small_int[i], want);
        let f = p.small.at(i);
        assert!(f.exp < 0);
        assert_eq!(f.mant >> (-f.exp), want);
        assert_eq!(f.mant & ((1u64 << (-f.exp)) - 1), 0);
        want *= 10;
    }
}

#[test]
fn composed_error_within_three_units() {
    let p = powers();
    let mut ten: u128 = 100000000000000000000;
    for e in 20..=38 {
        let (f, exact) = p.get_power(e).unwrap();
        assert!(!exact);
        assert!(f.exp >= 0);
        let low = ((f.mant as u128) - 3) << f.exp;
        let high = ((f.mant as u128) + 3) << f.exp;
        assert!(low < ten && ten < high);
        if e < 38 {
            ten *= 10;
        }
    }
}

#[test]
fn multiply_small_entries() {
    let p = powers();
    let ten = p.small.at(1);
    let r = multiply(ten, ten);
    assert_eq!(r, ExtendedFloat { mant: 14411518807585587200, exp: -57 });
    let r = multiply(p.small.at(3), p.small.at(4));
    assert_eq!(r, ExtendedFloat { mant: 10995116277760000000, exp: -40 });
}
