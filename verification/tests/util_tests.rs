use rusty_rockit::util::{align2, gcd, RatioU32};

#[test]
fn gcd_of_common_multiples() {
    assert_eq!(gcd(12, 18), 6);
    assert_eq!(gcd(18, 12), 6);
    assert_eq!(gcd(17, 5), 1);
    assert_eq!(gcd(1920, 1080), 120);
}

#[test]
fn gcd_with_zero() {
    assert_eq!(gcd(0, 5), 5);
    assert_eq!(gcd(5, 0), 5);
    assert_eq!(gcd(0, 0), 0);
}

#[test]
fn align2_rounds_up_to_even() {
    assert_eq!(align2(0), 0);
    assert_eq!(align2(1), 2);
    assert_eq!(align2(2), 2);
    assert_eq!(align2(7), 8);
    assert_eq!(align2(1081), 1082);
    assert_eq!(align2(u32::MAX - 1), u32::MAX - 1);
}

#[test]
fn ratio_ceil_rounds_up() {
    assert_eq!(RatioU32::new(7, 2).ceil(), 4);
    assert_eq!(RatioU32::new(6, 3).ceil(), 2);
    assert_eq!(RatioU32::new(0, 5).ceil(), 0);
    assert_eq!(RatioU32::new(1, 3).ceil(), 1);
    assert_eq!(RatioU32::new(u32::MAX, 2).ceil(), u32::MAX / 2 + 1);
}

#[test]
fn ratio_from_integer() {
    assert_eq!(RatioU32::from(5).ceil(), 5);
    assert_eq!(RatioU32::from(0).ceil(), 0);
}

#[test]
fn ratio_times_integer() {
    // 3/4 * 6 = 18/4 = 4.5
    assert_eq!((RatioU32::new(3, 4) * 6).ceil(), 5);
    // 3/4 * 2 = 3/2
    assert_eq!((RatioU32::new(3, 4) * 2).ceil(), 2);
    // 3/2 * 1920 = 2880
    assert_eq!((RatioU32::new(3, 2) * 1920).ceil(), 2880);
    // anything times 0 is 0
    assert_eq!((RatioU32::new(1, 3) * 0).ceil(), 0);
}

#[test]
fn ratio_times_cancels_common_factor() {
    // 3/2 * 4_000_000_000 would not fit before cancelling: 3 * 2_000_000_000 / 1
    assert_eq!((RatioU32::new(1, 2) * 4_000_000_000).ceil(), 2_000_000_000);
}
