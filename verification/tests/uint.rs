use engine_core::types::uint::{Wide, U256, U512};

#[test]
fn from_u64_round_trips_through_limbs() {
    let v = U512::from_u64(42);
    assert_eq!(v.limbs(), [42, 0, 0, 0, 0, 0, 0, 0]);
    assert!(!v.is_zero());
    assert!(U512::zero().is_zero());
}

#[test]
fn from_u128_splits_into_two_limbs() {
    let v = U512::from_u128((7u128 << 64) + 9);
    assert_eq!(v.limbs(), [9, 7, 0, 0, 0, 0, 0, 0]);
}

#[test]
fn a_narrow_type_keeps_what_it_can_hold() {
    assert_eq!(Wide::<1>::from_u128((7u128 << 64) + 9).limbs(), [9]);
    assert_eq!(Wide::<1>::from_u64(5).limbs(), [5]);
    assert!(Wide::<0>::from_u64(5).is_zero());
    assert!(Wide::<0>::from_u128(5).is_zero());
}

#[test]
fn add_carries_across_limbs() {
    let a = U512::from_u64(u64::MAX);
    let b = U512::from_u64(1);
    let (sum, over) = a.overflowing_add(&b);
    assert_eq!(sum.limbs(), [0, 1, 0, 0, 0, 0, 0, 0]);
    assert!(!over);
    assert_eq!(a.checked_add(&b), Some(sum));
}

#[test]
fn add_wraps_at_the_width() {
    let max = U256::from_limbs([u64::MAX; 4]);
    let one = U256::from_u64(1);
    let (sum, over) = max.overflowing_add(&one);
    assert!(sum.is_zero());
    assert!(over);
    assert_eq!(max.checked_add(&one), None);
    assert_eq!(max.wrapping_add(&U256::from_u64(5)), U256::from_u64(4));
}

#[test]
fn sub_borrows_across_limbs() {
    let a = U512::from_limbs([0, 1, 0, 0, 0, 0, 0, 0]);
    let b = U512::from_u64(1);
    assert_eq!(a.checked_sub(&b), Some(U512::from_u64(u64::MAX)));
    assert_eq!(b.checked_sub(&a), None);
    let (diff, under) = U512::zero().overflowing_sub(&b);
    assert_eq!(diff.limbs(), [u64::MAX; 8]);
    assert!(under);
}

#[test]
fn order_goes_by_the_highest_limb_that_differs() {
    let a = U512::from_limbs([5, 1, 0, 0, 0, 0, 0, 0]);
    let b = U512::from_limbs([0, 2, 0, 0, 0, 0, 0, 0]);
    assert!(a.lt(&b));
    assert!(!b.lt(&a));
    assert!(a.le(&a));
    assert!(!a.lt(&a));
    assert!(a.same(&a));
    assert!(!a.same(&b));
}

#[test]
fn div_u64_divides_across_limbs() {
    // 2^64 / 10 = 1844674407370955161 remainder 6
    let a = U512::from_limbs([0, 1, 0, 0, 0, 0, 0, 0]);
    assert_eq!(a.div_u64(10), U512::from_u64(1844674407370955161));
    assert_eq!(U512::from_u64(10_000_000).div_u64(10), U512::from_u64(1_000_000));
    assert_eq!(U512::from_u64(9).div_u64(10), U512::zero());
}

#[test]
fn mul_u64_carries_and_reports_overflow() {
    let a = U512::from_u64(u64::MAX);
    assert_eq!(a.checked_mul_u64(2), Some(U512::from_limbs([u64::MAX - 1, 1, 0, 0, 0, 0, 0, 0])));
    let max = U512::from_limbs([u64::MAX; 8]);
    assert_eq!(max.checked_mul_u64(2), None);
    assert_eq!(max.checked_mul_u64(1), Some(max));
    let (low, high) = max.overflowing_mul_u64(2);
    assert_eq!(low.limbs(), [u64::MAX - 1, u64::MAX, u64::MAX, u64::MAX, u64::MAX, u64::MAX, u64::MAX, u64::MAX]);
    assert_eq!(high, 1);
}
