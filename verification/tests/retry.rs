use foodpanda_etl::utils::math::ceil_div_u64;
use foodpanda_etl::utils::retry::{
    Jitter, RetryPolicy, AUXILIARY_MAX_ATTEMPTS, DEFAULT_BASE_DELAY_MS, DEFAULT_JITTER_MS,
    DEFAULT_MAX_ATTEMPTS,
};
use foodpanda_etl::utils::time::{delay_with_jitter, jittered_delay};

#[test]
fn standard_policy_has_the_default_numbers() {
    let policy = RetryPolicy::standard();
    assert_eq!(policy.max_attempts, 3);
    assert_eq!(policy.base_delay_ms, 1000);
    assert_eq!(policy.jitter, Jitter::HalfOfPause);
    assert_eq!(DEFAULT_MAX_ATTEMPTS, 3);
    assert_eq!(DEFAULT_BASE_DELAY_MS, 1000);
    assert_eq!(DEFAULT_JITTER_MS, 1000);
    let rotating = RetryPolicy::rotating();
    assert_eq!(rotating.max_attempts, 3);
    assert_eq!(rotating.base_delay_ms, 1000);
    assert_eq!(rotating.jitter, Jitter::UpTo(1000));
    let auxiliary = RetryPolicy::auxiliary();
    assert_eq!(auxiliary.max_attempts, AUXILIARY_MAX_ATTEMPTS);
    assert_eq!(auxiliary.max_attempts, 2);
    assert_eq!(auxiliary.base_delay_ms, 1000);
    assert_eq!(auxiliary.jitter, Jitter::HalfOfPause);
}

#[test]
fn jitter_is_bounded_by_a_fixed_number_or_by_half_the_pause() {
    assert_eq!(Jitter::UpTo(1000).bound_for(0), 1000);
    assert_eq!(Jitter::UpTo(1000).bound_for(16000), 1000);
    assert_eq!(Jitter::UpTo(0).bound_for(u64::MAX), 0);
    assert_eq!(Jitter::HalfOfPause.bound_for(0), 0);
    assert_eq!(Jitter::HalfOfPause.bound_for(1), 0);
    assert_eq!(Jitter::HalfOfPause.bound_for(1000), 500);
    assert_eq!(Jitter::HalfOfPause.bound_for(2001), 1000);
    assert_eq!(Jitter::HalfOfPause.bound_for(u64::MAX), u64::MAX / 2);
}

#[test]
fn policy_with_half_pause_jitter_needs_room_for_one_and_a_half_pauses() {
    let third = u64::MAX / 3;
    assert!(RetryPolicy::new(2, 2 * third, Jitter::HalfOfPause).is_some());
    assert!(RetryPolicy::new(2, 2 * third + 2, Jitter::HalfOfPause).is_none());
    assert!(RetryPolicy::new(3, third, Jitter::HalfOfPause).is_some());
    assert!(RetryPolicy::new(3, third + 1, Jitter::HalfOfPause).is_none());
    assert!(RetryPolicy::new(1, u64::MAX, Jitter::HalfOfPause).is_some());
    assert!(RetryPolicy::new(0, 1, Jitter::HalfOfPause).is_none());
    assert!(RetryPolicy::new(64, 1, Jitter::HalfOfPause).is_some());
    assert!(RetryPolicy::new(65, 1, Jitter::HalfOfPause).is_some());
    assert!(RetryPolicy::new(66, 1, Jitter::HalfOfPause).is_none());
}

#[test]
fn pause_before_attempt_k_is_base_times_two_to_k_minus_two() {
    let policy = RetryPolicy::new(6, 1000, Jitter::UpTo(0)).unwrap();
    assert_eq!(policy.delay_before(2), 1000);
    assert_eq!(policy.delay_before(3), 2000);
    assert_eq!(policy.delay_before(4), 4000);
    assert_eq!(policy.delay_before(5), 8000);
    assert_eq!(policy.delay_before(6), 16000);
    let other = RetryPolicy::new(3, 2000, Jitter::UpTo(500)).unwrap();
    assert_eq!(other.delay_before(2), 2000);
    assert_eq!(other.delay_before(3), 4000);
}

#[test]
fn after_failure_pauses_until_the_cap() {
    let policy = RetryPolicy::standard();
    assert_eq!(policy.after_failure(1), Some(1000));
    assert_eq!(policy.after_failure(2), Some(2000));
    assert_eq!(policy.after_failure(3), None);
    let single = RetryPolicy::new(1, 1000, Jitter::UpTo(1000)).unwrap();
    assert_eq!(single.after_failure(1), None);
}

#[test]
fn policy_needs_an_attempt_and_pauses_that_fit() {
    assert!(RetryPolicy::new(0, 1000, Jitter::UpTo(1000)).is_none());
    assert!(RetryPolicy::new(1, u64::MAX, Jitter::UpTo(u64::MAX)).is_some());
    assert!(RetryPolicy::new(2, u64::MAX, Jitter::UpTo(0)).is_some());
    assert!(RetryPolicy::new(2, u64::MAX, Jitter::UpTo(1)).is_none());
    assert!(RetryPolicy::new(3, u64::MAX, Jitter::UpTo(0)).is_none());
    assert!(RetryPolicy::new(66, 1, Jitter::UpTo(0)).is_none());
    assert!(RetryPolicy::new(65, 1, Jitter::UpTo(0)).is_some());
    assert!(RetryPolicy::new(65, 1, Jitter::UpTo(u64::MAX / 2 + 1)).is_none());
    assert!(RetryPolicy::new(u32::MAX, 0, Jitter::UpTo(u64::MAX)).is_some());
    let wide = RetryPolicy::new(65, 1, Jitter::UpTo(0)).unwrap();
    assert_eq!(wide.delay_before(65), 1u64 << 63);
}

#[test]
fn jitter_stays_within_its_bound() {
    let mut smallest = u64::MAX;
    let mut largest = 0;
    for _ in 0..2000 {
        let delay = jittered_delay(1500, 1000);
        assert!(delay >= 1500);
        assert!(delay <= 2500);
        smallest = smallest.min(delay);
        largest = largest.max(delay);
    }
    assert!(smallest < largest);
    assert_eq!(jittered_delay(800, 0), 800);
    assert_eq!(jittered_delay(u64::MAX, 0), u64::MAX);
}

#[test]
fn drawn_jitter_is_added_and_cut_to_the_bound() {
    assert_eq!(delay_with_jitter(2000, 1000, 0), 2000);
    assert_eq!(delay_with_jitter(2000, 1000, 250), 2250);
    assert_eq!(delay_with_jitter(2000, 1000, 1000), 3000);
    assert_eq!(delay_with_jitter(2000, 1000, 1001), 3000);
}

#[test]
fn quotient_is_rounded_up() {
    assert_eq!(ceil_div_u64(100, 48), 3);
    assert_eq!(ceil_div_u64(96, 48), 2);
    assert_eq!(ceil_div_u64(97, 48), 3);
    assert_eq!(ceil_div_u64(0, 48), 0);
    assert_eq!(ceil_div_u64(1, 48), 1);
    assert_eq!(ceil_div_u64(u64::MAX, 1), u64::MAX);
    assert_eq!(ceil_div_u64(u64::MAX, 2), 1u64 << 63);
    assert_eq!(ceil_div_u64(u64::MAX, u64::MAX), 1);
}

#[test]
fn policies_made_by_hand_are_checked() {
    assert!(RetryPolicy { max_attempts: 3, base_delay_ms: 1000, jitter: Jitter::UpTo(1000) }.is_valid());
    assert!(!RetryPolicy { max_attempts: 0, base_delay_ms: 1000, jitter: Jitter::UpTo(1000) }.is_valid());
    assert!(!RetryPolicy { max_attempts: 3, base_delay_ms: u64::MAX, jitter: Jitter::UpTo(0) }.is_valid());
}
