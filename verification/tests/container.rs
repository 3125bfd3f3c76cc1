use maf_core::container::activity::{
    initial_word, record_activity_transition, stop_if_inactive_transition, stop_transition,
    word_is_stopped, word_last_activity, ActivityState, ACTIVITY_MASK, STOPPED_BIT,
};
use maf_core::container::keys::{AddKeyError, AdditionalKeys, MAX_ADDITIONAL_KEYS};
use maf_core::container::limits::{
    ContainerResourceLimit, ContainerResourceLimiter, ContainerResourceStats,
};

fn now_as_secs() -> u64 {
    std::time::SystemTime::now()
        .duration_since(std::time::UNIX_EPOCH)
        .expect("clock before the epoch")
        .as_secs()
}

#[test]
fn activity_state_ignores_updates_after_stop() {
    let mut activity = ActivityState::new(10);

    assert!(activity.record_activity(12));
    assert_eq!(activity.last_activity(), 12);

    activity.stop();

    assert!(activity.is_stopped());
    assert!(!activity.record_activity(15));
    assert_eq!(activity.last_activity(), 12);
}

#[test]
fn activity_state_can_stop_without_losing_last_activity() {
    let mut activity = ActivityState::new(now_as_secs());

    let before = activity.last_activity();
    activity.stop();

    assert!(activity.is_stopped());
    assert_eq!(activity.last_activity(), before);
}

#[test]
fn stop_if_inactive_only_stops_after_timeout() {
    let mut activity = ActivityState::new(100);

    assert!(!activity.stop_if_inactive(120, 30));
    assert!(!activity.is_stopped());

    assert!(activity.stop_if_inactive(131, 30));
    assert!(activity.is_stopped());
}

#[test]
fn new_activity_state_is_running_at_creation_time() {
    let activity = ActivityState::new(42);
    assert!(!activity.is_stopped());
    assert_eq!(activity.last_activity(), 42);
}

#[test]
fn stop_if_inactive_stops_once_idle_for_the_whole_timeout() {
    let mut activity = ActivityState::new(100);
    assert!(!activity.stop_if_inactive(129, 30));
    assert!(!activity.is_stopped());
    assert!(activity.stop_if_inactive(130, 30));
    assert!(activity.is_stopped());
    assert_eq!(activity.last_activity(), 100);
}

#[test]
fn stop_if_inactive_with_clock_behind_counts_no_idle_time() {
    let mut activity = ActivityState::new(500);
    assert!(!activity.stop_if_inactive(10, 1));
    assert!(!activity.is_stopped());
    assert!(activity.stop_if_inactive(10, 0));
    assert!(activity.is_stopped());
}

#[test]
fn stop_if_inactive_on_stopped_state_reports_nothing() {
    let mut activity = ActivityState::new(0);
    activity.stop();
    assert!(!activity.stop_if_inactive(1000, 1));
    assert!(activity.is_stopped());
    assert_eq!(activity.last_activity(), 0);
}

#[test]
fn stopping_twice_stays_stopped() {
    let mut activity = ActivityState::new(7);
    activity.stop();
    activity.stop();
    assert!(activity.is_stopped());
    assert_eq!(activity.last_activity(), 7);
}

#[test]
fn recording_activity_moves_timestamp_backwards_too() {
    let mut activity = ActivityState::new(100);
    assert!(activity.record_activity(50));
    assert_eq!(activity.last_activity(), 50);
}

#[test]
fn timestamps_keep_their_low_63_bits() {
    let activity = ActivityState::new(u64::MAX);
    assert!(!activity.is_stopped());
    assert_eq!(activity.last_activity(), u64::MAX & ACTIVITY_MASK);
}

#[test]
fn word_transitions_match_the_state_methods() {
    let word = initial_word(100);
    assert_eq!(word, 100);
    assert!(!word_is_stopped(word));
    assert_eq!(word_last_activity(word), 100);

    assert_eq!(stop_if_inactive_transition(word, 120, 30), None);
    let recorded = record_activity_transition(word, 125).unwrap();
    assert_eq!(word_last_activity(recorded), 125);

    let stopped = stop_if_inactive_transition(recorded, 200, 30).unwrap();
    assert_eq!(stopped, STOPPED_BIT | 125);
    assert!(word_is_stopped(stopped));
    assert_eq!(word_last_activity(stopped), 125);

    assert_eq!(record_activity_transition(stopped, 300), None);
    assert_eq!(stop_transition(stopped), stopped);
    assert_eq!(stop_transition(word), STOPPED_BIT | 100);
}

#[test]
fn additional_keys_admit_one_valid_key() {
    let mut keys = AdditionalKeys::new();
    assert_eq!(keys.count(), 0);
    assert_eq!(keys.accept_key(""), Err(AddKeyError::InvalidKey));
    assert_eq!(keys.count(), 0);
    let long_key = "k".repeat(129);
    assert_eq!(keys.accept_key(&long_key), Err(AddKeyError::InvalidKey));
    let longest_key = "k".repeat(128);
    assert_eq!(keys.accept_key(&longest_key), Ok(()));
    assert_eq!(keys.count(), MAX_ADDITIONAL_KEYS);
    assert_eq!(keys.accept_key("second"), Err(AddKeyError::MaxKeysReached));
    assert_eq!(keys.count(), 1);
}

#[test]
fn additional_key_length_counts_bytes() {
    let mut keys = AdditionalKeys::new();
    // 65 two-byte characters: 130 bytes.
    let key = "é".repeat(65);
    assert_eq!(keys.accept_key(&key), Err(AddKeyError::InvalidKey));
    let key = "é".repeat(64);
    assert_eq!(keys.accept_key(&key), Ok(()));
}

#[test]
fn small_default_limits() {
    let limit = ContainerResourceLimit::small_defaults();
    assert_eq!(limit.memory, 10 * 1024 * 1024);
    assert_eq!(limit.table, 10_000);
}

#[test]
fn limiter_grants_growth_up_to_the_limit() {
    let mut limiter = ContainerResourceLimiter::new(
        ContainerResourceStats::default(),
        ContainerResourceLimit { memory: 1000, table: 10 },
    );
    assert!(limiter.memory_growing(0, 1000, None));
    assert_eq!(limiter.stats.memory_usage, 1000);
    assert!(!limiter.memory_growing(1000, 1001, Some(5000)));
    assert_eq!(limiter.stats.memory_usage, 1000);

    assert!(limiter.table_growing(0, 10, None));
    assert_eq!(limiter.stats.table_usage, 10);
    assert!(!limiter.table_growing(10, 11, None));
    assert_eq!(limiter.stats.table_usage, 10);
}
