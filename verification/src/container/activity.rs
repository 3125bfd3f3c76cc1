//! Tracking for container activity. This is used to determine when a container has been idle for
//! long enough to be stopped.
//!
//! The state is a single 64-bit word: the top bit marks the container as stopped, the remaining
//! bits store the last activity timestamp in seconds since the Unix epoch. The word-level
//! transitions are exposed as pure functions so that a shared (atomic) holder of the word can run
//! them inside a compare-and-swap loop; [`ActivityState`] applies them to a word it owns.

use vstd::prelude::*;

verus! {

/// The bit of the state word that marks the container as stopped.
pub const STOPPED_BIT: u64 = 0x8000_0000_0000_0000u64;

/// The bits of the state word that hold the last activity timestamp.
pub const ACTIVITY_MASK: u64 = 0x7fff_ffff_ffff_ffffu64;

/// `2^63`: one more than the largest timestamp the state word can hold.
pub open spec fn timestamp_modulus() -> int {
    0x8000_0000_0000_0000int
}

/// The abstract content of an activity state word.
pub struct ActivityView {
    pub stopped: bool,
    pub last_activity: u64,
}

/// What a state word means: whether the stopped bit is set, and the timestamp in the low bits.
pub open spec fn word_view(word: u64) -> ActivityView {
    ActivityView {
        stopped: word >= STOPPED_BIT,
        last_activity: (word % (timestamp_modulus() as u64)) as u64,
    }
}

/// A timestamp as the state word stores it: its low 63 bits.
pub open spec fn stored_timestamp(now: u64) -> u64 {
    (now % (timestamp_modulus() as u64)) as u64
}

/// The state right after creation at time `now`.
pub open spec fn spec_new(now: u64) -> ActivityView {
    ActivityView { stopped: false, last_activity: stored_timestamp(now) }
}

/// The state after `stop`.
pub open spec fn spec_stop(v: ActivityView) -> ActivityView {
    ActivityView { stopped: true, last_activity: v.last_activity }
}

/// Whether `record_activity` records anything from state `v`.
pub open spec fn spec_record_accepted(v: ActivityView) -> bool {
    !v.stopped
}

/// The state after `record_activity(now)`.
pub open spec fn spec_record(v: ActivityView, now: u64) -> ActivityView {
    if v.stopped {
        v
    } else {
        ActivityView { stopped: false, last_activity: stored_timestamp(now) }
    }
}

/// `now - last`, or 0 where `last` is later than `now`.
pub open spec fn saturating_elapsed(now: u64, last: u64) -> int {
    if now >= last {
        now - last
    } else {
        0
    }
}

/// Whether `stop_if_inactive(now, timeout)` stops a container in state `v`: it is running and has
/// been idle for at least `timeout` seconds (a last activity after `now` counts as no idle time).
pub open spec fn spec_inactive(v: ActivityView, now: u64, timeout: u64) -> bool {
    !v.stopped && saturating_elapsed(now, v.last_activity) >= timeout
}

/// The state after `stop_if_inactive(now, timeout)`.
pub open spec fn spec_stop_if_inactive(v: ActivityView, now: u64, timeout: u64) -> ActivityView {
    if spec_inactive(v, now, timeout) {
        spec_stop(v)
    } else {
        v
    }
}

proof fn lemma_word_bits(word: u64)
    ensures
        (word & STOPPED_BIT != 0) == (word >= STOPPED_BIT),
        word & ACTIVITY_MASK == word % 0x8000_0000_0000_0000u64,
        (word | STOPPED_BIT) >= STOPPED_BIT,
        (word | STOPPED_BIT) % 0x8000_0000_0000_0000u64 == word % 0x8000_0000_0000_0000u64,
{
    assert((word & 0x8000_0000_0000_0000u64 != 0) == (word >= 0x8000_0000_0000_0000u64))
        by (bit_vector);
    assert(word & 0x7fff_ffff_ffff_ffffu64 == word % 0x8000_0000_0000_0000u64) by (bit_vector);
    assert((word | 0x8000_0000_0000_0000u64) >= 0x8000_0000_0000_0000u64) by (bit_vector);
    assert((word | 0x8000_0000_0000_0000u64) % 0x8000_0000_0000_0000u64 == word
        % 0x8000_0000_0000_0000u64) by (bit_vector);
}

proof fn lemma_compose(high: u64, low: u64)
    requires
        high == 0 || high == 0x8000_0000_0000_0000u64,
    ensures
        (high | (low & ACTIVITY_MASK)) >= STOPPED_BIT <==> high != 0,
        (high | (low & ACTIVITY_MASK)) % 0x8000_0000_0000_0000u64 == low
            % 0x8000_0000_0000_0000u64,
{
    assert(high == 0 || high == 0x8000_0000_0000_0000u64 ==> ((high | (low
        & 0x7fff_ffff_ffff_ffffu64)) >= 0x8000_0000_0000_0000u64 <==> high != 0)) by (bit_vector);
    assert(high == 0 || high == 0x8000_0000_0000_0000u64 ==> (high | (low
        & 0x7fff_ffff_ffff_ffffu64)) % 0x8000_0000_0000_0000u64 == low % 0x8000_0000_0000_0000u64)
        by (bit_vector);
}

/// The word for a fresh state created at time `now`.
pub fn initial_word(now: u64) -> (word: u64)
    ensures
        word_view(word) == spec_new(now),
{
    proof {
        lemma_word_bits(now);
        assert((now & 0x7fff_ffff_ffff_ffffu64) < 0x8000_0000_0000_0000u64) by (bit_vector);
        lemma_word_bits(now & ACTIVITY_MASK);
        assert((now & 0x7fff_ffff_ffff_ffffu64) % 0x8000_0000_0000_0000u64 == now
            & 0x7fff_ffff_ffff_ffffu64) by (bit_vector);
    }
    now & ACTIVITY_MASK
}

/// Whether the stopped bit of `word` is set.
pub fn word_is_stopped(word: u64) -> (stopped: bool)
    ensures
        stopped == word_view(word).stopped,
{
    proof {
        lemma_word_bits(word);
    }
    word & STOPPED_BIT != 0
}

/// The timestamp held in the low bits of `word`.
pub fn word_last_activity(word: u64) -> (last: u64)
    ensures
        last == word_view(word).last_activity,
{
    proof {
        lemma_word_bits(word);
    }
    word & ACTIVITY_MASK
}

/// The word after stopping: the stopped bit set, the timestamp kept.
pub fn stop_transition(word: u64) -> (next: u64)
    ensures
        word_view(next) == spec_stop(word_view(word)),
{
    proof {
        lemma_word_bits(word);
    }
    word | STOPPED_BIT
}

/// The word that recording activity at `now` turns `word` into, or `None` if the stopped bit is
/// set, in which case nothing is recorded.
pub fn record_activity_transition(word: u64, now: u64) -> (next: Option<u64>)
    ensures
        next is None <==> word_view(word).stopped,
        next matches Some(n) ==> word_view(n) == spec_record(word_view(word), now),
{
    proof {
        lemma_word_bits(word);
    }
    if word & STOPPED_BIT != 0 {
        return None;
    }
    // Preserve whatever the stopped bit is set to, but update the activity timestamp.
    let high = word & STOPPED_BIT;
    proof {
        assert(word & 0x8000_0000_0000_0000u64 == 0 || word & 0x8000_0000_0000_0000u64
            == 0x8000_0000_0000_0000u64) by (bit_vector);
        lemma_compose(high, now);
    }
    Some(high | (now & ACTIVITY_MASK))
}

/// The word that `stop_if_inactive(now, timeout)` turns `word` into, or `None` if the container is
/// already stopped or has not been idle for at least `timeout` seconds.
pub fn stop_if_inactive_transition(word: u64, now: u64, timeout: u64) -> (next: Option<u64>)
    ensures
        next is Some <==> spec_inactive(word_view(word), now, timeout),
        next matches Some(n) ==> word_view(n) == spec_stop(word_view(word)),
{
    proof {
        lemma_word_bits(word);
    }
    if word & STOPPED_BIT != 0 {
        return None;
    }
    let last_activity = word & ACTIVITY_MASK;
    if now.saturating_sub(last_activity) < timeout {
        return None;
    }
    Some(word | STOPPED_BIT)
}

/// A container's activity state. This is used to track when a container was last active, and
/// whether it has been stopped. If a container has been stopped, no further activity will be
/// recorded and a container will be considered idle regardless of its last activity timestamp.
///
/// The top bit marks the container as stopped. The remaining bits store the last activity
/// timestamp in seconds since the Unix epoch.
#[derive(Debug)]
pub struct ActivityState {
    word: u64,
}

impl View for ActivityState {
    type V = ActivityView;

    closed spec fn view(&self) -> ActivityView {
        word_view(self.word)
    }
}

impl ActivityState {
    /// A running state whose last activity is `now`.
    pub fn new(now: u64) -> (state: Self)
        ensures
            state@ == spec_new(now),
    {
        ActivityState { word: initial_word(now) }
    }

    /// Check if the container has been stopped. If it has, no further activity will be recorded.
    pub fn is_stopped(&self) -> (stopped: bool)
        ensures
            stopped == self@.stopped,
    {
        word_is_stopped(self.word)
    }

    /// Mark the container as stopped. This will prevent any further activity from being recorded.
    pub fn stop(&mut self)
        ensures
            final(self)@ == spec_stop(old(self)@),
    {
        self.word = stop_transition(self.word);
    }

    /// Record activity for the container. This will update the last activity timestamp to `now`,
    /// unless the container has been stopped, in which case it will return `false` and not update
    /// the timestamp. Returns `true` if the activity was recorded, or `false` if the container has
    /// been stopped.
    pub fn record_activity(&mut self, now: u64) -> (recorded: bool)
        ensures
            recorded == spec_record_accepted(old(self)@),
            final(self)@ == spec_record(old(self)@, now),
    {
        match record_activity_transition(self.word, now) {
            Some(next) => {
                self.word = next;
                true
            },
            None => false,
        }
    }

    /// If the container has been idle for at least `timeout` seconds, mark it as stopped and
    /// return `true`.
    pub fn stop_if_inactive(&mut self, now: u64, timeout: u64) -> (stopped: bool)
        ensures
            stopped == spec_inactive(old(self)@, now, timeout),
            final(self)@ == spec_stop_if_inactive(old(self)@, now, timeout),
    {
        match stop_if_inactive_transition(self.word, now, timeout) {
            Some(next) => {
                self.word = next;
                true
            },
            None => false,
        }
    }

    /// Get the last activity timestamp in seconds since the Unix epoch.
    pub fn last_activity(&self) -> (last: u64)
        ensures
            last == self@.last_activity,
            last <= ACTIVITY_MASK,
    {
        word_last_activity(self.word)
    }
}

/// The timestamp of every activity state lies below the stopped bit: the top bit of the word holds
/// only the stopped flag and never reaches the timestamp.
pub proof fn lemma_timestamp_below_stopped_bit(state: &ActivityState)
    ensures
        state@.last_activity < STOPPED_BIT,
        state@.last_activity <= ACTIVITY_MASK,
{
}

/// Once stopped, a container stays stopped and no operation changes its state any more: recording
/// activity, stopping again and the inactivity check all leave it as it is.
pub proof fn lemma_stopped_is_final(v: ActivityView, now: u64, timeout: u64)
    requires
        v.stopped,
    ensures
        spec_record(v, now) == v,
        !spec_record_accepted(v),
        spec_stop(v) == v,
        spec_stop_if_inactive(v, now, timeout) == v,
        !spec_inactive(v, now, timeout),
{
}

/// Stopping never loses the last activity timestamp, whether by `stop` or by the inactivity check.
pub proof fn lemma_stop_keeps_last_activity(v: ActivityView, now: u64, timeout: u64)
    ensures
        spec_stop(v).last_activity == v.last_activity,
        spec_stop_if_inactive(v, now, timeout).last_activity == v.last_activity,
{
}

/// Reading the last activity after recording activity on a running container gives back the
/// recorded time (its low 63 bits), and the container keeps running.
pub proof fn lemma_record_then_read(v: ActivityView, now: u64)
    requires
        !v.stopped,
    ensures
        spec_record(v, now).last_activity == stored_timestamp(now),
        !spec_record(v, now).stopped,
        now < STOPPED_BIT ==> spec_record(v, now).last_activity == now,
{
    if now < STOPPED_BIT {
        vstd::arithmetic::div_mod::lemma_small_mod(now as nat, 0x8000_0000_0000_0000nat);
    }
}

/// A running container idle for less than `timeout` seconds is not stopped by the inactivity
/// check; one idle for `timeout` seconds or more is. A last activity that lies after `now` counts
/// as no idle time.
pub proof fn lemma_inactivity_threshold(v: ActivityView, now: u64, timeout: u64)
    requires
        !v.stopped,
    ensures
        now >= v.last_activity ==> spec_stop_if_inactive(v, now, timeout) == if now
            - v.last_activity >= timeout {
            spec_stop(v)
        } else {
            v
        },
        now < v.last_activity ==> spec_stop_if_inactive(v, now, timeout) == if timeout == 0 {
            spec_stop(v)
        } else {
            v
        },
{
}

} // verus!
