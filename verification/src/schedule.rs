//! When the reader takes its next reading and when it sends a heartbeat.

use vstd::prelude::*;

verus! {

/// Nanoseconds in a second.
pub const NANOS_PER_SECOND: u128 = 1_000_000_000;

/// The wait used when the next reading time has already passed.
pub const FALLBACK_WAIT_NANOS: u128 = 1_000_000_000;

/// The wait until `period_minutes` whole minutes after the start of the
/// current minute, given the second and nanosecond of the clock now; one
/// second when that moment has already passed.
pub open spec fn wait_nanos(period_minutes: u64, second: u32, nanosecond: u32) -> int {
    let period = period_minutes * 60 * NANOS_PER_SECOND;
    let elapsed = second * NANOS_PER_SECOND + nanosecond;
    if elapsed <= period {
        period - elapsed
    } else {
        FALLBACK_WAIT_NANOS as int
    }
}

/// How long to sleep, in nanoseconds, so that the next reading starts on a
/// whole minute, `period_minutes` after the start of the current one.
pub fn wait_duration_nanos(period_minutes: u64, second: u32, nanosecond: u32) -> (wait: u128)
    ensures
        wait == wait_nanos(period_minutes, second, nanosecond),
{
    let period = period_minutes as u128 * 60 * NANOS_PER_SECOND;
    let elapsed = second as u128 * NANOS_PER_SECOND + nanosecond as u128;
    if elapsed <= period {
        period - elapsed
    } else {
        FALLBACK_WAIT_NANOS
    }
}

/// A reading that starts within the period lands on the whole minute that
/// ends the period: the time already elapsed in the current minute and the
/// wait add up to the period. When the period has already passed, the wait
/// is one second.
pub proof fn next_reading_on_whole_minute(period_minutes: u64, second: u32, nanosecond: u32)
    ensures
        second * 1_000_000_000 + nanosecond <= period_minutes * 60 * 1_000_000_000 ==> second
            * 1_000_000_000 + nanosecond + wait_nanos(period_minutes, second, nanosecond) == period_minutes
            * 60 * 1_000_000_000,
        second * 1_000_000_000 + nanosecond > period_minutes * 60 * 1_000_000_000 ==> wait_nanos(
            period_minutes,
            second,
            nanosecond,
        ) == 1_000_000_000,
{
}

/// A heartbeat goes out after this many readings.
pub const HEARTBEAT_INTERVAL: u32 = 10;

/// What one reading does to the heartbeat counter: whether a heartbeat is due,
/// and the count afterwards.
pub open spec fn heartbeat_step(count: u32) -> (bool, u32) {
    if count + 1 >= HEARTBEAT_INTERVAL {
        (true, 0)
    } else {
        (false, (count + 1) as u32)
    }
}

/// The count after `readings` readings from a fresh counter.
pub open spec fn count_after(readings: nat) -> u32
    decreases readings,
{
    if readings == 0 {
        0
    } else {
        heartbeat_step(count_after((readings - 1) as nat)).1
    }
}

/// Counts readings between heartbeats.
pub struct HeartbeatCounter {
    readings: u32,
}

impl View for HeartbeatCounter {
    type V = u32;

    closed spec fn view(&self) -> u32 {
        self.readings
    }
}

impl HeartbeatCounter {
    #[verifier::type_invariant]
    spec fn below_interval(self) -> bool {
        self.readings < HEARTBEAT_INTERVAL
    }

    /// A counter before the first reading.
    pub fn new() -> (c: Self)
        ensures
            c@ == 0,
    {
        HeartbeatCounter { readings: 0 }
    }

    /// Counts one reading and says whether a heartbeat is due now.
    pub fn tick(&mut self) -> (due: bool)
        ensures
            (due, final(self)@) == heartbeat_step(old(self)@),
            final(self)@ < HEARTBEAT_INTERVAL,
    {
        proof {
            use_type_invariant(&*self);
        }
        if self.readings + 1 >= HEARTBEAT_INTERVAL {
            self.readings = 0;
            true
        } else {
            self.readings = self.readings + 1;
            false
        }
    }
}

/// A heartbeat goes out on every tenth reading and on no other: after `n`
/// readings the counter stands at `n % 10`, and reading `n + 1` sends a
/// heartbeat exactly when `n + 1` is a multiple of ten.
pub proof fn heartbeat_every_tenth_reading(n: nat)
    ensures
        count_after(n) == n % 10,
        heartbeat_step(count_after(n)).0 == ((n + 1) % 10 == 0),
    decreases n,
{
    if n > 0 {
        heartbeat_every_tenth_reading((n - 1) as nat);
    }
}

/// The text reported when publishing the readings failed.
pub open spec fn publish_failure_text(error: Seq<char>) -> Seq<char> {
    "MQTT publish failed: "@ + error
}

/// The text reported when publishing the readings failed with `error`.
pub fn publish_failure_message(error: &str) -> (res: String)
    ensures
        res@ == publish_failure_text(error@),
{
    let mut res = String::from_str("MQTT publish failed: ");
    res.append(error);
    res
}

} // verus!
