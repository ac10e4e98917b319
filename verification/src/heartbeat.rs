//! The heartbeat schedule: when the next keep-alive ping is due.
//!
//! Time is counted in milliseconds since the device started. The schedule is a
//! single due time; it is pushed forward relative to the moment a ping fires
//! or the button is used, never relative to the deadline that was missed, so a
//! stalled loop fires once and does not catch up on a backlog.

use vstd::prelude::*;
use vstd::arithmetic::div_mod::{lemma_fundamental_div_mod, lemma_mod_pos_bound};
use crate::arith::lemma_quotient_of_successor;

verus! {

/// Milliseconds in a second.
pub const MILLIS_PER_SEC: u64 = 1000;

/// A point in time, in milliseconds since the device started.
#[derive(Clone, Copy, Debug, PartialEq, Eq, Structural)]
pub struct Instant {
    pub millis: u64,
}

/// A span of time, in milliseconds.
#[derive(Clone, Copy, Debug, PartialEq, Eq, Structural)]
pub struct Duration {
    pub millis: u64,
}

impl Instant {
    /// The instant `millis` milliseconds after the device started.
    pub fn from_millis(millis: u64) -> (instant: Instant)
        ensures
            instant.millis == millis,
    {
        Instant { millis }
    }

    /// Milliseconds since the device started.
    pub fn as_millis(&self) -> (millis: u64)
        ensures
            millis == self.millis,
    {
        self.millis
    }
}

impl Duration {
    /// A span of `millis` milliseconds.
    pub fn from_millis(millis: u64) -> (duration: Duration)
        ensures
            duration.millis == millis,
    {
        Duration { millis }
    }

    /// A span of `secs` seconds, which must be expressible in milliseconds.
    pub fn from_secs(secs: u64) -> (duration: Duration)
        requires
            secs * MILLIS_PER_SEC <= u64::MAX,
        ensures
            duration.millis == secs * MILLIS_PER_SEC,
    {
        Duration { millis: secs * MILLIS_PER_SEC }
    }

    /// The length of the span in milliseconds.
    pub fn as_millis(&self) -> (millis: u64)
        ensures
            millis == self.millis,
    {
        self.millis
    }
}

/// A heartbeat scheduled for `next_due` is due at `now`.
pub open spec fn due(now: Instant, next_due: Instant) -> bool {
    now.millis >= next_due.millis
}

/// The point in time `interval` after `now`.
pub open spec fn after(now: Instant, interval: Duration) -> int {
    now.millis + interval.millis
}

/// Whether the heartbeat scheduled for `next_due` should fire at `now`.
pub fn is_due(now: Instant, next_due: Instant) -> (fire: bool)
    ensures
        fire == due(now, next_due),
{
    now.millis >= next_due.millis
}

/// The due time of the next heartbeat when the schedule is reset at `now`:
/// one interval after `now`, whatever the previous due time was.
pub fn reschedule(now: Instant, interval: Duration) -> (next_due: Instant)
    requires
        after(now, interval) <= u64::MAX,
    ensures
        next_due.millis == after(now, interval),
{
    Instant { millis: now.millis + interval.millis }
}

/// The single pending heartbeat: its due time and the interval between heartbeats.
#[derive(Clone, Copy, Debug, PartialEq, Eq, Structural)]
pub struct HeartbeatSchedule {
    pub next_due: Instant,
    pub interval: Duration,
}

impl HeartbeatSchedule {
    /// A schedule whose first heartbeat is due `first_delay` after `now` and
    /// whose later heartbeats are `interval` apart.
    pub fn new(now: Instant, first_delay: Duration, interval: Duration) -> (schedule:
        HeartbeatSchedule)
        requires
            after(now, first_delay) <= u64::MAX,
        ensures
            schedule.next_due.millis == after(now, first_delay),
            schedule.interval == interval,
    {
        HeartbeatSchedule { next_due: reschedule(now, first_delay), interval }
    }

    /// Whether the pending heartbeat should fire at `now`.
    pub fn is_due(&self, now: Instant) -> (fire: bool)
        ensures
            fire == due(now, self.next_due),
    {
        is_due(now, self.next_due)
    }

    /// Pushes the pending heartbeat to one interval after `now`. Called when a
    /// heartbeat has fired and when the button was used.
    pub fn rearm(&mut self, now: Instant)
        requires
            after(now, old(self).interval) <= u64::MAX,
        ensures
            final(self).next_due.millis == after(now, old(self).interval),
            final(self).interval == old(self).interval,
    {
        self.next_due = reschedule(now, self.interval);
    }

    /// Looks at the schedule at `now`. A due heartbeat fires, once however
    /// late it is, and the next one is scheduled one interval after `now`.
    pub fn poll(&mut self, now: Instant) -> (fires: bool)
        requires
            after(now, old(self).interval) <= u64::MAX,
        ensures
            (fires, final(self).next_due) == poll(old(self).next_due, old(self).interval, now),
            final(self).interval == old(self).interval,
    {
        if self.is_due(now) {
            self.rearm(now);
            true
        } else {
            false
        }
    }
}

/// The schedule polled at `now`: whether the pending heartbeat fires, and the
/// due time afterwards. A heartbeat that fires is rescheduled from `now`.
pub open spec fn poll(next_due: Instant, interval: Duration, now: Instant) -> (bool, Instant) {
    if due(now, next_due) {
        (true, Instant { millis: after(now, interval) as u64 })
    } else {
        (false, next_due)
    }
}

/// The schedule polled at each of `times` in turn: how many heartbeats fired,
/// and the due time afterwards.
pub open spec fn poll_all(next_due: Instant, interval: Duration, times: Seq<Instant>) -> (
    nat,
    Instant,
)
    decreases times.len(),
{
    if times.len() == 0 {
        (0, next_due)
    } else {
        let (fired, pending) = poll_all(next_due, interval, times.drop_last());
        let (fires, next) = poll(pending, interval, times.last());
        (
            if fires {
                fired + 1
            } else {
                fired
            },
            next,
        )
    }
}

/// The instants `start + 1`, `start + 2`, up to `start + window`: a loop that
/// looks at the schedule every millisecond.
pub open spec fn every_millisecond(start: int, window: nat) -> Seq<Instant> {
    Seq::new(window, |k: int| Instant { millis: (start + 1 + k) as u64 })
}

/// No bursts: in a window of `window` milliseconds that starts when a
/// heartbeat fired, at most `window / interval` further heartbeats fire,
/// whenever and however often the schedule is polled.
pub proof fn lemma_heartbeats_never_burst(
    start: Instant,
    interval: Duration,
    window: nat,
    times: Seq<Instant>,
)
    requires
        interval.millis > 0,
        after(start, interval) <= u64::MAX,
        forall|i: int|
            0 <= i < times.len() ==> (#[trigger] times[i]).millis <= start.millis + window
                && after(times[i], interval) <= u64::MAX,
    ensures
        poll_all(Instant { millis: after(start, interval) as u64 }, interval, times).0
            * interval.millis <= window,
        poll_all(Instant { millis: after(start, interval) as u64 }, interval, times).0 <= window
            / interval.millis as nat,
{
    let first = Instant { millis: after(start, interval) as u64 };
    lemma_fired_heartbeats_are_an_interval_apart(start, interval, window, times);
    let fired = poll_all(first, interval, times).0 as int;
    let every = interval.millis as int;
    lemma_fundamental_div_mod(window as int, every);
    lemma_mod_pos_bound(window as int, every);
    assert(fired <= window as int / every) by (nonlinear_arith)
        requires
            fired * every <= window,
            window == every * (window as int / every) + window as int % every,
            0 <= window as int % every < every,
            0 <= fired,
    ;
}

/// After any polls within the window, the pending heartbeat is due one
/// interval after the last one that fired, and every heartbeat that fired
/// took a whole interval of the time since `start`.
proof fn lemma_fired_heartbeats_are_an_interval_apart(
    start: Instant,
    interval: Duration,
    window: nat,
    times: Seq<Instant>,
)
    requires
        interval.millis > 0,
        after(start, interval) <= u64::MAX,
        forall|i: int|
            0 <= i < times.len() ==> (#[trigger] times[i]).millis <= start.millis + window
                && after(times[i], interval) <= u64::MAX,
    ensures
        ({
            let (fired, pending) = poll_all(
                Instant { millis: after(start, interval) as u64 },
                interval,
                times,
            );
            &&& fired * interval.millis + interval.millis + start.millis <= pending.millis
            &&& pending.millis <= start.millis + window + interval.millis
        }),
    decreases times.len(),
{
    let first = Instant { millis: after(start, interval) as u64 };
    if times.len() == 0 {
        assert(0 * interval.millis == 0);
    } else {
        let before = times.drop_last();
        assert forall|i: int| 0 <= i < before.len() implies (#[trigger] before[i]).millis
            <= start.millis + window && after(before[i], interval) <= u64::MAX by {
            assert(before[i] == times[i]);
        }
        lemma_fired_heartbeats_are_an_interval_apart(start, interval, window, before);
        let fired = poll_all(first, interval, before).0;
        assert(times.last() == times[times.len() - 1]);
        assert((fired + 1) * interval.millis == fired * interval.millis + interval.millis)
            by (nonlinear_arith);
    }
}

/// A quiet loop: polled every millisecond for `window` milliseconds after a
/// heartbeat fired at `start`, the schedule fires exactly `window / interval`
/// times, once at the end of each whole interval, and is then due at the end
/// of the interval that is running.
pub proof fn lemma_heartbeats_in_quiet_window(start: Instant, interval: Duration, window: nat)
    requires
        interval.millis > 0,
        start.millis + window + interval.millis <= u64::MAX,
    ensures
        poll_all(
            Instant { millis: after(start, interval) as u64 },
            interval,
            every_millisecond(start.millis as int, window),
        ) == (
            window / interval.millis as nat,
            Instant {
                millis: (start.millis + (window / interval.millis as nat + 1)
                    * interval.millis) as u64,
            },
        ),
    decreases window,
{
    let every = interval.millis as int;
    let t0 = start.millis as int;
    if window == 0 {
        assert(0int / every == 0) by (nonlinear_arith)
            requires
                every > 0,
        ;
        assert((0 + 1) * every == every) by (nonlinear_arith);
    } else {
        let w = (window - 1) as nat;
        let times = every_millisecond(t0, window);
        lemma_heartbeats_in_quiet_window(start, interval, w);
        assert(times.drop_last() =~= every_millisecond(t0, w));
        lemma_quotient_of_successor(w as int, every);
        let q = w as int / every;
        assert((q + 1) * every == every * q + every) by (nonlinear_arith);
        assert((q + 2) * every == every * q + every + every) by (nonlinear_arith);
    }
}

/// A heartbeat scheduled for `t0` is due exactly from `t0` on, and resetting
/// the schedule at `now` makes it due one interval after `now`, not one
/// interval after `t0`.
pub proof fn lemma_schedule_follows_now(t0: Instant, now: Instant, interval: Duration)
    ensures
        due(now, t0) <==> now.millis >= t0.millis,
        after(now, interval) == now.millis + interval.millis,
        after(now, interval) == after(t0, interval) <==> now.millis == t0.millis,
{
}

/// No catch-up: once the schedule is reset at `now`, however late that was,
/// the heartbeat is due at `later` exactly when a whole interval has passed
/// since `now`.
pub proof fn lemma_no_catch_up(now: Instant, interval: Duration, later: Instant)
    requires
        after(now, interval) <= u64::MAX,
    ensures
        due(later, Instant { millis: after(now, interval) as u64 }) <==> later.millis >= now.millis
            + interval.millis,
{
}

} // verus!
