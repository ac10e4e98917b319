use pico_button::heartbeat::{is_due, reschedule, Duration, HeartbeatSchedule, Instant};

#[test]
fn due_exactly_from_the_due_time_on() {
    let t0 = Instant::from_millis(1000);
    assert!(!is_due(Instant::from_millis(0), t0));
    assert!(!is_due(Instant::from_millis(999), t0));
    assert!(is_due(Instant::from_millis(1000), t0));
    assert!(is_due(Instant::from_millis(1001), t0));
    assert!(is_due(Instant::from_millis(u64::MAX), t0));
}

#[test]
fn due_at_time_zero() {
    assert!(is_due(Instant::from_millis(0), Instant::from_millis(0)));
}

#[test]
fn reschedule_is_now_plus_interval() {
    let next = reschedule(Instant::from_millis(12_345), Duration::from_millis(30_000));
    assert_eq!(next, Instant::from_millis(42_345));
    assert_eq!(next.as_millis(), 42_345);
}

#[test]
fn reschedule_reaches_the_last_instant() {
    let next = reschedule(Instant::from_millis(u64::MAX - 5), Duration::from_millis(5));
    assert_eq!(next.as_millis(), u64::MAX);
}

#[test]
fn reschedule_with_zero_interval_is_now() {
    let now = Instant::from_millis(77);
    assert_eq!(reschedule(now, Duration::from_millis(0)), now);
}

#[test]
fn seconds_are_a_thousand_milliseconds() {
    assert_eq!(Duration::from_secs(30), Duration::from_millis(30_000));
    assert_eq!(Duration::from_secs(5).as_millis(), 5_000);
    assert_eq!(Duration::from_secs(0).as_millis(), 0);
    assert_eq!(
        Duration::from_secs(u64::MAX / 1000).as_millis(),
        u64::MAX / 1000 * 1000
    );
}

#[test]
fn new_schedule_is_due_after_the_first_delay() {
    let schedule = HeartbeatSchedule::new(
        Instant::from_millis(100),
        Duration::from_secs(5),
        Duration::from_secs(30),
    );
    assert_eq!(schedule.next_due, Instant::from_millis(5_100));
    assert_eq!(schedule.interval, Duration::from_millis(30_000));
    assert!(!schedule.is_due(Instant::from_millis(5_099)));
    assert!(schedule.is_due(Instant::from_millis(5_100)));
}

#[test]
fn rearm_counts_from_now_not_from_the_missed_deadline() {
    let mut schedule = HeartbeatSchedule::new(
        Instant::from_millis(0),
        Duration::from_secs(30),
        Duration::from_secs(30),
    );
    // the loop stalled for more than three intervals
    let now = Instant::from_millis(100_000);
    assert!(schedule.is_due(now));
    schedule.rearm(now);
    assert_eq!(schedule.next_due, Instant::from_millis(130_000));
    assert_ne!(schedule.next_due, Instant::from_millis(60_000));
    assert!(!schedule.is_due(now));
    assert!(!schedule.is_due(Instant::from_millis(129_999)));
    assert!(schedule.is_due(Instant::from_millis(130_000)));
    assert_eq!(schedule.interval, Duration::from_secs(30));
}

#[test]
fn three_heartbeats_in_ninety_five_seconds() {
    // a heartbeat has just fired at `start`
    let start = 7_000u64;
    let mut schedule = HeartbeatSchedule {
        next_due: Instant::from_millis(0),
        interval: Duration::from_secs(30),
    };
    schedule.rearm(Instant::from_millis(start));
    let mut fired = Vec::new();
    for now in start + 1..=start + 95_000 {
        if schedule.poll(Instant::from_millis(now)) {
            fired.push(now - start);
        }
    }
    assert_eq!(fired, vec![30_000, 60_000, 90_000]);
    assert_eq!(schedule.next_due.as_millis(), start + 120_000);
}

#[test]
fn poll_fires_once_however_late() {
    let mut schedule = HeartbeatSchedule {
        next_due: Instant::from_millis(30_000),
        interval: Duration::from_secs(30),
    };
    assert!(!schedule.poll(Instant::from_millis(29_999)));
    assert_eq!(schedule.next_due, Instant::from_millis(30_000));
    // four intervals late
    assert!(schedule.poll(Instant::from_millis(150_000)));
    assert_eq!(schedule.next_due, Instant::from_millis(180_000));
    assert!(!schedule.poll(Instant::from_millis(150_000)));
    assert!(!schedule.poll(Instant::from_millis(179_999)));
    assert!(schedule.poll(Instant::from_millis(180_000)));
    assert_eq!(schedule.next_due, Instant::from_millis(210_000));
    assert_eq!(schedule.interval, Duration::from_millis(30_000));
}

#[test]
fn sparse_polling_fires_less_often_never_more() {
    let start = 0u64;
    for step in [1u64, 7, 1_000, 29_999, 30_000, 30_001, 45_000, 95_000] {
        let mut schedule = HeartbeatSchedule {
            next_due: Instant::from_millis(start + 30_000),
            interval: Duration::from_secs(30),
        };
        let mut fired = 0u64;
        let mut now = start + step;
        while now <= start + 95_000 {
            if schedule.poll(Instant::from_millis(now)) {
                fired += 1;
            }
            now += step;
        }
        assert!(fired <= 95_000 / 30_000, "step {step}: {fired}");
        if step == 1 || step == 1_000 || step == 30_000 {
            assert_eq!(fired, 3);
        }
    }
}
