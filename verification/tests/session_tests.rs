use countdown_timer::config::{CountdownConfig, WritePolicy};
use countdown_timer::errors::ErrorKind;
use countdown_timer::session::{CountdownSession, Tick};

#[test]
fn first_step_writes_full_duration() {
    let mut s = CountdownSession::new(0, 1, WritePolicy::OnChange);
    assert_eq!(s.step(0), Tick::Write(b"01:00".to_vec()));
}

#[test]
fn repeated_step_at_same_instant_is_unchanged() {
    let mut s = CountdownSession::new(0, 1, WritePolicy::OnChange);
    assert_eq!(s.step(0), Tick::Write(b"01:00".to_vec()));
    assert_eq!(s.step(0), Tick::Unchanged);
}

#[test]
fn unchanged_within_same_rendered_second() {
    // Polls that land inside the same rendered second ask for no write.
    let mut s = CountdownSession::new(0, 2, WritePolicy::OnChange);
    assert_eq!(s.step(0), Tick::Write(b"02:00".to_vec()));
    assert_eq!(s.step(500), Tick::Write(b"01:59".to_vec()));
    assert_eq!(s.step(900), Tick::Unchanged);
    assert_eq!(s.step(1400), Tick::Write(b"01:58".to_vec()));
}

#[test]
fn completes_at_deadline() {
    let mut s = CountdownSession::new(0, 1, WritePolicy::OnChange);
    assert_eq!(s.step(60_000), Tick::Complete);
}

#[test]
fn completes_past_deadline() {
    let mut s = CountdownSession::new(0, 1, WritePolicy::OnChange);
    assert_eq!(s.step(60_001), Tick::Complete);
    assert_eq!(s.step(i64::MAX), Tick::Complete);
}

#[test]
fn zero_duration_completes_immediately() {
    let mut s = CountdownSession::new(5, 0, WritePolicy::OnChange);
    assert_eq!(s.step(5), Tick::Complete);
}

#[test]
fn writes_zero_zero_just_before_deadline() {
    let mut s = CountdownSession::new(0, 1, WritePolicy::OnChange);
    assert_eq!(s.step(59_999), Tick::Write(b"00:00".to_vec()));
    assert_eq!(s.step(60_000), Tick::Complete);
}

#[test]
fn works_with_clock_before_epoch() {
    let mut s = CountdownSession::new(-120_000, 1, WritePolicy::OnChange);
    assert_eq!(s.step(-100_000), Tick::Write(b"00:40".to_vec()));
    assert_eq!(s.step(-60_000), Tick::Complete);
}

#[test]
fn largest_duration_renders_untruncated() {
    let mut s = CountdownSession::new(0, 255, WritePolicy::OnChange);
    assert_eq!(s.step(0), Tick::Write(b"255:00".to_vec()));
}

#[test]
fn full_session_counts_down_monotonically() {
    // A one-minute session polled every 500 ms: the writes go from "01:00"
    // down to "00:00", never increasing, and the session then completes.
    let mut s = CountdownSession::new(0, 1, WritePolicy::OnChange);
    let mut writes: Vec<Vec<u8>> = Vec::new();
    let mut now: i64 = 0;
    loop {
        match s.step(now) {
            Tick::Complete => break,
            Tick::Write(bytes) => writes.push(bytes),
            Tick::Unchanged => {}
        }
        now += 500;
        assert!(now <= 61_000, "session failed to complete in time");
    }
    assert_eq!(writes.first().unwrap(), &b"01:00".to_vec());
    assert_eq!(writes.last().unwrap(), &b"00:00".to_vec());
    let seconds: Vec<u64> = writes
        .iter()
        .map(|w| {
            let text = String::from_utf8(w.clone()).unwrap();
            let (mm, ss) = text.split_once(':').unwrap();
            mm.parse::<u64>().unwrap() * 60 + ss.parse::<u64>().unwrap()
        })
        .collect();
    for pair in seconds.windows(2) {
        assert!(pair[1] <= pair[0], "remaining seconds increased");
    }
    assert_eq!(seconds.len(), 61);
}

#[test]
fn error_kind_labels() {
    assert_eq!(ErrorKind::InvalidPath.label(), "invalid path");
    assert_eq!(ErrorKind::Filesystem.label(), "filesystem error");
    assert_eq!(ErrorKind::Io.label(), "i/o error");
    assert_eq!(ErrorKind::UserAborted.label(), "aborted by user");
}

#[test]
fn always_policy_writes_every_poll() {
    let mut s = CountdownSession::new(0, 1, WritePolicy::Always);
    assert_eq!(s.step(0), Tick::Write(b"01:00".to_vec()));
    assert_eq!(s.step(0), Tick::Write(b"01:00".to_vec()));
    assert_eq!(s.step(500), Tick::Write(b"00:59".to_vec()));
    assert_eq!(s.step(60_000), Tick::Complete);
}

#[test]
fn default_config_is_debounced() {
    let c = CountdownConfig::default();
    assert_eq!(c.write_policy, WritePolicy::OnChange);
    assert_eq!(c.poll_interval_ms, 100);
    assert!(!c.require_existing_file);
}

#[test]
fn unconditional_config_writes_always() {
    let c = countdown_timer::config::unconditional_config();
    assert_eq!(c.write_policy, WritePolicy::Always);
    assert_eq!(c.poll_interval_ms, 250);
    assert!(c.require_existing_file);
}

#[test]
fn begin_starts_unrendered() {
    // A zero-minute session begun at the real clock's reading is complete
    // by the time of any later poll of the same clock.
    let mut s = CountdownSession::begin(0, WritePolicy::OnChange);
    assert_eq!(s.tick(), Tick::Complete);
}
