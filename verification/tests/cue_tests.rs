use retrospector::output::cue::{duration_to_timestamp, escape_quotes};
use std::time::Duration;

/// CD frames (75 per second) of a duration, rounded as sheets store them.
fn frames(d: Duration) -> u64 {
    (d.as_secs_f64() * 75.0).round() as u64
}

#[test]
fn test_duration_to_timestamp() {
    // 0 seconds
    assert_eq!(duration_to_timestamp(frames(Duration::from_secs(0))), "00:00:00");

    // 1 second = 75 frames
    assert_eq!(duration_to_timestamp(frames(Duration::from_secs(1))), "00:01:00");

    // 4 minutes, 2 seconds, 33 frames
    let dur = Duration::from_secs_f64(242.0 + 33.0 / 75.0);
    assert_eq!(duration_to_timestamp(frames(dur)), "04:02:33");
}

#[test]
fn test_escape_quotes() {
    assert_eq!(escape_quotes("hello"), "hello");
    assert_eq!(escape_quotes("hello \"world\""), "hello \\\"world\\\"");
    assert_eq!(escape_quotes("path\\to\\file"), "path\\\\to\\\\file");
}
