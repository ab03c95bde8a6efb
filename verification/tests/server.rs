use wsprrs_web::server::{default_since, initial_watermark, poll_step, stats_cache_key, stats_window};

#[test]
fn default_window_start() {
    assert_eq!(default_since(1_700_000_000, 1), 1_699_996_400);
    assert_eq!(default_since(1_700_000_000, 24), 1_699_913_600);
    assert_eq!(default_since(0, 0), 0);
}

#[test]
fn stats_key_rounds_both_ends() {
    assert_eq!(stats_cache_key(1_700_000_059, 1_700_000_061), (1_700_000_040, 1_700_000_040));
    assert_eq!(stats_cache_key(-1, 59), (-60, 0));
}

#[test]
fn stats_window_defaults() {
    assert_eq!(stats_window(None, None, 10_000), (6_400, 10_000));
    assert_eq!(stats_window(Some(5), Some(7), 10_000), (5, 7));
}

#[test]
fn poller_watermark() {
    assert_eq!(initial_watermark(1000), 880);
    assert_eq!(poll_step(880, &[]), (880, false));
    assert_eq!(poll_step(880, &[900, 1200, 1000]), (1200, true));
    assert_eq!(poll_step(880, &[1000]), (1000, true));
}
