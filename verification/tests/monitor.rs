use timesdump::config::{HudPosition, TimestampConfig};
use timesdump::monitor::{ClipboardMonitor, CLIPBOARD_POLL_INTERVAL_MS};

const NOW: i64 = 1_750_000_000;

fn text(s: &str) -> Option<String> {
    Some(s.to_string())
}

#[test]
fn poll_interval() {
    assert_eq!(CLIPBOARD_POLL_INTERVAL_MS, 350);
}

#[test]
fn a_new_monitor_runs_and_ignores_what_was_there() {
    let mut monitor = ClipboardMonitor::new(TimestampConfig::default(), text("1704067200"));
    assert!(monitor.is_running());
    assert!(monitor.begin_cycle());
    assert!(monitor.observe_at(text("1704067200"), NOW).is_none());
    let found = monitor.observe_at(text("1704067201"), NOW).unwrap();
    assert_eq!(found.payload.timestamp_seconds, 1704067201);
    assert_eq!(found.position, HudPosition::TopCenter);
}

#[test]
fn a_failed_first_read_gives_an_empty_baseline() {
    let mut monitor = ClipboardMonitor::new(TimestampConfig::default(), None);
    assert!(monitor.observe_at(text(""), NOW).is_none());
    let found = monitor.observe_at(text("1704067200"), NOW).unwrap();
    assert_eq!(found.payload.formatted_time, "2024-01-01 00:00:00");
    assert_eq!(found.payload.raw_value, "1704067200");
    assert!(!found.payload.is_milliseconds);
}

#[test]
fn the_same_text_is_reported_once() {
    let mut monitor = ClipboardMonitor::new(TimestampConfig::default(), None);
    assert!(monitor.observe_at(text("1704067200"), NOW).is_some());
    assert!(monitor.observe_at(text("1704067200"), NOW).is_none());
    assert!(monitor.observe(text("1704067200")).is_none());
    // Text that does not parse is remembered as well.
    assert!(monitor.observe_at(text("hello"), NOW).is_none());
    assert!(monitor.observe_at(text("hello"), NOW).is_none());
    assert!(monitor.observe_at(text("1704067200"), NOW).is_some());
    // The comparison is on the text as read, before trimming.
    assert!(monitor.observe_at(text(" 1704067200"), NOW).is_some());
}

#[test]
fn a_failed_read_changes_nothing() {
    let mut monitor = ClipboardMonitor::new(TimestampConfig::default(), text("1704067200"));
    assert!(monitor.observe_at(None, NOW).is_none());
    assert!(monitor.observe(None).is_none());
    assert!(monitor.observe_at(text("1704067200"), NOW).is_none());
    assert!(monitor.is_running());
}

#[test]
fn a_paused_monitor_reads_nothing_until_toggled_back() {
    let mut monitor = ClipboardMonitor::new(TimestampConfig::default(), None);
    assert!(monitor.begin_cycle());
    assert!(!monitor.toggle_pause());
    assert!(!monitor.is_running());
    for _ in 0..5 {
        assert!(!monitor.begin_cycle());
    }
    monitor.update_config(TimestampConfig { min_year: 2000, ..Default::default() });
    assert!(!monitor.begin_cycle());
    assert!(monitor.toggle_pause());
    assert!(monitor.is_running());
    assert!(monitor.begin_cycle());
    // What was copied during the pause is picked up by the next cycle.
    assert!(monitor.observe_at(text("1704067200"), NOW).is_some());
}

#[test]
fn set_running_sets_the_state() {
    let mut monitor = ClipboardMonitor::new(TimestampConfig::default(), None);
    monitor.set_running(false);
    assert!(!monitor.is_running());
    assert!(!monitor.begin_cycle());
    monitor.set_running(false);
    assert!(!monitor.is_running());
    monitor.set_running(true);
    assert!(monitor.is_running());
    assert!(monitor.begin_cycle());
    assert!(!monitor.toggle_pause());
    assert!(monitor.toggle_pause());
}

#[test]
fn a_new_configuration_applies_to_the_next_read() {
    let mut monitor = ClipboardMonitor::new(TimestampConfig::default(), None);
    let found = monitor.observe_at(text("631152000"), NOW).unwrap();
    assert_eq!(found.payload.formatted_time, "1990-01-01 00:00:00");
    assert_eq!(found.position, HudPosition::TopCenter);
    monitor.update_config(TimestampConfig {
        min_year: 2000,
        max_year: 2030,
        display_duration_ms: 5000,
        time_format: "%H:%M %d.%m.%Y".to_string(),
        hud_position: HudPosition::BottomRight,
    });
    assert!(monitor.is_running());
    assert!(monitor.observe_at(text("631152001"), NOW).is_none());
    let found = monitor.observe_at(text("1704067200000"), NOW).unwrap();
    assert_eq!(found.payload.formatted_time, "00:00 01.01.2024");
    assert_eq!(found.payload.timestamp_seconds, 1704067200);
    assert!(found.payload.is_milliseconds);
    assert_eq!(found.position, HudPosition::BottomRight);
}

#[test]
fn observe_reads_the_wall_clock() {
    let mut monitor = ClipboardMonitor::new(TimestampConfig::default(), None);
    let found = monitor.observe(text("1704067200")).unwrap();
    assert_eq!(found.payload.timestamp_seconds, 1704067200);
    assert!(found.payload.relative_time.ends_with(" ago"), "{}", found.payload.relative_time);
}
