use backup_manager::format::{format_bytes, format_duration, format_duration_secs, truncate_text};
use std::time::Duration;

#[test]
fn test_format_bytes() {
    assert_eq!(format_bytes(512), "512 B");
    assert_eq!(format_bytes(1024), "1.0 KB");
    assert_eq!(format_bytes(1536), "1.5 KB");
    assert_eq!(format_bytes(1048576), "1.0 MB");
    assert_eq!(format_bytes(1073741824), "1.0 GB");
}

#[test]
fn format_bytes_edges() {
    assert_eq!(format_bytes(0), "0 B");
    assert_eq!(format_bytes(1023), "1023 B");
    // 1280 bytes is 1.25 KB: a tie, rounded to the even tenth.
    assert_eq!(format_bytes(1280), "1.2 KB");
    assert_eq!(format_bytes(1024 * 1024 * 1024 * 1024), "1.0 TB");
    assert_eq!(format_bytes(1024u64.pow(5)), "1024.0 TB");
    assert_eq!(format_bytes(1024 * 1024 - 1), "1024.0 KB");
}

#[test]
fn test_format_duration() {
    assert_eq!(format_duration(Duration::from_secs(30)), "30s");
    assert_eq!(format_duration(Duration::from_secs(90)), "1m 30s");
    assert_eq!(format_duration(Duration::from_secs(3661)), "1h 1m 1s");
}

#[test]
fn format_duration_edges() {
    assert_eq!(format_duration_secs(0), "0s");
    assert_eq!(format_duration_secs(3600), "1h 0m 0s");
    assert_eq!(format_duration(Duration::from_millis(59_999)), "59s");
}

#[test]
fn test_truncate_text() {
    assert_eq!(truncate_text("hello", 10), "hello");
    assert_eq!(truncate_text("hello world", 8), "hello...");
    assert_eq!(truncate_text("hi", 2), "hi");
    assert_eq!(truncate_text("hello", 3), "...");
}

#[test]
fn truncate_text_cuts_on_character_boundaries() {
    // "é" takes two bytes; a cut at byte 1 would split it.
    assert_eq!(truncate_text("éééé", 4), "...");
    assert_eq!(truncate_text("aéééé", 5), "a...");
    assert_eq!(truncate_text("abcdef", 0), "...");
}
