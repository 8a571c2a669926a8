use backup_manager::backend::{listing_result, mark_conflicts};
use backup_manager::listing::{parse_archive_listing, parse_line, parse_size};

fn chars(s: &str) -> Vec<char> {
    s.chars().collect()
}

#[test]
fn listing_line_round_trip() {
    let items = parse_archive_listing(
        &chars("id-1|1024|.config/app/config.json\nid-2|bad\nid-3|7|/etc/hosts\n"),
        &chars("/home/u"),
    );
    assert_eq!(items.len(), 2);
    assert_eq!(items[0].name, "id-1");
    assert_eq!(items[0].size, 1024);
    assert_eq!(items[0].original_path, ".config/app/config.json");
    assert_eq!(items[0].restore_path, "/home/u/.config/app/config.json");
    assert!(items[0].restore_path.starts_with("/home/u/"));
    assert!(!items[0].selected && !items[0].conflicts);
    assert_eq!(items[1].name, "id-3");
    assert_eq!(items[1].restore_path, "/etc/hosts");
}

#[test]
fn malformed_lines_are_skipped() {
    assert!(parse_archive_listing(&chars(""), &chars("/home/u")).is_empty());
    assert!(parse_archive_listing(&chars("\n\n   \nno fields\n"), &chars("/")).is_empty());
    assert!(parse_line(&chars("id-2|bad"), &chars("/h")).is_none());
}

#[test]
fn bad_sizes_count_as_zero() {
    let items = parse_archive_listing(&chars("a|x1|p\nb|-5|q\nc|+12|r\nd|99999999999999999999|s"), &chars("/h/"));
    assert_eq!(items.iter().map(|i| i.size).collect::<Vec<u64>>(), vec![0, 0, 12, 0]);
    assert_eq!(items[0].restore_path, "/h/p");
}

#[test]
fn crlf_and_extra_fields() {
    let items = parse_archive_listing(&chars("a|3|docs/x\r\nb|4|y|extra"), &chars("/home/u"));
    assert_eq!(items.len(), 2);
    assert_eq!(items[0].original_path, "docs/x");
    assert_eq!(items[1].original_path, "y");
    assert_eq!(items[1].size, 4);
}

#[test]
fn sizes_parse_like_u64() {
    let v = chars("18446744073709551615");
    assert_eq!(parse_size(&v, 0, v.len()), Some(u64::MAX));
    let v = chars("18446744073709551616");
    assert_eq!(parse_size(&v, 0, v.len()), None);
    let v = chars("+");
    assert_eq!(parse_size(&v, 0, v.len()), None);
    let v = chars("");
    assert_eq!(parse_size(&v, 0, v.len()), None);
}

#[test]
fn listing_result_reports_failures() {
    let r = listing_result(Some(2), b"", b"bad password", "/home/u");
    assert_eq!(r.unwrap_err(), "Failed to list archive contents (exit code: Some(2)): bad password");
    let r = listing_result(None, b"", b"", "/home/u");
    assert_eq!(r.unwrap_err(), "Failed to list archive contents (exit code: None): ");
    let ok = listing_result(Some(0), b"n|1|f\n", b"", "/home/u").unwrap();
    assert_eq!(ok.len(), 1);
    assert_eq!(ok[0].restore_path, "/home/u/f");
}

#[test]
fn listing_decodes_invalid_utf8_lossily() {
    let ok = listing_result(Some(0), b"n\xff|1|f\n", b"", "/home/u").unwrap();
    assert_eq!(ok[0].name, "n\u{fffd}");
}

#[test]
fn conflicts_follow_the_probe() {
    let mut items = parse_archive_listing(&chars("a|1|x\nb|2|y\nc|3|z"), &chars("/h"));
    mark_conflicts(&mut items, &vec![true, false]);
    assert_eq!(items.iter().map(|i| i.conflicts).collect::<Vec<bool>>(), vec![true, false, false]);
}
