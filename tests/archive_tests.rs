use backup_manager::archives::{archive_name_ok, build_archive_list, classify_archive, sort_newest_first, ArchiveEntry};
use backup_manager::types::{ArchiveInfo, BackupMode};

fn entry(name: &str, created: i64) -> ArchiveEntry {
    ArchiveEntry { path: format!("/b/{}", name), file_name: name.to_string(), size: 10, created }
}

#[test]
fn archive_extensions() {
    assert!(archive_name_ok("backup.tar.gz"));
    assert!(archive_name_ok("backup.XZ"));
    assert!(archive_name_ok("backup.Tar"));
    assert!(!archive_name_ok("backup.zip"));
    assert!(!archive_name_ok(".tar"));
    assert!(!archive_name_ok("tar"));
}

#[test]
fn name_decides_mode_and_encryption() {
    let a = classify_archive(&entry("profile-secure-2024.tar.gz", 0)).unwrap();
    assert_eq!(a.mode, BackupMode::Secure);
    assert!(!a.encrypted);
    assert_eq!(a.description, "Backup archive from 1970-01-01 00:00");
    assert_eq!(a.path, "/b/profile-secure-2024.tar.gz");
    let b = classify_archive(&entry("profile-complete.tar.xz", 90_061)).unwrap();
    assert_eq!(b.mode, BackupMode::Complete);
    assert!(b.encrypted);
    assert_eq!(b.description, "Backup archive from 1970-01-02 01:01");
    assert!(classify_archive(&entry("notes.txt", 0)).is_none());
}

#[test]
fn inventory_is_newest_first() {
    let entries = vec![entry("a.tar", 5), entry("b.txt", 9), entry("c.gz", 7), entry("d.xz", 5), entry("e.tar", 1)];
    let list = build_archive_list(&entries);
    let names: Vec<&str> = list.iter().map(|a| a.name.as_str()).collect();
    assert_eq!(names, vec!["c.gz", "a.tar", "d.xz", "e.tar"]);
}

#[test]
fn sorting_keeps_every_record() {
    let mk = |n: &str, c: i64| ArchiveInfo {
        path: n.to_string(),
        name: n.to_string(),
        created: c,
        size: 0,
        mode: BackupMode::Secure,
        encrypted: false,
        description: String::new(),
        items: Vec::new(),
    };
    let sorted = sort_newest_first(vec![mk("x", 1), mk("y", 3), mk("z", 2)]);
    let names: Vec<&str> = sorted.iter().map(|a| a.name.as_str()).collect();
    assert_eq!(names, vec!["y", "z", "x"]);
    assert!(sort_newest_first(Vec::new()).is_empty());
}
