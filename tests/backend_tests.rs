use backup_manager::backend::{
    backup_plan, failure_text, outcome_of, reports_progress, BackupEngine, EngineError, Outcome,
};
use backup_manager::security::SecurePassword;
use backup_manager::types::{ArchiveInfo, BackupMode, RestoreItem};

fn engine() -> BackupEngine {
    BackupEngine::locate(&vec!["/opt/a.sh".to_string(), "/opt/b.sh".to_string()], &vec![false, true]).unwrap()
}

fn archive(encrypted: bool) -> ArchiveInfo {
    ArchiveInfo {
        path: "/b/x.tar.gz".to_string(),
        name: "x.tar.gz".to_string(),
        created: 0,
        size: 1,
        mode: BackupMode::Secure,
        encrypted,
        description: String::new(),
        items: Vec::new(),
    }
}

#[test]
fn test_backup_engine_creation() {
    let e = engine();
    assert_eq!(e.script_path(), "/opt/b.sh");
}

#[test]
fn missing_program_is_a_configuration_error() {
    let r = BackupEngine::locate(&BackupEngine::script_candidates(), &vec![false, false, false, false]);
    assert!(matches!(r, Err(EngineError::ScriptNotFound)));
    let r = BackupEngine::locate(&vec![], &vec![]);
    assert!(r.is_err());
}

#[test]
fn first_found_program_wins() {
    let c = BackupEngine::script_candidates();
    assert_eq!(c.len(), 4);
    let e = BackupEngine::locate(&c, &vec![false, true, true, false]).unwrap();
    assert_eq!(e.script_path(), "./backup-profile-enhanced.sh");
}

#[test]
fn mode_program_falls_back_to_the_engine() {
    let e = engine();
    assert_eq!(e.script_for_mode(BackupMode::Secure, &vec![false, false]), "/opt/b.sh");
    assert_eq!(e.script_for_mode(BackupMode::Secure, &vec![false, true]), "/home/dtaylor/GitHub/custom-tools/backup-profile-secure.sh");
    assert_eq!(e.script_for_mode(BackupMode::Complete, &vec![true, true]), "./backup-profile-enhanced.sh");
}

#[test]
fn backup_command_and_environment() {
    let plan = backup_plan(&"s.sh".to_string(), None, None);
    assert_eq!(plan.program, "bash");
    assert_eq!(plan.args, vec!["s.sh".to_string()]);
    assert_eq!(plan.env, vec![("BACKUP_DIR".to_string(), ".".to_string())]);

    let pw = SecurePassword::new("pw".to_string());
    let out = "/tmp/out".to_string();
    let plan = backup_plan(&"s.sh".to_string(), Some(&pw), Some(&out));
    assert_eq!(
        plan.env,
        vec![
            ("BACKUP_DIR".to_string(), "/tmp/out".to_string()),
            ("BACKUP_ENCRYPT".to_string(), "yes".to_string()),
        ]
    );
}

#[test]
fn restore_command_passes_secret_in_environment() {
    let e = engine();
    let items = vec![
        RestoreItem { name: "a".into(), original_path: "a".into(), restore_path: "/h/a".into(), size: 1, selected: true, conflicts: false },
        RestoreItem { name: "b".into(), original_path: "b".into(), restore_path: "/h/b".into(), size: 1, selected: true, conflicts: false },
    ];
    let refs: Vec<&RestoreItem> = items.iter().collect();
    let pw = SecurePassword::new("s3cret".to_string());
    let mut plan = e.start_restore(&archive(true), &refs, Some(&pw));
    assert_eq!(
        plan.args,
        vec!["/opt/b.sh", "restore_backup", "/b/x.tar.gz", "--decrypt", "--item", "a", "--item", "b"]
            .into_iter()
            .map(String::from)
            .collect::<Vec<String>>()
    );
    assert_eq!(plan.env, vec![("RESTORE_PASSWORD".to_string(), "s3cret".to_string())]);
    plan.wipe_environment();
    assert!(plan.env.is_empty());

    let plan = e.start_restore(&archive(false), &Vec::new(), None);
    assert_eq!(plan.args.len(), 3);
    assert!(plan.env.is_empty());
}

#[test]
fn list_command() {
    let e = engine();
    let pw = SecurePassword::new("k".to_string());
    let plan = e.list_archive_contents(&archive(true), Some(&pw));
    assert_eq!(plan.args, vec!["/opt/b.sh", "list_archive", "/b/x.tar.gz", "--decrypt"].into_iter().map(String::from).collect::<Vec<String>>());
    assert_eq!(plan.env, vec![("LIST_PASSWORD".to_string(), "k".to_string())]);
}

#[test]
fn outcomes() {
    assert!(matches!(outcome_of(Some(0), &vec!["noise".to_string()]), Outcome::Success));
    match outcome_of(Some(1), &vec!["disk full".to_string()]) {
        Outcome::Failure { exit_code, stderr } => {
            assert_eq!(exit_code, Some(1));
            assert_eq!(stderr, vec!["disk full".to_string()]);
        }
        Outcome::Success => panic!("a non-zero exit is a failure"),
    }
    assert!(matches!(outcome_of(None, &vec![]), Outcome::Failure { exit_code: None, .. }));
    let many: Vec<String> = (0..30).map(|i| format!("line {}", i)).collect();
    match outcome_of(Some(2), &many) {
        Outcome::Failure { stderr, .. } => {
            assert_eq!(stderr.len(), 20);
            assert_eq!(stderr[0], "line 10");
        }
        Outcome::Success => panic!("a non-zero exit is a failure"),
    }
}

#[test]
fn failure_messages() {
    assert_eq!(
        failure_text("Backup", Some(1), &vec!["disk full".to_string()]),
        "Backup process failed with exit code: Some(1)\ndisk full"
    );
    assert_eq!(failure_text("Restore", None, &vec![]), "Restore process failed with exit code: None");
    assert_eq!(failure_text("Backup", Some(-2147483648), &vec![]), "Backup process failed with exit code: Some(-2147483648)");
}

#[test]
fn progress_markers() {
    assert!(reports_progress("Processing: .bashrc", "Processing:"));
    assert!(!reports_progress("Restoring .bashrc", "Restoring:"));
}

#[test]
fn test_tool_validation() {
    let e = engine();
    assert_eq!(BackupEngine::required_tools(), vec!["tar", "gzip", "sha256sum", "find"]);
    assert_eq!(BackupEngine::optional_tools(), vec!["gpg", "pv", "xz"]);
    assert!(e.validate_tools(&vec![true, true, true, true]).is_empty());
    assert_eq!(
        e.validate_tools(&vec![true, false]),
        vec!["Required tool missing: gzip".to_string(), "Required tool missing: sha256sum".to_string(), "Required tool missing: find".to_string()]
    );
}

#[test]
fn backup_command_uses_a_known_program() {
    let e = engine();
    let plan = e.start_backup(BackupMode::Secure, None, None);
    assert_eq!(plan.args.len(), 1);
    let known = ["./backup-profile-secure.sh", "/home/dtaylor/GitHub/custom-tools/backup-profile-secure.sh", "/opt/b.sh"];
    assert!(known.contains(&plan.args[0].as_str()));
}
