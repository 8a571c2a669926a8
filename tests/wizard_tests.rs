use backup_manager::backend::{BackupEngine, Outcome};
use backup_manager::config::{
    ApplicationConfig, BackupConfig, ModeConfig, ModernConfigurations, ValidationConfig,
};
use backup_manager::dispatch::{Action, App};
use backup_manager::security::SecurePassword;
use backup_manager::state::AppState;
use backup_manager::types::{BackupItem, BackupMode, ProgressStatus, SecurityLevel};
use backup_manager::widgets::{Key, KeyInput};

fn config() -> BackupConfig {
    BackupConfig {
        version: "1".to_string(),
        description: String::new(),
        last_updated: String::new(),
        backup_modes: vec![(
            "secure".to_string(),
            ModeConfig {
                description: String::new(),
                excludes_sensitive: true,
                security_warning: Some("careful".to_string()),
                categories: vec![("shell".to_string(), vec![".bashrc".to_string(), ".ssh/config".to_string()])],
                exclusions: vec!["*.log".to_string()],
            },
        )],
        modern_configurations: ModernConfigurations {
            description: String::new(),
            categories: vec![(
                "dev".to_string(),
                vec![
                    (
                        "git".to_string(),
                        ApplicationConfig {
                            paths: vec![".gitconfig".to_string()],
                            description: "Git".to_string(),
                            security_level: "medium".to_string(),
                            category: "dev".to_string(),
                            warning: None,
                            exclusions: None,
                        },
                    ),
                    (
                        "aws".to_string(),
                        ApplicationConfig {
                            paths: vec![".aws".to_string()],
                            description: "AWS".to_string(),
                            security_level: "high".to_string(),
                            category: "cloud".to_string(),
                            warning: Some("keys".to_string()),
                            exclusions: None,
                        },
                    ),
                ],
            )],
        },
        security_classifications: Vec::new(),
        backup_strategies: Vec::new(),
        validation: ValidationConfig {
            required_tools: Vec::new(),
            optional_tools: Vec::new(),
            minimum_disk_space: String::new(),
            supported_compression: Vec::new(),
            supported_encryption: Vec::new(),
        },
    }
}

fn app() -> App {
    let engine = BackupEngine::locate(&vec!["/opt/backup.sh".to_string()], &vec![true]).unwrap();
    App::new(config(), engine, None)
}

fn ready_item(name: &str) -> BackupItem {
    let mut i = BackupItem::new(name.to_string(), name.to_string(), "c".to_string(), "d".to_string());
    i.exists = true;
    i.selected = true;
    i
}

fn key(k: Key) -> KeyInput {
    KeyInput { key: k, ctrl: false }
}

#[test]
fn secure_backup_success_reaches_done() {
    let mut a = app();
    a.state.backup_mode = BackupMode::Secure;
    a.state.transition_to(AppState::BackupItemSelection);
    a.state.backup_items = vec![ready_item("a"), ready_item("b")];
    let action = a.start_backup();
    assert!(matches!(action, Action::RunBackup(_)));
    assert_eq!(a.state.current_state, AppState::BackupProgress);
    a.finish_backup(Outcome::Success);
    assert_eq!(a.state.current_state, AppState::BackupComplete);
    let p = a.state.backup_progress.as_ref().unwrap();
    assert_eq!(p.status, ProgressStatus::Completed);
    assert_eq!(p.items_completed, 2);
    assert_eq!(p.total_items, 2);
}

#[test]
fn complete_mode_needs_a_secret() {
    let mut a = app();
    a.state.backup_mode = BackupMode::Complete;
    a.state.transition_to(AppState::BackupItemSelection);
    a.state.backup_items = vec![ready_item("a")];
    let action = a.start_backup();
    assert!(matches!(action, Action::Idle));
    assert_eq!(a.state.current_state, AppState::BackupItemSelection);
    assert!(a.state.status_message.is_some());
    assert!(a.state.backup_progress.is_none());

    // Enter leads to the password step instead of the run.
    let action = a.handle_event(key(Key::Enter));
    assert!(matches!(action, Action::Idle));
    assert_eq!(a.state.current_state, AppState::BackupPasswordInput);
}

#[test]
fn failed_backup_goes_to_error_and_back_to_its_start() {
    let mut a = app();
    a.state.backup_mode = BackupMode::Complete;
    a.state.transition_to(AppState::BackupModeSelection);
    a.state.transition_to(AppState::BackupPasswordInput);
    a.state.backup_items = vec![ready_item("a")];
    a.state.backup_password = Some(SecurePassword::new("pw".to_string()));
    assert!(matches!(a.start_backup(), Action::RunBackup(_)));
    a.finish_backup(Outcome::Failure { exit_code: Some(1), stderr: vec!["disk full".to_string()] });
    match &a.state.current_state {
        AppState::Error(message) => assert!(message.contains("disk full")),
        other => panic!("expected the error step, got {:?}", other),
    }
    a.state.go_back();
    assert_eq!(a.state.current_state, AppState::BackupPasswordInput);
    assert!(a.state.backup_progress.is_none());
    assert!(a.state.backup_password.is_none());
}

#[test]
fn refusals_are_status_messages() {
    let mut a = app();
    assert!(matches!(a.start_backup(), Action::Idle));
    assert_eq!(a.state.status_message, Some("No items selected for backup".to_string()));
    let mut missing = ready_item("gone");
    missing.exists = false;
    a.state.backup_items = vec![missing];
    assert!(matches!(a.start_backup(), Action::Idle));
    assert_eq!(a.state.status_message, Some("Some selected items do not exist on disk".to_string()));
    assert!(matches!(a.start_restore(), Action::Idle));
    assert_eq!(a.state.status_message, Some("No items selected for restore".to_string()));
    assert_eq!(a.state.current_state, AppState::MainMenu);
}

#[test]
fn global_chords() {
    let mut a = app();
    let r = a.handle_event(KeyInput { key: Key::Char('h'), ctrl: true });
    assert!(matches!(r, Action::Idle));
    assert_eq!(a.state.current_state, AppState::Help);
    a.handle_event(key(Key::Esc));
    assert_eq!(a.state.current_state, AppState::MainMenu);
    let r = a.handle_event(KeyInput { key: Key::Char('c'), ctrl: true });
    assert!(matches!(r, Action::Exit));
    assert_eq!(a.state.current_state, AppState::Exit);
}

#[test]
fn menu_walkthrough_loads_items() {
    let mut a = app();
    assert!(matches!(a.handle_event(key(Key::Char('1'))), Action::Idle));
    assert_eq!(a.state.current_state, AppState::BackupModeSelection);
    assert!(matches!(a.handle_event(key(Key::Char('s'))), Action::LoadBackupItems));
    assert_eq!(a.state.backup_mode, BackupMode::Secure);
    let items = a.candidate_items();
    let names: Vec<&str> = items.iter().map(|i| i.name.as_str()).collect();
    assert_eq!(names, vec![".bashrc", "git (.gitconfig)"]);
    assert_eq!(items[0].description, "Backup item from shell category");
    assert_eq!(items[1].security_level, SecurityLevel::Medium);
    a.backup_items_loaded(items);
    assert_eq!(a.state.current_state, AppState::BackupItemSelection);
    a.handle_event(key(Key::Char('a')));
    assert!(a.state.backup_items.iter().all(|i| i.selected));
    a.handle_event(key(Key::Char('n')));
    assert!(a.state.backup_items.iter().all(|i| !i.selected));
    a.handle_event(key(Key::Esc));
    assert_eq!(a.state.current_state, AppState::BackupModeSelection);
}

#[test]
fn secure_mode_leaves_out_sensitive_paths() {
    let c = config();
    let items = c.get_items_for_mode(&BackupMode::Secure);
    assert!(items.iter().all(|i| i.security_level != SecurityLevel::High));
    let names: Vec<&str> = items.iter().map(|i| i.name.as_str()).collect();
    assert_eq!(names, vec![".bashrc", "git (.gitconfig)"]);
    assert!(c.has_unique_names());
}

#[test]
fn enter_with_nothing_selected_explains_why() {
    let mut a = app();
    a.state.transition_to(AppState::BackupItemSelection);
    a.state.backup_items = vec![BackupItem::new("a".into(), "a".into(), "c".into(), "d".into())];
    assert!(matches!(a.handle_event(key(Key::Enter)), Action::Idle));
    assert_eq!(a.state.current_state, AppState::BackupItemSelection);
    assert_eq!(a.state.status_message, Some("No items selected for backup".to_string()));
}

#[test]
fn password_entry_starts_the_backup() {
    let mut a = app();
    a.state.backup_mode = BackupMode::Complete;
    a.state.transition_to(AppState::BackupPasswordInput);
    a.state.backup_items = vec![ready_item("a")];
    for c in "pw".chars() {
        a.handle_event(key(Key::Char(c)));
    }
    a.handle_event(key(Key::Tab));
    for c in "pw".chars() {
        a.handle_event(key(Key::Char(c)));
    }
    assert!(matches!(a.handle_event(key(Key::Enter)), Action::RunBackup(_)));
    assert_eq!(a.state.current_state, AppState::BackupProgress);
    assert_eq!(a.state.backup_password.as_ref().unwrap().as_bytes(), b"pw");
}

#[test]
fn complete_mode_items_include_sensitive_applications() {
    let c = config();
    let items = c.get_items_for_mode(&BackupMode::Complete);
    let names: Vec<&str> = items.iter().map(|i| i.name.as_str()).collect();
    assert_eq!(names, vec!["git (.gitconfig)", "aws (.aws)"]);
    assert_eq!(items[1].warning, Some("keys".to_string()));
    assert_eq!(c.get_exclusions_for_mode(&BackupMode::Secure), vec!["*.log".to_string()]);
    assert!(c.get_exclusions_for_mode(&BackupMode::Complete).is_empty());
    assert_eq!(c.get_security_warning_for_mode(&BackupMode::Secure), Some("careful".to_string()));
}

#[test]
fn error_step_returns_on_enter() {
    let mut a = app();
    a.state.transition_to(AppState::RestoreArchiveSelection);
    a.restore_items_loaded(Err("Failed to list archive contents: nope".to_string()));
    assert_eq!(a.state.current_state, AppState::Error("Failed to list archive contents: nope".to_string()));
    a.handle_event(key(Key::Enter));
    assert_eq!(a.state.current_state, AppState::RestoreArchiveSelection);
    assert_eq!(a.state.error_message, None);
}

#[test]
fn progress_lines_advance_the_run() {
    let mut a = app();
    a.state.backup_items = vec![ready_item("a"), ready_item("b")];
    assert!(matches!(a.start_backup(), Action::RunBackup(_)));
    a.observe_backup_line("Processing: a");
    a.observe_backup_line("something else");
    let p = a.state.backup_progress.as_ref().unwrap();
    assert_eq!(p.items_completed, 1);
    assert_eq!(p.current_item, "Processing: a");
    assert_eq!(p.status, ProgressStatus::Processing);
}
