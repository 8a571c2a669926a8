use backup_manager::state::{AppState, AppStateManager};
use backup_manager::types::{BackupItem, RestoreItem, SecurityLevel};

fn item(name: &str) -> BackupItem {
    BackupItem::new(name.to_string(), name.to_string(), "cat".to_string(), "desc".to_string())
}

fn restore_item(name: &str, size: u64, conflicts: bool) -> RestoreItem {
    RestoreItem {
        name: name.to_string(),
        original_path: name.to_string(),
        restore_path: format!("/home/u/{}", name),
        size,
        selected: false,
        conflicts,
    }
}

#[test]
fn back_navigation_is_single_level() {
    let mut m = AppStateManager::new();
    m.transition_to(AppState::BackupModeSelection);
    m.transition_to(AppState::BackupItemSelection);
    m.transition_to(AppState::BackupPasswordInput);
    m.go_back();
    assert_eq!(m.current_state, AppState::BackupItemSelection);
    m.go_back();
    assert_eq!(m.current_state, AppState::BackupItemSelection);
    m.go_back();
    assert_eq!(m.current_state, AppState::BackupItemSelection);
    assert_eq!(m.previous_state, None);
}

#[test]
fn go_back_without_target_changes_nothing() {
    let mut m = AppStateManager::new();
    m.go_back();
    assert_eq!(m.current_state, AppState::MainMenu);
}

#[test]
fn transitions_reset_the_cursor() {
    let mut m = AppStateManager::new();
    m.selected_item_index = 4;
    m.scroll_offset = 2;
    m.transition_to(AppState::Help);
    assert_eq!(m.selected_item_index, 0);
    assert_eq!(m.scroll_offset, 0);
    assert_eq!(m.previous_state, Some(AppState::MainMenu));
}

#[test]
fn error_step_stores_message_and_back_clears_it() {
    let mut m = AppStateManager::new();
    m.transition_to(AppState::BackupItemSelection);
    m.set_error("boom".to_string());
    assert_eq!(m.current_state, AppState::Error("boom".to_string()));
    assert_eq!(m.error_message, Some("boom".to_string()));
    m.go_back();
    assert_eq!(m.current_state, AppState::BackupItemSelection);
    assert_eq!(m.error_message, None);
}

#[test]
fn select_all_then_none_leaves_nothing_selected() {
    let mut m = AppStateManager::new();
    m.backup_items = vec![item("a"), item("b"), item("c")];
    m.toggle_backup_item(1);
    m.select_all_backup_items(true);
    assert!(m.backup_items.iter().all(|i| i.selected));
    m.select_all_backup_items(false);
    assert!(m.backup_items.iter().all(|i| !i.selected));
}

#[test]
fn toggling_twice_restores_the_selection() {
    let mut m = AppStateManager::new();
    m.backup_items = vec![item("a"), item("b")];
    m.toggle_backup_item(0);
    assert!(m.backup_items[0].selected);
    m.toggle_backup_item(0);
    assert!(!m.backup_items[0].selected);
    assert!(!m.backup_items[1].selected);
    m.toggle_backup_item(5);
    assert!(m.backup_items.iter().all(|i| !i.selected));
}

#[test]
fn backup_ready_iff_some_item_selected() {
    let mut m = AppStateManager::new();
    assert!(!m.is_backup_ready());
    assert!(m.get_selected_backup_items().is_empty());
    m.backup_items = vec![item("a"), item("b"), item("c")];
    assert!(!m.is_backup_ready());
    assert!(m.get_selected_backup_items().is_empty());
    m.toggle_backup_item(2);
    assert!(m.is_backup_ready());
    let selected = m.get_selected_backup_items();
    assert_eq!(selected.len(), 1);
    assert_eq!(selected[0].name, "c");
    m.select_all_backup_items(true);
    assert!(m.is_backup_ready());
    assert_eq!(m.get_selected_backup_items().len(), 3);
}

#[test]
fn restore_ready_needs_an_archive_and_a_selection() {
    let mut m = AppStateManager::new();
    m.restore_items = vec![restore_item("a", 1, false)];
    m.select_all_restore_items(true);
    assert!(!m.is_restore_ready());
    assert_eq!(m.get_selected_restore_items().len(), 1);
}

#[test]
fn selection_wraps_around() {
    let mut m = AppStateManager::new();
    m.move_selection_up(3);
    assert_eq!(m.selected_item_index, 2);
    m.move_selection_down(3, 10);
    assert_eq!(m.selected_item_index, 0);
    m.move_selection_down(0, 10);
    assert_eq!(m.selected_item_index, 0);
}

#[test]
fn moving_down_scrolls_to_keep_cursor_visible() {
    let mut m = AppStateManager::new();
    for _ in 0..4 {
        m.move_selection_down(20, 3);
    }
    assert_eq!(m.selected_item_index, 4);
    assert_eq!(m.scroll_offset, 2);
    m.move_selection_up(20);
    m.move_selection_up(20);
    m.move_selection_up(20);
    assert_eq!(m.selected_item_index, 1);
    assert_eq!(m.scroll_offset, 1);
}

#[test]
fn wrapping_down_scrolls_back_to_the_top() {
    let mut m = AppStateManager::new();
    m.selected_item_index = 2;
    m.scroll_offset = 1;
    m.move_selection_down(3, 2);
    assert_eq!(m.selected_item_index, 0);
    assert_eq!(m.scroll_offset, 0);
}

#[test]
fn paging_and_scrolling() {
    let mut m = AppStateManager::new();
    m.page_down(25, 10);
    assert_eq!(m.scroll_offset, 9);
    assert_eq!(m.selected_item_index, 9);
    m.page_down(25, 10);
    assert_eq!(m.scroll_offset, 15);
    assert_eq!(m.selected_item_index, 18);
    m.page_up(10);
    assert_eq!(m.scroll_offset, 6);
    assert_eq!(m.selected_item_index, 9);
    m.scroll_up(100);
    assert_eq!(m.scroll_offset, 0);
    m.scroll_down(5, 25, 10);
    assert_eq!(m.scroll_offset, 5);
    m.scroll_down(100, 25, 10);
    assert_eq!(m.scroll_offset, 15);
    m.page_down(0, 10);
    assert_eq!(m.selected_item_index, 0);
}

#[test]
fn visible_window() {
    let mut m = AppStateManager::new();
    m.backup_items = vec![item("a"), item("b"), item("c"), item("d")];
    m.scroll_offset = 1;
    assert_eq!(m.get_visible_backup_items(2), (1, 3));
    assert_eq!(m.get_visible_backup_items(10), (1, 4));
    assert_eq!(m.get_visible_restore_items(usize::MAX), (1, 0));
}

#[test]
fn summaries_count_selected_items() {
    let mut m = AppStateManager::new();
    let mut a = item("a");
    a.size = Some(100);
    let b = item("b").with_security_level(SecurityLevel::High);
    let mut c = item("c");
    c.size = Some(u64::MAX);
    m.backup_items = vec![a, b, c];
    m.toggle_backup_item(0);
    m.toggle_backup_item(1);
    assert_eq!(m.get_backup_summary(), (2, 100, 1));
    m.toggle_backup_item(2);
    assert_eq!(m.get_backup_summary(), (3, u64::MAX, 1));

    m.restore_items = vec![restore_item("x", 5, true), restore_item("y", 7, false)];
    m.select_all_restore_items(true);
    assert_eq!(m.get_restore_summary(), (2, 12, 1));
}

#[test]
fn resets_drop_run_data() {
    let mut m = AppStateManager::new();
    m.backup_items = vec![item("a")];
    m.reset_backup_state();
    assert!(m.backup_items.is_empty());
    assert!(m.backup_password.is_none());
    m.restore_items = vec![restore_item("x", 1, false)];
    m.reset_restore_state();
    assert!(m.restore_items.is_empty());
    assert!(m.selected_archive.is_none());
}

#[test]
fn status_messages() {
    let mut m = AppStateManager::default();
    m.set_status("hello".to_string());
    assert_eq!(m.status_message, Some("hello".to_string()));
    m.clear_status();
    assert_eq!(m.status_message, None);
}

#[test]
fn item_builders() {
    let i = item("a").with_warning("careful".to_string()).with_security_level(SecurityLevel::Medium);
    assert_eq!(i.warning, Some("careful".to_string()));
    assert_eq!(i.security_level, SecurityLevel::Medium);
    assert!(!i.selected && !i.exists && i.size.is_none());
}
