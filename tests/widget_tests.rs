use backup_manager::screens::{BackupModeSelectionScreen, BackupPasswordScreen, MainMenuScreen, RestorePasswordScreen};
use backup_manager::widgets::{Key, LoadingSpinner, Menu, MenuItem, PasswordInput};

fn type_text(p: &mut PasswordInput, s: &str) {
    for c in s.chars() {
        assert!(p.handle_key(Key::Char(c)).is_none());
    }
}

#[test]
fn password_needs_matching_confirmation() {
    let mut p = PasswordInput::new(true, true);
    type_text(&mut p, "abc");
    assert!(p.strength().is_some());
    assert!(p.handle_key(Key::Enter).is_none());
    p.handle_key(Key::Tab);
    type_text(&mut p, "abd");
    assert!(p.handle_key(Key::Enter).is_none());
    p.handle_key(Key::Backspace);
    type_text(&mut p, "c");
    let secret = p.handle_key(Key::Enter).unwrap();
    assert_eq!(secret.as_bytes(), b"abc");
    assert_eq!(p.input_len(), 0);
    assert_eq!(p.confirm_len(), 0);
    assert!(p.strength().is_none());
}

#[test]
fn password_editing_at_the_cursor() {
    let mut p = PasswordInput::new(false, false);
    type_text(&mut p, "ac");
    p.handle_key(Key::Left);
    type_text(&mut p, "b");
    p.handle_key(Key::Right);
    p.handle_key(Key::Right);
    type_text(&mut p, "é");
    assert!(p.strength().is_none());
    let secret = p.handle_key(Key::Enter).unwrap();
    assert_eq!(secret.as_bytes(), "abcé".as_bytes());
    assert!(p.handle_key(Key::Enter).is_none());
}

#[test]
fn clearing_wipes_both_fields() {
    let mut p = PasswordInput::new(false, true);
    type_text(&mut p, "xy");
    p.clear();
    assert_eq!(p.input_len(), 0);
    assert!(!p.is_on_confirm());
}

#[test]
fn menu_keys_and_wrapping() {
    let mut m = Menu::new(vec![
        MenuItem::new('1', "One".to_string(), "first".to_string()),
        MenuItem::new('2', "Two".to_string(), "second".to_string()).disabled(),
    ]);
    assert_eq!(m.handle_key(Key::Char('1')), Some('1'));
    assert_eq!(m.handle_key(Key::Char('2')), None);
    assert_eq!(m.handle_key(Key::Char('9')), None);
    assert_eq!(m.handle_key(Key::Up), None);
    assert_eq!(m.selected_index(), 1);
    assert_eq!(m.handle_key(Key::Enter), None);
    m.move_selection_down();
    assert_eq!(m.selected_index(), 0);
    assert_eq!(m.handle_key(Key::Enter), Some('1'));
    assert_eq!(m.handle_key(Key::Char('j')), None);
    assert_eq!(m.selected_index(), 1);
}

#[test]
fn screens_start_empty() {
    let mut main = MainMenuScreen::new();
    assert_eq!(main.handle_key(Key::Char('q')), Some('q'));
    let mut mode = BackupModeSelectionScreen::new();
    assert_eq!(mode.handle_key(Key::Char('2')), Some('2'));
    let mut bp = BackupPasswordScreen::new();
    assert!(bp.handle_key(Key::Enter).is_none());
    let mut rp = RestorePasswordScreen::new();
    rp.handle_key(Key::Char('k'));
    assert!(rp.handle_key(Key::Enter).is_some());
}

#[test]
fn spinner_cycles() {
    let mut s = LoadingSpinner::new();
    let first = s.frame();
    for _ in 0..10 {
        s.tick();
    }
    assert_eq!(s.frame(), first);
    s.tick();
    assert_ne!(s.frame(), first);
}
