//! The wizard's screens as far as they hold input state: the menus of the
//! main menu and the mode choice, and the password fields. Drawing them is
//! left to the terminal layer.
use vstd::prelude::*;
use vstd::utf8::encode_utf8;
use crate::security::SecurePassword;
use crate::text::owned;
use crate::widgets::{menu_pick, Key, Menu, MenuItem, PasswordInput};

verus! {

/// A menu entry made from literals.
fn entry(key: char, label: &str, description: &str) -> (r: MenuItem)
    ensures
        r.key == key,
        r.label@ == label@,
        r.description@ == description@,
        r.enabled,
{
    MenuItem::new(key, owned(label), owned(description))
}

/// The entries' keys, in order.
pub open spec fn menu_keys(items: Seq<MenuItem>) -> Seq<char> {
    items.map_values(|m: MenuItem| m.key)
}

pub struct MainMenuScreen {
    pub menu: Menu,
}

impl MainMenuScreen {
    /// Backup (`1`), Restore (`2`) and Quit (`q`), all enabled.
    pub fn new() -> (r: Self)
        ensures
            menu_keys(r.menu.entries()) == seq!['1', '2', 'q'],
            forall|i: int| 0 <= i < r.menu.entries().len() ==> #[trigger] r.menu.entries()[i].enabled,
            r.menu.cursor() == 0,
    {
        let items = vec![
            entry('1', "Backup", "Create a backup of your files"),
            entry('2', "Restore", "Restore files from a backup"),
            entry('q', "Quit", "Exit the application"),
        ];
        let ghost v = items@;
        assert(menu_keys(v) =~= seq!['1', '2', 'q']);
        MainMenuScreen { menu: Menu::new(items) }
    }

    pub fn handle_key(&mut self, key: Key) -> (r: Option<char>)
        ensures
            r == menu_pick(old(self).menu.entries(), old(self).menu.cursor(), key),
            final(self).menu.entries() == old(self).menu.entries(),
    {
        self.menu.handle_key(key)
    }
}

pub struct BackupModeSelectionScreen {
    pub menu: Menu,
}

impl BackupModeSelectionScreen {
    /// Secure mode (`1`) and complete mode (`2`), both enabled.
    pub fn new() -> (r: Self)
        ensures
            menu_keys(r.menu.entries()) == seq!['1', '2'],
            forall|i: int| 0 <= i < r.menu.entries().len() ==> #[trigger] r.menu.entries()[i].enabled,
            r.menu.cursor() == 0,
    {
        let items = vec![
            entry('1', "Secure Mode", "Safe backup excluding sensitive credentials"),
            entry('2', "Complete Mode", "Full backup including SSH keys and credentials (encrypted)"),
        ];
        let ghost v = items@;
        assert(menu_keys(v) =~= seq!['1', '2']);
        BackupModeSelectionScreen { menu: Menu::new(items) }
    }

    pub fn handle_key(&mut self, key: Key) -> (r: Option<char>)
        ensures
            r == menu_pick(old(self).menu.entries(), old(self).menu.cursor(), key),
            final(self).menu.entries() == old(self).menu.entries(),
    {
        self.menu.handle_key(key)
    }
}

/// Asks for the backup secret twice and reports its strength.
pub struct BackupPasswordScreen {
    pub password_input: PasswordInput,
}

impl BackupPasswordScreen {
    pub fn new() -> (r: Self)
        ensures
            r.password_input.is_cleared(),
            r.password_input.shows_strength(),
            r.password_input.confirming(),
    {
        BackupPasswordScreen { password_input: PasswordInput::new(true, true) }
    }

    pub fn handle_key(&mut self, key: Key) -> (r: Option<SecurePassword>)
        requires
            old(self).password_input.wf(),
        ensures
            final(self).password_input.wf(),
            final(self).password_input.confirming() == old(self).password_input.confirming(),
            key != Key::Enter ==> r is None,
            key == Key::Enter ==> (r is Some <==> old(self).password_input.submittable()),
            r is Some ==> r->0@ == encode_utf8(old(self).password_input.text()),
    {
        self.password_input.handle_key(key)
    }
}

/// Asks once for the secret of an encrypted archive.
pub struct RestorePasswordScreen {
    pub password_input: PasswordInput,
}

impl RestorePasswordScreen {
    pub fn new() -> (r: Self)
        ensures
            r.password_input.is_cleared(),
            !r.password_input.shows_strength(),
            !r.password_input.confirming(),
    {
        RestorePasswordScreen { password_input: PasswordInput::new(false, false) }
    }

    pub fn handle_key(&mut self, key: Key) -> (r: Option<SecurePassword>)
        requires
            old(self).password_input.wf(),
        ensures
            final(self).password_input.wf(),
            final(self).password_input.confirming() == old(self).password_input.confirming(),
            key != Key::Enter ==> r is None,
            key == Key::Enter ==> (r is Some <==> old(self).password_input.submittable()),
            r is Some ==> r->0@ == encode_utf8(old(self).password_input.text()),
    {
        self.password_input.handle_key(key)
    }
}

pub struct BackupItemSelectionScreen;

impl BackupItemSelectionScreen {
    pub fn new() -> Self {
        BackupItemSelectionScreen
    }
}

pub struct BackupProgressScreen;

impl BackupProgressScreen {
    pub fn new() -> Self {
        BackupProgressScreen
    }
}

pub struct BackupCompleteScreen;

impl BackupCompleteScreen {
    pub fn new() -> Self {
        BackupCompleteScreen
    }
}

pub struct RestoreArchiveSelectionScreen;

impl RestoreArchiveSelectionScreen {
    pub fn new() -> Self {
        RestoreArchiveSelectionScreen
    }
}

pub struct RestoreItemSelectionScreen;

impl RestoreItemSelectionScreen {
    pub fn new() -> Self {
        RestoreItemSelectionScreen
    }
}

pub struct RestoreProgressScreen;

impl RestoreProgressScreen {
    pub fn new() -> Self {
        RestoreProgressScreen
    }
}

pub struct RestoreCompleteScreen;

impl RestoreCompleteScreen {
    pub fn new() -> Self {
        RestoreCompleteScreen
    }
}

pub struct HelpScreen;

impl HelpScreen {
    pub fn new() -> Self {
        HelpScreen
    }
}

pub struct ErrorScreen;

impl ErrorScreen {
    pub fn new() -> Self {
        ErrorScreen
    }
}

} // verus!
