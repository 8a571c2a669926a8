//! The command dispatcher: maps the current step and a key to a transition
//! of the wizard, and to the outside work (loading, listing, running the
//! backup program) that the caller performs and reports back.
use vstd::prelude::*;
use vstd::utf8::encode_utf8;
use crate::archives::{classified, newest_first, ArchiveEntry};
use crate::config::{fresh, item_view, BackupConfig};
use crate::listing::{listing_records, restore_path_for};
use crate::backend::{
    failure_message, failure_text, home_or_root, listing_failure, listing_result, probe_conflicts,
    reports_progress, BackupEngine, CommandPlan, Outcome,
};
use crate::screens::{BackupModeSelectionScreen, BackupPasswordScreen, MainMenuScreen, RestorePasswordScreen};
use crate::security::{lossy_text, texts};
use crate::state::{
    cursor_down, cursor_page_down, cursor_page_up, cursor_up,
    all_backup_set, all_restore_set, backup_ready, backup_toggled, backward, forward,
    restore_toggled, selected_backup, selected_restore, AppState, AppStateManager,
};
use crate::text::{owned, push_str, seq_contains, to_chars};
use crate::types::{ArchiveInfo, BackupItem, BackupMode, BackupProgress, ProgressStatus, RestoreItem, RestoreProgress};
use crate::widgets::{menu_pick, Key, KeyInput};

verus! {

/// Outside work the caller performs before the wizard goes on.
pub enum Action {
    /// Nothing to do.
    Idle,
    /// Stop the wizard.
    Exit,
    /// Load the candidate items of the current mode and hand them to `backup_items_loaded`.
    LoadBackupItems,
    /// Look for archives and hand the files found to `archives_loaded`.
    LoadArchives,
    /// Run the listing command and hand what it printed to `restore_items_loaded`.
    ListArchive(CommandPlan),
    /// Run the backup command and hand its outcome to `finish_backup`.
    RunBackup(CommandPlan),
    /// Run the restore command and hand its outcome to `finish_restore`.
    RunRestore(CommandPlan),
}

/// Every selected item exists on disk.
pub open spec fn selected_all_exist(s: Seq<BackupItem>) -> bool {
    forall|i: int| 0 <= i < s.len() && #[trigger] s[i].selected ==> s[i].exists
}

/// Why a backup may not start now, if it may not: nothing is selected, a
/// selected item is missing, or complete mode has no secret yet.
pub open spec fn backup_refusal(m: AppStateManager) -> Option<Seq<char>> {
    refusal_of(m.backup_items@, m.backup_mode, m.backup_password is Some)
}

/// Why a backup of `items` in `mode` may not start, given whether a secret is held.
pub open spec fn refusal_of(items: Seq<BackupItem>, mode: BackupMode, has_secret: bool) -> Option<Seq<char>> {
    if !backup_ready(items) {
        Some("No items selected for backup"@)
    } else if !selected_all_exist(items) {
        Some("Some selected items do not exist on disk"@)
    } else if mode == BackupMode::Complete && !has_secret {
        Some("Complete mode requires an encryption password"@)
    } else {
        None
    }
}

/// A start of the backup from `o` to `f`: refused with the reason as status
/// message and the step kept, or entered with the command handed out.
pub open spec fn backup_start_effect(o: AppStateManager, f: AppStateManager, r: Action, refusal: Option<Seq<char>>) -> bool {
    &&& refusal is Some ==> r is Idle && steps_kept(o, f) && f.status_message is Some
        && f.status_message->0@ == refusal->0
    &&& refusal is None ==> r is RunBackup && moved_to(o, f, AppState::BackupProgress)
}

/// The cursor moved as the key asks, and nothing else changed.
pub open spec fn cursor_effect(o: AppStateManager, f: AppStateManager, key: Key, len: int, paging: bool) -> bool {
    &&& f.same_but_cursor(&o)
    &&& is_up_key(key) ==> (f.selected_item_index as int, f.scroll_offset as int) == cursor_up(
        o.selected_item_index as int,
        o.scroll_offset as int,
        len,
    )
    &&& is_down_key(key) ==> (f.selected_item_index as int, f.scroll_offset as int) == cursor_down(
        o.selected_item_index as int,
        o.scroll_offset as int,
        len,
        VISIBLE_ROWS as int,
    )
    &&& paging && key == Key::PageUp ==> (f.selected_item_index as int, f.scroll_offset as int) == cursor_page_up(
        o.selected_item_index as int,
        o.scroll_offset as int,
        VISIBLE_ROWS as int,
    )
    &&& paging && key == Key::PageDown ==> (f.selected_item_index as int, f.scroll_offset as int) == cursor_page_down(
        o.selected_item_index as int,
        o.scroll_offset as int,
        len,
        VISIBLE_ROWS as int,
    )
}

/// Why a restore may not start now, if it may not.
pub open spec fn restore_refusal(m: AppStateManager) -> Option<Seq<char>> {
    if !(m.selected_archive is Some && selected_restore(m.restore_items@).len() > 0) {
        Some("No items selected for restore"@)
    } else if m.selected_archive->0.encrypted && m.restore_password is None {
        Some("This archive is encrypted and needs its password"@)
    } else {
        None
    }
}

/// The fields of two archive records agree.
pub open spec fn same_archive(a: ArchiveInfo, b: ArchiveInfo) -> bool {
    &&& a.path == b.path
    &&& a.name == b.name
    &&& a.created == b.created
    &&& a.size == b.size
    &&& a.mode == b.mode
    &&& a.encrypted == b.encrypted
    &&& a.description == b.description
    &&& a.items@ == b.items@
}

fn copy_archive(a: &ArchiveInfo) -> (r: ArchiveInfo)
    ensures
        same_archive(r, *a),
{
    let mut items: Vec<String> = Vec::new();
    let mut i: usize = 0;
    while i < a.items.len()
        invariant
            i <= a.items@.len(),
            items@ == a.items@.subrange(0, i as int),
        decreases a.items.len() - i,
    {
        items.push(a.items[i].clone());
        assert(items@ =~= a.items@.subrange(0, i + 1));
        i = i + 1;
    }
    assert(items@ =~= a.items@);
    ArchiveInfo {
        path: a.path.clone(),
        name: a.name.clone(),
        created: a.created,
        size: a.size,
        mode: a.mode,
        encrypted: a.encrypted,
        description: a.description.clone(),
        items,
    }
}

fn count_selected_backup(items: &Vec<BackupItem>) -> (r: usize)
    ensures
        r == selected_backup(items@).len(),
{
    let mut n: usize = 0;
    let mut i: usize = 0;
    while i < items.len()
        invariant
            i <= items@.len(),
            n == selected_backup(items@.subrange(0, i as int)).len(),
            n <= i,
        decreases items.len() - i,
    {
        assert(items@.subrange(0, i + 1).drop_last() =~= items@.subrange(0, i as int));
        if items[i].selected {
            n = n + 1;
        }
        i = i + 1;
    }
    assert(items@.subrange(0, i as int) =~= items@);
    n
}

fn all_selected_exist(items: &Vec<BackupItem>) -> (r: bool)
    ensures
        r == selected_all_exist(items@),
{
    let mut i: usize = 0;
    while i < items.len()
        invariant
            i <= items@.len(),
            forall|j: int| 0 <= j < i && #[trigger] items@[j].selected ==> items@[j].exists,
        decreases items.len() - i,
    {
        if items[i].selected && !items[i].exists {
            assert(items@[i as int].selected);
            return false;
        }
        i = i + 1;
    }
    true
}

/// Esc, `q` and `Q` leave a step.
pub open spec fn is_back_key(key: Key) -> bool {
    key == Key::Esc || key == Key::Char('q') || key == Key::Char('Q')
}

pub open spec fn is_up_key(key: Key) -> bool {
    key == Key::Up || key == Key::Char('k')
}

pub open spec fn is_down_key(key: Key) -> bool {
    key == Key::Down || key == Key::Char('j')
}

/// What a key asks of the main menu: 1 backup, 2 restore, 3 quit, 0 nothing.
pub open spec fn main_menu_intent(pick: Option<char>, key: Key) -> int {
    match pick {
        Some(c) => if c == '1' {
            1
        } else if c == '2' {
            2
        } else if c == 'q' {
            3
        } else {
            0
        },
        None => if key == Key::Char('b') || key == Key::Char('B') {
            1
        } else if key == Key::Char('r') || key == Key::Char('R') {
            2
        } else if key == Key::Char('Q') || key == Key::Esc {
            3
        } else {
            0
        },
    }
}

/// What a key asks of the mode choice: 1 secure, 2 complete, 3 back, 0 nothing.
pub open spec fn mode_intent(pick: Option<char>, key: Key) -> int {
    match pick {
        Some(c) => if c == '1' {
            1
        } else if c == '2' {
            2
        } else {
            0
        },
        None => if key == Key::Char('s') || key == Key::Char('S') {
            1
        } else if key == Key::Char('c') || key == Key::Char('C') {
            2
        } else if is_back_key(key) {
            3
        } else {
            0
        },
    }
}

/// The step and its back target stay as they were.
pub open spec fn steps_kept(o: AppStateManager, f: AppStateManager) -> bool {
    f.current_state == o.current_state && f.previous_state == o.previous_state
}

/// The step and back target after a forward move to `next`.
pub open spec fn moved_to(o: AppStateManager, f: AppStateManager, next: AppState) -> bool {
    (f.current_state, f.previous_state) == forward(o.current_state, next)
}

/// The step and back target after stepping back.
pub open spec fn moved_back(o: AppStateManager, f: AppStateManager) -> bool {
    (f.current_state, f.previous_state) == backward(o.current_state, o.previous_state)
}

pub open spec fn main_menu_effect(o: App, f: App, key: Key, r: Action) -> bool {
    let i = main_menu_intent(menu_pick(o.main_menu.menu.entries(), o.main_menu.menu.cursor(), key), key);
    &&& i == 1 ==> r is Idle && moved_to(o.state, f.state, AppState::BackupModeSelection)
    &&& i == 2 ==> r is LoadArchives && steps_kept(o.state, f.state)
    &&& i == 3 ==> r is Exit && moved_to(o.state, f.state, AppState::Exit)
    &&& i == 0 ==> r is Idle && steps_kept(o.state, f.state)
}

pub open spec fn mode_effect(o: App, f: App, key: Key, r: Action) -> bool {
    let i = mode_intent(menu_pick(o.backup_mode_selection.menu.entries(), o.backup_mode_selection.menu.cursor(), key), key);
    &&& i == 1 ==> r is LoadBackupItems && f.state.backup_mode == BackupMode::Secure && steps_kept(o.state, f.state)
    &&& i == 2 ==> r is LoadBackupItems && f.state.backup_mode == BackupMode::Complete && steps_kept(o.state, f.state)
    &&& i == 3 ==> r is Idle && moved_back(o.state, f.state)
    &&& i == 0 ==> r is Idle && steps_kept(o.state, f.state)
}

pub open spec fn item_selection_effect(o: App, f: App, key: Key, r: Action) -> bool {
    &&& (is_up_key(key) || is_down_key(key) || key == Key::PageUp || key == Key::PageDown) ==> r is Idle
        && cursor_effect(o.state, f.state, key, o.state.backup_items@.len() as int, true)
    &&& key == Key::Char(' ') ==> r is Idle && steps_kept(o.state, f.state) && f.state.backup_items@ == backup_toggled(
        o.state.backup_items@,
        o.state.selected_item_index as int,
    )
    &&& key == Key::Char('a') ==> r is Idle && steps_kept(o.state, f.state) && f.state.backup_items@ == all_backup_set(
        o.state.backup_items@,
        true,
    )
    &&& key == Key::Char('n') ==> r is Idle && steps_kept(o.state, f.state) && f.state.backup_items@ == all_backup_set(
        o.state.backup_items@,
        false,
    )
    &&& key == Key::Enter && backup_ready(o.state.backup_items@) && o.state.backup_mode == BackupMode::Complete
        ==> r is Idle && moved_to(o.state, f.state, AppState::BackupPasswordInput)
    &&& key == Key::Enter && !(backup_ready(o.state.backup_items@) && o.state.backup_mode == BackupMode::Complete)
        ==> backup_start_effect(o.state, f.state, r, backup_refusal(o.state))
    &&& is_back_key(key) ==> r is Idle && moved_back(o.state, f.state)
}

pub open spec fn restore_selection_effect(o: App, f: App, key: Key, r: Action) -> bool {
    &&& (is_up_key(key) || is_down_key(key)) ==> r is Idle && cursor_effect(
        o.state,
        f.state,
        key,
        o.state.restore_items@.len() as int,
        false,
    )
    &&& key == Key::Char(' ') ==> r is Idle && steps_kept(o.state, f.state) && f.state.restore_items@ == restore_toggled(
        o.state.restore_items@,
        o.state.selected_item_index as int,
    )
    &&& key == Key::Char('a') ==> r is Idle && steps_kept(o.state, f.state) && f.state.restore_items@ == all_restore_set(
        o.state.restore_items@,
        true,
    )
    &&& key == Key::Char('n') ==> r is Idle && steps_kept(o.state, f.state) && f.state.restore_items@ == all_restore_set(
        o.state.restore_items@,
        false,
    )
    &&& key == Key::Enter ==> (restore_refusal(o.state) is None ==> r is RunRestore && moved_to(o.state, f.state, AppState::RestoreProgress))
        && (restore_refusal(o.state) is Some ==> r is Idle && steps_kept(o.state, f.state) && f.state.status_message is Some
        && f.state.status_message->0@ == restore_refusal(o.state)->0)
    &&& is_back_key(key) ==> r is Idle && moved_back(o.state, f.state)
}

pub open spec fn archive_selection_effect(o: App, f: App, key: Key, r: Action) -> bool {
    &&& (is_up_key(key) || is_down_key(key)) ==> r is Idle && cursor_effect(
        o.state,
        f.state,
        key,
        o.state.available_archives@.len() as int,
        false,
    )
    &&& key == Key::Enter && o.state.selected_item_index < o.state.available_archives@.len() ==> ({
        let a = o.state.available_archives@[o.state.selected_item_index as int];
        &&& f.state.selected_archive is Some
        &&& same_archive(f.state.selected_archive->0, a)
        &&& a.encrypted ==> r is Idle && moved_to(o.state, f.state, AppState::RestorePasswordInput)
        &&& !a.encrypted ==> r is ListArchive && steps_kept(o.state, f.state)
    })
    &&& key == Key::Enter && o.state.selected_item_index >= o.state.available_archives@.len() ==> r is Idle
        && steps_kept(o.state, f.state)
    &&& is_back_key(key) ==> r is Idle && moved_back(o.state, f.state)
}

/// Enter or Space returns to the main menu with the data of the finished
/// run dropped; Esc, `q` or `Q` stops the wizard.
pub open spec fn done_effect(o: App, f: App, key: Key, r: Action) -> bool {
    &&& (key == Key::Enter || key == Key::Char(' ')) ==> r is Idle && moved_to(o.state, f.state, AppState::MainMenu)
    &&& is_back_key(key) ==> r is Exit && moved_to(o.state, f.state, AppState::Exit) && f.state.same_data(&o.state)
    &&& !(key == Key::Enter || key == Key::Char(' ') || is_back_key(key)) ==> r is Idle && steps_kept(o.state, f.state)
        && f.state.same_data(&o.state)
}

pub open spec fn help_effect(o: App, f: App, key: Key, r: Action) -> bool {
    &&& r is Idle
    &&& f.state.same_data(&o.state)
    &&& is_back_key(key) ==> moved_back(o.state, f.state)
    &&& !is_back_key(key) ==> steps_kept(o.state, f.state)
}

/// Enter, Esc or Space leaves the error step for its back target and
/// clears the stored message.
pub open spec fn error_effect(o: App, f: App, key: Key, r: Action) -> bool {
    &&& r is Idle
    &&& f.state.same_data(&o.state)
    &&& (key == Key::Enter || key == Key::Esc || key == Key::Char(' ')) ==> moved_back(o.state, f.state)
        && f.state.error_message is None
    &&& !(key == Key::Enter || key == Key::Esc || key == Key::Char(' ')) ==> steps_kept(o.state, f.state)
}

pub open spec fn password_effect(o: App, f: App, key: Key, r: Action, backup: bool) -> bool {
    let input = if backup { o.backup_password.password_input } else { o.restore_password.password_input };
    &&& key == Key::Esc ==> r is Idle && moved_back(o.state, f.state)
    &&& key == Key::Enter && !input.submittable() ==> r is Idle && steps_kept(o.state, f.state)
    &&& key != Key::Enter && key != Key::Esc ==> r is Idle && steps_kept(o.state, f.state)
    &&& backup && key == Key::Enter && input.submittable() ==> {
        &&& f.state.backup_password is Some
        &&& f.state.backup_password->0@ == encode_utf8(input.text())
        &&& backup_start_effect(
            o.state,
            f.state,
            r,
            refusal_of(o.state.backup_items@, o.state.backup_mode, true),
        )
    }
    &&& !backup && key == Key::Enter && input.submittable() ==> {
        &&& f.state.restore_password is Some
        &&& f.state.restore_password->0@ == encode_utf8(input.text())
        &&& steps_kept(o.state, f.state)
        &&& o.state.selected_archive is Some ==> r is ListArchive
        &&& o.state.selected_archive is None ==> r is Idle
    }
}

/// The effect of a key on the current step, as its handler decides it.
pub open spec fn step_effect(o: App, f: App, key: Key, r: Action) -> bool {
    match o.state.current_state {
        AppState::MainMenu => main_menu_effect(o, f, key, r),
        AppState::BackupModeSelection => mode_effect(o, f, key, r),
        AppState::BackupItemSelection => item_selection_effect(o, f, key, r),
        AppState::BackupPasswordInput => password_effect(o, f, key, r, true),
        AppState::BackupComplete => done_effect(o, f, key, r),
        AppState::RestoreArchiveSelection => archive_selection_effect(o, f, key, r),
        AppState::RestorePasswordInput => password_effect(o, f, key, r, false),
        AppState::RestoreItemSelection => restore_selection_effect(o, f, key, r),
        AppState::RestoreComplete => done_effect(o, f, key, r),
        AppState::Help => help_effect(o, f, key, r),
        AppState::Error(_) => error_effect(o, f, key, r),
        _ => r is Idle && steps_kept(o.state, f.state),
    }
}

/// The wizard: its state, the program it runs, and the screens that keep input state.
pub struct App {
    pub config: BackupConfig,
    pub state: AppStateManager,
    pub backend: BackupEngine,
    pub main_menu: MainMenuScreen,
    pub backup_mode_selection: BackupModeSelectionScreen,
    pub backup_password: BackupPasswordScreen,
    pub restore_password: RestorePasswordScreen,
}

/// Rows of a selection list that are visible at once.
pub const VISIBLE_ROWS: usize = 10;

impl App {
    pub open spec fn wf(&self) -> bool {
        &&& self.backup_password.password_input.wf()
        &&& self.restore_password.password_input.wf()
    }

    /// The wizard at its start, writing backups to `output_path` when given.
    pub fn new(config: BackupConfig, backend: BackupEngine, output_path: Option<String>) -> (r: Self)
        ensures
            r.wf(),
            r.state.current_state == AppState::MainMenu,
            r.state.previous_state is None,
            r.state.backup_output_path == output_path,
            r.state.backup_items@.len() == 0,
            r.state.backup_password is None,
            r.state.backup_progress is None,
    {
        let mut state = AppStateManager::new();
        state.backup_output_path = output_path;
        App {
            config,
            state,
            backend,
            main_menu: MainMenuScreen::new(),
            backup_mode_selection: BackupModeSelectionScreen::new(),
            backup_password: BackupPasswordScreen::new(),
            restore_password: RestorePasswordScreen::new(),
        }
    }

    /// Starts a backup run when nothing refuses it: the run step is entered
    /// with fresh progress for the selected items, and the command is handed
    /// out. When refused, the step stays and the reason becomes the status message.
    pub fn start_backup(&mut self) -> (r: Action)
        requires
            old(self).wf(),
        ensures
            final(self).wf(),
            backup_refusal(old(self).state) is Some ==> r is Idle && final(self).state.current_state
                == old(self).state.current_state && final(self).state.previous_state == old(self).state.previous_state
                && final(self).state.status_message is Some && final(self).state.status_message->0@
                == backup_refusal(old(self).state)->0,
            backup_refusal(old(self).state) is None ==> r is RunBackup && (final(self).state.current_state,
            final(self).state.previous_state) == forward(old(self).state.current_state, AppState::BackupProgress)
                && final(self).state.backup_progress is Some && final(self).state.backup_progress->0.status
                == ProgressStatus::Preparing && final(self).state.backup_progress->0.total_items
                == selected_backup(old(self).state.backup_items@).len() && final(self).state.backup_progress->0.items_completed == 0,
            final(self).state.backup_items == old(self).state.backup_items,
            final(self).state.backup_mode == old(self).state.backup_mode,
            final(self).state.backup_password == old(self).state.backup_password,
    {
        let ready = self.state.is_backup_ready();
        if !ready {
            self.state.set_status(owned("No items selected for backup"));
            return Action::Idle;
        }
        if !all_selected_exist(&self.state.backup_items) {
            self.state.set_status(owned("Some selected items do not exist on disk"));
            return Action::Idle;
        }
        if self.state.backup_mode == BackupMode::Complete && self.state.backup_password.is_none() {
            self.state.set_status(owned("Complete mode requires an encryption password"));
            return Action::Idle;
        }
        let mut progress = BackupProgress::default();
        progress.total_items = count_selected_backup(&self.state.backup_items);
        let plan = self.backend.start_backup(
            self.state.backup_mode,
            match &self.state.backup_password {
                Some(p) => Some(p),
                None => None,
            },
            match &self.state.backup_output_path {
                Some(o) => Some(o),
                None => None,
            },
        );
        self.state.backup_progress = Some(progress);
        self.state.transition_to(AppState::BackupProgress);
        Action::RunBackup(plan)
    }

    /// Reconciles a finished backup run. Success completes the progress and
    /// enters the done step. Failure enters the error step with the exit
    /// code and standard error in its message, makes the step that started
    /// the run the back target, and drops the progress and the secret.
    pub fn finish_backup(&mut self, outcome: Outcome)
        requires
            old(self).wf(),
        ensures
            final(self).wf(),
            outcome is Success ==> (final(self).state.current_state, final(self).state.previous_state)
                == forward(old(self).state.current_state, AppState::BackupComplete),
            outcome is Success && old(self).state.backup_progress is Some ==> final(self).state.backup_progress is Some
                && final(self).state.backup_progress->0.status == ProgressStatus::Completed
                && final(self).state.backup_progress->0.items_completed == old(self).state.backup_progress->0.total_items
                && final(self).state.backup_progress->0.total_items == old(self).state.backup_progress->0.total_items,
            outcome is Success ==> final(self).state.backup_items == old(self).state.backup_items,
            outcome is Failure ==> final(self).state.current_state is Error && final(self).state.current_state->Error_0@
                == "Backup failed: "@ + failure_message("Backup"@, outcome->exit_code, texts(outcome->stderr@))
                && final(self).state.error_message == Some(final(self).state.current_state->Error_0)
                && final(self).state.previous_state == old(self).state.previous_state
                && final(self).state.backup_progress is None && final(self).state.backup_password is None,
    {
        match outcome {
            Outcome::Success => {
                match &mut self.state.backup_progress {
                    Some(p) => {
                        p.status = ProgressStatus::Completed;
                        p.items_completed = p.total_items;
                    },
                    None => {},
                }
                self.state.transition_to(AppState::BackupComplete);
            },
            Outcome::Failure { exit_code, stderr } => {
                let initiator = self.state.previous_state.take();
                let mut message = owned("Backup failed: ");
                let detail = failure_text("Backup", exit_code, &stderr);
                push_str(&mut message, detail.as_str());
                self.state.set_error(message);
                self.state.previous_state = initiator;
                self.state.reset_backup_state();
            },
        }
    }

    /// Starts a restore run when nothing refuses it: the run step is entered
    /// with fresh progress for the selected candidates, and the command is
    /// handed out. When refused, the step stays and the reason becomes the
    /// status message.
    pub fn start_restore(&mut self) -> (r: Action)
        requires
            old(self).wf(),
        ensures
            final(self).wf(),
            restore_refusal(old(self).state) is Some ==> r is Idle && final(self).state.current_state
                == old(self).state.current_state && final(self).state.previous_state == old(self).state.previous_state
                && final(self).state.status_message is Some && final(self).state.status_message->0@
                == restore_refusal(old(self).state)->0,
            restore_refusal(old(self).state) is None ==> r is RunRestore && (final(self).state.current_state,
            final(self).state.previous_state) == forward(old(self).state.current_state, AppState::RestoreProgress)
                && final(self).state.restore_progress is Some && final(self).state.restore_progress->0.status
                == ProgressStatus::Preparing && final(self).state.restore_progress->0.total_items
                == selected_restore(old(self).state.restore_items@).len(),
            final(self).state.restore_items == old(self).state.restore_items,
            final(self).state.selected_archive == old(self).state.selected_archive,
    {
        if !self.state.is_restore_ready() {
            self.state.set_status(owned("No items selected for restore"));
            return Action::Idle;
        }
        let encrypted = match &self.state.selected_archive {
            Some(a) => a.encrypted,
            None => false,
        };
        if encrypted && self.state.restore_password.is_none() {
            self.state.set_status(owned("This archive is encrypted and needs its password"));
            return Action::Idle;
        }
        let plan = {
            let selected = self.state.get_selected_restore_items();
            let archive = match &self.state.selected_archive {
                Some(a) => a,
                None => {
                    return Action::Idle;
                },
            };
            self.backend.start_restore(
                archive,
                &selected,
                match &self.state.restore_password {
                    Some(p) => Some(p),
                    None => None,
                },
            )
        };
        let (count, _size, _conflicts) = self.state.get_restore_summary();
        let mut progress = RestoreProgress::default();
        progress.total_items = count;
        self.state.restore_progress = Some(progress);
        self.state.transition_to(AppState::RestoreProgress);
        Action::RunRestore(plan)
    }

    /// Reconciles a finished restore run. Success completes the progress and
    /// enters the done step. Failure enters the error step with the exit code
    /// and standard error in its message, makes the step that started the
    /// run the back target, and drops the progress.
    pub fn finish_restore(&mut self, outcome: Outcome)
        requires
            old(self).wf(),
        ensures
            final(self).wf(),
            outcome is Success ==> (final(self).state.current_state, final(self).state.previous_state)
                == forward(old(self).state.current_state, AppState::RestoreComplete),
            outcome is Success && old(self).state.restore_progress is Some ==> final(self).state.restore_progress is Some
                && final(self).state.restore_progress->0.status == ProgressStatus::Completed
                && final(self).state.restore_progress->0.items_completed == old(self).state.restore_progress->0.total_items,
            outcome is Failure ==> final(self).state.current_state is Error && final(self).state.current_state->Error_0@
                == "Restore failed: "@ + failure_message("Restore"@, outcome->exit_code, texts(outcome->stderr@))
                && final(self).state.error_message == Some(final(self).state.current_state->Error_0)
                && final(self).state.previous_state == old(self).state.previous_state
                && final(self).state.restore_progress is None,
            final(self).state.restore_items == old(self).state.restore_items,
            final(self).state.selected_archive == old(self).state.selected_archive,
    {
        match outcome {
            Outcome::Success => {
                match &mut self.state.restore_progress {
                    Some(p) => {
                        p.status = ProgressStatus::Completed;
                        p.items_completed = p.total_items;
                    },
                    None => {},
                }
                self.state.transition_to(AppState::RestoreComplete);
            },
            Outcome::Failure { exit_code, stderr } => {
                let initiator = self.state.previous_state.take();
                let mut message = owned("Restore failed: ");
                let detail = failure_text("Restore", exit_code, &stderr);
                push_str(&mut message, detail.as_str());
                self.state.set_error(message);
                self.state.previous_state = initiator;
                self.state.restore_progress = None;
            },
        }
    }

    /// The candidate items of the current mode, each marked with whether its
    /// path, taken relative to the home directory, exists on disk now.
    pub fn candidate_items(&self) -> (r: Vec<BackupItem>)
        ensures
            r@.map_values(|i: BackupItem| item_view(i)) == self.config.mode_item_views(self.state.backup_mode),
            forall|i: int| 0 <= i < r@.len() ==> !(#[trigger] r@[i]).selected && r@[i].size is None,
    {
        let mut items = self.config.get_items_for_mode(&self.state.backup_mode);
        let ghost views = items@.map_values(|i: BackupItem| item_view(i));
        let home = to_chars(home_or_root().as_str());
        let n = items.len();
        let mut i: usize = 0;
        while i < n
            invariant
                n == items@.len(),
                i <= n,
                items@.map_values(|i: BackupItem| item_view(i)) == views,
                views == self.config.mode_item_views(self.state.backup_mode),
                forall|j: int| 0 <= j < items@.len() ==> !(#[trigger] items@[j]).selected && items@[j].size is None,
            decreases n - i,
        {
            let full = restore_path_for(&to_chars(items[i].path.as_str()), &home);
            let exists = crate::backend::path_exists(full.as_str());
            let ghost before = items@;
            items[i].exists = exists;
            assert(items@.map_values(|i: BackupItem| item_view(i)) =~= before.map_values(|i: BackupItem| item_view(i)));
            i = i + 1;
        }
        items
    }

    /// Takes the candidate items of the current mode and enters the item selection.
    pub fn backup_items_loaded(&mut self, items: Vec<BackupItem>)
        ensures
            final(self).wf() == old(self).wf(),
            final(self).state.backup_items@ == items@,
            (final(self).state.current_state, final(self).state.previous_state) == forward(
                old(self).state.current_state,
                AppState::BackupItemSelection,
            ),
            final(self).state.backup_mode == old(self).state.backup_mode,
    {
        self.state.backup_items = items;
        self.state.transition_to(AppState::BackupItemSelection);
    }

    /// Takes the files that a search for archives found and enters the archive selection.
    pub fn archives_loaded(&mut self, entries: &Vec<ArchiveEntry>)
        ensures
            final(self).wf() == old(self).wf(),
            newest_first(final(self).state.available_archives@),
            exists|c: Seq<ArchiveInfo>|
                classified(entries@, c) && #[trigger] c.to_multiset() == final(self).state.available_archives@.to_multiset(),
            (final(self).state.current_state, final(self).state.previous_state) == forward(
                old(self).state.current_state,
                AppState::RestoreArchiveSelection,
            ),
    {
        self.state.available_archives = self.backend.list_archives(entries);
        self.state.transition_to(AppState::RestoreArchiveSelection);
    }

    /// Takes the candidates of the chosen archive and enters the item
    /// selection, or enters the error step when the listing failed.
    pub fn restore_items_loaded(&mut self, result: Result<Vec<RestoreItem>, String>)
        ensures
            final(self).wf() == old(self).wf(),
            result is Ok ==> final(self).state.restore_items@ == result->Ok_0@ && (final(self).state.current_state,
            final(self).state.previous_state) == forward(old(self).state.current_state, AppState::RestoreItemSelection),
            result is Err ==> (final(self).state.current_state, final(self).state.previous_state) == forward(
                old(self).state.current_state,
                AppState::Error(result->Err_0),
            ),
            final(self).state.selected_archive == old(self).state.selected_archive,
    {
        match result {
            Ok(items) => {
                self.state.restore_items = items;
                self.state.transition_to(AppState::RestoreItemSelection);
            },
            Err(message) => {
                self.state.set_error(message);
            },
        }
    }

    /// Reads what the listing command printed, checks once which restore
    /// targets already exist, and enters the item selection; a listing that
    /// did not exit with code 0 enters the error step instead.
    pub fn listing_finished(&mut self, exit_code: Option<i32>, stdout: &[u8], stderr: &[u8])
        ensures
            final(self).wf() == old(self).wf(),
            final(self).state.selected_archive == old(self).state.selected_archive,
            exit_code == Some(0i32) ==> ({
                let recs = listing_records(lossy_text(stdout@));
                &&& moved_to(old(self).state, final(self).state, AppState::RestoreItemSelection)
                &&& final(self).state.restore_items@.len() == recs.len()
                &&& forall|i: int|
                    0 <= i < recs.len() ==> {
                        let it = #[trigger] final(self).state.restore_items@[i];
                        &&& it.name@ == recs[i].0
                        &&& it.size == recs[i].1
                        &&& it.original_path@ == recs[i].2
                        &&& !it.selected
                    }
            }),
            exit_code != Some(0i32) ==> final(self).state.current_state is Error
                && final(self).state.current_state->Error_0@ == listing_failure(exit_code, stderr@)
                && final(self).state.previous_state == Some(old(self).state.current_state),
    {
        let home = home_or_root();
        let result = listing_result(exit_code, stdout, stderr, home.as_str());
        match result {
            Ok(items) => {
                let ghost parsed = items@;
                let mut items = items;
                probe_conflicts(&mut items);
                assert forall|i: int| 0 <= i < items@.len() implies items@[i].name == parsed[i].name
                    && items@[i].size == parsed[i].size && items@[i].original_path == parsed[i].original_path
                    && items@[i].selected == parsed[i].selected by {
                    assert(items@[i] == (RestoreItem { conflicts: items@[i].conflicts, ..parsed[i] }));
                }
                self.restore_items_loaded(Ok(items));
            },
            Err(message) => {
                self.restore_items_loaded(Err(message));
            },
        }
    }

    /// Notes a line of the backup program's output: a line holding
    /// `Processing:` counts one more item done, up to the total, and names it.
    pub fn observe_backup_line(&mut self, line: &str)
        ensures
            final(self).wf() == old(self).wf(),
            final(self).state.current_state == old(self).state.current_state,
            old(self).state.backup_progress is None ==> final(self).state.backup_progress is None,
            old(self).state.backup_progress is Some ==> final(self).state.backup_progress is Some,
            old(self).state.backup_progress is Some && seq_contains(line@, "Processing:"@)
                && !old(self).state.backup_progress->0.status.is_terminal() ==> ({
                let p = old(self).state.backup_progress->0;
                let q = final(self).state.backup_progress->0;
                &&& q.current_item@ == line@
                &&& q.items_completed == if p.items_completed < p.total_items {
                    p.items_completed + 1
                } else {
                    p.items_completed as int
                }
                &&& q.status.rank() == if p.status.rank() < 1 { 1 } else { p.status.rank() }
                &&& q.total_items == p.total_items
            }),
    {
        if !reports_progress(line, "Processing:") {
            return;
        }
        match &mut self.state.backup_progress {
            Some(p) => {
                let terminal = match p.status {
                    ProgressStatus::Completed => true,
                    ProgressStatus::Failed(_) => true,
                    _ => false,
                };
                if !terminal {
                    if p.items_completed < p.total_items {
                        p.items_completed = p.items_completed + 1;
                    }
                    p.current_item = owned(line);
                    if matches!(p.status, ProgressStatus::Preparing) {
                        p.status = ProgressStatus::Processing;
                    }
                }
            },
            None => {},
        }
    }

    /// Notes a line of the restore program's output: a line holding
    /// `Restoring:` counts one more item done, up to the total, and names it.
    pub fn observe_restore_line(&mut self, line: &str)
        ensures
            final(self).wf() == old(self).wf(),
            final(self).state.current_state == old(self).state.current_state,
            old(self).state.restore_progress is None ==> final(self).state.restore_progress is None,
            old(self).state.restore_progress is Some && seq_contains(line@, "Restoring:"@)
                && !old(self).state.restore_progress->0.status.is_terminal() ==> ({
                let p = old(self).state.restore_progress->0;
                let q = final(self).state.restore_progress->0;
                &&& q.current_item@ == line@
                &&& q.items_completed == if p.items_completed < p.total_items {
                    p.items_completed + 1
                } else {
                    p.items_completed as int
                }
                &&& q.status.rank() == if p.status.rank() < 1 { 1 } else { p.status.rank() }
            }),
    {
        if !reports_progress(line, "Restoring:") {
            return;
        }
        match &mut self.state.restore_progress {
            Some(p) => {
                let terminal = match p.status {
                    ProgressStatus::Completed => true,
                    ProgressStatus::Failed(_) => true,
                    _ => false,
                };
                if !terminal {
                    if p.items_completed < p.total_items {
                        p.items_completed = p.items_completed + 1;
                    }
                    p.current_item = owned(line);
                    if matches!(p.status, ProgressStatus::Preparing) {
                        p.status = ProgressStatus::Processing;
                    }
                }
            },
            None => {},
        }
    }

    pub fn handle_main_menu_key(&mut self, key: Key) -> (r: Action)
        requires
            old(self).wf(),
        ensures
            final(self).wf(),
            main_menu_effect(*old(self), *final(self), key, r),
    {
        let intent: u8 = match self.main_menu.handle_key(key) {
            Some(c) => if c == '1' {
                1
            } else if c == '2' {
                2
            } else if c == 'q' {
                3
            } else {
                0
            },
            None => match key {
                Key::Char('b') | Key::Char('B') => 1,
                Key::Char('r') | Key::Char('R') => 2,
                Key::Char('Q') | Key::Esc => 3,
                _ => 0,
            },
        };
        if intent == 1 {
            self.state.transition_to(AppState::BackupModeSelection);
            Action::Idle
        } else if intent == 2 {
            Action::LoadArchives
        } else if intent == 3 {
            self.state.transition_to(AppState::Exit);
            Action::Exit
        } else {
            Action::Idle
        }
    }

    pub fn handle_backup_mode_selection_key(&mut self, key: Key) -> (r: Action)
        requires
            old(self).wf(),
        ensures
            final(self).wf(),
            mode_effect(*old(self), *final(self), key, r),
    {
        let intent: u8 = match self.backup_mode_selection.handle_key(key) {
            Some(c) => if c == '1' {
                1
            } else if c == '2' {
                2
            } else {
                0
            },
            None => match key {
                Key::Char('s') | Key::Char('S') => 1,
                Key::Char('c') | Key::Char('C') => 2,
                Key::Esc | Key::Char('q') | Key::Char('Q') => 3,
                _ => 0,
            },
        };
        if intent == 1 {
            self.state.backup_mode = BackupMode::Secure;
            Action::LoadBackupItems
        } else if intent == 2 {
            self.state.backup_mode = BackupMode::Complete;
            Action::LoadBackupItems
        } else if intent == 3 {
            self.state.go_back();
            Action::Idle
        } else {
            Action::Idle
        }
    }

    pub fn handle_backup_item_selection_key(&mut self, key: Key) -> (r: Action)
        requires
            old(self).wf(),
        ensures
            final(self).wf(),
            item_selection_effect(*old(self), *final(self), key, r),
    {
        let count = self.state.backup_items.len();
        match key {
            Key::Up | Key::Char('k') => {
                self.state.move_selection_up(count);
            },
            Key::Down | Key::Char('j') => {
                self.state.move_selection_down(count, VISIBLE_ROWS);
            },
            Key::PageUp => {
                self.state.page_up(VISIBLE_ROWS);
            },
            Key::PageDown => {
                self.state.page_down(count, VISIBLE_ROWS);
            },
            Key::Char(' ') => {
                let index = self.state.selected_item_index;
                self.state.toggle_backup_item(index);
            },
            Key::Char('a') => {
                self.state.select_all_backup_items(true);
            },
            Key::Char('n') => {
                self.state.select_all_backup_items(false);
            },
            Key::Enter => {
                if self.state.is_backup_ready() && self.state.backup_mode == BackupMode::Complete {
                    self.state.transition_to(AppState::BackupPasswordInput);
                } else {
                    return self.start_backup();
                }
            },
            Key::Esc | Key::Char('q') | Key::Char('Q') => {
                self.state.go_back();
            },
            _ => {},
        }
        Action::Idle
    }

    pub fn handle_backup_password_key(&mut self, key: Key) -> (r: Action)
        requires
            old(self).wf(),
        ensures
            final(self).wf(),
            password_effect(*old(self), *final(self), key, r, true),
    {
        match self.backup_password.handle_key(key) {
            Some(password) => {
                self.state.backup_password = Some(password);
                self.start_backup()
            },
            None => {
                if key == Key::Esc {
                    self.state.go_back();
                }
                Action::Idle
            },
        }
    }

    pub fn handle_backup_complete_key(&mut self, key: Key) -> (r: Action)
        requires
            old(self).wf(),
        ensures
            final(self).wf(),
            done_effect(*old(self), *final(self), key, r),
            (key == Key::Enter || key == Key::Char(' ')) ==> final(self).state.backup_items@.len() == 0
                && final(self).state.backup_password is None && final(self).state.backup_progress is None,
    {
        match key {
            Key::Enter | Key::Char(' ') => {
                self.state.reset_backup_state();
                self.state.transition_to(AppState::MainMenu);
                Action::Idle
            },
            Key::Esc | Key::Char('q') | Key::Char('Q') => {
                self.state.transition_to(AppState::Exit);
                Action::Exit
            },
            _ => Action::Idle,
        }
    }

    pub fn handle_restore_archive_selection_key(&mut self, key: Key) -> (r: Action)
        requires
            old(self).wf(),
        ensures
            final(self).wf(),
            archive_selection_effect(*old(self), *final(self), key, r),
    {
        let count = self.state.available_archives.len();
        match key {
            Key::Up | Key::Char('k') => {
                self.state.move_selection_up(count);
            },
            Key::Down | Key::Char('j') => {
                self.state.move_selection_down(count, VISIBLE_ROWS);
            },
            Key::Enter => {
                let index = self.state.selected_item_index;
                if index < count {
                    let archive = copy_archive(&self.state.available_archives[index]);
                    let encrypted = archive.encrypted;
                    if encrypted {
                        self.state.selected_archive = Some(archive);
                        self.state.transition_to(AppState::RestorePasswordInput);
                    } else {
                        let plan = self.backend.list_archive_contents(&archive, None);
                        self.state.selected_archive = Some(archive);
                        return Action::ListArchive(plan);
                    }
                }
            },
            Key::Esc | Key::Char('q') | Key::Char('Q') => {
                self.state.go_back();
            },
            _ => {},
        }
        Action::Idle
    }

    pub fn handle_restore_password_key(&mut self, key: Key) -> (r: Action)
        requires
            old(self).wf(),
        ensures
            final(self).wf(),
            password_effect(*old(self), *final(self), key, r, false),
    {
        match self.restore_password.handle_key(key) {
            Some(password) => {
                let plan = match &self.state.selected_archive {
                    Some(archive) => Some(self.backend.list_archive_contents(archive, Some(&password))),
                    None => None,
                };
                self.state.restore_password = Some(password);
                match plan {
                    Some(p) => Action::ListArchive(p),
                    None => Action::Idle,
                }
            },
            None => {
                if key == Key::Esc {
                    self.state.go_back();
                }
                Action::Idle
            },
        }
    }

    pub fn handle_restore_item_selection_key(&mut self, key: Key) -> (r: Action)
        requires
            old(self).wf(),
        ensures
            final(self).wf(),
            restore_selection_effect(*old(self), *final(self), key, r),
    {
        let count = self.state.restore_items.len();
        match key {
            Key::Up | Key::Char('k') => {
                self.state.move_selection_up(count);
            },
            Key::Down | Key::Char('j') => {
                self.state.move_selection_down(count, VISIBLE_ROWS);
            },
            Key::Char(' ') => {
                let index = self.state.selected_item_index;
                self.state.toggle_restore_item(index);
            },
            Key::Char('a') => {
                self.state.select_all_restore_items(true);
            },
            Key::Char('n') => {
                self.state.select_all_restore_items(false);
            },
            Key::Enter => {
                return self.start_restore();
            },
            Key::Esc | Key::Char('q') | Key::Char('Q') => {
                self.state.go_back();
            },
            _ => {},
        }
        Action::Idle
    }

    pub fn handle_restore_complete_key(&mut self, key: Key) -> (r: Action)
        requires
            old(self).wf(),
        ensures
            final(self).wf(),
            done_effect(*old(self), *final(self), key, r),
            (key == Key::Enter || key == Key::Char(' ')) ==> final(self).state.selected_archive is None
                && final(self).state.restore_password is None && final(self).state.restore_items@.len() == 0,
    {
        match key {
            Key::Enter | Key::Char(' ') => {
                self.state.reset_restore_state();
                self.state.transition_to(AppState::MainMenu);
                Action::Idle
            },
            Key::Esc | Key::Char('q') | Key::Char('Q') => {
                self.state.transition_to(AppState::Exit);
                Action::Exit
            },
            _ => Action::Idle,
        }
    }

    pub fn handle_help_key(&mut self, key: Key) -> (r: Action)
        requires
            old(self).wf(),
        ensures
            final(self).wf(),
            help_effect(*old(self), *final(self), key, r),
    {
        match key {
            Key::Esc | Key::Char('q') | Key::Char('Q') => {
                self.state.go_back();
            },
            _ => {},
        }
        Action::Idle
    }

    pub fn handle_error_key(&mut self, key: Key) -> (r: Action)
        requires
            old(self).wf(),
        ensures
            final(self).wf(),
            error_effect(*old(self), *final(self), key, r),
    {
        match key {
            Key::Enter | Key::Esc | Key::Char(' ') => {
                self.state.error_message = None;
                self.state.go_back();
            },
            _ => {},
        }
        Action::Idle
    }

    /// Handles one key press. Control-C stops the wizard from any step (a
    /// running child process is not stopped, only no longer waited on);
    /// Control-H opens the help from any step, with the step left as its
    /// back target. Every other key goes to the current step.
    pub fn handle_event(&mut self, input: KeyInput) -> (r: Action)
        requires
            old(self).wf(),
        ensures
            final(self).wf(),
            input.ctrl && input.key == Key::Char('c') ==> r is Exit && moved_to(old(self).state, final(self).state, AppState::Exit),
            input.ctrl && input.key == Key::Char('h') ==> r is Idle && moved_to(old(self).state, final(self).state, AppState::Help),
            !(input.ctrl && (input.key == Key::Char('c') || input.key == Key::Char('h'))) ==> step_effect(
                *old(self),
                *final(self),
                input.key,
                r,
            ),
    {
        if input.ctrl {
            match input.key {
                Key::Char('c') => {
                    self.state.transition_to(AppState::Exit);
                    return Action::Exit;
                },
                Key::Char('h') => {
                    self.state.transition_to(AppState::Help);
                    return Action::Idle;
                },
                _ => {},
            }
        }
        let key = input.key;
        match self.state.current_state {
            AppState::MainMenu => self.handle_main_menu_key(key),
            AppState::BackupModeSelection => self.handle_backup_mode_selection_key(key),
            AppState::BackupItemSelection => self.handle_backup_item_selection_key(key),
            AppState::BackupPasswordInput => self.handle_backup_password_key(key),
            AppState::BackupComplete => self.handle_backup_complete_key(key),
            AppState::RestoreArchiveSelection => self.handle_restore_archive_selection_key(key),
            AppState::RestorePasswordInput => self.handle_restore_password_key(key),
            AppState::RestoreItemSelection => self.handle_restore_item_selection_key(key),
            AppState::RestoreComplete => self.handle_restore_complete_key(key),
            AppState::Help => self.handle_help_key(key),
            AppState::Error(_) => self.handle_error_key(key),
            _ => Action::Idle,
        }
    }
}

} // verus!
