//! The wizard's state: the current step, a one-level back stack, and all
//! step-scoped data (selections, secrets, progress, archive pointers).
use vstd::prelude::*;
use crate::security::SecurePassword;
use crate::types::{
    ArchiveInfo, BackupItem, BackupMode, BackupProgress, RestoreItem, RestoreProgress,
    SecurityLevel, ValidationResult,
};

verus! {

/// The steps of the wizard. Exactly one is current at any time.
#[derive(Debug, Clone, PartialEq)]
pub enum AppState {
    MainMenu,
    BackupModeSelection,
    BackupItemSelection,
    BackupPasswordInput,
    BackupProgress,
    BackupComplete,
    RestoreArchiveSelection,
    RestorePasswordInput,
    RestoreItemSelection,
    RestoreProgress,
    RestoreComplete,
    Help,
    Error(String),
    Exit,
}

/// The current step and the one before it, after a forward move to `next`.
pub open spec fn forward(cur: AppState, next: AppState) -> (AppState, Option<AppState>) {
    (next, Some(cur))
}

/// The current step and the one before it, after stepping back.
pub open spec fn backward(cur: AppState, prev: Option<AppState>) -> (AppState, Option<AppState>) {
    match prev {
        Some(p) => (p, None),
        None => (cur, None),
    }
}

/// Items whose `selected` flag is set, in list order.
pub open spec fn selected_backup(s: Seq<BackupItem>) -> Seq<BackupItem>
    decreases s.len(),
{
    if s.len() == 0 {
        seq![]
    } else if s.last().selected {
        selected_backup(s.drop_last()).push(s.last())
    } else {
        selected_backup(s.drop_last())
    }
}

/// Restore candidates whose `selected` flag is set, in list order.
pub open spec fn selected_restore(s: Seq<RestoreItem>) -> Seq<RestoreItem>
    decreases s.len(),
{
    if s.len() == 0 {
        seq![]
    } else if s.last().selected {
        selected_restore(s.drop_last()).push(s.last())
    } else {
        selected_restore(s.drop_last())
    }
}

/// Some item is selected.
pub open spec fn backup_ready(s: Seq<BackupItem>) -> bool {
    exists|i: int| 0 <= i < s.len() && #[trigger] s[i].selected
}

/// Every item with its `selected` flag set to `b`.
pub open spec fn all_backup_set(s: Seq<BackupItem>, b: bool) -> Seq<BackupItem> {
    Seq::new(s.len(), |j: int| BackupItem { selected: b, ..s[j] })
}

/// Every candidate with its `selected` flag set to `b`.
pub open spec fn all_restore_set(s: Seq<RestoreItem>, b: bool) -> Seq<RestoreItem> {
    Seq::new(s.len(), |j: int| RestoreItem { selected: b, ..s[j] })
}

/// The list with the flag of item `i` flipped; unchanged when `i` is out of range.
pub open spec fn backup_toggled(s: Seq<BackupItem>, i: int) -> Seq<BackupItem> {
    if 0 <= i < s.len() {
        s.update(i, BackupItem { selected: !s[i].selected, ..s[i] })
    } else {
        s
    }
}

/// The list with the flag of candidate `i` flipped; unchanged when `i` is out of range.
pub open spec fn restore_toggled(s: Seq<RestoreItem>, i: int) -> Seq<RestoreItem> {
    if 0 <= i < s.len() {
        s.update(i, RestoreItem { selected: !s[i].selected, ..s[i] })
    } else {
        s
    }
}

/// Sum of the known sizes of the items.
pub open spec fn backup_size_sum(s: Seq<BackupItem>) -> int
    decreases s.len(),
{
    if s.len() == 0 {
        0
    } else {
        backup_size_sum(s.drop_last()) + match s.last().size {
            Some(n) => n as int,
            None => 0,
        }
    }
}

/// How many items are of high sensitivity.
pub open spec fn high_count(s: Seq<BackupItem>) -> int
    decreases s.len(),
{
    if s.len() == 0 {
        0
    } else {
        high_count(s.drop_last()) + if s.last().security_level == SecurityLevel::High {
            1int
        } else {
            0
        }
    }
}

pub open spec fn restore_size_sum(s: Seq<RestoreItem>) -> int
    decreases s.len(),
{
    if s.len() == 0 {
        0
    } else {
        restore_size_sum(s.drop_last()) + s.last().size as int
    }
}

pub open spec fn conflict_count(s: Seq<RestoreItem>) -> int
    decreases s.len(),
{
    if s.len() == 0 {
        0
    } else {
        conflict_count(s.drop_last()) + if s.last().conflicts {
            1int
        } else {
            0
        }
    }
}

pub open spec fn min_int(a: int, b: int) -> int {
    if a <= b { a } else { b }
}

pub open spec fn max_int(a: int, b: int) -> int {
    if a >= b { a } else { b }
}

/// Rows moved by a page key: one less than the visible height, at least one.
pub open spec fn page_size(visible_height: int) -> int {
    max_int(visible_height - 1, 1)
}

/// Cursor and scroll offset after moving up one row in a list of `len` rows.
pub open spec fn cursor_up(sel: int, scroll: int, len: int) -> (int, int) {
    if len <= 0 {
        (sel, scroll)
    } else {
        let next = if sel == 0 { len - 1 } else { sel - 1 };
        (next, min_int(scroll, next))
    }
}

/// Cursor and scroll offset after moving down one row in a list of `len`
/// rows of which `height` are visible: the view follows the cursor, also
/// when it wraps to the first row.
pub open spec fn cursor_down(sel: int, scroll: int, len: int, height: int) -> (int, int) {
    if len <= 0 {
        (sel, scroll)
    } else {
        let next = (sel + 1) % len;
        (next, if next < scroll {
            next
        } else if next >= scroll + height {
            next - height + 1
        } else {
            scroll
        })
    }
}

/// Cursor and scroll offset after a page up.
pub open spec fn cursor_page_up(sel: int, scroll: int, height: int) -> (int, int) {
    (max_int(sel - page_size(height), 0), max_int(scroll - page_size(height), 0))
}

/// Cursor and scroll offset after a page down; with no rows the cursor goes to 0.
pub open spec fn cursor_page_down(sel: int, scroll: int, len: int, height: int) -> (int, int) {
    (
        if len == 0 { 0 } else { min_int(sel + page_size(height), len - 1) },
        if len > height { min_int(scroll + page_size(height), len - height) } else { scroll },
    )
}

/// All the wizard's data, owned by one control flow and changed only
/// through its methods.
pub struct AppStateManager {
    pub current_state: AppState,
    pub previous_state: Option<AppState>,
    pub backup_mode: BackupMode,
    pub backup_items: Vec<BackupItem>,
    pub backup_password: Option<SecurePassword>,
    pub backup_progress: Option<BackupProgress>,
    pub backup_output_path: Option<String>,
    pub available_archives: Vec<ArchiveInfo>,
    pub selected_archive: Option<ArchiveInfo>,
    pub restore_password: Option<SecurePassword>,
    pub restore_items: Vec<RestoreItem>,
    pub restore_progress: Option<RestoreProgress>,
    pub selected_item_index: usize,
    pub scroll_offset: usize,
    pub show_help: bool,
    pub validation_result: Option<ValidationResult>,
    pub status_message: Option<String>,
    pub error_message: Option<String>,
}

impl Default for AppStateManager {
    fn default() -> (r: Self)
        ensures
            r.is_initial(),
    {
        AppStateManager::new()
    }
}

impl AppStateManager {
    /// The state at wizard start: the main menu, nothing selected or loaded.
    pub open spec fn is_initial(&self) -> bool {
        &&& self.current_state == AppState::MainMenu
        &&& self.previous_state is None
        &&& self.backup_mode == BackupMode::Secure
        &&& self.backup_items@.len() == 0
        &&& self.backup_password is None
        &&& self.backup_progress is None
        &&& self.backup_output_path is None
        &&& self.available_archives@.len() == 0
        &&& self.selected_archive is None
        &&& self.restore_password is None
        &&& self.restore_items@.len() == 0
        &&& self.restore_progress is None
        &&& self.selected_item_index == 0
        &&& self.scroll_offset == 0
        &&& !self.show_help
        &&& self.validation_result is None
        &&& self.status_message is None
        &&& self.error_message is None
    }

    /// The backup-side data agrees.
    pub open spec fn same_backup_data(&self, o: &Self) -> bool {
        &&& self.backup_mode == o.backup_mode
        &&& self.backup_items == o.backup_items
        &&& self.backup_password == o.backup_password
        &&& self.backup_progress == o.backup_progress
        &&& self.backup_output_path == o.backup_output_path
        &&& self.validation_result == o.validation_result
    }

    /// The restore-side data agrees.
    pub open spec fn same_restore_data(&self, o: &Self) -> bool {
        &&& self.available_archives == o.available_archives
        &&& self.selected_archive == o.selected_archive
        &&& self.restore_password == o.restore_password
        &&& self.restore_items == o.restore_items
        &&& self.restore_progress == o.restore_progress
    }

    /// Everything but the steps, the cursor and the messages agrees.
    pub open spec fn same_data(&self, o: &Self) -> bool {
        &&& self.same_backup_data(o)
        &&& self.same_restore_data(o)
        &&& self.show_help == o.show_help
    }

    /// Only the cursor (selection index and scroll offset) may differ.
    pub open spec fn same_but_cursor(&self, o: &Self) -> bool {
        &&& self.same_data(o)
        &&& self.current_state == o.current_state
        &&& self.previous_state == o.previous_state
        &&& self.status_message == o.status_message
        &&& self.error_message == o.error_message
    }

    pub fn new() -> (r: Self)
        ensures
            r.is_initial(),
    {
        AppStateManager {
            current_state: AppState::MainMenu,
            previous_state: None,
            backup_mode: BackupMode::Secure,
            backup_items: Vec::new(),
            backup_password: None,
            backup_progress: None,
            backup_output_path: None,
            available_archives: Vec::new(),
            selected_archive: None,
            restore_password: None,
            restore_items: Vec::new(),
            restore_progress: None,
            selected_item_index: 0,
            scroll_offset: 0,
            show_help: false,
            validation_result: None,
            status_message: None,
            error_message: None,
        }
    }

    /// Moves forward to `new_state`; the step left becomes the back target.
    /// The cursor and the stored error message are reset.
    pub fn transition_to(&mut self, new_state: AppState)
        ensures
            (final(self).current_state, final(self).previous_state) == forward(
                old(self).current_state,
                new_state,
            ),
            final(self).selected_item_index == 0,
            final(self).scroll_offset == 0,
            final(self).error_message is None,
            final(self).status_message == old(self).status_message,
            final(self).same_data(old(self)),
    {
        let mut left = new_state;
        std::mem::swap(&mut self.current_state, &mut left);
        self.previous_state = Some(left);
        self.selected_item_index = 0;
        self.scroll_offset = 0;
        self.error_message = None;
    }

    /// Returns to the back target, if any, and empties the back stack; the
    /// cursor and the stored error message are reset. Does nothing when
    /// there is no back target.
    pub fn go_back(&mut self)
        ensures
            (final(self).current_state, final(self).previous_state) == backward(
                old(self).current_state,
                old(self).previous_state,
            ),
            old(self).previous_state is Some ==> final(self).selected_item_index == 0
                && final(self).scroll_offset == 0 && final(self).error_message is None,
            old(self).previous_state is None ==> final(self).selected_item_index
                == old(self).selected_item_index && final(self).scroll_offset
                == old(self).scroll_offset && final(self).error_message
                == old(self).error_message,
            final(self).status_message == old(self).status_message,
            final(self).same_data(old(self)),
    {
        match self.previous_state.take() {
            Some(previous) => {
                self.current_state = previous;
                self.selected_item_index = 0;
                self.scroll_offset = 0;
                self.error_message = None;
            },
            None => {},
        }
    }

    /// Drops the backup selections, secret, progress and validation.
    pub fn reset_backup_state(&mut self)
        ensures
            final(self).backup_items@.len() == 0,
            final(self).backup_password is None,
            final(self).backup_progress is None,
            final(self).validation_result is None,
            final(self).backup_mode == old(self).backup_mode,
            final(self).backup_output_path == old(self).backup_output_path,
            final(self).same_restore_data(old(self)),
            final(self).same_but_data(old(self)),
    {
        self.backup_items.clear();
        self.backup_password = None;
        self.backup_progress = None;
        self.validation_result = None;
    }

    /// Drops the chosen archive, its secret, its candidates and the progress.
    pub fn reset_restore_state(&mut self)
        ensures
            final(self).selected_archive is None,
            final(self).restore_password is None,
            final(self).restore_items@.len() == 0,
            final(self).restore_progress is None,
            final(self).available_archives == old(self).available_archives,
            final(self).same_backup_data(old(self)),
            final(self).same_but_data(old(self)),
    {
        self.selected_archive = None;
        self.restore_password = None;
        self.restore_items.clear();
        self.restore_progress = None;
    }

    /// The steps, cursor, messages and help flag agree.
    pub open spec fn same_but_data(&self, o: &Self) -> bool {
        &&& self.current_state == o.current_state
        &&& self.previous_state == o.previous_state
        &&& self.selected_item_index == o.selected_item_index
        &&& self.scroll_offset == o.scroll_offset
        &&& self.show_help == o.show_help
        &&& self.status_message == o.status_message
        &&& self.error_message == o.error_message
    }

    /// Enters the error step with `error`, reachable from any step; the step
    /// left becomes the back target and the message is stored.
    pub fn set_error(&mut self, error: String)
        ensures
            (final(self).current_state, final(self).previous_state) == forward(
                old(self).current_state,
                AppState::Error(error),
            ),
            final(self).error_message == Some(error),
            final(self).selected_item_index == 0,
            final(self).scroll_offset == 0,
            final(self).status_message == old(self).status_message,
            final(self).same_data(old(self)),
    {
        let stored = error.clone();
        self.transition_to(AppState::Error(error));
        self.error_message = Some(stored);
    }

    pub fn set_status(&mut self, message: String)
        ensures
            final(self).status_message == Some(message),
            final(self).same_data(old(self)),
            final(self).current_state == old(self).current_state,
            final(self).previous_state == old(self).previous_state,
            final(self).selected_item_index == old(self).selected_item_index,
            final(self).scroll_offset == old(self).scroll_offset,
            final(self).error_message == old(self).error_message,
    {
        self.status_message = Some(message);
    }

    pub fn clear_status(&mut self)
        ensures
            final(self).status_message is None,
            final(self).same_data(old(self)),
            final(self).current_state == old(self).current_state,
            final(self).previous_state == old(self).previous_state,
            final(self).selected_item_index == old(self).selected_item_index,
            final(self).scroll_offset == old(self).scroll_offset,
            final(self).error_message == old(self).error_message,
    {
        self.status_message = None;
    }
    /// The selected backup items, in list order.
    pub fn get_selected_backup_items(&self) -> (r: Vec<&BackupItem>)
        ensures
            r@.map_values(|x: &BackupItem| *x) == selected_backup(self.backup_items@),
    {
        let mut out: Vec<&BackupItem> = Vec::new();
        let mut i: usize = 0;
        while i < self.backup_items.len()
            invariant
                i <= self.backup_items@.len(),
                out@.map_values(|x: &BackupItem| *x) == selected_backup(self.backup_items@.subrange(0, i as int)),
            decreases self.backup_items.len() - i,
        {
            assert(self.backup_items@.subrange(0, i + 1).drop_last() =~= self.backup_items@.subrange(0, i as int));
            let ghost before = out@;
            if self.backup_items[i].selected {
                out.push(&self.backup_items[i]);
                assert(out@.map_values(|x: &BackupItem| *x) =~= before.map_values(|x: &BackupItem| *x).push(self.backup_items@[i as int]));
            }
            i = i + 1;
        }
        assert(self.backup_items@.subrange(0, i as int) =~= self.backup_items@);
        out
    }

    /// The selected restore candidates, in list order.
    pub fn get_selected_restore_items(&self) -> (r: Vec<&RestoreItem>)
        ensures
            r@.map_values(|x: &RestoreItem| *x) == selected_restore(self.restore_items@),
    {
        let mut out: Vec<&RestoreItem> = Vec::new();
        let mut i: usize = 0;
        while i < self.restore_items.len()
            invariant
                i <= self.restore_items@.len(),
                out@.map_values(|x: &RestoreItem| *x) == selected_restore(self.restore_items@.subrange(0, i as int)),
            decreases self.restore_items.len() - i,
        {
            assert(self.restore_items@.subrange(0, i + 1).drop_last() =~= self.restore_items@.subrange(0, i as int));
            let ghost before = out@;
            if self.restore_items[i].selected {
                out.push(&self.restore_items[i]);
                assert(out@.map_values(|x: &RestoreItem| *x) =~= before.map_values(|x: &RestoreItem| *x).push(self.restore_items@[i as int]));
            }
            i = i + 1;
        }
        assert(self.restore_items@.subrange(0, i as int) =~= self.restore_items@);
        out
    }

    /// Flips the selection of item `index`; an index out of range changes nothing.
    pub fn toggle_backup_item(&mut self, index: usize)
        ensures
            final(self).backup_items@ == backup_toggled(old(self).backup_items@, index as int),
            final(self).backup_mode == old(self).backup_mode,
            final(self).backup_password == old(self).backup_password,
            final(self).backup_progress == old(self).backup_progress,
            final(self).backup_output_path == old(self).backup_output_path,
            final(self).validation_result == old(self).validation_result,
            final(self).same_restore_data(old(self)),
            final(self).same_but_data(old(self)),
    {
        if index < self.backup_items.len() {
            let flipped = !self.backup_items[index].selected;
            self.backup_items[index].selected = flipped;
            assert(self.backup_items@ =~= backup_toggled(old(self).backup_items@, index as int));
        }
    }

    /// Flips the selection of candidate `index`; an index out of range changes nothing.
    pub fn toggle_restore_item(&mut self, index: usize)
        ensures
            final(self).restore_items@ == restore_toggled(old(self).restore_items@, index as int),
            final(self).available_archives == old(self).available_archives,
            final(self).selected_archive == old(self).selected_archive,
            final(self).restore_password == old(self).restore_password,
            final(self).restore_progress == old(self).restore_progress,
            final(self).same_backup_data(old(self)),
            final(self).same_but_data(old(self)),
    {
        if index < self.restore_items.len() {
            let flipped = !self.restore_items[index].selected;
            self.restore_items[index].selected = flipped;
            assert(self.restore_items@ =~= restore_toggled(old(self).restore_items@, index as int));
        }
    }

    /// Sets the selection flag of every item to `select`.
    pub fn select_all_backup_items(&mut self, select: bool)
        ensures
            final(self).backup_items@ == all_backup_set(old(self).backup_items@, select),
            final(self).backup_mode == old(self).backup_mode,
            final(self).backup_password == old(self).backup_password,
            final(self).backup_progress == old(self).backup_progress,
            final(self).backup_output_path == old(self).backup_output_path,
            final(self).validation_result == old(self).validation_result,
            final(self).same_restore_data(old(self)),
            final(self).same_but_data(old(self)),
    {
        let n = self.backup_items.len();
        let mut i: usize = 0;
        while i < n
            invariant
                n == self.backup_items@.len(),
                n == old(self).backup_items@.len(),
                i <= n,
                forall|j: int| 0 <= j < i ==> self.backup_items@[j] == (BackupItem { selected: select, ..old(self).backup_items@[j] }),
                forall|j: int| i <= j < n ==> self.backup_items@[j] == old(self).backup_items@[j],
                self.backup_mode == old(self).backup_mode,
                self.backup_password == old(self).backup_password,
                self.backup_progress == old(self).backup_progress,
                self.backup_output_path == old(self).backup_output_path,
                self.validation_result == old(self).validation_result,
                self.same_restore_data(old(self)),
                self.same_but_data(old(self)),
            decreases n - i,
        {
            self.backup_items[i].selected = select;
            i = i + 1;
        }
        assert(self.backup_items@ =~= all_backup_set(old(self).backup_items@, select));
    }

    /// Sets the selection flag of every candidate to `select`.
    pub fn select_all_restore_items(&mut self, select: bool)
        ensures
            final(self).restore_items@ == all_restore_set(old(self).restore_items@, select),
            final(self).available_archives == old(self).available_archives,
            final(self).selected_archive == old(self).selected_archive,
            final(self).restore_password == old(self).restore_password,
            final(self).restore_progress == old(self).restore_progress,
            final(self).same_backup_data(old(self)),
            final(self).same_but_data(old(self)),
    {
        let n = self.restore_items.len();
        let mut i: usize = 0;
        while i < n
            invariant
                n == self.restore_items@.len(),
                n == old(self).restore_items@.len(),
                i <= n,
                forall|j: int| 0 <= j < i ==> self.restore_items@[j] == (RestoreItem { selected: select, ..old(self).restore_items@[j] }),
                forall|j: int| i <= j < n ==> self.restore_items@[j] == old(self).restore_items@[j],
                self.available_archives == old(self).available_archives,
                self.selected_archive == old(self).selected_archive,
                self.restore_password == old(self).restore_password,
                self.restore_progress == old(self).restore_progress,
                self.same_backup_data(old(self)),
                self.same_but_data(old(self)),
            decreases n - i,
        {
            self.restore_items[i].selected = select;
            i = i + 1;
        }
        assert(self.restore_items@ =~= all_restore_set(old(self).restore_items@, select));
    }

    /// The window `[start, end)` of backup items shown in `height` rows.
    pub fn get_visible_backup_items(&self, height: usize) -> (r: (usize, usize))
        ensures
            r.0 == self.scroll_offset,
            r.1 == min_int(self.scroll_offset + height, self.backup_items@.len() as int),
    {
        let total = self.backup_items.len();
        let start = self.scroll_offset;
        let end = start.saturating_add(height);
        (start, if end < total { end } else { total })
    }

    /// The window `[start, end)` of restore candidates shown in `height` rows.
    pub fn get_visible_restore_items(&self, height: usize) -> (r: (usize, usize))
        ensures
            r.0 == self.scroll_offset,
            r.1 == min_int(self.scroll_offset + height, self.restore_items@.len() as int),
    {
        let total = self.restore_items.len();
        let start = self.scroll_offset;
        let end = start.saturating_add(height);
        (start, if end < total { end } else { total })
    }

    pub fn scroll_up(&mut self, amount: usize)
        ensures
            final(self).scroll_offset == max_int(old(self).scroll_offset - amount, 0),
            final(self).selected_item_index == old(self).selected_item_index,
            final(self).same_but_cursor(old(self)),
    {
        self.scroll_offset = self.scroll_offset.saturating_sub(amount);
    }

    /// Scrolls down by `amount`, no further than the last full page.
    pub fn scroll_down(&mut self, amount: usize, max_items: usize, visible_height: usize)
        ensures
            final(self).scroll_offset == if max_items > visible_height {
                min_int(old(self).scroll_offset + amount, max_items - visible_height)
            } else {
                old(self).scroll_offset as int
            },
            final(self).selected_item_index == old(self).selected_item_index,
            final(self).same_but_cursor(old(self)),
    {
        if max_items > visible_height {
            let max_scroll = max_items - visible_height;
            let target = self.scroll_offset.saturating_add(amount);
            self.scroll_offset = if target < max_scroll { target } else { max_scroll };
        }
    }

    /// Moves the cursor up one row, wrapping from the first row to the last,
    /// and scrolls back when the cursor goes above the first visible row.
    pub fn move_selection_up(&mut self, max_items: usize)
        ensures
            (final(self).selected_item_index as int, final(self).scroll_offset as int) == cursor_up(
                old(self).selected_item_index as int,
                old(self).scroll_offset as int,
                max_items as int,
            ),
            final(self).same_but_cursor(old(self)),
    {
        if max_items > 0 {
            self.selected_item_index = if self.selected_item_index == 0 {
                max_items - 1
            } else {
                self.selected_item_index - 1
            };
            if self.selected_item_index < self.scroll_offset {
                self.scroll_offset = self.selected_item_index;
            }
        }
    }

    /// Moves the cursor down one row, wrapping from the last row to the
    /// first, and scrolls so that the cursor stays within `visible_height` rows.
    pub fn move_selection_down(&mut self, max_items: usize, visible_height: usize)
        ensures
            (final(self).selected_item_index as int, final(self).scroll_offset as int) == cursor_down(
                old(self).selected_item_index as int,
                old(self).scroll_offset as int,
                max_items as int,
                visible_height as int,
            ),
            max_items > 0 && visible_height > 0 ==> final(self).scroll_offset
                <= final(self).selected_item_index < final(self).scroll_offset + visible_height,
            final(self).same_but_cursor(old(self)),
    {
        if max_items > 0 {
            let sel = self.selected_item_index;
            let next = (sel % max_items + 1) % max_items;
            proof {
                vstd::arithmetic::div_mod::lemma_add_mod_noop_right(1, sel as int, max_items as int);
                assert(1 + (sel as int) % (max_items as int) == (sel as int) % (max_items as int) + 1);
            }
            self.selected_item_index = next;
            if next < self.scroll_offset {
                self.scroll_offset = next;
            } else if next - self.scroll_offset >= visible_height {
                self.scroll_offset = next - visible_height + 1;
            }
        }
    }

    /// Moves the view and the cursor up by one page.
    pub fn page_up(&mut self, visible_height: usize)
        ensures
            (final(self).selected_item_index as int, final(self).scroll_offset as int) == cursor_page_up(
                old(self).selected_item_index as int,
                old(self).scroll_offset as int,
                visible_height as int,
            ),
            final(self).same_but_cursor(old(self)),
    {
        let page = if visible_height > 1 { visible_height - 1 } else { 1 };
        self.scroll_offset = self.scroll_offset.saturating_sub(page);
        self.selected_item_index = self.selected_item_index.saturating_sub(page);
    }

    /// Moves the view and the cursor down by one page, no further than the
    /// last full page and the last row. With no rows the cursor goes to 0.
    pub fn page_down(&mut self, max_items: usize, visible_height: usize)
        ensures
            (final(self).selected_item_index as int, final(self).scroll_offset as int) == cursor_page_down(
                old(self).selected_item_index as int,
                old(self).scroll_offset as int,
                max_items as int,
                visible_height as int,
            ),
            final(self).same_but_cursor(old(self)),
    {
        let page = if visible_height > 1 { visible_height - 1 } else { 1 };
        if max_items > visible_height {
            let max_scroll = max_items - visible_height;
            let target = self.scroll_offset.saturating_add(page);
            self.scroll_offset = if target < max_scroll { target } else { max_scroll };
        }
        if max_items == 0 {
            self.selected_item_index = 0;
        } else {
            let target = self.selected_item_index.saturating_add(page);
            self.selected_item_index = if target < max_items - 1 { target } else { max_items - 1 };
        }
    }

    /// A backup may start: at least one item is selected.
    pub fn is_backup_ready(&self) -> (r: bool)
        ensures
            r == backup_ready(self.backup_items@),
            r == (selected_backup(self.backup_items@).len() > 0),
    {
        proof {
            lemma_ready_iff_selection_nonempty(self.backup_items@);
        }
        let mut i: usize = 0;
        while i < self.backup_items.len()
            invariant
                i <= self.backup_items@.len(),
                forall|j: int| 0 <= j < i ==> !self.backup_items@[j].selected,
            decreases self.backup_items.len() - i,
        {
            if self.backup_items[i].selected {
                assert(self.backup_items@[i as int].selected);
                proof {
                    lemma_ready_iff_selection_nonempty(self.backup_items@);
                }
                return true;
            }
            i = i + 1;
        }
        false
    }

    /// A restore may start: an archive is chosen and at least one candidate is selected.
    pub fn is_restore_ready(&self) -> (r: bool)
        ensures
            r == (self.selected_archive is Some && selected_restore(self.restore_items@).len() > 0),
    {
        let chosen = self.selected_archive.is_some();
        let selected = self.get_selected_restore_items();
        assert(selected@.len() == selected@.map_values(|x: &RestoreItem| *x).len());
        chosen && selected.len() > 0
    }

    /// Count, total known size (saturating at the largest `u64`) and count of
    /// high-sensitivity items, over the selected backup items.
    pub fn get_backup_summary(&self) -> (r: (usize, u64, usize))
        ensures
            r.0 == selected_backup(self.backup_items@).len(),
            r.1 == min_int(backup_size_sum(selected_backup(self.backup_items@)), u64::MAX as int),
            r.2 == high_count(selected_backup(self.backup_items@)),
    {
        let items = &self.backup_items;
        let mut count: usize = 0;
        let mut total: u64 = 0;
        let mut high: usize = 0;
        let mut i: usize = 0;
        while i < items.len()
            invariant
                i <= items@.len(),
                count == selected_backup(items@.subrange(0, i as int)).len(),
                total == min_int(backup_size_sum(selected_backup(items@.subrange(0, i as int))), u64::MAX as int),
                high == high_count(selected_backup(items@.subrange(0, i as int))),
                count <= i,
                high <= count,
            decreases items.len() - i,
        {
            let ghost before = selected_backup(items@.subrange(0, i as int));
            assert(items@.subrange(0, i + 1).drop_last() =~= items@.subrange(0, i as int));
            proof {
                lemma_backup_size_nonneg(before);
            }
            if items[i].selected {
                assert(before.push(items@[i as int]).drop_last() =~= before);
                count = count + 1;
                match items[i].size {
                    Some(n) => {
                        total = total.saturating_add(n);
                    },
                    None => {},
                }
                if items[i].security_level == SecurityLevel::High {
                    high = high + 1;
                }
            }
            i = i + 1;
        }
        assert(items@.subrange(0, i as int) =~= items@);
        (count, total, high)
    }

    /// Count, total size (saturating at the largest `u64`) and count of
    /// conflicting candidates, over the selected restore candidates.
    pub fn get_restore_summary(&self) -> (r: (usize, u64, usize))
        ensures
            r.0 == selected_restore(self.restore_items@).len(),
            r.1 == min_int(restore_size_sum(selected_restore(self.restore_items@)), u64::MAX as int),
            r.2 == conflict_count(selected_restore(self.restore_items@)),
    {
        let items = &self.restore_items;
        let mut count: usize = 0;
        let mut total: u64 = 0;
        let mut conflicts: usize = 0;
        let mut i: usize = 0;
        while i < items.len()
            invariant
                i <= items@.len(),
                count == selected_restore(items@.subrange(0, i as int)).len(),
                total == min_int(restore_size_sum(selected_restore(items@.subrange(0, i as int))), u64::MAX as int),
                conflicts == conflict_count(selected_restore(items@.subrange(0, i as int))),
                count <= i,
                conflicts <= count,
            decreases items.len() - i,
        {
            let ghost before = selected_restore(items@.subrange(0, i as int));
            assert(items@.subrange(0, i + 1).drop_last() =~= items@.subrange(0, i as int));
            proof {
                lemma_restore_size_nonneg(before);
            }
            if items[i].selected {
                assert(before.push(items@[i as int]).drop_last() =~= before);
                count = count + 1;
                total = total.saturating_add(items[i].size);
                if items[i].conflicts {
                    conflicts = conflicts + 1;
                }
            }
            i = i + 1;
        }
        assert(items@.subrange(0, i as int) =~= items@);
        (count, total, conflicts)
    }
}

proof fn lemma_backup_size_nonneg(s: Seq<BackupItem>)
    ensures
        backup_size_sum(s) >= 0,
    decreases s.len(),
{
    if s.len() > 0 {
        lemma_backup_size_nonneg(s.drop_last());
    }
}

proof fn lemma_restore_size_nonneg(s: Seq<RestoreItem>)
    ensures
        restore_size_sum(s) >= 0,
    decreases s.len(),
{
    if s.len() > 0 {
        lemma_restore_size_nonneg(s.drop_last());
    }
}

/// The backup gate and the selection agree: some item is selected exactly
/// when the list of selected items is non-empty, for every list (empty, all
/// selected, none selected, or mixed).
pub proof fn lemma_ready_iff_selection_nonempty(s: Seq<BackupItem>)
    ensures
        backup_ready(s) <==> selected_backup(s).len() > 0,
    decreases s.len(),
{
    if s.len() > 0 {
        let init = s.drop_last();
        lemma_ready_iff_selection_nonempty(init);
        if backup_ready(init) {
            let i = choose|i: int| 0 <= i < init.len() && #[trigger] init[i].selected;
            assert(s[i].selected);
        }
        if backup_ready(s) && !s.last().selected {
            let i = choose|i: int| 0 <= i < s.len() && #[trigger] s[i].selected;
            assert(init[i].selected);
        }
        if s.last().selected {
            assert(s[s.len() - 1].selected);
        }
    }
}



/// The step and back target after forward moves to each of `steps`, in order.
pub open spec fn run_forward(cur: AppState, prev: Option<AppState>, steps: Seq<AppState>) -> (AppState, Option<AppState>)
    decreases steps.len(),
{
    if steps.len() == 0 {
        (cur, prev)
    } else {
        let before = run_forward(cur, prev, steps.drop_last());
        forward(before.0, steps.last())
    }
}

/// The step and back target after `k` steps back.
pub open spec fn run_back(cur: AppState, prev: Option<AppState>, k: nat) -> (AppState, Option<AppState>)
    decreases k,
{
    if k == 0 {
        (cur, prev)
    } else {
        let before = run_back(cur, prev, (k - 1) as nat);
        backward(before.0, before.1)
    }
}

/// Undo is single-level: after one or more forward moves, any number (at
/// least one) of steps back lands on the step just before the last move and
/// stays there, with an empty back stack. It never unwinds further.
pub proof fn lemma_single_level_undo(start: AppState, prev: Option<AppState>, steps: Seq<AppState>, k: nat)
    requires
        steps.len() >= 1,
        k >= 1,
    ensures
        run_back(
            run_forward(start, prev, steps).0,
            run_forward(start, prev, steps).1,
            k,
        ) == (if steps.len() == 1 { start } else { steps[steps.len() - 2] }, Option::<AppState>::None),
    decreases k,
{
    let prior = if steps.len() == 1 { start } else { steps[steps.len() - 2] };
    let init = steps.drop_last();
    if init.len() > 0 {
        assert(init.last() == steps[steps.len() - 2]);
    }
    assert(run_forward(start, prev, init).0 == prior);
    let after = run_forward(start, prev, steps);
    assert(after == (steps.last(), Some(prior)));
    if k == 1 {
        assert(run_back(after.0, after.1, 0) == after);
    } else {
        lemma_single_level_undo(start, prev, steps, (k - 1) as nat);
    }
}

/// Selecting every item and then deselecting every item leaves every item
/// unselected, with nothing else changed.
pub proof fn lemma_select_all_then_none(s: Seq<BackupItem>)
    ensures
        all_backup_set(all_backup_set(s, true), false) == all_backup_set(s, false),
        forall|i: int| 0 <= i < s.len() ==> !(#[trigger] all_backup_set(all_backup_set(s, true), false)[i]).selected,
{
    assert(all_backup_set(all_backup_set(s, true), false) =~= all_backup_set(s, false));
}

/// Toggling the same index twice gives back the list it started from.
pub proof fn lemma_toggle_twice(s: Seq<BackupItem>, i: int)
    ensures
        backup_toggled(backup_toggled(s, i), i) == s,
{
    if 0 <= i < s.len() {
        assert(backup_toggled(backup_toggled(s, i), i) =~= s);
    }
}

} // verus!
