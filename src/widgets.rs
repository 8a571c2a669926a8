//! Input widgets: the key events the wizard understands, the password field,
//! the menu and the loading spinner. Drawing them is left to the terminal layer.
use vstd::prelude::*;
use vstd::utf8::encode_utf8;
use crate::security::{
    has_common_pattern, has_repetition, lossy_text, lowercase_text, strength_feedback,
    strength_score, texts, validate_password_strength, variety, PasswordStrength, SecurePassword,
};
use crate::text::string_of;

verus! {

/// Relies on zeroize's `Zeroize` for `Vec<char>`: the characters and the
/// spare capacity are overwritten with zeros, then the vector is emptied.
#[verifier::external_body]
fn wipe_chars(v: &mut Vec<char>)
    ensures
        final(v)@.len() == 0,
    opens_invariants none
    no_unwind
{
    zeroize::Zeroize::zeroize(v)
}

/// A key press, as far as the wizard tells keys apart.
#[derive(Debug, Clone, Copy, PartialEq, Eq, Structural)]
pub enum Key {
    Char(char),
    Up,
    Down,
    PageUp,
    PageDown,
    Left,
    Right,
    Enter,
    Esc,
    Tab,
    Backspace,
    Other,
}

/// A key press and whether Control was held.
#[derive(Debug, Clone, Copy, PartialEq, Eq, Structural)]
pub struct KeyInput {
    pub key: Key,
    pub ctrl: bool,
}

#[derive(Debug, Clone, Copy, PartialEq, Eq, Structural)]
enum PasswordField {
    Password,
    Confirm,
}

/// The strength report of a text: that of the secret holding its UTF-8 bytes.
pub open spec fn reports_strength_of(st: PasswordStrength, t: Seq<char>) -> bool {
    let text = lossy_text(encode_utf8(t));
    let n = (encode_utf8(text).len() as usize) as int;
    let v = variety(text);
    let common = has_common_pattern(lowercase_text(text));
    let rep = has_repetition(text);
    &&& st.score as int == strength_score(n, v, common, rep)
    &&& texts(st.feedback@) == strength_feedback(n, v, common, rep)
}

/// A masked password field, optionally with a confirmation field and a
/// strength report. Its contents are wiped whenever it is cleared or dropped.
pub struct PasswordInput {
    input: Vec<char>,
    cursor_position: usize,
    show_strength: bool,
    strength: Option<PasswordStrength>,
    confirm_mode: bool,
    confirm_input: Vec<char>,
    confirm_cursor: usize,
    active_field: PasswordField,
}

impl PasswordInput {
    pub closed spec fn wf(&self) -> bool {
        &&& self.cursor_position <= self.input@.len()
        &&& self.confirm_cursor <= self.confirm_input@.len()
        &&& (!self.confirm_mode ==> self.active_field == PasswordField::Password)
    }

    /// The characters typed into the password field.
    pub closed spec fn text(&self) -> Seq<char> {
        self.input@
    }

    /// The characters typed into the confirmation field.
    pub closed spec fn confirm_text(&self) -> Seq<char> {
        self.confirm_input@
    }

    pub closed spec fn cursor(&self) -> int {
        self.cursor_position as int
    }

    pub closed spec fn confirm_cursor_at(&self) -> int {
        self.confirm_cursor as int
    }

    /// Typing goes to the confirmation field.
    pub closed spec fn on_confirm(&self) -> bool {
        self.active_field == PasswordField::Confirm
    }

    pub closed spec fn shows_strength(&self) -> bool {
        self.show_strength
    }

    pub closed spec fn confirming(&self) -> bool {
        self.confirm_mode
    }

    pub closed spec fn spec_strength(&self) -> Option<PasswordStrength> {
        self.strength
    }

    /// Empty fields, cursor at the start, typing into the password field.
    pub open spec fn is_cleared(&self) -> bool {
        &&& self.wf()
        &&& self.text().len() == 0
        &&& self.confirm_text().len() == 0
        &&& self.cursor() == 0
        &&& self.confirm_cursor_at() == 0
        &&& !self.on_confirm()
        &&& self.spec_strength() is None
    }

    pub fn new(show_strength: bool, confirm_mode: bool) -> (r: Self)
        ensures
            r.is_cleared(),
            r.shows_strength() == show_strength,
            r.confirming() == confirm_mode,
    {
        PasswordInput {
            input: Vec::new(),
            cursor_position: 0,
            show_strength,
            strength: None,
            confirm_mode,
            confirm_input: Vec::new(),
            confirm_cursor: 0,
            active_field: PasswordField::Password,
        }
    }

    /// Recomputes the strength report of the password field: none while it is empty.
    pub fn update_strength(&mut self)
        requires
            old(self).wf(),
        ensures
            final(self).wf(),
            final(self).text() == old(self).text(),
            final(self).confirm_text() == old(self).confirm_text(),
            final(self).cursor() == old(self).cursor(),
            final(self).confirm_cursor_at() == old(self).confirm_cursor_at(),
            final(self).on_confirm() == old(self).on_confirm(),
            final(self).shows_strength() == old(self).shows_strength(),
            final(self).confirming() == old(self).confirming(),
            final(self).text().len() == 0 <==> final(self).spec_strength() is None,
            final(self).spec_strength() is Some ==> reports_strength_of(
                final(self).spec_strength()->0,
                final(self).text(),
            ),
    {
        if self.input.len() > 0 {
            let password = SecurePassword::new(string_of(&self.input, 0, self.input.len()));
            proof {
                assert(self.input@.subrange(0, self.input@.len() as int) =~= self.input@);
            }
            self.strength = Some(validate_password_strength(&password));
        } else {
            self.strength = None;
        }
    }

    /// Wipes both fields and returns to an empty password field.
    pub fn clear(&mut self)
        ensures
            final(self).is_cleared(),
            final(self).shows_strength() == old(self).shows_strength(),
            final(self).confirming() == old(self).confirming(),
    {
        wipe_chars(&mut self.input);
        wipe_chars(&mut self.confirm_input);
        self.cursor_position = 0;
        self.confirm_cursor = 0;
        self.strength = None;
        self.active_field = PasswordField::Password;
    }

    /// The secret typed, if Enter may submit it: the password field is not
    /// empty and, with a confirmation field, both fields agree.
    pub open spec fn submittable(&self) -> bool {
        self.text().len() > 0 && (self.confirming() ==> self.text() == self.confirm_text())
    }

    /// Handles one key. Enter submits the secret when `submittable`, and
    /// then the fields are wiped; every other key edits the active field.
    pub fn handle_key(&mut self, key: Key) -> (r: Option<SecurePassword>)
        requires
            old(self).wf(),
        ensures
            final(self).wf(),
            final(self).shows_strength() == old(self).shows_strength(),
            final(self).confirming() == old(self).confirming(),
            key == Key::Enter ==> (r is Some <==> old(self).submittable()),
            key == Key::Enter && old(self).submittable() ==> r->0@ == encode_utf8(old(self).text())
                && final(self).is_cleared(),
            key == Key::Enter && !old(self).submittable() ==> *final(self) == *old(self),
            key != Key::Enter ==> r is None,
            key == Key::Tab ==> final(self).text() == old(self).text() && final(self).confirm_text()
                == old(self).confirm_text() && final(self).on_confirm() == (old(self).confirming()
                != old(self).on_confirm()),
            forall|c: char|
                key == Key::Char(c) && !old(self).on_confirm() ==> #[trigger] final(self).text()
                    == old(self).text().insert(old(self).cursor(), c) && final(self).cursor()
                    == old(self).cursor() + 1 && final(self).confirm_text() == old(self).confirm_text(),
            forall|c: char|
                key == Key::Char(c) && old(self).on_confirm() ==> #[trigger] final(self).confirm_text()
                    == old(self).confirm_text().insert(old(self).confirm_cursor_at(), c)
                    && final(self).confirm_cursor_at() == old(self).confirm_cursor_at() + 1
                    && final(self).text() == old(self).text(),
            key == Key::Backspace && !old(self).on_confirm() && old(self).cursor() > 0 ==> final(self).text() == old(self).text().remove(old(self).cursor() - 1) && final(self).cursor()
                == old(self).cursor() - 1,
            key == Key::Backspace && old(self).on_confirm() && old(self).confirm_cursor_at() > 0
                ==> final(self).confirm_text() == old(self).confirm_text().remove(
                old(self).confirm_cursor_at() - 1,
            ) && final(self).confirm_cursor_at() == old(self).confirm_cursor_at() - 1,
            key == Key::Left && !old(self).on_confirm() ==> final(self).cursor() == if old(self).cursor() > 0 {
                old(self).cursor() - 1
            } else {
                0
            },
            key == Key::Right && !old(self).on_confirm() ==> final(self).cursor() == if old(self).cursor() < old(self).text().len() {
                old(self).cursor() + 1
            } else {
                old(self).cursor()
            },
            final(self).shows_strength() && !final(self).on_confirm() && final(self).text()
                != old(self).text() ==> (final(self).spec_strength() is Some <==> final(self).text().len() > 0),
    {
        match key {
            Key::Char(c) => {
                match self.active_field {
                    PasswordField::Password => {
                        self.input.insert(self.cursor_position, c);
                        let grown = self.input.len();
                        assert(self.cursor_position < grown);
                        self.cursor_position = self.cursor_position + 1;
                        if self.show_strength {
                            self.update_strength();
                        }
                    },
                    PasswordField::Confirm => {
                        self.confirm_input.insert(self.confirm_cursor, c);
                        let grown = self.confirm_input.len();
                        assert(self.confirm_cursor < grown);
                        self.confirm_cursor = self.confirm_cursor + 1;
                    },
                }
            },
            Key::Backspace => {
                match self.active_field {
                    PasswordField::Password => {
                        if self.cursor_position > 0 {
                            self.cursor_position = self.cursor_position - 1;
                            self.input.remove(self.cursor_position);
                            if self.show_strength {
                                self.update_strength();
                            }
                        }
                    },
                    PasswordField::Confirm => {
                        if self.confirm_cursor > 0 {
                            self.confirm_cursor = self.confirm_cursor - 1;
                            self.confirm_input.remove(self.confirm_cursor);
                        }
                    },
                }
            },
            Key::Left => {
                match self.active_field {
                    PasswordField::Password => {
                        self.cursor_position = self.cursor_position.saturating_sub(1);
                    },
                    PasswordField::Confirm => {
                        self.confirm_cursor = self.confirm_cursor.saturating_sub(1);
                    },
                }
            },
            Key::Right => {
                match self.active_field {
                    PasswordField::Password => {
                        if self.cursor_position < self.input.len() {
                            self.cursor_position = self.cursor_position + 1;
                        }
                    },
                    PasswordField::Confirm => {
                        if self.confirm_cursor < self.confirm_input.len() {
                            self.confirm_cursor = self.confirm_cursor + 1;
                        }
                    },
                }
            },
            Key::Tab => {
                if self.confirm_mode {
                    self.active_field = match self.active_field {
                        PasswordField::Password => PasswordField::Confirm,
                        PasswordField::Confirm => PasswordField::Password,
                    };
                }
            },
            Key::Enter => {
                let ok = self.input.len() > 0 && (!self.confirm_mode || same_text(
                    &self.input,
                    &self.confirm_input,
                ));
                if ok {
                    let password = SecurePassword::new(string_of(&self.input, 0, self.input.len()));
                    proof {
                        assert(self.input@.subrange(0, self.input@.len() as int) =~= self.input@);
                    }
                    self.clear();
                    return Some(password);
                }
            },
            _ => {},
        }
        None
    }

    /// How many characters the password field holds (for the masked display).
    pub fn input_len(&self) -> (r: usize)
        ensures
            r == self.text().len(),
    {
        self.input.len()
    }

    /// How many characters the confirmation field holds.
    pub fn confirm_len(&self) -> (r: usize)
        ensures
            r == self.confirm_text().len(),
    {
        self.confirm_input.len()
    }

    pub fn is_confirm_mode(&self) -> (r: bool)
        ensures
            r == self.confirming(),
    {
        self.confirm_mode
    }

    pub fn is_on_confirm(&self) -> (r: bool)
        ensures
            r == self.on_confirm(),
    {
        match self.active_field {
            PasswordField::Confirm => true,
            PasswordField::Password => false,
        }
    }

    /// Whether both fields hold the same characters.
    pub fn fields_match(&self) -> (r: bool)
        ensures
            r == (self.text() == self.confirm_text()),
    {
        same_text(&self.input, &self.confirm_input)
    }

    pub fn strength(&self) -> (r: Option<&PasswordStrength>)
        ensures
            r is Some <==> self.spec_strength() is Some,
            r is Some ==> *(r->0) == self.spec_strength()->0,
    {
        match &self.strength {
            Some(s) => Some(s),
            None => None,
        }
    }
}

impl Drop for PasswordInput {
    fn drop(&mut self)
        opens_invariants none
        no_unwind
    {
        wipe_chars(&mut self.input);
        wipe_chars(&mut self.confirm_input);
    }
}

/// One entry of a menu: the key that picks it, what it says, and whether it can be picked.
pub struct MenuItem {
    pub key: char,
    pub label: String,
    pub description: String,
    pub enabled: bool,
}

impl MenuItem {
    pub fn new(key: char, label: String, description: String) -> (r: Self)
        ensures
            r.key == key,
            r.label == label,
            r.description == description,
            r.enabled,
    {
        MenuItem { key, label, description, enabled: true }
    }

    pub fn disabled(self) -> (r: Self)
        ensures
            r == (MenuItem { enabled: false, ..self }),
    {
        let mut item = self;
        item.enabled = false;
        item
    }
}

/// Index of the first entry with key `c`, or `items.len()`.
pub open spec fn first_with_key(items: Seq<MenuItem>, c: char, from: int) -> int
    decreases items.len() - from,
{
    if from < 0 || from >= items.len() {
        items.len() as int
    } else if items[from].key == c {
        from
    } else {
        first_with_key(items, c, from + 1)
    }
}

/// What a key press picks from a menu whose cursor is at `sel`.
pub open spec fn menu_pick(items: Seq<MenuItem>, sel: int, key: Key) -> Option<char> {
    match key {
        Key::Enter => if 0 <= sel < items.len() && items[sel].enabled {
            Some(items[sel].key)
        } else {
            None
        },
        Key::Char(c) => if c == 'k' || c == 'j' {
            None
        } else {
            let i = first_with_key(items, c, 0);
            if i < items.len() && items[i].enabled {
                Some(c)
            } else {
                None
            }
        },
        _ => None,
    }
}

/// The cursor one entry up, wrapping from the first entry to the last.
pub open spec fn menu_up(sel: int, len: int) -> int {
    if sel > 0 { sel - 1 } else if len > 0 { len - 1 } else { 0 }
}

/// The cursor one entry down, wrapping after the last entry to the first.
pub open spec fn menu_down(sel: int, len: int) -> int {
    if sel < len - 1 { sel + 1 } else { 0 }
}

/// A list of entries with a cursor.
pub struct Menu {
    items: Vec<MenuItem>,
    selected_index: usize,
}

impl Menu {
    pub closed spec fn entries(&self) -> Seq<MenuItem> {
        self.items@
    }

    pub closed spec fn cursor(&self) -> int {
        self.selected_index as int
    }

    pub fn new(items: Vec<MenuItem>) -> (r: Self)
        ensures
            r.entries() == items@,
            r.cursor() == 0,
    {
        Menu { items, selected_index: 0 }
    }

    pub fn move_selection_up(&mut self)
        ensures
            final(self).cursor() == menu_up(old(self).cursor(), old(self).entries().len() as int),
            final(self).entries() == old(self).entries(),
    {
        if self.selected_index > 0 {
            self.selected_index = self.selected_index - 1;
        } else {
            self.selected_index = self.items.len().saturating_sub(1);
        }
    }

    pub fn move_selection_down(&mut self)
        ensures
            final(self).cursor() == menu_down(old(self).cursor(), old(self).entries().len() as int),
            final(self).entries() == old(self).entries(),
    {
        if self.selected_index < self.items.len().saturating_sub(1) {
            self.selected_index = self.selected_index + 1;
        } else {
            self.selected_index = 0;
        }
    }

    /// Up/`k` and Down/`j` move the cursor; Enter picks the entry under the
    /// cursor; another character picks the first entry with that key. A
    /// disabled entry is never picked.
    pub fn handle_key(&mut self, key: Key) -> (r: Option<char>)
        ensures
            r == menu_pick(old(self).entries(), old(self).cursor(), key),
            final(self).entries() == old(self).entries(),
            (key == Key::Up || key == Key::Char('k')) ==> final(self).cursor() == menu_up(
                old(self).cursor(),
                old(self).entries().len() as int,
            ),
            (key == Key::Down || key == Key::Char('j')) ==> final(self).cursor() == menu_down(
                old(self).cursor(),
                old(self).entries().len() as int,
            ),
            !(key == Key::Up || key == Key::Char('k') || key == Key::Down || key == Key::Char('j'))
                ==> final(self).cursor() == old(self).cursor(),
    {
        match key {
            Key::Up | Key::Char('k') => {
                self.move_selection_up();
            },
            Key::Down | Key::Char('j') => {
                self.move_selection_down();
            },
            Key::Enter => {
                if self.selected_index < self.items.len() && self.items[self.selected_index].enabled {
                    return Some(self.items[self.selected_index].key);
                }
            },
            Key::Char(c) => {
                let mut i: usize = 0;
                while i < self.items.len()
                    invariant
                        i <= self.items@.len(),
                        key == Key::Char(c),
                        c != 'k' && c != 'j',
                        *self == *old(self),
                        first_with_key(self.items@, c, 0) == first_with_key(self.items@, c, i as int),
                    decreases self.items.len() - i,
                {
                    if self.items[i].key == c {
                        return if self.items[i].enabled {
                            Some(c)
                        } else {
                            None
                        };
                    }
                    i = i + 1;
                }
            },
            _ => {},
        }
        None
    }

    /// The entries, for drawing.
    pub fn items(&self) -> (r: &Vec<MenuItem>)
        ensures
            r@ == self.entries(),
    {
        &self.items
    }

    pub fn selected_index(&self) -> (r: usize)
        ensures
            r == self.cursor(),
    {
        self.selected_index
    }
}

/// The frames of the spinner, in the order they are shown.
pub open spec fn spinner_frames() -> Seq<Seq<char>> {
    seq!["⠋"@, "⠙"@, "⠹"@, "⠸"@, "⠼"@, "⠴"@, "⠦"@, "⠧"@, "⠇"@, "⠏"@]
}

/// A spinner that shows one of its frames and moves to the next on each tick.
pub struct LoadingSpinner {
    frames: Vec<&'static str>,
    current_frame: usize,
}

impl LoadingSpinner {
    pub closed spec fn wf(&self) -> bool {
        &&& self.frames@.len() == 10
        &&& self.current_frame < 10
        &&& forall|i: int| 0 <= i < 10 ==> (#[trigger] self.frames@[i])@ == spinner_frames()[i]
    }

    pub closed spec fn frame_index(&self) -> int {
        self.current_frame as int
    }

    pub fn new() -> (r: Self)
        ensures
            r.wf(),
            r.frame_index() == 0,
    {
        let frames: Vec<&'static str> = vec!["⠋", "⠙", "⠹", "⠸", "⠼", "⠴", "⠦", "⠧", "⠇", "⠏"];
        assert(frames@.map_values(|f: &'static str| f@) =~= spinner_frames());
        assert forall|i: int| 0 <= i < 10 implies (#[trigger] frames@[i])@ == spinner_frames()[i] by {
            assert(frames@.map_values(|f: &'static str| f@)[i] == frames@[i]@);
        }
        LoadingSpinner { frames, current_frame: 0 }
    }

    /// Moves to the next frame, after the last back to the first.
    pub fn tick(&mut self)
        requires
            old(self).wf(),
        ensures
            final(self).wf(),
            final(self).frame_index() == (old(self).frame_index() + 1) % 10,
    {
        assert(self.frames@.len() == 10);
        self.current_frame = (self.current_frame + 1) % self.frames.len();
    }

    /// The frame to show now.
    pub fn frame(&self) -> (r: &'static str)
        requires
            self.wf(),
        ensures
            r@ == spinner_frames()[self.frame_index()],
    {
        self.frames[self.current_frame]
    }
}

impl Default for LoadingSpinner {
    fn default() -> (r: Self)
        ensures
            r.wf(),
            r.frame_index() == 0,
    {
        LoadingSpinner::new()
    }
}

fn same_text(a: &Vec<char>, b: &Vec<char>) -> (r: bool)
    ensures
        r == (a@ == b@),
{
    if a.len() != b.len() {
        return false;
    }
    let mut i: usize = 0;
    while i < a.len()
        invariant
            a@.len() == b@.len(),
            i <= a@.len(),
            forall|j: int| 0 <= j < i ==> a@[j] == b@[j],
        decreases a.len() - i,
    {
        if a[i] != b[i] {
            return false;
        }
        i = i + 1;
    }
    assert(a@ =~= b@);
    true
}

} // verus!
