//! The program's state: the word being typed, what a Backspace would take back,
//! and the switches of the tray menu.

use vstd::hash_map::StringHashMap;
use vstd::prelude::*;
use vstd::utf8::encode_utf8;

use crate::input::{ExpansionText, LastExpansion};
use crate::keys::{
    ignored_modifier, is_ignored_modifier, shortcut_chord, structural_boundary, Boundary, KeyChar,
    VK_BACK, VK_RETURN, VK_TAB,
};
use crate::replacements::{expand, expansion_of, texts};
use crate::settings::{
    as_entries, boundary_chars_from_settings, first_chars, settings_characters, AppSettings,
    SettingsText,
};

verus! {

/// A word longer than this many bytes is given up on.
pub const MAX_BUFFER_LEN: usize = 64;

/// What to do about a key that went down.
#[derive(Debug)]
pub enum KeyAction {
    /// Leave it to the focused application.
    PassThrough,
    /// Swallow it and take the most recent expansion back.
    Undo(LastExpansion),
    /// Swallow it and put the expansion in place of the abbreviation.
    Replace { abbr_len: usize, expansion: String, boundary: Boundary },
}

/// What is done about a key that went down.
#[verifier::ext_equal]
pub enum ActionModel {
    PassThrough,
    Undo(ExpansionText),
    Replace { abbr_len: nat, expansion: Seq<char>, boundary: Boundary },
}

impl View for KeyAction {
    type V = ActionModel;

    open spec fn view(&self) -> ActionModel {
        match self {
            KeyAction::PassThrough => ActionModel::PassThrough,
            KeyAction::Undo(last) => ActionModel::Undo(last@),
            KeyAction::Replace { abbr_len, expansion, boundary } => ActionModel::Replace {
                abbr_len: *abbr_len as nat,
                expansion: expansion@,
                boundary: *boundary,
            },
        }
    }
}

/// The state as mathematical values.
#[verifier::ext_equal]
pub struct StateModel {
    /// The expansions, by lowercase abbreviation.
    pub config: Map<Seq<char>, Seq<char>>,
    /// The characters that finish a word.
    pub boundary_chars: Seq<char>,
    /// The word being typed.
    pub buffer: Seq<char>,
    /// The expansion that a Backspace would take back.
    pub last_expansion: Option<ExpansionText>,
    /// The finished word that a Backspace would go back into.
    pub pending_word: Option<Seq<char>>,
    /// An expansion was just taken back: the word is not expanded again at once.
    pub suppress_expansion: bool,
    /// The keys whose press was swallowed and whose release is still to come, and
    /// is to be swallowed too.
    pub swallowed_keys: Set<i32>,
    /// The last key was a dead key: the next one is left alone.
    pub skip_next_char_resolution: bool,
    /// Replacements are switched on.
    pub enabled: bool,
    /// The tray icon is shown.
    pub tray_visible: bool,
    /// The program launches when the user logs in.
    pub start_on_login: bool,
}

/// The word being tracked fits its limit, which is tested before each character
/// is added: all but the last character take fewer bytes than the limit.
pub open spec fn within_limit(word: Seq<char>) -> bool {
    word.len() > 0 ==> encode_utf8(word.drop_last()).len() < MAX_BUFFER_LEN
}

impl StateModel {
    /// What holds of every state that the program can reach.
    pub open spec fn wf(self) -> bool {
        &&& within_limit(self.buffer)
        &&& self.last_expansion matches Some(last) ==> {
            &&& within_limit(last.typed)
            &&& last.typed.len() > 0
            &&& self.buffer.len() == 0
            &&& self.pending_word is None
        }
        &&& self.pending_word matches Some(word) ==> {
            &&& within_limit(word)
            &&& word.len() > 0
            &&& self.buffer.len() == 0
        }
        &&& self.suppress_expansion ==> self.last_expansion is None && self.pending_word is None
        &&& self.skip_next_char_resolution ==> self == (StateModel {
            skip_next_char_resolution: true,
            ..self.moved_on()
        })
        &&& !self.enabled ==> self == self.forgotten()
    }

    /// The state with no word in progress and nothing to take back.
    pub open spec fn forgotten(self) -> StateModel {
        StateModel {
            buffer: Seq::empty(),
            last_expansion: None,
            pending_word: None,
            suppress_expansion: false,
            skip_next_char_resolution: false,
            ..self
        }
    }

    /// The settings that describe the state.
    pub open spec fn persisted(self) -> SettingsText {
        SettingsText {
            enabled: self.enabled,
            show_tray_icon: self.tray_visible,
            start_on_login: self.start_on_login,
            characters: as_entries(self.boundary_chars),
        }
    }

    /// The key gets as far as having its character looked at. Where it does not,
    /// the character is never resolved, so that an accent in progress is left to
    /// the focused application.
    pub open spec fn looks_at_char(self, vk: i32, ctrl: bool, alt: bool) -> bool {
        &&& self.enabled
        &&& !ignored_modifier(vk)
        &&& !shortcut_chord(ctrl, alt)
        &&& vk != VK_BACK
        &&& !structural_boundary(vk)
        &&& !self.skip_next_char_resolution
    }

    /// A Backspace: takes back the expansion just made, or goes back into the
    /// word just finished, or deletes a character of the word in progress.
    pub open spec fn after_backspace(self) -> (StateModel, ActionModel) {
        let s = StateModel { skip_next_char_resolution: false, ..self };
        match (self.last_expansion, self.pending_word) {
            (Some(last), _) => (
                StateModel {
                    buffer: last.typed,
                    last_expansion: None,
                    suppress_expansion: true,
                    swallowed_keys: self.swallowed_keys.insert(VK_BACK),
                    ..s
                },
                ActionModel::Undo(last),
            ),
            (None, Some(word)) => (
                StateModel { buffer: word, pending_word: None, ..s },
                ActionModel::PassThrough,
            ),
            (None, None) => (
                StateModel {
                    buffer: if self.buffer.len() > 0 {
                        self.buffer.drop_last()
                    } else {
                        self.buffer
                    },
                    ..s
                },
                ActionModel::PassThrough,
            ),
        }
    }

    /// Any key but a Backspace closes the chance to take back an expansion or to
    /// go back into a finished word.
    pub open spec fn moved_on(self) -> StateModel {
        StateModel {
            last_expansion: None,
            pending_word: None,
            suppress_expansion: false,
            ..self
        }
    }

    /// The expansion of the word in progress, unless there is no word or its
    /// expansion was just taken back.
    pub open spec fn expansion_due(self) -> Option<Seq<char>> {
        if self.suppress_expansion || self.buffer.len() == 0 {
            None
        } else {
            expansion_of(self.config, self.buffer)
        }
    }

    /// A boundary: expands the word in progress if that is due, and otherwise
    /// sets it aside for one Backspace. A dead key before it is no longer pending.
    pub open spec fn after_boundary(self, vk: i32, boundary: Boundary) -> (
        StateModel,
        ActionModel,
    ) {
        let s = StateModel {
            buffer: Seq::empty(),
            skip_next_char_resolution: false,
            ..self.moved_on()
        };
        match self.expansion_due() {
            Some(expansion) => (
                StateModel {
                    last_expansion: Some(ExpansionText { typed: self.buffer, expansion }),
                    swallowed_keys: self.swallowed_keys.insert(vk),
                    ..s
                },
                ActionModel::Replace { abbr_len: self.buffer.len(), expansion, boundary },
            ),
            None => (
                StateModel {
                    pending_word: if self.buffer.len() == 0 {
                        None
                    } else {
                        Some(self.buffer)
                    },
                    ..s
                },
                ActionModel::PassThrough,
            ),
        }
    }

    /// A character that finishes no word: joins the word in progress, unless
    /// that has reached its limit and is given up on.
    pub open spec fn after_letter(self, c: char) -> StateModel {
        StateModel {
            buffer: if encode_utf8(self.buffer).len() < MAX_BUFFER_LEN {
                self.buffer.push(c)
            } else {
                Seq::empty()
            },
            ..self.moved_on()
        }
    }

    /// A key that went down, given what it produces.
    pub open spec fn after_keydown(self, vk: i32, ctrl: bool, alt: bool, key: KeyChar) -> (
        StateModel,
        ActionModel,
    ) {
        let s = self.moved_on();
        if !self.enabled || ignored_modifier(vk) {
            (self, ActionModel::PassThrough)
        } else if shortcut_chord(ctrl, alt) {
            (self.forgotten(), ActionModel::PassThrough)
        } else if vk == VK_BACK {
            self.after_backspace()
        } else if structural_boundary(vk) {
            self.after_boundary(vk, Boundary::Key(vk))
        } else if self.skip_next_char_resolution {
            (self.forgotten(), ActionModel::PassThrough)
        } else {
            match key {
                KeyChar::DeadKey => (
                    StateModel { skip_next_char_resolution: true, ..s },
                    ActionModel::PassThrough,
                ),
                KeyChar::Char(c) => if self.boundary_chars.contains(c) {
                    self.after_boundary(vk, Boundary::Char(c))
                } else {
                    (self.after_letter(c), ActionModel::PassThrough)
                },
                KeyChar::Nothing => (self.forgotten(), ActionModel::PassThrough),
            }
        }
    }

    /// Replacements switched on or off, with the word in progress dropped.
    pub open spec fn after_toggle_enabled(self) -> StateModel {
        StateModel { enabled: !self.enabled, ..self.forgotten() }
    }

    /// Launching at login switched on or off.
    pub open spec fn after_toggle_start_on_login(self) -> StateModel {
        StateModel { start_on_login: !self.start_on_login, ..self }
    }

    /// The tray icon shown or hidden.
    pub open spec fn with_tray(self, visible: bool) -> StateModel {
        StateModel { tray_visible: visible, ..self }
    }

    /// Freshly loaded replacements and settings in effect, with the word in
    /// progress dropped. The tray icon is brought in line separately.
    pub open spec fn after_reload(
        self,
        config: Map<Seq<char>, Seq<char>>,
        settings: SettingsText,
    ) -> StateModel {
        StateModel {
            config,
            boundary_chars: first_chars(settings.characters),
            enabled: settings.enabled,
            start_on_login: settings.start_on_login,
            ..self.forgotten()
        }
    }

    /// The release of a key.
    pub open spec fn after_keyup(self, vk: i32) -> StateModel {
        StateModel { swallowed_keys: self.swallowed_keys.remove(vk), ..self }
    }
}

/// What is to be brought in line with freshly loaded settings.
#[derive(Debug, Clone, Copy, PartialEq, Eq, Structural)]
pub struct Reloaded {
    /// Whether the program is to launch at login.
    pub start_on_login: bool,
    /// Whether the tray icon is to be shown or hidden.
    pub show_tray_icon: bool,
}

/// The program's state.
pub struct AppState {
    config: StringHashMap<String>,
    boundary_chars: Vec<char>,
    buffer: String,
    last_expansion: Option<LastExpansion>,
    pending_word: Option<String>,
    suppress_expansion: bool,
    swallowed_keys: Vec<i32>,
    skip_next_char_resolution: bool,
    enabled: bool,
    tray_visible: bool,
    start_on_login: bool,
}

impl View for AppState {
    type V = StateModel;

    closed spec fn view(&self) -> StateModel {
        StateModel {
            config: texts(self.config@),
            boundary_chars: self.boundary_chars@,
            buffer: self.buffer@,
            last_expansion: match self.last_expansion {
                Some(last) => Some(last@),
                None => None,
            },
            pending_word: match self.pending_word {
                Some(word) => Some(word@),
                None => None,
            },
            suppress_expansion: self.suppress_expansion,
            swallowed_keys: self.swallowed_keys@.to_set(),
            skip_next_char_resolution: self.skip_next_char_resolution,
            enabled: self.enabled,
            tray_visible: self.tray_visible,
            start_on_login: self.start_on_login,
        }
    }
}

/// Tells whether a list holds a character.
fn contains_char(chars: &Vec<char>, c: char) -> (r: bool)
    ensures
        r == chars@.contains(c),
{
    let mut i: usize = 0;
    while i < chars.len()
        invariant
            i <= chars@.len(),
            forall|j: int| 0 <= j < i ==> chars@[j] != c,
        decreases chars@.len() - i,
    {
        if chars[i] == c {
            return true;
        }
        i += 1;
    }
    false
}

/// Tells whether a list holds a key.
fn contains_key(keys: &Vec<i32>, vk: i32) -> (r: bool)
    ensures
        r == keys@.contains(vk),
{
    let mut i: usize = 0;
    while i < keys.len()
        invariant
            i <= keys@.len(),
            forall|j: int| 0 <= j < i ==> keys@[j] != vk,
        decreases keys@.len() - i,
    {
        if keys[i] == vk {
            return true;
        }
        i += 1;
    }
    false
}

/// The keys of a list but for one.
fn without_key(keys: &Vec<i32>, vk: i32) -> (r: Vec<i32>)
    ensures
        r@.to_set() == keys@.to_set().remove(vk),
{
    let mut r: Vec<i32> = Vec::new();
    let mut i: usize = 0;
    while i < keys.len()
        invariant
            i <= keys@.len(),
            forall|j: int| 0 <= j < r@.len() ==> keys@.contains(#[trigger] r@[j]) && r@[j] != vk,
            forall|j: int| 0 <= j < i && #[trigger] keys@[j] != vk ==> r@.contains(keys@[j]),
        decreases keys@.len() - i,
    {
        let ghost before = r@;
        if keys[i] != vk {
            r.push(keys[i]);
            assert(r@[before.len() as int] == keys@[i as int]);
        }
        assert forall|k: i32| before.contains(k) implies r@.contains(k) by {
            let j = choose|j: int| 0 <= j < before.len() && before[j] == k;
            assert(r@[j] == k);
        }
        i += 1;
    }
    assert(r@.to_set() =~= keys@.to_set().remove(vk));
    r
}

/// The encoding of two texts side by side is the two encodings side by side.
proof fn utf8_concatenates(a: Seq<char>, b: Seq<char>)
    ensures
        encode_utf8(a + b) == encode_utf8(a) + encode_utf8(b),
    decreases a.len(),
{
    if a.len() == 0 {
        assert(a + b =~= b);
        assert(encode_utf8(a) + encode_utf8(b) =~= encode_utf8(b));
    } else {
        utf8_concatenates(a.drop_first(), b);
        assert((a + b).drop_first() =~= a.drop_first() + b);
        assert(encode_utf8(a + b) =~= encode_utf8(a) + encode_utf8(b));
    }
}

/// A character more takes one to four bytes more.
pub proof fn utf8_push(word: Seq<char>, c: char)
    ensures
        encode_utf8(word).len() < encode_utf8(word.push(c)).len() <= encode_utf8(word).len() + 4,
{
    let one = seq![c];
    assert(word.push(c) =~= word + one);
    utf8_concatenates(word, one);
    assert(encode_utf8(one.drop_first()) =~= Seq::<u8>::empty());
    assert(one.drop_first().len() == 0);
}

/// A text takes at least one byte for each character.
proof fn utf8_length(word: Seq<char>)
    ensures
        word.len() <= encode_utf8(word).len(),
    decreases word.len(),
{
    if word.len() > 0 {
        utf8_length(word.drop_last());
        utf8_push(word.drop_last(), word.last());
        assert(word.drop_last().push(word.last()) =~= word);
    }
}

/// A word within the limit has no more characters than the limit has bytes, and
/// itself takes at most three bytes more than the limit.
pub proof fn limit_bounds_the_length(word: Seq<char>)
    requires
        within_limit(word),
    ensures
        word.len() <= MAX_BUFFER_LEN,
        encode_utf8(word).len() < MAX_BUFFER_LEN + 4,
{
    if word.len() > 0 {
        utf8_length(word.drop_last());
        utf8_push(word.drop_last(), word.last());
        assert(word.drop_last().push(word.last()) =~= word);
    }
}

impl AppState {
    /// The state that the program starts in.
    pub fn new(config: StringHashMap<String>, settings: &AppSettings) -> (r: Self)
        ensures
            r@.wf(),
            r@ == r@.forgotten(),
            r@.buffer.len() == 0,
            r@.last_expansion is None,
            r@.pending_word is None,
            !r@.suppress_expansion,
            !r@.skip_next_char_resolution,
            r@.config == texts(config@),
            r@.boundary_chars == first_chars(settings@.characters),
            r@.swallowed_keys == Set::<i32>::empty(),
            r@.enabled == settings.enabled,
            r@.tray_visible == settings.show_tray_icon,
            r@.start_on_login == settings.start_on_login,
    {
        AppState {
            config,
            boundary_chars: boundary_chars_from_settings(settings),
            buffer: String::new(),
            last_expansion: None,
            pending_word: None,
            suppress_expansion: false,
            swallowed_keys: Vec::new(),
            skip_next_char_resolution: false,
            enabled: settings.enabled,
            tray_visible: settings.show_tray_icon,
            start_on_login: settings.start_on_login,
        }
    }

    /// Replacements are switched on.
    pub fn enabled(&self) -> (r: bool)
        ensures
            r == self@.enabled,
    {
        self.enabled
    }

    /// The program launches when the user logs in.
    pub fn start_on_login(&self) -> (r: bool)
        ensures
            r == self@.start_on_login,
    {
        self.start_on_login
    }

    /// Drops the word in progress and whatever could be taken back.
    fn forget(&mut self)
        ensures
            final(self)@ == old(self)@.forgotten(),
    {
        self.buffer = String::new();
        self.last_expansion = None;
        self.pending_word = None;
        self.suppress_expansion = false;
        self.skip_next_char_resolution = false;
    }

    /// Tells whether a key press is going to have its character looked at. Only
    /// where it is may the caller resolve the character, since resolving it
    /// would break an accent that is waiting for its letter.
    pub fn needs_char(&self, vk: i32, ctrl: bool, alt: bool) -> (r: bool)
        ensures
            r == self@.looks_at_char(vk, ctrl, alt),
    {
        self.enabled && !is_ignored_modifier(vk) && ctrl == alt && vk != VK_BACK && vk != VK_RETURN
            && vk != VK_TAB && !self.skip_next_char_resolution
    }

    /// Takes note that the press of a key is swallowed.
    fn swallow(&mut self, vk: i32)
        ensures
            final(self)@ == (StateModel {
                swallowed_keys: old(self)@.swallowed_keys.insert(vk),
                ..old(self)@
            }),
    {
        if contains_key(&self.swallowed_keys, vk) {
            assert(self@.swallowed_keys =~= self@.swallowed_keys.insert(vk));
        } else {
            let ghost before = self.swallowed_keys@;
            self.swallowed_keys.push(vk);
            proof {
                let after = self.swallowed_keys@;
                assert(after[before.len() as int] == vk);
                assert forall|k: i32| before.contains(k) implies after.contains(k) by {
                    let i = choose|i: int| 0 <= i < before.len() && before[i] == k;
                    assert(after[i] == k);
                }
                assert(after.to_set() =~= before.to_set().insert(vk));
            }
        }
    }

    /// Handles a Backspace.
    fn handle_backspace(&mut self) -> (r: KeyAction)
        ensures
            (final(self)@, r@) == old(self)@.after_backspace(),
    {
        self.skip_next_char_resolution = false;
        if let Some(last) = self.last_expansion.take() {
            self.buffer = last.typed.clone();
            self.suppress_expansion = true;
            self.swallow(VK_BACK);
            return KeyAction::Undo(last);
        }
        if let Some(pending) = self.pending_word.take() {
            self.buffer = pending;
            return KeyAction::PassThrough;
        }
        let _ = self.buffer.pop();
        KeyAction::PassThrough
    }

    /// Handles a key that finishes a word.
    fn handle_boundary(&mut self, vk: i32, boundary: Boundary) -> (r: KeyAction)
        ensures
            (final(self)@, r@) == old(self)@.after_boundary(vk, boundary),
    {
        let skip_due_to_undo = self.suppress_expansion;
        let mut word = String::new();
        std::mem::swap(&mut word, &mut self.buffer);
        self.last_expansion = None;
        self.pending_word = None;
        self.suppress_expansion = false;
        self.skip_next_char_resolution = false;
        if word.as_str().is_empty() {
            return KeyAction::PassThrough;
        }
        if !skip_due_to_undo {
            if let Some(expansion) = expand(&self.config, word.as_str()) {
                let abbr_len: usize = word.as_str().unicode_len();
                self.last_expansion = Some(
                    LastExpansion { typed: word, expansion: expansion.clone() },
                );
                self.swallow(vk);
                return KeyAction::Replace { abbr_len, expansion, boundary };
            }
        }
        self.pending_word = Some(word);
        KeyAction::PassThrough
    }

    /// Handles a character that finishes no word.
    fn handle_letter(&mut self, c: char)
        requires
            old(self)@.wf(),
        ensures
            final(self)@ == old(self)@.after_letter(c),
    {
        proof {
            limit_bounds_the_length(self.buffer@);
        }
        self.last_expansion = None;
        self.pending_word = None;
        self.suppress_expansion = false;
        if self.buffer.as_str().len() < MAX_BUFFER_LEN {
            self.buffer.push(c);
        } else {
            self.buffer = String::new();
        }
    }

    /// Decides what to do about a key that went down, given whether Ctrl and Alt
    /// are held and what the key produces. The last is looked at only where
    /// `needs_char` says so.
    pub fn handle_keydown(&mut self, vk: i32, ctrl: bool, alt: bool, key: KeyChar) -> (r: KeyAction)
        requires
            old(self)@.wf(),
        ensures
            final(self)@.wf(),
            (final(self)@, r@) == old(self)@.after_keydown(vk, ctrl, alt, key),
    {
        proof {
            old(self)@.keydown_keeps_wf(vk, ctrl, alt, key);
        }
        if !self.enabled || is_ignored_modifier(vk) {
            return KeyAction::PassThrough;
        }
        // Ctrl alone or Alt alone makes a shortcut, which is never ours. Both
        // together are AltGr, which types characters.
        if ctrl != alt {
            self.forget();
            return KeyAction::PassThrough;
        }
        if vk == VK_BACK {
            return self.handle_backspace();
        }
        if vk == VK_RETURN || vk == VK_TAB {
            return self.handle_boundary(vk, Boundary::Key(vk));
        }
        if self.skip_next_char_resolution {
            // The previous key was a dead key: this one belongs to it.
            self.forget();
            return KeyAction::PassThrough;
        }
        match key {
            KeyChar::DeadKey => {
                // Nothing visible yet, so the word in progress stays.
                self.last_expansion = None;
                self.pending_word = None;
                self.suppress_expansion = false;
                self.skip_next_char_resolution = true;
                KeyAction::PassThrough
            },
            KeyChar::Char(c) => {
                if contains_char(&self.boundary_chars, c) {
                    self.handle_boundary(vk, Boundary::Char(c))
                } else {
                    self.handle_letter(c);
                    KeyAction::PassThrough
                }
            },
            KeyChar::Nothing => {
                self.forget();
                KeyAction::PassThrough
            },
        }
    }

    /// Tells whether the release of a key is to be swallowed, because its press
    /// was and no release has come since.
    pub fn should_swallow_keyup(&mut self, vk: i32) -> (r: bool)
        ensures
            r == old(self)@.swallowed_keys.contains(vk),
            final(self)@ == old(self)@.after_keyup(vk),
            old(self)@.wf() ==> final(self)@.wf(),
    {
        let r = contains_key(&self.swallowed_keys, vk);
        self.swallowed_keys = without_key(&self.swallowed_keys, vk);
        r
    }

    /// The settings to write to the configuration file. They are rebuilt from
    /// the whole state, so that changing one never loses another.
    pub fn persist_settings(&self) -> (r: AppSettings)
        ensures
            r@ == self@.persisted(),
    {
        AppSettings {
            enabled: self.enabled,
            show_tray_icon: self.tray_visible,
            start_on_login: self.start_on_login,
            characters: settings_characters(&self.boundary_chars),
        }
    }

    /// Switches replacements on or off, dropping the word in progress. Returns
    /// the settings to write out.
    pub fn toggle_enabled(&mut self) -> (r: AppSettings)
        requires
            old(self)@.wf(),
        ensures
            final(self)@.wf(),
            final(self)@ == old(self)@.after_toggle_enabled(),
            r@ == final(self)@.persisted(),
    {
        self.enabled = !self.enabled;
        self.forget();
        assert(self@.wf());
        self.persist_settings()
    }

    /// Switches launching at login on or off. Returns the settings to write out.
    pub fn toggle_start_on_login(&mut self) -> (r: AppSettings)
        requires
            old(self)@.wf(),
        ensures
            final(self)@.wf(),
            final(self)@ == old(self)@.after_toggle_start_on_login(),
            r@ == final(self)@.persisted(),
    {
        self.start_on_login = !self.start_on_login;
        self.persist_settings()
    }

    /// Takes note that the tray icon is shown. Returns the settings to write out.
    pub fn show_tray_icon(&mut self) -> (r: AppSettings)
        requires
            old(self)@.wf(),
        ensures
            final(self)@.wf(),
            final(self)@ == old(self)@.with_tray(true),
            r@ == final(self)@.persisted(),
    {
        self.tray_visible = true;
        self.persist_settings()
    }

    /// Takes note that the tray icon is hidden. The program keeps running.
    /// Returns the settings to write out.
    pub fn hide_tray_icon(&mut self) -> (r: AppSettings)
        requires
            old(self)@.wf(),
        ensures
            final(self)@.wf(),
            final(self)@ == old(self)@.with_tray(false),
            r@ == final(self)@.persisted(),
    {
        self.tray_visible = false;
        self.persist_settings()
    }

    /// Puts freshly loaded replacements and settings into effect, dropping the
    /// word in progress. What is left to the caller is to bring the login entry
    /// and the tray icon in line, which the result says how.
    pub fn reload_config(&mut self, config: StringHashMap<String>, settings: &AppSettings) -> (r:
        Reloaded)
        requires
            old(self)@.wf(),
        ensures
            final(self)@.wf(),
            final(self)@ == old(self)@.after_reload(texts(config@), settings@),
            r.start_on_login == settings.start_on_login,
            r.show_tray_icon == settings.show_tray_icon,
    {
        self.config = config;
        self.boundary_chars = boundary_chars_from_settings(settings);
        self.enabled = settings.enabled;
        self.start_on_login = settings.start_on_login;
        self.forget();
        assert(self@.wf());
        Reloaded {
            start_on_login: settings.start_on_login,
            show_tray_icon: settings.show_tray_icon,
        }
    }
}

impl StateModel {
    /// Handling a key press leads from a reachable state to a reachable state.
    pub proof fn keydown_keeps_wf(self, vk: i32, ctrl: bool, alt: bool, key: KeyChar)
        requires
            self.wf(),
        ensures
            self.after_keydown(vk, ctrl, alt, key).0.wf(),
    {
        if self.buffer.len() > 1 {
            let shorter = self.buffer.drop_last();
            utf8_push(shorter.drop_last(), shorter.last());
            assert(shorter.drop_last().push(shorter.last()) =~= shorter);
        }
        if let KeyChar::Char(c) = key {
            assert(self.buffer.push(c).drop_last() =~= self.buffer);
        }
    }
}

} // verus!
