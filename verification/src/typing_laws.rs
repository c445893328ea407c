//! What each kind of key does to the word in progress, to what can be taken back
//! and to what is sent, said of the state's parts, for every state.

use vstd::prelude::*;
use vstd::utf8::encode_utf8;

use crate::keys::{Boundary, KeyChar};
use crate::laws::{after_typing, chars_of, types_a_word, typing_builds_the_word, KeyPress};
use crate::replacements::expansion_of;
use crate::settings::SettingsText;
use crate::state::{ActionModel, StateModel};

verus! {

/// Shift, Ctrl and Alt with their left and right keys, Caps Lock, and the two
/// Windows keys.
pub open spec fn modifier_key(vk: i32) -> bool {
    0x10 <= vk <= 0x12 || vk == 0x14 || vk == 0x5B || vk == 0x5C || 0xA0 <= vk <= 0xA5
}

/// The key is followed: replacements are on, it is no modifier, and it is not
/// part of a shortcut, which Ctrl or Alt alone would make it.
pub open spec fn followed(s: StateModel, vk: i32, ctrl: bool, alt: bool) -> bool {
    s.enabled && !modifier_key(vk) && ctrl == alt
}

/// Enter or Tab.
pub open spec fn enter_or_tab(vk: i32) -> bool {
    vk == 0x0D || vk == 0x09
}

/// No word is in progress, none can be gone back into, no expansion can be taken
/// back or was just taken back, and no accent is pending.
pub open spec fn nothing_in_progress(s: StateModel) -> bool {
    &&& s.buffer.len() == 0
    &&& s.last_expansion is None
    &&& s.pending_word is None
    &&& !s.suppress_expansion
    &&& !s.skip_next_char_resolution
}

/// The key finishes a word: Enter and Tab do; another key that is no Backspace
/// does if it produces a boundary character and does not follow a dead key.
pub open spec fn finishes(s: StateModel, vk: i32, key: KeyChar, boundary: Boundary) -> bool {
    if enter_or_tab(vk) {
        boundary == Boundary::Key(vk)
    } else {
        &&& vk != 0x08
        &&& !s.skip_next_char_resolution
        &&& boundary matches Boundary::Char(c)
        &&& key == KeyChar::Char(c)
        &&& s.boundary_chars.contains(c)
    }
}

/// No key changes the replacements, the boundary characters or a switch.
pub proof fn keys_change_no_switch(s: StateModel, vk: i32, ctrl: bool, alt: bool, key: KeyChar)
    ensures
        ({
            let t = s.after_keydown(vk, ctrl, alt, key).0;
            &&& t.config == s.config
            &&& t.boundary_chars == s.boundary_chars
            &&& t.enabled == s.enabled
            &&& t.tray_visible == s.tray_visible
            &&& t.start_on_login == s.start_on_login
        }),
{
}

/// While replacements are off, and for a modifier at any time, nothing happens.
pub proof fn unfollowed_keys_do_nothing(
    s: StateModel,
    vk: i32,
    ctrl: bool,
    alt: bool,
    key: KeyChar,
)
    requires
        !s.enabled || modifier_key(vk),
    ensures
        s.after_keydown(vk, ctrl, alt, key).0 == s,
        s.after_keydown(vk, ctrl, alt, key).1 == ActionModel::PassThrough,
{
}

/// A shortcut passes through and leaves nothing in progress; releases that are
/// still to be swallowed stay so.
pub proof fn shortcuts_break_the_word(s: StateModel, vk: i32, ctrl: bool, alt: bool, key: KeyChar)
    requires
        s.enabled,
        !modifier_key(vk),
        ctrl != alt,
    ensures
        ({
            let (t, action) = s.after_keydown(vk, ctrl, alt, key);
            &&& action == ActionModel::PassThrough
            &&& nothing_in_progress(t)
            &&& t.swallowed_keys == s.swallowed_keys
        }),
{
}

/// A key that produces no character, such as an arrow, passes through and leaves
/// nothing in progress.
pub proof fn keys_without_a_character_break_the_word(
    s: StateModel,
    vk: i32,
    ctrl: bool,
    alt: bool,
)
    requires
        followed(s, vk, ctrl, alt),
        vk != 0x08,
        !enter_or_tab(vk),
    ensures
        ({
            let (t, action) = s.after_keydown(vk, ctrl, alt, KeyChar::Nothing);
            &&& action == ActionModel::PassThrough
            &&& nothing_in_progress(t)
            &&& t.swallowed_keys == s.swallowed_keys
        }),
{
}

/// The key after a dead key, unless it is a Backspace, Enter or Tab, passes
/// through and leaves nothing in progress, whatever it would produce.
pub proof fn key_after_a_dead_key_breaks_the_word(
    s: StateModel,
    vk: i32,
    ctrl: bool,
    alt: bool,
    key: KeyChar,
)
    requires
        followed(s, vk, ctrl, alt),
        s.skip_next_char_resolution,
        vk != 0x08,
        !enter_or_tab(vk),
    ensures
        ({
            let (t, action) = s.after_keydown(vk, ctrl, alt, key);
            &&& action == ActionModel::PassThrough
            &&& nothing_in_progress(t)
            &&& t.swallowed_keys == s.swallowed_keys
        }),
{
}

/// A word typed after a key that breaks the word is tracked as exactly that word,
/// whatever was in progress before.
pub proof fn word_after_a_break_is_tracked_alone(
    s: StateModel,
    vk: i32,
    ctrl: bool,
    alt: bool,
    key: KeyChar,
    presses: Seq<KeyPress>,
)
    requires
        s.enabled,
        !modifier_key(vk),
        types_a_word(s, presses),
        ctrl != alt || (vk != 0x08 && !enter_or_tab(vk) && (key == KeyChar::Nothing
            || s.skip_next_char_resolution)),
    ensures
        ({
            let t = after_typing(s.after_keydown(vk, ctrl, alt, key).0, presses);
            &&& t.buffer == chars_of(presses)
            &&& t.pending_word is None
            &&& t.last_expansion is None
            &&& !t.suppress_expansion
        }),
{
    let t = s.after_keydown(vk, ctrl, alt, key).0;
    keys_change_no_switch(s, vk, ctrl, alt, key);
    if ctrl != alt {
        shortcuts_break_the_word(s, vk, ctrl, alt, key);
    } else if s.skip_next_char_resolution {
        key_after_a_dead_key_breaks_the_word(s, vk, ctrl, alt, key);
    } else {
        keys_without_a_character_break_the_word(s, vk, ctrl, alt);
    }
    assert forall|i: int| 0 <= i < presses.len() implies crate::laws::types_a_letter(
        t,
        #[trigger] presses[i],
    ) by {
        assert(crate::laws::types_a_letter(s, presses[i]));
    }
    typing_builds_the_word(t, presses);
}

/// A dead key passes through, leaves the word as it is and is then pending;
/// nothing can be taken back after it.
pub proof fn dead_key_waits(s: StateModel, vk: i32, ctrl: bool, alt: bool)
    requires
        followed(s, vk, ctrl, alt),
        vk != 0x08,
        !enter_or_tab(vk),
        !s.skip_next_char_resolution,
    ensures
        ({
            let (t, action) = s.after_keydown(vk, ctrl, alt, KeyChar::DeadKey);
            &&& action == ActionModel::PassThrough
            &&& t.buffer == s.buffer
            &&& t.skip_next_char_resolution
            &&& t.last_expansion is None
            &&& t.pending_word is None
            &&& !t.suppress_expansion
            &&& t.swallowed_keys == s.swallowed_keys
        }),
{
}

/// A character that finishes no word passes through and joins the end of the
/// word, if the word takes fewer than 64 bytes; else no word is left.
pub proof fn letter_joins_the_word(s: StateModel, vk: i32, ctrl: bool, alt: bool, c: char)
    requires
        followed(s, vk, ctrl, alt),
        vk != 0x08,
        !enter_or_tab(vk),
        !s.skip_next_char_resolution,
        !s.boundary_chars.contains(c),
    ensures
        ({
            let (t, action) = s.after_keydown(vk, ctrl, alt, KeyChar::Char(c));
            &&& action == ActionModel::PassThrough
            &&& encode_utf8(s.buffer).len() < 64 ==> {
                &&& t.buffer.len() == s.buffer.len() + 1
                &&& t.buffer.drop_last() == s.buffer
                &&& t.buffer.last() == c
            }
            &&& encode_utf8(s.buffer).len() >= 64 ==> t.buffer.len() == 0
            &&& t.last_expansion is None
            &&& t.pending_word is None
            &&& !t.suppress_expansion
            &&& !t.skip_next_char_resolution
            &&& t.swallowed_keys == s.swallowed_keys
        }),
{
    let t = s.after_keydown(vk, ctrl, alt, KeyChar::Char(c)).0;
    if encode_utf8(s.buffer).len() < 64 {
        assert(t.buffer.drop_last() =~= s.buffer);
    }
}

/// A Backspace after an expansion is swallowed, with its release, and takes back
/// exactly that expansion: the word is in progress again as it was typed.
pub proof fn backspace_takes_the_expansion_back(
    s: StateModel,
    ctrl: bool,
    alt: bool,
    key: KeyChar,
)
    requires
        followed(s, 0x08, ctrl, alt),
        s.last_expansion is Some,
    ensures
        ({
            let last = s.last_expansion->0;
            let (t, action) = s.after_keydown(0x08, ctrl, alt, key);
            &&& action == ActionModel::Undo(last)
            &&& t.buffer == last.typed
            &&& t.last_expansion is None
            &&& t.pending_word == s.pending_word
            &&& t.suppress_expansion
            &&& !t.skip_next_char_resolution
            &&& t.swallowed_keys == s.swallowed_keys.insert(0x08)
        }),
{
}

/// A Backspace with nothing to take back passes through. It goes back into the
/// word set aside, if there is one; else it removes the last character of the
/// word in progress, if there is one.
pub proof fn backspace_edits_the_word(s: StateModel, ctrl: bool, alt: bool, key: KeyChar)
    requires
        followed(s, 0x08, ctrl, alt),
        s.last_expansion is None,
    ensures
        ({
            let (t, action) = s.after_keydown(0x08, ctrl, alt, key);
            &&& action == ActionModel::PassThrough
            &&& s.pending_word matches Some(word) ==> t.buffer == word
            &&& s.pending_word is None && s.buffer.len() > 0 ==> t.buffer.push(s.buffer.last())
                == s.buffer
            &&& s.pending_word is None && s.buffer.len() == 0 ==> t.buffer.len() == 0
            &&& t.pending_word is None
            &&& t.last_expansion is None
            &&& t.suppress_expansion == s.suppress_expansion
            &&& !t.skip_next_char_resolution
            &&& t.swallowed_keys == s.swallowed_keys
        }),
{
    let t = s.after_keydown(0x08, ctrl, alt, key).0;
    if s.pending_word is None && s.buffer.len() > 0 {
        assert(t.buffer.push(s.buffer.last()) =~= s.buffer);
    }
}

/// Any key but a modifier or a Backspace abandons the word that was set aside:
/// afterwards there is none, or it is the word that was in progress when this
/// very key was pressed. The same goes for an expansion that could be taken back,
/// and a suppression is over.
pub proof fn other_keys_abandon_the_finished_word(
    s: StateModel,
    vk: i32,
    ctrl: bool,
    alt: bool,
    key: KeyChar,
)
    requires
        s.enabled,
        !modifier_key(vk),
        vk != 0x08 || ctrl != alt,
    ensures
        ({
            let t = s.after_keydown(vk, ctrl, alt, key).0;
            &&& t.pending_word is None || (s.buffer.len() > 0 && t.pending_word == Some(s.buffer))
            &&& t.last_expansion is None || (s.buffer.len() > 0 && t.last_expansion->0.typed
                == s.buffer)
            &&& t.pending_word is None || t.last_expansion is None
            &&& !t.suppress_expansion
        }),
{
}

/// A key that finishes a word leaves none in progress and no accent pending.
/// With no word, or one whose expansion was just taken back, or one that is no
/// abbreviation, the key passes through and the word, if any, is set aside.
pub proof fn boundary_sets_the_word_aside(
    s: StateModel,
    vk: i32,
    ctrl: bool,
    alt: bool,
    key: KeyChar,
    boundary: Boundary,
)
    requires
        followed(s, vk, ctrl, alt),
        finishes(s, vk, key, boundary),
    ensures
        ({
            let (t, action) = s.after_keydown(vk, ctrl, alt, key);
            &&& t.buffer.len() == 0
            &&& !t.skip_next_char_resolution
            &&& !t.suppress_expansion
            &&& s.buffer.len() == 0 || s.suppress_expansion || expansion_of(s.config, s.buffer)
                is None ==> {
                &&& action == ActionModel::PassThrough
                &&& t.last_expansion is None
                &&& t.swallowed_keys == s.swallowed_keys
                &&& s.buffer.len() == 0 ==> t.pending_word is None
                &&& s.buffer.len() > 0 ==> t.pending_word == Some(s.buffer)
            }
        }),
{
}

/// A key that finishes an abbreviation, unless its expansion was just taken back,
/// is swallowed, with its release: as many characters as the word has are
/// replaced by its expansion and this boundary, and a Backspace could take that
/// back.
pub proof fn boundary_expands_the_abbreviation(
    s: StateModel,
    vk: i32,
    ctrl: bool,
    alt: bool,
    key: KeyChar,
    boundary: Boundary,
)
    requires
        followed(s, vk, ctrl, alt),
        finishes(s, vk, key, boundary),
        s.buffer.len() > 0,
        !s.suppress_expansion,
    ensures
        ({
            let (t, action) = s.after_keydown(vk, ctrl, alt, key);
            expansion_of(s.config, s.buffer) matches Some(text) ==> {
                &&& action matches ActionModel::Replace { abbr_len, expansion, boundary: sent }
                &&& abbr_len == s.buffer.len()
                &&& expansion == text
                &&& sent == boundary
                &&& t.last_expansion matches Some(last)
                &&& last.typed == s.buffer
                &&& last.expansion == text
                &&& t.pending_word is None
                &&& t.swallowed_keys == s.swallowed_keys.insert(vk)
            }
        }),
{
}

/// One boundary too many abandons the finished word: a Backspace then finds
/// nothing to go back into, and the next word is tracked alone.
pub proof fn second_boundary_abandons_the_word(
    s: StateModel,
    vk: i32,
    ctrl: bool,
    alt: bool,
    key: KeyChar,
    boundary: Boundary,
    presses: Seq<KeyPress>,
)
    requires
        followed(s, vk, ctrl, alt),
        finishes(s, vk, key, boundary),
        s.buffer.len() == 0,
        types_a_word(s, presses),
    ensures
        ({
            let t = s.after_keydown(vk, ctrl, alt, key).0;
            let u = t.after_keydown(0x08, false, false, key).0;
            &&& u.buffer.len() == 0
            &&& after_typing(u, presses).buffer == chars_of(presses)
        }),
{
    let t = s.after_keydown(vk, ctrl, alt, key).0;
    let u = t.after_keydown(0x08, false, false, key).0;
    boundary_sets_the_word_aside(s, vk, ctrl, alt, key, boundary);
    keys_change_no_switch(s, vk, ctrl, alt, key);
    keys_change_no_switch(t, 0x08, false, false, key);
    backspace_edits_the_word(t, false, false, key);
    assert forall|i: int| 0 <= i < presses.len() implies crate::laws::types_a_letter(
        u,
        #[trigger] presses[i],
    ) by {
        assert(crate::laws::types_a_letter(s, presses[i]));
    }
    typing_builds_the_word(u, presses);
}

/// A key's character is asked for exactly where it matters: there a dead key and
/// a key without a character lead to different states, and elsewhere no two
/// characters do.
pub proof fn character_is_asked_for_where_it_matters(
    s: StateModel,
    vk: i32,
    ctrl: bool,
    alt: bool,
    key: KeyChar,
    other: KeyChar,
)
    ensures
        s.looks_at_char(vk, ctrl, alt) <==> s.after_keydown(vk, ctrl, alt, KeyChar::DeadKey)
            != s.after_keydown(vk, ctrl, alt, KeyChar::Nothing),
        s.after_keydown(vk, ctrl, alt, key) != s.after_keydown(vk, ctrl, alt, other)
            ==> s.looks_at_char(vk, ctrl, alt),
{
    let (t, u) = (
        s.after_keydown(vk, ctrl, alt, KeyChar::DeadKey).0,
        s.after_keydown(vk, ctrl, alt, KeyChar::Nothing).0,
    );
    if s.looks_at_char(vk, ctrl, alt) {
        assert(t.skip_next_char_resolution && !u.skip_next_char_resolution);
    }
}

/// A key passes through, or it is a Backspace that takes back the expansion at
/// hand, or it finishes the abbreviation in progress; and only those two are
/// swallowed.
pub proof fn only_undo_and_expansion_intercept_keys(
    s: StateModel,
    vk: i32,
    ctrl: bool,
    alt: bool,
    key: KeyChar,
)
    ensures
        ({
            let (t, action) = s.after_keydown(vk, ctrl, alt, key);
            match action {
                ActionModel::PassThrough => t.swallowed_keys == s.swallowed_keys,
                ActionModel::Undo(last) => {
                    &&& followed(s, vk, ctrl, alt)
                    &&& vk == 0x08
                    &&& s.last_expansion == Some(last)
                },
                ActionModel::Replace { boundary, .. } => {
                    &&& followed(s, vk, ctrl, alt)
                    &&& finishes(s, vk, key, boundary)
                    &&& s.buffer.len() > 0
                    &&& !s.suppress_expansion
                    &&& expansion_of(s.config, s.buffer) is Some
                },
            }
        }),
{
}

/// A release is swallowed for the keys whose press was, and only until it comes;
/// nothing else changes.
pub proof fn release_concerns_its_own_key(s: StateModel, vk: i32, other: i32)
    ensures
        ({
            let t = s.after_keyup(vk);
            &&& t.swallowed_keys.contains(other) <==> s.swallowed_keys.contains(other) && other != vk
            &&& t.buffer == s.buffer
            &&& t.last_expansion == s.last_expansion
            &&& t.pending_word == s.pending_word
            &&& t.suppress_expansion == s.suppress_expansion
            &&& t.skip_next_char_resolution == s.skip_next_char_resolution
            &&& t.config == s.config
            &&& t.boundary_chars == s.boundary_chars
            &&& t.enabled == s.enabled
            &&& t.tray_visible == s.tray_visible
            &&& t.start_on_login == s.start_on_login
        }),
{
}

/// Switching replacements on or off turns that switch alone and leaves nothing in
/// progress.
pub proof fn toggle_turns_its_switch_alone(s: StateModel)
    ensures
        ({
            let t = s.after_toggle_enabled();
            &&& t.enabled != s.enabled
            &&& nothing_in_progress(t)
            &&& t.config == s.config
            &&& t.boundary_chars == s.boundary_chars
            &&& t.tray_visible == s.tray_visible
            &&& t.start_on_login == s.start_on_login
            &&& t.swallowed_keys == s.swallowed_keys
        }),
{
}

/// The login switch and the tray icon turn alone, and keep the word in progress
/// and all that could be taken back.
pub proof fn desktop_switches_keep_the_word(s: StateModel, visible: bool)
    ensures
        ({
            let t = s.after_toggle_start_on_login();
            let u = s.with_tray(visible);
            &&& t.start_on_login != s.start_on_login
            &&& t.tray_visible == s.tray_visible
            &&& u.tray_visible == visible
            &&& u.start_on_login == s.start_on_login
            &&& t.enabled == s.enabled && u.enabled == s.enabled
            &&& t.config == s.config && u.config == s.config
            &&& t.boundary_chars == s.boundary_chars && u.boundary_chars == s.boundary_chars
            &&& t.buffer == s.buffer && u.buffer == s.buffer
            &&& t.last_expansion == s.last_expansion && u.last_expansion == s.last_expansion
            &&& t.pending_word == s.pending_word && u.pending_word == s.pending_word
            &&& t.suppress_expansion == s.suppress_expansion && u.suppress_expansion
                == s.suppress_expansion
            &&& t.skip_next_char_resolution == s.skip_next_char_resolution
                && u.skip_next_char_resolution == s.skip_next_char_resolution
            &&& t.swallowed_keys == s.swallowed_keys && u.swallowed_keys == s.swallowed_keys
        }),
{
}

/// A reload takes the replacements and every setting but the tray icon from what
/// was loaded, leaves nothing in progress, and keeps the releases that are still
/// to be swallowed. The boundary characters are the first characters of the
/// entries that have one.
pub proof fn reload_takes_what_was_loaded(
    s: StateModel,
    config: Map<Seq<char>, Seq<char>>,
    settings: SettingsText,
    c: char,
)
    ensures
        ({
            let t = s.after_reload(config, settings);
            &&& t.config == config
            &&& t.enabled == settings.enabled
            &&& t.start_on_login == settings.start_on_login
            &&& t.tray_visible == s.tray_visible
            &&& t.boundary_chars.contains(c) <==> exists|i: int|
                0 <= i < settings.characters.len() && (#[trigger] settings.characters[i]).len() > 0
                    && settings.characters[i][0] == c
            &&& nothing_in_progress(t)
            &&& t.swallowed_keys == s.swallowed_keys
        }),
{
    crate::settings::first_chars_of_entries(settings.characters, c);
}

/// What is written out describes the state: each switch as it stands, and each
/// boundary character as an entry of its own, in order.
pub proof fn settings_written_describe_the_state(s: StateModel, i: int)
    ensures
        s.persisted().enabled == s.enabled,
        s.persisted().show_tray_icon == s.tray_visible,
        s.persisted().start_on_login == s.start_on_login,
        s.persisted().characters.len() == s.boundary_chars.len(),
        0 <= i < s.boundary_chars.len() ==> {
            &&& s.persisted().characters[i].len() == 1
            &&& s.persisted().characters[i][0] == s.boundary_chars[i]
        },
{
}

} // verus!
