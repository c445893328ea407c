//! What holds of the library as a whole.

use vstd::prelude::*;
use vstd::utf8::encode_utf8;

use crate::case::{
    all_lowercase, all_uppercase, capitalized, case_of, in_case, letters, CaseStyle,
};
use crate::editor::{
    after_inputs, boundary_units, pressed_boundary, replacement_takes_effect,
    undo_restores_the_text,
};
use crate::input::{replacement_inputs, undo_inputs, ExpansionText};
use crate::keys::{
    ignored_modifier, shortcut_chord, structural_boundary, Boundary, KeyChar, VK_BACK,
};
use crate::replacements::{expansion_of, keys_lowered, stems_from};
use crate::settings::{boundary_chars_round_trip, first_chars, SettingsText};
use crate::state::{limit_bounds_the_length, utf8_push, ActionModel, StateModel, MAX_BUFFER_LEN};
use crate::text::{
    all_ascii, alphabetic, ascii, ascii_lowercase, ascii_to_lower, ascii_to_upper, ascii_uppercase,
    to_lower, to_upper, uppercase,
};
use crate::utf16::{all_one_unit, one_unit, utf16};

verus! {

// ---------------------------------------------------------------------------
// Casing

/// An ASCII word with a letter in it, and none in upper case.
pub open spec fn lowercase_word(word: Seq<char>) -> bool {
    &&& all_ascii(word)
    &&& forall|i: int| 0 <= i < word.len() ==> !ascii_uppercase(#[trigger] word[i])
    &&& exists|i: int| 0 <= i < word.len() && ascii_lowercase(#[trigger] word[i])
}

/// The word starts with a letter and has another one.
pub open spec fn can_be_capitalized(word: Seq<char>) -> bool {
    &&& word.len() > 0 && ascii_lowercase(word[0])
    &&& exists|i: int| 1 <= i < word.len() && ascii_lowercase(#[trigger] word[i])
}

/// The letters of a word stem from the word, and there is one if the word has
/// one.
proof fn letters_stem_from_the_word(word: Seq<char>)
    ensures
        forall|j: int|
            0 <= j < letters(word).len() ==> alphabetic(#[trigger] letters(word)[j])
                && word.contains(letters(word)[j]),
        forall|i: int| 0 <= i < word.len() && alphabetic(#[trigger] word[i]) ==> letters(word).len() > 0,
{
    let pred = |c: char| alphabetic(c);
    assert forall|j: int| 0 <= j < letters(word).len() implies alphabetic(
        #[trigger] letters(word)[j],
    ) && word.contains(letters(word)[j]) by {
        word.lemma_filter_pred(pred, j);
        assert(word.filter(pred).contains(letters(word)[j]));
        word.lemma_filter_contains_rev(pred, letters(word)[j]);
    }
    assert forall|i: int| 0 <= i < word.len() && alphabetic(#[trigger] word[i]) implies letters(
        word,
    ).len() > 0 by {
        word.lemma_filter_contains(pred, i);
    }
}

proof fn uppercase_word_is_recognised(word: Seq<char>)
    requires
        all_ascii(word),
        forall|i: int| 0 <= i < word.len() ==> !ascii_lowercase(#[trigger] word[i]),
        exists|i: int| 0 <= i < word.len() && ascii_uppercase(#[trigger] word[i]),
    ensures
        case_of(word) == CaseStyle::Upper,
{
    letters_stem_from_the_word(word);
    let i = choose|i: int| 0 <= i < word.len() && ascii_uppercase(#[trigger] word[i]);
    assert(alphabetic(word[i]));
    assert(all_uppercase(letters(word)));
}

proof fn lowercase_word_is_recognised(word: Seq<char>)
    requires
        lowercase_word(word),
    ensures
        case_of(word) == CaseStyle::Lower,
        letters(word).len() > 0,
        all_lowercase(letters(word)),
        !uppercase(letters(word)[0]),
{
    letters_stem_from_the_word(word);
    let i = choose|i: int| 0 <= i < word.len() && ascii_lowercase(#[trigger] word[i]);
    assert(alphabetic(word[i]));
    assert(all_lowercase(letters(word)));
    assert(!uppercase(letters(word)[0]));
}

proof fn capitalized_word_is_recognised(first: char, rest: Seq<char>)
    requires
        ascii_uppercase(first),
        lowercase_word(rest),
    ensures
        case_of(seq![first] + rest) == CaseStyle::Capitalized,
{
    let pred = |c: char| alphabetic(c);
    let word = seq![first] + rest;
    lowercase_word_is_recognised(rest);
    Seq::filter_distributes_over_add(seq![first], rest, pred);
    assert(seq![first].filter(pred) =~= seq![first]) by {
        reveal(Seq::filter);
        assert(seq![first].drop_last().filter(pred) =~= Seq::empty());
    }
    assert(letters(word) == seq![first] + letters(rest));
    assert(letters(word).drop_first() =~= letters(rest));
    assert(letters(word)[0] == first);
    assert(letters(word)[1] == letters(rest)[0]);
}

/// A lowercase word written in a casing is recognised as written in that casing,
/// and its lowercase form is the word itself. A word with a single letter has no
/// capitalized form of its own: `A` is all upper case.
pub proof fn casing_is_recognised(word: Seq<char>, style: CaseStyle)
    requires
        lowercase_word(word),
        style == CaseStyle::Capitalized ==> can_be_capitalized(word),
        style != CaseStyle::Mixed,
    ensures
        case_of(in_case(word, style)) == style,
        to_lower(in_case(word, style)) == word,
{
    let written = in_case(word, style);
    assert(written.len() == word.len());
    assert forall|i: int| 0 <= i < written.len() implies {
        let c = #[trigger] written[i];
        &&& ascii(c)
        &&& ascii_to_lower(c) == word[i]
        &&& style == CaseStyle::Upper ==> !ascii_lowercase(c)
    } by {
        assert(ascii(word[i]) && !ascii_uppercase(word[i]));
    }
    assert(all_ascii(written));
    assert(to_lower(written) =~= word);
    match style {
        CaseStyle::Upper => {
            let i = choose|i: int| 0 <= i < word.len() && ascii_lowercase(#[trigger] word[i]);
            assert(ascii_uppercase(written[i]));
            uppercase_word_is_recognised(written);
        },
        CaseStyle::Lower => {
            lowercase_word_is_recognised(word);
        },
        CaseStyle::Capitalized => {
            let rest = word.drop_first();
            let i = choose|i: int| 1 <= i < word.len() && ascii_lowercase(#[trigger] word[i]);
            assert(ascii_lowercase(rest[i - 1]));
            assert forall|j: int| 0 <= j < rest.len() implies ascii(#[trigger] rest[j])
                && !ascii_uppercase(rest[j]) by {
                assert(ascii(word[j + 1]) && !ascii_uppercase(word[j + 1]));
            }
            capitalized_word_is_recognised(ascii_to_upper(word[0]), rest);
        },
        CaseStyle::Mixed => {},
    }
}

/// An abbreviation typed in lower case, capitalized or in upper case becomes
/// its expansion as it stands, capitalized or in upper case.
pub proof fn expansion_follows_the_typed_case(
    m: Map<Seq<char>, Seq<char>>,
    abbreviation: Seq<char>,
    style: CaseStyle,
)
    requires
        lowercase_word(abbreviation),
        m.contains_key(abbreviation),
        style == CaseStyle::Capitalized ==> can_be_capitalized(abbreviation),
        style != CaseStyle::Mixed,
    ensures
        expansion_of(m, in_case(abbreviation, style)) == Some(in_case(m[abbreviation], style)),
{
    casing_is_recognised(abbreviation, style);
}

/// A matching word becomes its expansion all in upper case, with a capital, or
/// as it stands, by how the word was typed; a word in no regular casing leaves
/// it as it stands.
pub proof fn expansion_is_written_in_the_detected_case(
    m: Map<Seq<char>, Seq<char>>,
    word: Seq<char>,
)
    ensures
        m.contains_key(to_lower(word)) ==> expansion_of(m, word) == Some(
            match case_of(word) {
                CaseStyle::Upper => to_upper(m[to_lower(word)]),
                CaseStyle::Capitalized => capitalized(m[to_lower(word)]),
                CaseStyle::Lower | CaseStyle::Mixed => m[to_lower(word)],
            },
        ),
{
}

/// Whether a word is an abbreviation does not depend on its casing.
pub proof fn lookup_ignores_case(m: Map<Seq<char>, Seq<char>>, a: Seq<char>, b: Seq<char>)
    ensures
        to_lower(a) == to_lower(b) ==> (expansion_of(m, a) is Some <==> expansion_of(m, b) is Some),
{
}

/// Every abbreviation of the replacements file can be typed in any casing.
pub proof fn loaded_abbreviations_expand(
    raw: Map<Seq<char>, Seq<char>>,
    loaded: Map<Seq<char>, Seq<char>>,
    abbreviation: Seq<char>,
    word: Seq<char>,
)
    ensures
        keys_lowered(raw, loaded) && raw.contains_key(abbreviation) && to_lower(word) == to_lower(
            abbreviation,
        ) ==> expansion_of(loaded, word) is Some,
{
}

/// No two abbreviations of the replacements file differ in their casing alone.
pub open spec fn distinct_ignoring_case(raw: Map<Seq<char>, Seq<char>>) -> bool {
    forall|a: Seq<char>, b: Seq<char>|
        #![trigger raw.contains_key(a), raw.contains_key(b)]
        raw.contains_key(a) && raw.contains_key(b) && to_lower(a) == to_lower(b) ==> a == b
}

/// Where no two abbreviations differ in their casing alone, each expands to what
/// the replacements file gives for it, and to nothing else.
pub proof fn loaded_abbreviations_keep_their_expansion(
    raw: Map<Seq<char>, Seq<char>>,
    loaded: Map<Seq<char>, Seq<char>>,
    abbreviation: Seq<char>,
    word: Seq<char>,
)
    ensures
        keys_lowered(raw, loaded) && distinct_ignoring_case(raw) && raw.contains_key(abbreviation)
            && to_lower(word) == to_lower(abbreviation) ==> expansion_of(loaded, word) == Some(
            in_case(raw[abbreviation], case_of(word)),
        ),
{
    if keys_lowered(raw, loaded) && distinct_ignoring_case(raw) && raw.contains_key(abbreviation)
        && to_lower(word) == to_lower(abbreviation) {
        let key = to_lower(word);
        assert(loaded.contains_key(key));
        assert(stems_from(raw, key, loaded[key]));
        let k = choose|k: Seq<char>| #[trigger]
            raw.contains_key(k) && to_lower(k) == key && raw[k] == loaded[key];
        assert(k == abbreviation);
    }
}

/// A word that no abbreviation of the replacements file matches expands to
/// nothing.
pub proof fn other_words_do_not_expand(
    raw: Map<Seq<char>, Seq<char>>,
    loaded: Map<Seq<char>, Seq<char>>,
    word: Seq<char>,
)
    ensures
        keys_lowered(raw, loaded) && (forall|k: Seq<char>| #[trigger]
            raw.contains_key(k) ==> to_lower(k) != to_lower(word)) ==> expansion_of(loaded, word)
            is None,
{
    if keys_lowered(raw, loaded) && loaded.contains_key(to_lower(word)) {
        assert(stems_from(raw, to_lower(word), loaded[to_lower(word)]));
    }
}

// ---------------------------------------------------------------------------
// Typing

/// A key press that produces a character; with AltGr, Ctrl and Alt are both
/// reported as held.
pub struct KeyPress {
    pub vk: i32,
    pub alt_gr: bool,
    pub c: char,
}

/// The characters that a series of key presses produces.
pub open spec fn chars_of(presses: Seq<KeyPress>) -> Seq<char> {
    presses.map_values(|p: KeyPress| p.c)
}

/// The state after a series of key presses.
pub open spec fn after_typing(s: StateModel, presses: Seq<KeyPress>) -> StateModel
    decreases presses.len(),
{
    if presses.len() == 0 {
        s
    } else {
        let p = presses.last();
        after_typing(s, presses.drop_last()).after_keydown(
            p.vk,
            p.alt_gr,
            p.alt_gr,
            KeyChar::Char(p.c),
        ).0
    }
}

/// The key press types a character of a word: it is no modifier, Backspace,
/// Enter or Tab, and its character is no boundary.
pub open spec fn types_a_letter(s: StateModel, p: KeyPress) -> bool {
    &&& !ignored_modifier(p.vk)
    &&& p.vk != VK_BACK
    &&& !structural_boundary(p.vk)
    &&& !s.boundary_chars.contains(p.c)
}

/// A word can be started: replacements are on, none is in progress, and no
/// accent is pending.
pub open spec fn ready(s: StateModel) -> bool {
    &&& s.enabled
    &&& s.buffer.len() == 0
    &&& !s.skip_next_char_resolution
}

/// The presses type one word that is short enough to be tracked to its end.
pub open spec fn types_a_word(s: StateModel, presses: Seq<KeyPress>) -> bool {
    &&& presses.len() > 0
    &&& forall|i: int| 0 <= i < presses.len() ==> types_a_letter(s, #[trigger] presses[i])
    &&& encode_utf8(chars_of(presses.drop_last())).len() < MAX_BUFFER_LEN
}

/// The boundary that a key press makes: Enter or Tab always, or a character
/// that is configured to be one and does not belong to a dead key.
pub open spec fn boundary_made(s: StateModel, vk: i32, key: KeyChar) -> Option<Boundary> {
    if structural_boundary(vk) {
        Some(Boundary::Key(vk))
    } else if ignored_modifier(vk) || vk == VK_BACK || s.skip_next_char_resolution {
        None
    } else {
        match key {
            KeyChar::Char(c) => if s.boundary_chars.contains(c) {
                Some(Boundary::Char(c))
            } else {
                None
            },
            _ => None,
        }
    }
}

/// Typing a word keeps track of exactly that word.
pub proof fn typing_builds_the_word(s: StateModel, presses: Seq<KeyPress>)
    requires
        ready(s),
        types_a_word(s, presses),
    ensures
        after_typing(s, presses) == (StateModel { buffer: chars_of(presses), ..s.moved_on() }),
    decreases presses.len(),
{
    let rest = presses.drop_last();
    let p = presses.last();
    assert(types_a_letter(s, presses[presses.len() - 1]));
    assert(chars_of(presses) =~= chars_of(rest).push(p.c));
    if rest.len() == 0 {
        assert(after_typing(s, rest) == s);
        assert(s.buffer =~= chars_of(rest));
    } else {
        assert forall|i: int| 0 <= i < rest.len() implies types_a_letter(s, #[trigger] rest[i]) by {
            assert(types_a_letter(s, presses[i]));
        }
        let shorter = chars_of(rest.drop_last());
        assert(chars_of(rest) =~= shorter.push(rest.last().c));
        utf8_push(shorter, rest.last().c);
        typing_builds_the_word(s, rest);
    }
}

/// Typing a word and then a boundary replaces the word by its expansion and
/// swallows the boundary key, if the word is an abbreviation; and otherwise
/// leaves the key alone and sets the word aside.
pub proof fn typed_abbreviation_is_replaced(
    s: StateModel,
    presses: Seq<KeyPress>,
    vk: i32,
    alt_gr: bool,
    key: KeyChar,
)
    requires
        ready(s),
        types_a_word(s, presses),
        boundary_made(s, vk, key) is Some,
    ensures
        ({
            let word = chars_of(presses);
            let boundary = boundary_made(s, vk, key)->0;
            let (t, action) = after_typing(s, presses).after_keydown(vk, alt_gr, alt_gr, key);
            &&& t.buffer.len() == 0
            &&& match expansion_of(s.config, word) {
                Some(expansion) => {
                    &&& action == ActionModel::Replace { abbr_len: word.len(), expansion, boundary }
                    &&& t.last_expansion == Some(ExpansionText { typed: word, expansion })
                    &&& t.swallowed_keys == s.swallowed_keys.insert(vk)
                },
                None => {
                    &&& action == ActionModel::PassThrough
                    &&& t.pending_word == Some(word)
                    &&& t.swallowed_keys == s.swallowed_keys
                },
            }
        }),
{
    typing_builds_the_word(s, presses);
}

/// Typing an abbreviation and then a boundary leaves the expansion and the
/// boundary in the text in place of the abbreviation, and a Backspace at once
/// afterwards leaves the abbreviation as it was typed.
pub proof fn typed_abbreviation_on_screen(
    s: StateModel,
    presses: Seq<KeyPress>,
    vk: i32,
    alt_gr: bool,
    key: KeyChar,
    before: Seq<u16>,
)
    requires
        ready(s),
        types_a_word(s, presses),
        all_one_unit(chars_of(presses)),
        boundary_made(s, vk, key) is Some,
        pressed_boundary(boundary_made(s, vk, key)->0),
    ensures
        ({
            let word = chars_of(presses);
            let text = before + utf16(word);
            let (t, action) = after_typing(s, presses).after_keydown(vk, alt_gr, alt_gr, key);
            expansion_of(s.config, word) matches Some(e) ==> {
                &&& action matches ActionModel::Replace { abbr_len, expansion, boundary }
                &&& after_inputs(text, replacement_inputs(abbr_len, expansion, boundary)) == before
                    + utf16(e) + boundary_units(boundary)
                &&& t.after_keydown(VK_BACK, false, false, key).1 matches ActionModel::Undo(last)
                &&& after_inputs(
                    after_inputs(text, replacement_inputs(abbr_len, expansion, boundary)),
                    undo_inputs(last),
                ) == text
            }
        }),
{
    let word = chars_of(presses);
    typing_builds_the_word(s, presses);
    if let Some(e) = expansion_of(s.config, word) {
        let boundary = boundary_made(s, vk, key)->0;
        replacement_takes_effect(before, word, e, boundary);
        undo_restores_the_text(before, word, e, boundary);
    }
}

/// A tracked word, whether in progress, set aside or just expanded, has at most
/// as many characters as the limit has bytes.
pub proof fn tracked_words_are_short(s: StateModel)
    requires
        s.wf(),
    ensures
        s.buffer.len() <= MAX_BUFFER_LEN,
        s.pending_word matches Some(word) ==> word.len() <= MAX_BUFFER_LEN,
        s.last_expansion matches Some(last) ==> last.typed.len() <= MAX_BUFFER_LEN,
{
    limit_bounds_the_length(s.buffer);
    if let Some(word) = s.pending_word {
        limit_bounds_the_length(word);
    }
    if let Some(last) = s.last_expansion {
        limit_bounds_the_length(last.typed);
    }
}

/// A word that has grown past the limit is given up on as a whole: the next
/// character starts over with no word in progress.
pub proof fn over_long_word_is_given_up(s: StateModel, p: KeyPress)
    requires
        s.enabled,
        !s.skip_next_char_resolution,
        types_a_letter(s, p),
        encode_utf8(s.buffer).len() >= MAX_BUFFER_LEN,
    ensures
        s.after_keydown(p.vk, p.alt_gr, p.alt_gr, KeyChar::Char(p.c)) == (
            StateModel { buffer: Seq::empty(), ..s.moved_on() },
            ActionModel::PassThrough,
        ),
{
}

/// Enter and Tab finish a word whatever boundary characters are configured.
pub proof fn enter_and_tab_always_finish_a_word(s: StateModel, vk: i32, alt_gr: bool, key: KeyChar)
    requires
        s.enabled,
        structural_boundary(vk),
    ensures
        s.after_keydown(vk, alt_gr, alt_gr, key) == s.after_boundary(vk, Boundary::Key(vk)),
{
}

// ---------------------------------------------------------------------------
// Taking back

/// A Backspace right after an expansion takes it back: the word is in progress
/// again exactly as it was typed.
pub proof fn backspace_undoes_the_expansion(
    s: StateModel,
    vk: i32,
    ctrl: bool,
    alt: bool,
    key: KeyChar,
    alt_gr: bool,
    other: KeyChar,
)
    ensures
        ({
            let (t, action) = s.after_keydown(vk, ctrl, alt, key);
            let (u, undo) = t.after_keydown(VK_BACK, alt_gr, alt_gr, other);
            action matches ActionModel::Replace { abbr_len, expansion, boundary } ==> {
                &&& abbr_len == s.buffer.len()
                &&& undo == ActionModel::Undo(ExpansionText { typed: s.buffer, expansion })
                &&& u.buffer == s.buffer
                &&& u.last_expansion is None
                &&& u.suppress_expansion
            }
        }),
{
}

/// A word whose expansion was just taken back is not expanded again by the next
/// boundary, but set aside; going back into it makes it ready to expand again.
pub proof fn undone_expansion_stays_undone(
    s: StateModel,
    vk: i32,
    alt_gr: bool,
    key: KeyChar,
)
    requires
        s.wf(),
        s.enabled,
        s.last_expansion is Some,
        boundary_made(s, vk, key) is Some,
    ensures
        ({
            let word = s.last_expansion->0.typed;
            let u = s.after_keydown(VK_BACK, false, false, key).0;
            let (v, action) = u.after_keydown(vk, alt_gr, alt_gr, key);
            let w = v.after_keydown(VK_BACK, false, false, key).0;
            &&& action == ActionModel::PassThrough
            &&& v.pending_word == Some(word)
            &&& w.buffer == word
            &&& w.expansion_due() == expansion_of(s.config, word)
        }),
{
}

/// A letter typed after taking an expansion back makes the word ready to expand
/// again.
pub proof fn typing_on_ends_the_suppression(s: StateModel, p: KeyPress)
    requires
        s.enabled,
        types_a_letter(s, p),
    ensures
        !s.after_keydown(p.vk, p.alt_gr, p.alt_gr, KeyChar::Char(p.c)).0.suppress_expansion,
{
}

/// A Backspace over the boundary that followed a word which did not expand goes
/// back into that word.
pub proof fn backspace_goes_back_into_the_word(
    s: StateModel,
    vk: i32,
    alt_gr: bool,
    key: KeyChar,
)
    requires
        s.enabled,
        s.buffer.len() > 0,
        boundary_made(s, vk, key) is Some,
    ensures
        ({
            let (t, action) = s.after_keydown(vk, alt_gr, alt_gr, key);
            let (u, back) = t.after_keydown(VK_BACK, false, false, key);
            action == ActionModel::PassThrough ==> {
                &&& back == ActionModel::PassThrough
                &&& u == (StateModel {
                    buffer: s.buffer,
                    skip_next_char_resolution: false,
                    ..s.moved_on()
                })
            }
        }),
{
}

/// A typo in the last letter can be corrected after the boundary: two
/// Backspaces and the right letter leave the corrected word in progress.
pub proof fn typo_is_corrected(
    s: StateModel,
    vk: i32,
    alt_gr: bool,
    key: KeyChar,
    right: KeyPress,
)
    requires
        s.wf(),
        s.enabled,
        s.buffer.len() > 0,
        boundary_made(s, vk, key) is Some,
        types_a_letter(s, right),
    ensures
        ({
            let (t, action) = s.after_keydown(vk, alt_gr, alt_gr, key);
            let u = t.after_keydown(VK_BACK, false, false, key).0;
            let v = u.after_keydown(VK_BACK, false, false, key).0;
            let w = v.after_keydown(
                right.vk,
                right.alt_gr,
                right.alt_gr,
                KeyChar::Char(right.c),
            ).0;
            action == ActionModel::PassThrough ==> w.buffer == s.buffer.drop_last().push(right.c)
                && !w.suppress_expansion
        }),
{
    backspace_goes_back_into_the_word(s, vk, alt_gr, key);
}

/// Any key but a Backspace or a modifier ends the chance to take an expansion
/// back.
pub proof fn other_keys_close_the_undo(
    s: StateModel,
    vk: i32,
    ctrl: bool,
    alt: bool,
    key: KeyChar,
)
    requires
        s.enabled,
        !ignored_modifier(vk),
        vk != VK_BACK || shortcut_chord(ctrl, alt),
    ensures
        ({
            let (t, action) = s.after_keydown(vk, ctrl, alt, key);
            action == ActionModel::PassThrough ==> t.last_expansion is None
        }),
{
}

// ---------------------------------------------------------------------------
// Keys that are left alone

/// While replacements are switched off, no key changes anything.
pub proof fn switched_off_changes_nothing(
    s: StateModel,
    vk: i32,
    ctrl: bool,
    alt: bool,
    key: KeyChar,
)
    requires
        !s.enabled,
    ensures
        s.after_keydown(vk, ctrl, alt, key) == (s, ActionModel::PassThrough),
{
}

/// A modifier key changes nothing.
pub proof fn modifiers_change_nothing(
    s: StateModel,
    vk: i32,
    ctrl: bool,
    alt: bool,
    key: KeyChar,
)
    requires
        ignored_modifier(vk),
    ensures
        s.after_keydown(vk, ctrl, alt, key) == (s, ActionModel::PassThrough),
{
}

/// A shortcut is never intercepted; it ends the word in progress, and with it
/// the chance to take an expansion back.
pub proof fn shortcuts_are_never_intercepted(
    s: StateModel,
    vk: i32,
    ctrl: bool,
    alt: bool,
    key: KeyChar,
)
    requires
        shortcut_chord(ctrl, alt),
    ensures
        s.after_keydown(vk, ctrl, alt, key).1 == ActionModel::PassThrough,
        s.enabled && !ignored_modifier(vk) ==> s.after_keydown(vk, ctrl, alt, key).0
            == s.forgotten(),
{
}

/// Where a key's character is not asked for, it does not matter.
pub proof fn unasked_character_does_not_matter(
    s: StateModel,
    vk: i32,
    ctrl: bool,
    alt: bool,
    key: KeyChar,
    other: KeyChar,
)
    requires
        !s.looks_at_char(vk, ctrl, alt),
    ensures
        s.after_keydown(vk, ctrl, alt, key) == s.after_keydown(vk, ctrl, alt, other),
{
}

/// A dead key keeps the word in progress. The key after it is not asked for its
/// character, passes through, and ends the word.
pub proof fn key_after_a_dead_key_is_left_alone(
    s: StateModel,
    dead_vk: i32,
    vk: i32,
    dead_alt_gr: bool,
    alt_gr: bool,
    key: KeyChar,
)
    requires
        s.looks_at_char(dead_vk, dead_alt_gr, dead_alt_gr),
        !ignored_modifier(vk),
        vk != VK_BACK,
        !structural_boundary(vk),
    ensures
        ({
            let (t, dead) = s.after_keydown(dead_vk, dead_alt_gr, dead_alt_gr, KeyChar::DeadKey);
            let (u, action) = t.after_keydown(vk, alt_gr, alt_gr, key);
            &&& dead == ActionModel::PassThrough
            &&& t.buffer == s.buffer
            &&& !t.looks_at_char(vk, alt_gr, alt_gr)
            &&& action == ActionModel::PassThrough
            &&& u == s.forgotten()
        }),
{
}

/// A dead key is over with Enter or Tab: those finish the word in progress as
/// they always do, and the key after them is asked for its character again.
pub proof fn enter_and_tab_end_a_dead_key(
    s: StateModel,
    dead_vk: i32,
    vk: i32,
    dead_alt_gr: bool,
    alt_gr: bool,
    key: KeyChar,
)
    requires
        s.looks_at_char(dead_vk, dead_alt_gr, dead_alt_gr),
        structural_boundary(vk),
    ensures
        ({
            let t = s.after_keydown(dead_vk, dead_alt_gr, dead_alt_gr, KeyChar::DeadKey).0;
            let (u, action) = t.after_keydown(vk, alt_gr, alt_gr, key);
            &&& (u, action) == s.moved_on().after_boundary(vk, Boundary::Key(vk))
            &&& !u.skip_next_char_resolution
        }),
{
}

/// Only a dead key makes the next key one that is left alone: the note is set
/// after a dead key, and after any other key but a modifier it is not.
pub proof fn only_a_dead_key_is_pending(
    s: StateModel,
    vk: i32,
    ctrl: bool,
    alt: bool,
    key: KeyChar,
)
    requires
        s.enabled,
        !ignored_modifier(vk),
    ensures
        s.after_keydown(vk, ctrl, alt, key).0.skip_next_char_resolution <==> s.looks_at_char(
            vk,
            ctrl,
            alt,
        ) && key == KeyChar::DeadKey,
{
}

/// A key press that is swallowed has its release swallowed, once and no more;
/// one that passes through changes nothing about releases.
pub proof fn swallowed_keys_swallow_their_release(
    s: StateModel,
    vk: i32,
    ctrl: bool,
    alt: bool,
    key: KeyChar,
)
    ensures
        ({
            let (t, action) = s.after_keydown(vk, ctrl, alt, key);
            &&& action == ActionModel::PassThrough ==> t.swallowed_keys == s.swallowed_keys
            &&& action != ActionModel::PassThrough ==> t.swallowed_keys == s.swallowed_keys.insert(
                vk,
            )
            &&& !t.after_keyup(vk).swallowed_keys.contains(vk)
        }),
{
}

/// A press or a release of some key.
pub enum KeyEvent {
    Down { vk: i32, ctrl: bool, alt: bool, key: KeyChar },
    Up { vk: i32 },
}

/// The state after a series of presses and releases.
pub open spec fn after_events(s: StateModel, events: Seq<KeyEvent>) -> StateModel
    decreases events.len(),
{
    if events.len() == 0 {
        s
    } else {
        let before = after_events(s, events.drop_last());
        match events.last() {
            KeyEvent::Down { vk, ctrl, alt, key } => before.after_keydown(vk, ctrl, alt, key).0,
            KeyEvent::Up { vk } => before.after_keyup(vk),
        }
    }
}

/// Whatever other keys are pressed and released in between, the release of a key
/// whose press was swallowed is still to be swallowed when it comes.
pub proof fn swallowed_keys_wait_for_their_release(
    s: StateModel,
    vk: i32,
    ctrl: bool,
    alt: bool,
    key: KeyChar,
    events: Seq<KeyEvent>,
)
    requires
        !events.contains(KeyEvent::Up { vk }),
    ensures
        ({
            let (t, action) = s.after_keydown(vk, ctrl, alt, key);
            action != ActionModel::PassThrough ==> after_events(t, events).swallowed_keys.contains(
                vk,
            )
        }),
    decreases events.len(),
{
    if events.len() > 0 {
        let rest = events.drop_last();
        assert(events[events.len() - 1] == events.last());
        assert(!rest.contains(KeyEvent::Up { vk })) by {
            if rest.contains(KeyEvent::Up { vk }) {
                let i = choose|i: int| 0 <= i < rest.len() && rest[i] == KeyEvent::Up { vk };
                assert(events[i] == KeyEvent::Up { vk });
            }
        }
        swallowed_keys_wait_for_their_release(s, vk, ctrl, alt, key, rest);
    }
}

/// The release of a key touches nothing but the note about releases, and in that
/// no other key.
pub proof fn releases_do_not_disturb_the_word(s: StateModel, vk: i32, other: i32)
    ensures
        s.after_keyup(vk) == (StateModel {
            swallowed_keys: s.after_keyup(vk).swallowed_keys,
            ..s
        }),
        !s.after_keyup(vk).swallowed_keys.contains(vk),
        other != vk ==> s.after_keyup(vk).swallowed_keys.contains(other)
            == s.swallowed_keys.contains(other),
{
}

// ---------------------------------------------------------------------------
// Words of single key presses

/// Every word that the state remembers consists of characters of one UTF-16
/// unit.
pub open spec fn remembers_one_unit_words(s: StateModel) -> bool {
    &&& all_one_unit(s.buffer)
    &&& s.pending_word matches Some(word) ==> all_one_unit(word)
    &&& s.last_expansion matches Some(last) ==> all_one_unit(last.typed)
}

/// Key presses, which produce characters of one UTF-16 unit, lead to words of
/// such characters alone.
pub proof fn key_presses_make_one_unit_words(
    s: StateModel,
    vk: i32,
    ctrl: bool,
    alt: bool,
    key: KeyChar,
)
    requires
        remembers_one_unit_words(s),
        key matches KeyChar::Char(c) ==> one_unit(c),
    ensures
        remembers_one_unit_words(s.after_keydown(vk, ctrl, alt, key).0),
        s.after_keydown(vk, ctrl, alt, key).1 matches ActionModel::Replace { boundary, .. }
            ==> pressed_boundary(boundary),
{
}

// ---------------------------------------------------------------------------
// Switches

/// Switching replacements off and on again leaves everything as it was, but for
/// the word in progress.
pub proof fn toggling_twice_is_harmless(s: StateModel)
    ensures
        s.after_toggle_enabled().after_toggle_enabled() == s.forgotten(),
        s.after_toggle_start_on_login().after_toggle_start_on_login() == s,
{
}

/// Each switch changes its own setting and no other.
pub proof fn switches_keep_the_other_settings(s: StateModel, visible: bool)
    ensures
        s.after_toggle_enabled().persisted() == (SettingsText {
            enabled: !s.enabled,
            ..s.persisted()
        }),
        s.after_toggle_start_on_login().persisted() == (SettingsText {
            start_on_login: !s.start_on_login,
            ..s.persisted()
        }),
        s.with_tray(visible).persisted() == (SettingsText {
            show_tray_icon: visible,
            ..s.persisted()
        }),
{
}

/// Showing or hiding the tray icon does not bear on replacements.
pub proof fn tray_icon_does_not_matter_to_typing(
    s: StateModel,
    visible: bool,
    vk: i32,
    ctrl: bool,
    alt: bool,
    key: KeyChar,
)
    ensures
        s.with_tray(visible).after_keydown(vk, ctrl, alt, key) == (
            s.after_keydown(vk, ctrl, alt, key).0.with_tray(visible),
            s.after_keydown(vk, ctrl, alt, key).1,
        ),
{
}

/// Typing changes no setting.
pub proof fn typing_keeps_the_settings(
    s: StateModel,
    vk: i32,
    ctrl: bool,
    alt: bool,
    key: KeyChar,
)
    ensures
        s.after_keydown(vk, ctrl, alt, key).0.persisted() == s.persisted(),
        s.after_keydown(vk, ctrl, alt, key).0.config == s.config,
{
}

/// A reload, with the tray icon brought in line, puts every setting into effect.
pub proof fn reload_applies_every_setting(
    s: StateModel,
    config: Map<Seq<char>, Seq<char>>,
    settings: SettingsText,
)
    ensures
        s.after_reload(config, settings).with_tray(settings.show_tray_icon) == (StateModel {
            config,
            boundary_chars: first_chars(settings.characters),
            enabled: settings.enabled,
            tray_visible: settings.show_tray_icon,
            start_on_login: settings.start_on_login,
            ..s.forgotten()
        }),
{
}

/// Settings that were written out and are loaded again bring back the same
/// switches and boundary characters.
pub proof fn settings_survive_a_reload(s: StateModel)
    ensures
        s.after_reload(s.config, s.persisted()).with_tray(s.persisted().show_tray_icon)
            == s.forgotten(),
        first_chars(s.persisted().characters) == s.boundary_chars,
{
    boundary_chars_round_trip(s.boundary_chars);
}

} // verus!
