use textpander::input::{perform_replacement, perform_undo, KeyInput, LastExpansion};
use textpander::keys::{Boundary, KeyChar, VK_BACK, VK_RETURN, VK_SHIFT, VK_TAB};
use textpander::settings::AppSettings;
use textpander::state::{AppState, KeyAction};
use textpander::StringHashMap;

const VK_SPACE: i32 = 0x20;
const VK_LEFT: i32 = 0x25;
const VK_OEM: i32 = 0xDD;

fn settings(enabled: bool) -> AppSettings {
    AppSettings {
        enabled,
        show_tray_icon: true,
        start_on_login: false,
        characters: vec![" ".to_string(), ",".to_string()],
    }
}

fn sample_map() -> StringHashMap<String> {
    let mut m = StringHashMap::new();
    m.insert("pls".to_string(), "please".to_string());
    m.insert("p".to_string(), "page".to_string());
    m
}

fn fresh() -> AppState {
    AppState::new(sample_map(), &settings(true))
}

/// One line for each thing that a key can bring about.
fn told(action: KeyAction) -> String {
    match action {
        KeyAction::PassThrough => "pass".to_string(),
        KeyAction::Undo(last) => format!("undo {} -> {}", last.expansion, last.typed),
        KeyAction::Replace { abbr_len, expansion, boundary } => match boundary {
            Boundary::Key(vk) => format!("replace {} by {} key {}", abbr_len, expansion, vk),
            Boundary::Char(c) => format!("replace {} by {} char {}", abbr_len, expansion, c as u32),
        },
    }
}

fn key(state: &mut AppState, vk: i32, key: KeyChar) -> String {
    told(state.handle_keydown(vk, false, false, key))
}

fn letter(state: &mut AppState, c: char) {
    assert_eq!(key(state, 0x41, KeyChar::Char(c)), "pass");
}

fn word(state: &mut AppState, text: &str) {
    for c in text.chars() {
        letter(state, c);
    }
}

fn space(state: &mut AppState) -> String {
    key(state, VK_SPACE, KeyChar::Char(' '))
}

fn back(state: &mut AppState) -> String {
    key(state, VK_BACK, KeyChar::Nothing)
}

fn backspace() -> Vec<KeyInput> {
    vec![KeyInput { vk: 8, scan: 0, flags: 0 }, KeyInput { vk: 8, scan: 0, flags: 2 }]
}

fn unit(u: u16) -> Vec<KeyInput> {
    vec![KeyInput { vk: 0, scan: u, flags: 4 }, KeyInput { vk: 0, scan: u, flags: 6 }]
}

/// What a text field that held `text` holds after the events.
fn on_screen(text: &str, inputs: &Vec<KeyInput>) -> String {
    let mut units: Vec<u16> = text.encode_utf16().collect();
    for input in inputs {
        if input.flags == 4 {
            units.push(input.scan);
        } else if input.flags == 0 && input.vk == 8 {
            units.pop();
        } else if input.flags == 0 {
            units.push(input.vk);
        }
    }
    String::from_utf16(&units).unwrap()
}

#[test]
fn typed_abbreviation_is_replaced() {
    let mut s = fresh();
    word(&mut s, "pls");
    assert_eq!(space(&mut s), "replace 3 by please char 32");

    word(&mut s, "Pls");
    assert_eq!(key(&mut s, 0xBC, KeyChar::Char(',')), "replace 3 by Please char 44");

    word(&mut s, "PLS");
    assert_eq!(key(&mut s, VK_RETURN, KeyChar::Nothing), "replace 3 by PLEASE key 13");

    word(&mut s, "pls");
    assert_eq!(key(&mut s, VK_TAB, KeyChar::Nothing), "replace 3 by please key 9");
}

#[test]
fn other_words_pass_through() {
    let mut s = fresh();
    word(&mut s, "hello");
    assert_eq!(space(&mut s), "pass");
    assert_eq!(space(&mut s), "pass");
    word(&mut s, "xpls");
    assert_eq!(space(&mut s), "pass");
}

#[test]
fn unconfigured_character_is_part_of_the_word() {
    let mut s = fresh();
    word(&mut s, "pls.");
    assert_eq!(space(&mut s), "pass");
}

#[test]
fn enter_and_tab_always_finish_a_word() {
    let none = AppSettings {
        enabled: true,
        show_tray_icon: true,
        start_on_login: false,
        characters: Vec::new(),
    };
    let mut s = AppState::new(sample_map(), &none);
    word(&mut s, "pls");
    assert_eq!(space(&mut s), "pass");
    assert_eq!(key(&mut s, VK_TAB, KeyChar::Nothing), "pass");
    word(&mut s, "pls");
    assert_eq!(key(&mut s, VK_TAB, KeyChar::Char('\t')), "replace 3 by please key 9");
}

#[test]
fn backspace_undoes_the_expansion() {
    let mut s = fresh();
    word(&mut s, "Pls");
    assert_eq!(space(&mut s), "replace 3 by Please char 32");
    assert_eq!(back(&mut s), "undo Please -> Pls");
    // Only once.
    assert_eq!(back(&mut s), "pass");
    assert_eq!(back(&mut s), "pass");
    assert_eq!(space(&mut s), "pass");
}

#[test]
fn undone_expansion_stays_undone() {
    let mut s = fresh();
    word(&mut s, "pls");
    assert_eq!(space(&mut s), "replace 3 by please char 32");
    assert_eq!(back(&mut s), "undo please -> pls");
    assert_eq!(space(&mut s), "pass");
    // Going back into the word makes it ready again.
    assert_eq!(back(&mut s), "pass");
    assert_eq!(space(&mut s), "replace 3 by please char 32");
}

#[test]
fn typing_on_ends_the_suppression() {
    let mut s = fresh();
    word(&mut s, "pls");
    assert_eq!(space(&mut s), "replace 3 by please char 32");
    assert_eq!(back(&mut s), "undo please -> pls");
    assert_eq!(back(&mut s), "pass");
    letter(&mut s, 's');
    assert_eq!(space(&mut s), "replace 3 by please char 32");
}

#[test]
fn other_keys_close_the_undo() {
    let mut s = fresh();
    word(&mut s, "pls");
    assert_eq!(space(&mut s), "replace 3 by please char 32");
    letter(&mut s, 'x');
    assert_eq!(back(&mut s), "pass");
}

#[test]
fn modifiers_change_nothing() {
    let mut s = fresh();
    letter(&mut s, 'P');
    assert_eq!(key(&mut s, VK_SHIFT, KeyChar::Nothing), "pass");
    word(&mut s, "ls");
    assert_eq!(space(&mut s), "replace 3 by Please char 32");
    assert_eq!(key(&mut s, VK_SHIFT, KeyChar::Nothing), "pass");
    assert_eq!(back(&mut s), "undo Please -> Pls");
}

#[test]
fn typo_is_corrected() {
    let mut s = fresh();
    word(&mut s, "pld");
    assert_eq!(space(&mut s), "pass");
    assert_eq!(back(&mut s), "pass");
    assert_eq!(back(&mut s), "pass");
    letter(&mut s, 's');
    assert_eq!(space(&mut s), "replace 3 by please char 32");
}

#[test]
fn finished_word_is_kept_for_one_backspace_only() {
    let mut s = fresh();
    word(&mut s, "pl");
    assert_eq!(space(&mut s), "pass");
    letter(&mut s, 's');
    assert_eq!(back(&mut s), "pass");
    assert_eq!(back(&mut s), "pass");
    letter(&mut s, 's');
    assert_eq!(space(&mut s), "pass");
}

#[test]
fn backspace_deletes_a_letter() {
    let mut s = fresh();
    word(&mut s, "plx");
    assert_eq!(back(&mut s), "pass");
    letter(&mut s, 's');
    assert_eq!(space(&mut s), "replace 3 by please char 32");
}

#[test]
fn shortcuts_are_never_intercepted() {
    let mut s = fresh();
    word(&mut s, "pls");
    assert_eq!(space(&mut s), "replace 3 by please char 32");
    // Ctrl+Backspace.
    assert_eq!(told(s.handle_keydown(VK_BACK, true, false, KeyChar::Nothing)), "pass");
    assert_eq!(back(&mut s), "pass");

    word(&mut s, "pls");
    assert_eq!(told(s.handle_keydown(0x43, false, true, KeyChar::Nothing)), "pass");
    assert_eq!(space(&mut s), "pass");
}

#[test]
fn alt_gr_types_characters() {
    let mut m = StringHashMap::new();
    m.insert("@me".to_string(), "me at home".to_string());
    let mut s = AppState::new(m, &settings(true));
    assert!(s.needs_char(0x30, true, true));
    assert_eq!(told(s.handle_keydown(0x30, true, true, KeyChar::Char('@'))), "pass");
    word(&mut s, "me");
    assert_eq!(space(&mut s), "replace 3 by me at home char 32");
}

#[test]
fn keys_without_a_character_end_the_word() {
    let mut s = fresh();
    word(&mut s, "pl");
    assert_eq!(key(&mut s, VK_LEFT, KeyChar::Nothing), "pass");
    letter(&mut s, 's');
    assert_eq!(space(&mut s), "pass");
}

#[test]
fn key_after_a_dead_key_is_left_alone() {
    let mut s = fresh();
    word(&mut s, "p");
    assert!(s.needs_char(VK_OEM, false, false));
    assert_eq!(key(&mut s, VK_OEM, KeyChar::DeadKey), "pass");
    assert!(!s.needs_char(0x45, false, false));
    assert_eq!(key(&mut s, 0x45, KeyChar::Char('e')), "pass");
    assert!(s.needs_char(0x45, false, false));
    assert_eq!(space(&mut s), "pass");
}

#[test]
fn dead_key_keeps_the_word() {
    let mut s = fresh();
    word(&mut s, "pls");
    assert_eq!(key(&mut s, VK_OEM, KeyChar::DeadKey), "pass");
    assert_eq!(key(&mut s, VK_RETURN, KeyChar::Nothing), "replace 3 by please key 13");
}

#[test]
fn enter_and_tab_end_a_dead_key() {
    for vk in [VK_RETURN, VK_TAB] {
        let mut s = fresh();
        assert_eq!(key(&mut s, VK_OEM, KeyChar::DeadKey), "pass");
        assert!(!s.needs_char(0x45, false, false));
        assert_eq!(key(&mut s, vk, KeyChar::Nothing), "pass");
        // The key before is now Enter or Tab, so this one is looked at.
        assert!(s.needs_char(0x45, false, false));
        word(&mut s, "pls");
        assert_eq!(key(&mut s, VK_OEM, KeyChar::DeadKey), "pass");
        assert!(key(&mut s, vk, KeyChar::Nothing).starts_with("replace 3 by please key"));
        assert!(s.needs_char(0x45, false, false));
    }
}

#[test]
fn backspace_cancels_a_dead_key() {
    let mut s = fresh();
    word(&mut s, "plsx");
    assert_eq!(key(&mut s, VK_OEM, KeyChar::DeadKey), "pass");
    assert_eq!(back(&mut s), "pass");
    assert!(s.needs_char(0x45, false, false));
    assert_eq!(space(&mut s), "replace 3 by please char 32");
}

#[test]
fn character_is_asked_for_only_where_it_matters() {
    let s = fresh();
    assert!(s.needs_char(0x41, false, false));
    assert!(!s.needs_char(VK_SHIFT, false, false));
    assert!(!s.needs_char(0x41, true, false));
    assert!(!s.needs_char(0x41, false, true));
    assert!(!s.needs_char(VK_BACK, false, false));
    assert!(!s.needs_char(VK_RETURN, false, false));
    assert!(!s.needs_char(VK_TAB, false, false));
    let off = AppState::new(sample_map(), &settings(false));
    assert!(!off.needs_char(0x41, false, false));
}

#[test]
fn over_long_word_is_given_up() {
    let mut m = StringHashMap::new();
    let long = "x".repeat(64);
    m.insert(long.clone(), "found".to_string());
    m.insert("pls".to_string(), "please".to_string());
    let mut s = AppState::new(m, &settings(true));
    word(&mut s, &long);
    assert_eq!(space(&mut s), "replace 64 by found char 32");

    // The character after the last that fits clears the word and is dropped.
    word(&mut s, &long);
    letter(&mut s, 'x');
    word(&mut s, "pls");
    assert_eq!(space(&mut s), "replace 3 by please char 32");
}

#[test]
fn typo_at_the_limit_is_corrected() {
    let mut m = StringHashMap::new();
    m.insert("x".repeat(64), "found".to_string());
    m.insert(format!("{}\u{20ac}", "x".repeat(63)), "euro".to_string());
    let mut s = AppState::new(m, &settings(true));
    word(&mut s, &"x".repeat(63));
    letter(&mut s, 'y');
    assert_eq!(space(&mut s), "pass");
    assert_eq!(back(&mut s), "pass");
    assert_eq!(back(&mut s), "pass");
    letter(&mut s, 'x');
    assert_eq!(space(&mut s), "replace 64 by found char 32");

    // The last character may go past the limit by its own length.
    word(&mut s, &"x".repeat(63));
    letter(&mut s, '\u{20ac}');
    assert_eq!(space(&mut s), "replace 64 by euro char 32");
}

#[test]
fn limit_counts_bytes() {
    let mut m = StringHashMap::new();
    let accents = "\u{e9}".repeat(32);
    m.insert(accents.clone(), "found".to_string());
    let mut s = AppState::new(m, &settings(true));
    word(&mut s, &accents);
    assert_eq!(space(&mut s), "replace 32 by found char 32");
    word(&mut s, &accents);
    letter(&mut s, '\u{e9}');
    assert_eq!(space(&mut s), "pass");
    assert_eq!(back(&mut s), "pass");
}

#[test]
fn switched_off_changes_nothing() {
    let mut s = AppState::new(sample_map(), &settings(false));
    word(&mut s, "pls");
    assert_eq!(space(&mut s), "pass");
    assert_eq!(back(&mut s), "pass");
}

#[test]
fn toggling_drops_the_word() {
    let mut s = fresh();
    word(&mut s, "pl");
    let saved = s.toggle_enabled();
    assert!(!saved.enabled && !s.enabled());
    assert!(saved.show_tray_icon && !saved.start_on_login);
    assert_eq!(saved.characters, vec![" ".to_string(), ",".to_string()]);
    letter(&mut s, 's');
    let saved = s.toggle_enabled();
    assert!(saved.enabled && s.enabled());
    letter(&mut s, 's');
    assert_eq!(space(&mut s), "pass");
    word(&mut s, "pls");
    assert_eq!(space(&mut s), "replace 3 by please char 32");
}

#[test]
fn switches_keep_the_other_settings() {
    let mut s = fresh();
    let saved = s.toggle_start_on_login();
    assert!(saved.start_on_login && s.start_on_login());
    assert!(saved.enabled && saved.show_tray_icon);
    let saved = s.hide_tray_icon();
    assert!(!saved.show_tray_icon && saved.start_on_login && saved.enabled);
    let saved = s.show_tray_icon();
    assert!(saved.show_tray_icon && saved.start_on_login && saved.enabled);
    let saved = s.toggle_start_on_login();
    assert!(!saved.start_on_login && !s.start_on_login());
    assert_eq!(saved.characters, vec![" ".to_string(), ",".to_string()]);
}

#[test]
fn switches_keep_the_word() {
    let mut s = fresh();
    word(&mut s, "pl");
    s.toggle_start_on_login();
    s.hide_tray_icon();
    s.show_tray_icon();
    letter(&mut s, 's');
    assert_eq!(space(&mut s), "replace 3 by please char 32");
}

#[test]
fn reload_takes_everything_over() {
    let mut s = fresh();
    word(&mut s, "pl");
    let mut m = StringHashMap::new();
    m.insert("s".to_string(), "south".to_string());
    let loaded = AppSettings {
        enabled: true,
        show_tray_icon: false,
        start_on_login: true,
        characters: vec![";".to_string(), "".to_string(), ".x".to_string()],
    };
    let rest = s.reload_config(m, &loaded);
    assert!(rest.start_on_login && !rest.show_tray_icon);
    assert!(s.start_on_login());
    letter(&mut s, 's');
    assert_eq!(key(&mut s, 0xBE, KeyChar::Char('.')), "replace 1 by south char 46");
    word(&mut s, "s ");
    assert_eq!(key(&mut s, 0xBA, KeyChar::Char(';')), "pass");
    let saved = s.persist_settings();
    assert_eq!(saved.characters, vec![";".to_string(), ".".to_string()]);
    assert!(saved.show_tray_icon);
}

#[test]
fn settings_survive_a_reload() {
    let mut s = fresh();
    s.toggle_start_on_login();
    let saved = s.persist_settings();
    let again = AppState::new(sample_map(), &saved).persist_settings();
    assert_eq!(again.enabled, saved.enabled);
    assert_eq!(again.show_tray_icon, saved.show_tray_icon);
    assert_eq!(again.start_on_login, saved.start_on_login);
    assert_eq!(again.characters, saved.characters);
}

#[test]
fn swallowed_keys_swallow_their_release() {
    let mut s = fresh();
    word(&mut s, "pls");
    assert!(!s.should_swallow_keyup(0x41));
    assert_eq!(space(&mut s), "replace 3 by please char 32");
    assert!(!s.should_swallow_keyup(0x41));
    assert!(s.should_swallow_keyup(VK_SPACE));
    assert!(!s.should_swallow_keyup(VK_SPACE));
    assert_eq!(back(&mut s), "undo please -> pls");
    assert!(!s.should_swallow_keyup(VK_SPACE));
    assert!(s.should_swallow_keyup(VK_BACK));
    assert!(!s.should_swallow_keyup(VK_BACK));
    assert_eq!(space(&mut s), "pass");
    assert!(!s.should_swallow_keyup(VK_SPACE));
}

#[test]
fn swallowed_keys_wait_for_their_release() {
    let mut s = fresh();
    word(&mut s, "pls");
    // Enter expands, and Backspace undoes while Enter is still held.
    assert_eq!(key(&mut s, VK_RETURN, KeyChar::Nothing), "replace 3 by please key 13");
    assert_eq!(back(&mut s), "undo please -> pls");
    assert!(!s.should_swallow_keyup(0x41));
    letter(&mut s, 'x');
    s.toggle_enabled();
    s.toggle_enabled();
    assert!(s.should_swallow_keyup(VK_RETURN));
    assert!(!s.should_swallow_keyup(VK_RETURN));
    assert!(s.should_swallow_keyup(VK_BACK));
    assert!(!s.should_swallow_keyup(VK_BACK));
}

#[test]
fn key_swallowed_twice_accounts_for_one_release() {
    let mut s = fresh();
    word(&mut s, "pls");
    assert_eq!(space(&mut s), "replace 3 by please char 32");
    word(&mut s, "pls");
    assert_eq!(space(&mut s), "replace 3 by please char 32");
    assert!(s.should_swallow_keyup(VK_SPACE));
    assert!(!s.should_swallow_keyup(VK_SPACE));
}

#[test]
fn replacement_types_the_expansion_and_the_boundary() {
    let mut expected = backspace();
    expected.extend(backspace());
    expected.extend(unit('h' as u16));
    expected.extend(unit(0xD83D));
    expected.extend(unit(0xDE00));
    expected.extend(unit(' ' as u16));
    assert_eq!(perform_replacement(2, "h\u{1f600}", Boundary::Char(' ')), expected);

    let mut expected = unit('h' as u16);
    expected.push(KeyInput { vk: 13, scan: 0, flags: 0 });
    expected.push(KeyInput { vk: 13, scan: 0, flags: 2 });
    assert_eq!(perform_replacement(0, "h", Boundary::Key(VK_RETURN)), expected);

    let mut expected = unit(0xD83D);
    expected.extend(unit(0xDE00));
    assert_eq!(perform_replacement(0, "", Boundary::Char('\u{1f600}')), expected);
}

#[test]
fn undo_deletes_units_and_retypes_the_word() {
    let mut expected = Vec::new();
    for _ in 0..3 {
        expected.extend(backspace());
    }
    expected.extend(unit('g' as u16));
    let last = LastExpansion { typed: "g".to_string(), expansion: "\u{1f600}".to_string() };
    assert_eq!(perform_undo(&last), expected);
}

#[test]
fn undo_restores_the_text() {
    for (typed, expansion) in [("pls", "please"), ("gr", "gr\u{fc}\u{df}e \u{1f600}"), ("x", "")] {
        for boundary in [Boundary::Char(' '), Boundary::Key(VK_TAB), Boundary::Key(VK_RETURN)] {
            let text = format!("Say {}", typed);
            let replaced = on_screen(&text, &perform_replacement(typed.len(), expansion, boundary));
            let end = match boundary {
                Boundary::Char(c) => c,
                Boundary::Key(vk) => char::from_u32(vk as u32).unwrap(),
            };
            assert_eq!(replaced, format!("Say {}{}", expansion, end));
            let last = LastExpansion {
                typed: typed.to_string(),
                expansion: expansion.to_string(),
            };
            assert_eq!(on_screen(&replaced, &perform_undo(&last)), text);
        }
    }
}
