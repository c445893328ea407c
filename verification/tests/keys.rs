use textpander::keys::{
    char_from_translation, hook_event, is_dead_key_mapping, is_held, is_ignored_modifier,
    is_toggled, keyboard_state, HeldKeys, HookEvent, KeyChar, VK_BACK, VK_CAPITAL, VK_CONTROL,
    VK_LCONTROL, VK_LMENU, VK_LSHIFT, VK_LWIN, VK_MENU, VK_RCONTROL, VK_RETURN, VK_RMENU,
    VK_RSHIFT, VK_RWIN, VK_SHIFT, VK_TAB,
};
use textpander::utf16::{encode_utf16, to_wide};

#[test]
fn modifiers_are_ignored() {
    for vk in [
        VK_SHIFT, VK_LSHIFT, VK_RSHIFT, VK_CONTROL, VK_LCONTROL, VK_RCONTROL, VK_MENU, VK_LMENU,
        VK_RMENU, VK_LWIN, VK_RWIN, VK_CAPITAL,
    ] {
        assert!(is_ignored_modifier(vk));
    }
    for vk in [VK_BACK, VK_RETURN, VK_TAB, 0x20, 0x41, 0x13, 0x15, 0x5D, 0x9F, 0xA6] {
        assert!(!is_ignored_modifier(vk));
    }
}

#[test]
fn key_states_are_read_from_their_bits() {
    assert!(is_held(-32768));
    assert!(is_held(-32767));
    assert!(!is_held(0));
    assert!(!is_held(1));
    assert!(is_toggled(1));
    assert!(is_toggled(-32767));
    assert!(!is_toggled(0));
    assert!(!is_toggled(-32768));
}

#[test]
fn keyboard_state_marks_held_modifiers() {
    let held = HeldKeys {
        shift: true,
        left_shift: false,
        right_shift: true,
        control: false,
        left_control: true,
        right_control: false,
        menu: true,
        left_menu: false,
        right_menu: true,
        caps_lock: true,
    };
    let mut expected = vec![0u8; 256];
    expected[0x10] = 0x80;
    expected[0xA1] = 0x80;
    expected[0xA2] = 0x80;
    expected[0x12] = 0x80;
    expected[0xA5] = 0x80;
    expected[0x14] = 1;
    assert_eq!(keyboard_state(&held), expected);

    let others = HeldKeys {
        shift: false,
        left_shift: true,
        right_shift: false,
        control: true,
        left_control: false,
        right_control: true,
        menu: false,
        left_menu: true,
        right_menu: false,
        caps_lock: false,
    };
    let mut expected = vec![0u8; 256];
    expected[0xA0] = 0x80;
    expected[0x11] = 0x80;
    expected[0xA3] = 0x80;
    expected[0xA4] = 0x80;
    assert_eq!(keyboard_state(&others), expected);
}

#[test]
fn dead_keys_are_marked_by_the_highest_bit() {
    assert!(is_dead_key_mapping(0x8000_005E));
    assert!(is_dead_key_mapping(0x8000_0000));
    assert!(!is_dead_key_mapping(0x7FFF_FFFF));
    assert!(!is_dead_key_mapping(0x41));
    assert!(!is_dead_key_mapping(0));
}

#[test]
fn translation_gives_the_character() {
    assert_eq!(char_from_translation(1, 0x61), KeyChar::Char('a'));
    assert_eq!(char_from_translation(2, 0xE9), KeyChar::Char('\u{e9}'));
    assert_eq!(char_from_translation(1, 0xFFFF), KeyChar::Char('\u{ffff}'));
    assert_eq!(char_from_translation(0, 0x61), KeyChar::Nothing);
    assert_eq!(char_from_translation(-1, 0x7E), KeyChar::DeadKey);
    // Half of a surrogate pair is no character.
    assert_eq!(char_from_translation(2, 0xD83D), KeyChar::Nothing);
    assert_eq!(char_from_translation(1, 0xDFFF), KeyChar::Nothing);
    assert_eq!(char_from_translation(1, 0xD7FF), KeyChar::Char('\u{d7ff}'));
    assert_eq!(char_from_translation(1, 0xE000), KeyChar::Char('\u{e000}'));
}

#[test]
fn hook_events_are_classified() {
    assert_eq!(hook_event(0x0100, 0), HookEvent::KeyDown);
    assert_eq!(hook_event(0x0104, 0x20), HookEvent::KeyDown);
    assert_eq!(hook_event(0x0101, 0x80), HookEvent::KeyUp);
    assert_eq!(hook_event(0x0105, 0x80), HookEvent::KeyUp);
    assert_eq!(hook_event(0x0102, 0), HookEvent::Ignored);
    assert_eq!(hook_event(0x0100, 0x10), HookEvent::Ignored);
    assert_eq!(hook_event(0x0101, 0x90), HookEvent::Ignored);
}

#[test]
fn text_is_encoded_as_utf16() {
    for text in ["", "pls", "\u{e9}t\u{e9}", "\u{1f600}", "a\u{10000}b\u{10ffff}", "\u{ffff}\u{d7ff}"] {
        let expected: Vec<u16> = text.encode_utf16().collect();
        assert_eq!(encode_utf16(text), expected);
    }
    assert_eq!(encode_utf16("\u{1f600}"), vec![0xD83D, 0xDE00]);
}

#[test]
fn wide_strings_end_in_zero() {
    assert_eq!(to_wide(""), vec![0]);
    assert_eq!(to_wide("ab"), vec![0x61, 0x62, 0]);
}
