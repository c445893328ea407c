use textpander::shell::{
    already_running, icon_load_flags, login_entry, tray_menu, tray_tip, wide_byte_len,
    window_action, LoginEntry, MenuEntry, WindowAction, ID_ABOUT, ID_EXIT, ID_HIDE_TRAY,
    ID_OPEN_CONFIG, ID_OPEN_SETTINGS, ID_RELOAD, ID_TOGGLE_ENABLED, ID_TOGGLE_STARTUP,
    LOGIN_VALUE_NAME, MUTEX_NAME, TRAY_TIP, WAKE_MESSAGE_NAME, WM_TRAYICON,
};
use textpander::settings::AppSettings;
use textpander::state::AppState;
use textpander::utf16::to_wide;
use textpander::StringHashMap;

const WAKE: u32 = 0xC123;

fn lines(menu: &Vec<MenuEntry>) -> Vec<(usize, &'static str, bool)> {
    menu.iter()
        .map(|entry| match entry {
            MenuEntry::Command { id, label, checked } => (*id, *label, *checked),
            MenuEntry::Separator => (0, "-", false),
        })
        .collect()
}

#[test]
fn second_launch_is_noticed() {
    assert!(already_running(true, 183));
    assert!(!already_running(false, 183));
    assert!(!already_running(true, 0));
}

#[test]
fn names_are_unique_to_the_program() {
    assert_eq!(MUTEX_NAME, "Local\\Textpander_Alfakynz_Mutex");
    assert_eq!(WAKE_MESSAGE_NAME, "Textpander_Alfakynz_WakeMessage");
    assert_eq!(LOGIN_VALUE_NAME, "Textpander_Alfakynz");
}

#[test]
fn menu_commands_are_handled() {
    for (id, action) in [
        (ID_RELOAD, WindowAction::Reload),
        (ID_OPEN_CONFIG, WindowAction::OpenReplacements),
        (ID_OPEN_SETTINGS, WindowAction::OpenSettings),
        (ID_TOGGLE_STARTUP, WindowAction::ToggleStartOnLogin),
        (ID_TOGGLE_ENABLED, WindowAction::ToggleEnabled),
        (ID_HIDE_TRAY, WindowAction::HideTrayIcon),
        (ID_ABOUT, WindowAction::ShowAbout),
        (ID_EXIT, WindowAction::CloseWindow),
    ] {
        assert_eq!(window_action(0x0111, id, 0, WAKE), action);
        // The high word says where the command came from.
        assert_eq!(window_action(0x0111, id + 0x1_0000, 0, WAKE), action);
    }
    assert_eq!(window_action(0x0111, 1000, 0, WAKE), WindowAction::Handled);
    assert_eq!(window_action(0x0111, 1009, 0, WAKE), WindowAction::Handled);
}

#[test]
fn clicks_on_the_tray_icon_show_the_menu() {
    assert_eq!(WM_TRAYICON, 0x8001);
    assert_eq!(window_action(WM_TRAYICON, 1, 0x0205, WAKE), WindowAction::ShowTrayMenu);
    assert_eq!(window_action(WM_TRAYICON, 1, 0x0202, WAKE), WindowAction::ShowTrayMenu);
    assert_eq!(window_action(WM_TRAYICON, 1, 0x0200, WAKE), WindowAction::Handled);
}

#[test]
fn wake_message_shows_the_tray_icon() {
    assert_eq!(window_action(WAKE, 0, 0, WAKE), WindowAction::ShowTrayIcon);
    // A wake message that could not be registered is zero and matches nothing.
    assert_eq!(window_action(0, 0, 0, 0), WindowAction::Unhandled);
}

#[test]
fn other_messages_are_left_alone() {
    assert_eq!(window_action(0x0002, 0, 0, WAKE), WindowAction::Quit);
    assert_eq!(window_action(0x0001, 0, 0, WAKE), WindowAction::Unhandled);
}

#[test]
fn menu_reflects_the_state() {
    let settings = AppSettings {
        enabled: false,
        show_tray_icon: true,
        start_on_login: true,
        characters: vec![" ".to_string()],
    };
    let state = AppState::new(StringHashMap::new(), &settings);
    assert_eq!(
        lines(&tray_menu(Some(&state))),
        vec![
            (1004, "Enable replacements", false),
            (1005, "Hide tray", false),
            (1007, "Start on login", true),
            (0, "-", false),
            (1001, "Reload replacements", false),
            (1002, "Open replacements.json", false),
            (1006, "Open settings (config.json)", false),
            (0, "-", false),
            (1008, "About", false),
            (0, "-", false),
            (1003, "Exit", false),
        ]
    );
}

#[test]
fn menu_without_a_state_is_that_of_a_fresh_start() {
    let menu = tray_menu(None);
    assert_eq!(lines(&menu)[0], (1004, "Disable replacements", false));
    assert_eq!(lines(&menu)[2], (1007, "Start on login", false));
    assert_eq!(menu.len(), 11);
}

#[test]
fn tip_is_cut_to_the_room_there_is() {
    assert_eq!(tray_tip(128), to_wide(TRAY_TIP));
    assert_eq!(tray_tip(3), vec!['T' as u16, 'e' as u16, 'x' as u16]);
    assert_eq!(tray_tip(38), to_wide("Textpander (abbreviation replacement)"));
    assert_eq!(tray_tip(0), Vec::<u16>::new());
}

#[test]
fn icon_size_defaults_where_none_is_asked_for() {
    assert_eq!(icon_load_flags(0, 0), 0x40);
    assert_eq!(icon_load_flags(16, 16), 0);
    assert_eq!(icon_load_flags(0, 16), 0);
    assert_eq!(icon_load_flags(16, 0), 0);
}

#[test]
fn login_entry_quotes_the_path() {
    match login_entry(true, Some("C:\\Program Files\\t.exe".to_string())) {
        LoginEntry::Write(command) => assert_eq!(command, "\"C:\\Program Files\\t.exe\""),
        other => panic!("{:?}", other),
    }
    assert!(matches!(login_entry(true, None), LoginEntry::Keep));
    assert!(matches!(login_entry(false, Some("t.exe".to_string())), LoginEntry::Delete));
    assert!(matches!(login_entry(false, None), LoginEntry::Delete));
}

#[test]
fn wide_strings_are_measured_in_bytes() {
    assert_eq!(wide_byte_len(&to_wide("abc")), 8);
    assert_eq!(wide_byte_len(&Vec::new()), 0);
}
