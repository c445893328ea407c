use textpander::settings::{
    boundary_chars_from_settings, default_boundary_characters, default_true, load_settings,
    settings_characters, AppSettings, SettingsFile, DEFAULT_SETTINGS,
};

fn settings_with(characters: &[&str]) -> AppSettings {
    AppSettings {
        enabled: false,
        show_tray_icon: false,
        start_on_login: true,
        characters: characters.iter().map(|s| s.to_string()).collect(),
    }
}

#[test]
fn defaults_are_on_with_the_space_as_boundary() {
    let settings = AppSettings::default();
    assert!(settings.enabled);
    assert!(settings.show_tray_icon);
    assert!(!settings.start_on_login);
    assert_eq!(settings.characters, vec![" ".to_string()]);
    assert!(default_true());
    assert_eq!(default_boundary_characters(), vec![" ".to_string()]);
}

#[test]
fn boundary_characters_are_the_first_of_each_entry() {
    let settings = settings_with(&[" ", "", ",;", "\u{20ac}", ")"]);
    assert_eq!(boundary_chars_from_settings(&settings), vec![' ', ',', '\u{20ac}', ')']);
    assert_eq!(boundary_chars_from_settings(&settings_with(&[])), Vec::<char>::new());
    assert_eq!(boundary_chars_from_settings(&settings_with(&["", ""])), Vec::<char>::new());
}

#[test]
fn boundary_chars_round_trip() {
    let chars = vec![' ', ',', '"', '\n', '\u{1f600}'];
    let settings = AppSettings {
        enabled: true,
        show_tray_icon: true,
        start_on_login: false,
        characters: settings_characters(&chars),
    };
    assert_eq!(boundary_chars_from_settings(&settings), chars);
}

#[test]
fn parsed_settings_are_taken_over() {
    let loaded = load_settings(SettingsFile::Parsed(settings_with(&[",", "."])));
    assert_eq!(loaded.warning, None);
    assert!(!loaded.settings.enabled);
    assert!(!loaded.settings.show_tray_icon);
    assert!(loaded.settings.start_on_login);
    assert_eq!(loaded.settings.characters, vec![",".to_string(), ".".to_string()]);
}

#[test]
fn invalid_settings_fall_back_with_a_warning() {
    let loaded = load_settings(SettingsFile::Invalid("expected value at line 1 column 1".to_string()));
    assert_eq!(
        loaded.warning,
        Some(
            "config.json is not valid JSON:\nexpected value at line 1 column 1\n\nUsing default settings until this is fixed."
                .to_string()
        )
    );
    assert!(loaded.settings.enabled);
    assert!(!loaded.settings.start_on_login);
    assert_eq!(loaded.settings.characters, vec![" ".to_string()]);
}

#[test]
fn unreadable_settings_fall_back_with_a_warning() {
    let loaded = load_settings(SettingsFile::Unreadable("access denied".to_string()));
    assert_eq!(
        loaded.warning,
        Some("Could not read config.json:\naccess denied".to_string())
    );
    assert!(loaded.settings.show_tray_icon);
    assert_eq!(loaded.settings.characters, vec![" ".to_string()]);
}

#[test]
fn default_settings_are_laid_out_for_editing() {
    assert_eq!(
        DEFAULT_SETTINGS,
        r#"{
    "enabled": true,
    "show_tray_icon": true,
    "start_on_login": false,
    "characters": [" ", ",", ".", ";", ":", "!", "?", ")", "\"", "\n"]
}
"#
    );
}

#[test]
fn default_settings_list_ten_boundary_characters() {
    let value: serde_json::Value = serde_json::from_str(DEFAULT_SETTINGS).unwrap();
    let characters: Vec<String> = value["characters"]
        .as_array()
        .unwrap()
        .iter()
        .map(|entry| entry.as_str().unwrap().to_string())
        .collect();
    let settings = AppSettings {
        enabled: value["enabled"].as_bool().unwrap(),
        show_tray_icon: value["show_tray_icon"].as_bool().unwrap(),
        start_on_login: value["start_on_login"].as_bool().unwrap(),
        characters,
    };
    assert!(settings.enabled && settings.show_tray_icon && !settings.start_on_login);
    assert_eq!(
        boundary_chars_from_settings(&settings),
        vec![' ', ',', '.', ';', ':', '!', '?', ')', '"', '\n']
    );
}
