use textpander::replacements::{
    lowercase_keys, load_replacements, settle_replacements, DEFAULT_REPLACEMENTS,
};
use textpander::{expand, load_config_map, ConfigError, StringHashMap};

fn pair(key: &str, value: &str) -> (String, String) {
    (key.to_string(), value.to_string())
}

#[test]
fn uppercase_keys_are_found_in_lower_case() {
    let map = load_config_map(r#"{ "PLS": "please", "Btw": "by the way" }"#).unwrap();
    assert_eq!(map.len(), 2);
    assert_eq!(map.get("pls"), Some(&"please".to_string()));
    assert_eq!(map.get("btw"), Some(&"by the way".to_string()));
    assert_eq!(map.get("PLS"), None);
    assert_eq!(expand(&map, "PLS"), Some("PLEASE".to_string()));
}

#[test]
fn keys_outside_ascii_are_lowered() {
    let map = load_config_map("{ \"\u{c9}T\": \"summer\" }").unwrap();
    assert_eq!(map.get("\u{e9}t"), Some(&"summer".to_string()));
}

#[test]
fn empty_object_has_no_replacements() {
    let map = load_config_map("{}").unwrap();
    assert!(map.is_empty());
}

#[test]
fn repeated_key_keeps_its_last_value() {
    let map = load_config_map(r#"{ "a": "first", "a": "second" }"#).unwrap();
    assert_eq!(map.len(), 1);
    assert_eq!(map.get("a"), Some(&"second".to_string()));
}

#[test]
fn keys_that_differ_in_case_keep_one_of_the_values() {
    let map = load_config_map(r#"{ "a": "first", "A": "second" }"#).unwrap();
    assert_eq!(map.len(), 1);
    let value = map.get("a").unwrap();
    assert!(value == "first" || value == "second");
}

#[test]
fn malformed_json_is_an_error() {
    match load_config_map("{ \"pls\": ") {
        Ok(_) => panic!("accepted"),
        Err(e) => assert_eq!(e.message, "EOF while parsing a value at line 1 column 9"),
    }
}

#[test]
fn values_must_be_strings() {
    match load_config_map(r#"{ "pls": 1 }"#) {
        Ok(_) => panic!("accepted"),
        Err(e) => assert_eq!(
            e.message,
            "invalid type: integer `1`, expected a string at line 1 column 10"
        ),
    }
}

#[test]
fn text_after_the_object_is_an_error() {
    match load_config_map("{} x") {
        Ok(_) => panic!("accepted"),
        Err(e) => assert_eq!(e.message, "trailing characters at line 1 column 4"),
    }
}

#[test]
fn later_pair_wins_when_keys_fall_together() {
    let map = lowercase_keys(vec![pair("Pls", "first"), pair("b", "other"), pair("PLS", "second")]);
    assert_eq!(map.len(), 2);
    assert_eq!(map.get("pls"), Some(&"second".to_string()));
    assert_eq!(map.get("b"), Some(&"other".to_string()));
}

#[test]
fn default_replacements_load() {
    let loaded = load_replacements(Ok(DEFAULT_REPLACEMENTS.to_string()));
    assert_eq!(loaded.warning, None);
    assert_eq!(loaded.map.len(), 4);
    assert_eq!(expand(&loaded.map, "pls"), Some("please".to_string()));
    assert_eq!(expand(&loaded.map, "Btw"), Some("By the way".to_string()));
    assert_eq!(expand(&loaded.map, "THX"), Some("THANKS".to_string()));
    assert_eq!(expand(&loaded.map, "idk"), Some("I don't know".to_string()));
}

#[test]
fn default_replacements_are_laid_out_for_editing() {
    assert_eq!(
        DEFAULT_REPLACEMENTS,
        r#"{
    "pls": "please",
    "btw": "by the way",
    "thx": "thanks",
    "idk": "I don't know"
}
"#
    );
}

#[test]
fn invalid_file_loads_nothing_and_warns() {
    let loaded = load_replacements(Ok("[]".to_string()));
    assert!(loaded.map.is_empty());
    assert_eq!(
        loaded.warning,
        Some(
            "replacements.json is not valid JSON:\ninvalid type: sequence, expected a map at line 1 column 0\n\nNo abbreviations were loaded until this is fixed."
                .to_string()
        )
    );
}

#[test]
fn unreadable_file_loads_nothing_and_warns() {
    let loaded = load_replacements(Err("access denied".to_string()));
    assert!(loaded.map.is_empty());
    assert_eq!(
        loaded.warning,
        Some("Could not read replacements.json:\naccess denied".to_string())
    );
}

#[test]
fn parsed_replacements_are_settled_on() {
    let mut map = StringHashMap::new();
    map.insert("pls".to_string(), "please".to_string());
    let loaded = settle_replacements(Ok(map));
    assert_eq!(loaded.map.get("pls"), Some(&"please".to_string()));
    assert_eq!(loaded.warning, None);

    let loaded = settle_replacements(Err(ConfigError { message: "broken".to_string() }));
    assert!(loaded.map.is_empty());
    assert_eq!(
        loaded.warning,
        Some(
            "replacements.json is not valid JSON:\nbroken\n\nNo abbreviations were loaded until this is fixed."
                .to_string()
        )
    );
}
