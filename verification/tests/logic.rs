use textpander::{
    apply_case, detect_case, expand, load_config_map, CaseStyle, StringHashMap,
};

fn sample_map() -> StringHashMap<String> {
    let mut m = StringHashMap::new();
    m.insert("pls".to_string(), "please".to_string());
    m.insert("btw".to_string(), "by the way".to_string());
    m
}

#[test]
fn lower_case() {
    let m = sample_map();
    assert_eq!(expand(&m, "pls"), Some("please".to_string()));
}

#[test]
fn capitalized() {
    let m = sample_map();
    assert_eq!(expand(&m, "Pls"), Some("Please".to_string()));
}

#[test]
fn all_upper() {
    let m = sample_map();
    assert_eq!(expand(&m, "PLS"), Some("PLEASE".to_string()));
}

#[test]
fn no_match_returns_none() {
    let m = sample_map();
    assert_eq!(expand(&m, "xyz"), None);
}

#[test]
fn mixed_case_falls_back_to_lower_output() {
    let m = sample_map();
    assert_eq!(expand(&m, "pLs"), Some("please".to_string()));
}

#[test]
fn multi_word_expansion_capitalized() {
    let m = sample_map();
    assert_eq!(expand(&m, "Btw"), Some("By the way".to_string()));
}

#[test]
fn multi_word_expansion_all_upper() {
    let m = sample_map();
    assert_eq!(expand(&m, "BTW"), Some("BY THE WAY".to_string()));
}

#[test]
fn config_parsing_lowercases_keys() {
    let json = r#"{ "pls": "please" }"#;
    let map = load_config_map(json).unwrap();
    assert_eq!(map.get("pls"), Some(&"please".to_string()));
}

#[test]
fn case_is_detected_from_the_letters_alone() {
    assert_eq!(detect_case("pls"), CaseStyle::Lower);
    assert_eq!(detect_case("Pls"), CaseStyle::Capitalized);
    assert_eq!(detect_case("PLS"), CaseStyle::Upper);
    assert_eq!(detect_case("pLs"), CaseStyle::Mixed);
    assert_eq!(detect_case("PlS"), CaseStyle::Mixed);
    assert_eq!(detect_case("1p-l.s"), CaseStyle::Lower);
    assert_eq!(detect_case("1P-l.s"), CaseStyle::Capitalized);
    assert_eq!(detect_case("1P-L.S"), CaseStyle::Upper);
}

#[test]
fn word_without_letters_is_mixed() {
    assert_eq!(detect_case(""), CaseStyle::Mixed);
    assert_eq!(detect_case("12:30"), CaseStyle::Mixed);
}

#[test]
fn single_capital_letter_is_upper() {
    assert_eq!(detect_case("P"), CaseStyle::Upper);
    assert_eq!(detect_case("p"), CaseStyle::Lower);
}

#[test]
fn letters_outside_ascii_have_a_case() {
    assert_eq!(detect_case("\u{e9}t\u{e9}"), CaseStyle::Lower);
    assert_eq!(detect_case("\u{c9}t\u{e9}"), CaseStyle::Capitalized);
    assert_eq!(detect_case("\u{c9}T\u{c9}"), CaseStyle::Upper);
    // A letter that has no case.
    assert_eq!(detect_case("\u{4e2d}"), CaseStyle::Mixed);
}

#[test]
fn case_is_applied() {
    assert_eq!(apply_case("by the way", &CaseStyle::Upper), "BY THE WAY");
    assert_eq!(apply_case("by the way", &CaseStyle::Capitalized), "By the way");
    assert_eq!(apply_case("by the Way", &CaseStyle::Lower), "by the Way");
    assert_eq!(apply_case("by the Way", &CaseStyle::Mixed), "by the Way");
    assert_eq!(apply_case("", &CaseStyle::Capitalized), "");
    assert_eq!(apply_case("", &CaseStyle::Upper), "");
    assert_eq!(apply_case("1st", &CaseStyle::Capitalized), "1st");
}

#[test]
fn case_is_applied_outside_ascii() {
    assert_eq!(apply_case("\u{e9}t\u{e9}", &CaseStyle::Capitalized), "\u{c9}t\u{e9}");
    assert_eq!(apply_case("\u{e9}t\u{e9}", &CaseStyle::Upper), "\u{c9}T\u{c9}");
    // A character whose uppercase mapping is two characters long.
    assert_eq!(apply_case("\u{df}a", &CaseStyle::Capitalized), "SSa");
    assert_eq!(apply_case("stra\u{df}e", &CaseStyle::Upper), "STRASSE");
}

#[test]
fn expansion_follows_the_typed_case() {
    let mut m = StringHashMap::new();
    m.insert("l8r".to_string(), "see you later".to_string());
    assert_eq!(expand(&m, "l8r"), Some("see you later".to_string()));
    assert_eq!(expand(&m, "L8r"), Some("See you later".to_string()));
    assert_eq!(expand(&m, "L8R"), Some("SEE YOU LATER".to_string()));
    assert_eq!(expand(&m, "l8R"), Some("see you later".to_string()));
}

#[test]
fn lookup_ignores_case_outside_ascii() {
    let mut m = StringHashMap::new();
    m.insert("\u{e9}t".to_string(), "\u{e9}t\u{e9}".to_string());
    assert_eq!(expand(&m, "\u{c9}T"), Some("\u{c9}T\u{c9}".to_string()));
    assert_eq!(expand(&m, "\u{c9}t"), Some("\u{c9}t\u{e9}".to_string()));
}
