//! The application's settings, as they are kept in its configuration file.

use vstd::prelude::*;

use crate::replacements::optional_text;

verus! {

/// The settings that a first run starts with.
pub const DEFAULT_SETTINGS: &'static str = "{
    \"enabled\": true,
    \"show_tray_icon\": true,
    \"start_on_login\": false,
    \"characters\": [\" \", \",\", \".\", \";\", \":\", \"!\", \"?\", \")\", \"\\\"\", \"\\n\"]
}
";

/// The application's settings.
#[derive(Debug)]
pub struct AppSettings {
    /// Whether replacements are active on startup.
    pub enabled: bool,
    /// Whether the tray icon is shown on startup.
    pub show_tray_icon: bool,
    /// Whether the program launches when the user logs in.
    pub start_on_login: bool,
    /// The characters that trigger an expansion attempt when typed. Enter and
    /// Tab always do. Of a longer entry only the first character counts.
    pub characters: Vec<String>,
}

/// What settings say.
#[verifier::ext_equal]
pub struct SettingsText {
    pub enabled: bool,
    pub show_tray_icon: bool,
    pub start_on_login: bool,
    pub characters: Seq<Seq<char>>,
}

impl View for AppSettings {
    type V = SettingsText;

    open spec fn view(&self) -> SettingsText {
        SettingsText {
            enabled: self.enabled,
            show_tray_icon: self.show_tray_icon,
            start_on_login: self.start_on_login,
            characters: self.characters@.map_values(|s: String| s@),
        }
    }
}

/// The settings of a file that leaves everything out: replacements and tray
/// icon on, no start on login, and the space as the only boundary character.
pub open spec fn default_settings() -> SettingsText {
    SettingsText {
        enabled: true,
        show_tray_icon: true,
        start_on_login: false,
        characters: seq![seq![' ']],
    }
}

/// The value of a switch that a settings file leaves out.
pub fn default_true() -> (r: bool)
    ensures
        r,
{
    true
}

/// The boundary characters of a settings file that leaves them out: the space.
pub fn default_boundary_characters() -> (r: Vec<String>)
    ensures
        r@.map_values(|s: String| s@) == seq![seq![' ']],
{
    let mut space = String::new();
    space.push(' ');
    assert(space@ =~= seq![' ']);
    let mut r: Vec<String> = Vec::new();
    r.push(space);
    assert(r@.map_values(|s: String| s@) =~= seq![seq![' ']]);
    r
}

impl Default for AppSettings {
    fn default() -> (r: Self)
        ensures
            r@ == default_settings(),
    {
        AppSettings {
            enabled: true,
            show_tray_icon: true,
            start_on_login: false,
            characters: default_boundary_characters(),
        }
    }
}

/// The first character of each entry that has one, in order.
pub open spec fn first_chars(entries: Seq<Seq<char>>) -> Seq<char> {
    entries.filter(|s: Seq<char>| s.len() > 0).map_values(|s: Seq<char>| s[0])
}

/// Each character as an entry of its own.
pub open spec fn as_entries(chars: Seq<char>) -> Seq<Seq<char>> {
    chars.map_values(|c: char| seq![c])
}

/// Converts the list of strings in the settings into actual characters. Empty
/// strings are skipped; of a longer one only the first character is used.
pub fn boundary_chars_from_settings(settings: &AppSettings) -> (r: Vec<char>)
    ensures
        r@ == first_chars(settings@.characters),
{
    let ghost entries = settings@.characters;
    let ghost nonempty = |s: Seq<char>| s.len() > 0;
    let ghost head = |s: Seq<char>| s[0];
    let mut r: Vec<char> = Vec::new();
    let mut i: usize = 0;
    proof {
        reveal(Seq::filter);
        assert(r@ =~= entries.take(0).filter(nonempty).map_values(head));
    }
    while i < settings.characters.len()
        invariant
            i <= settings.characters@.len(),
            entries == settings@.characters,
            nonempty == (|s: Seq<char>| s.len() > 0),
            head == (|s: Seq<char>| s[0]),
            r@ == entries.take(i as int).filter(nonempty).map_values(head),
        decreases settings.characters@.len() - i,
    {
        let entry: &str = settings.characters[i].as_str();
        proof {
            reveal(Seq::filter);
            assert(entries.take(i + 1).drop_last() =~= entries.take(i as int));
            assert(entries[i as int] == entry@);
        }
        if !entry.is_empty() {
            r.push(entry.get_char(0));
        }
        i += 1;
        assert(r@ =~= entries.take(i as int).filter(nonempty).map_values(head));
    }
    assert(entries.take(entries.len() as int) =~= entries);
    r
}

/// Each character as a string of its own, the way the settings list them.
pub fn settings_characters(chars: &Vec<char>) -> (r: Vec<String>)
    ensures
        r@.map_values(|s: String| s@) == as_entries(chars@),
{
    let mut r: Vec<String> = Vec::new();
    let mut i: usize = 0;
    while i < chars.len()
        invariant
            i <= chars@.len(),
            r@.map_values(|s: String| s@) == as_entries(chars@.take(i as int)),
        decreases chars@.len() - i,
    {
        let mut entry = String::new();
        entry.push(chars[i]);
        assert(entry@ =~= seq![chars@[i as int]]);
        let ghost before = r@;
        r.push(entry);
        i += 1;
        assert(r@.map_values(|s: String| s@) =~= before.map_values(|s: String| s@).push(entry@));
        assert(as_entries(chars@.take(i as int)) =~= as_entries(chars@.take(i - 1)).push(entry@));
    }
    assert(chars@.take(chars@.len() as int) =~= chars@);
    r
}

/// What reading the settings file gave.
pub enum SettingsFile {
    /// It holds these settings.
    Parsed(AppSettings),
    /// It is not valid JSON, for this reason.
    Invalid(String),
    /// It could not be read, for this reason.
    Unreadable(String),
}

/// The settings that are in effect after loading, and what to tell the user if
/// loading failed.
pub struct LoadedSettings {
    pub settings: AppSettings,
    pub warning: Option<String>,
}

/// What to tell the user where the settings are not valid JSON.
pub open spec fn invalid_settings_warning(message: Seq<char>) -> Seq<char> {
    "config.json is not valid JSON:\n"@ + message
        + "\n\nUsing default settings until this is fixed."@
}

/// What to tell the user where the settings cannot be read.
pub open spec fn unreadable_settings_warning(error: Seq<char>) -> Seq<char> {
    "Could not read config.json:\n"@ + error
}

/// Settles on the settings of the file, or on the default ones with a warning.
pub fn load_settings(file: SettingsFile) -> (r: LoadedSettings)
    ensures
        file matches SettingsFile::Parsed(settings) ==> r.settings == settings && r.warning is None,
        file matches SettingsFile::Invalid(message) ==> {
            &&& r.settings@ == default_settings()
            &&& optional_text(r.warning) == Some(invalid_settings_warning(message@))
        },
        file matches SettingsFile::Unreadable(error) ==> {
            &&& r.settings@ == default_settings()
            &&& optional_text(r.warning) == Some(unreadable_settings_warning(error@))
        },
{
    match file {
        SettingsFile::Parsed(settings) => LoadedSettings { settings, warning: None },
        SettingsFile::Invalid(message) => {
            let mut warning = "config.json is not valid JSON:\n".to_string();
            warning.append(message.as_str());
            warning.append("\n\nUsing default settings until this is fixed.");
            LoadedSettings { settings: AppSettings::default(), warning: Some(warning) }
        },
        SettingsFile::Unreadable(error) => {
            let mut warning = "Could not read config.json:\n".to_string();
            warning.append(error.as_str());
            LoadedSettings { settings: AppSettings::default(), warning: Some(warning) }
        },
    }
}

/// The boundary characters of two lists side by side are those of the one and
/// then those of the other; an entry alone gives its first character, or nothing
/// where it is empty.
pub proof fn first_chars_entry_by_entry(a: Seq<Seq<char>>, entry: Seq<char>, b: Seq<Seq<char>>)
    ensures
        first_chars(Seq::empty()) == Seq::<char>::empty(),
        entry.len() == 0 ==> first_chars(seq![entry]) == Seq::<char>::empty(),
        entry.len() > 0 ==> first_chars(seq![entry]) == seq![entry[0]],
        first_chars(a + b) == first_chars(a) + first_chars(b),
{
    reveal(Seq::filter);
    let nonempty = |s: Seq<char>| s.len() > 0;
    let none = Seq::<Seq<char>>::empty();
    assert(first_chars(none) =~= Seq::<char>::empty());
    assert(seq![entry].drop_last() =~= none);
    assert(seq![entry].drop_last().filter(nonempty) =~= none);
    if entry.len() > 0 {
        assert(first_chars(seq![entry]) =~= seq![entry[0]]);
    } else {
        assert(first_chars(seq![entry]) =~= Seq::<char>::empty());
    }
    Seq::filter_distributes_over_add(a, b, nonempty);
    assert(first_chars(a + b) =~= first_chars(a) + first_chars(b));
}

/// A character is a boundary character exactly where some entry starts with it.
pub proof fn first_chars_of_entries(entries: Seq<Seq<char>>, c: char)
    ensures
        first_chars(entries).contains(c) <==> exists|i: int|
            0 <= i < entries.len() && (#[trigger] entries[i]).len() > 0 && entries[i][0] == c,
    decreases entries.len(),
{
    let first = first_chars(entries);
    if entries.len() == 0 {
        first_chars_entry_by_entry(entries, Seq::empty(), entries);
        assert(entries =~= Seq::empty());
    } else {
        let (rest, last) = (entries.drop_last(), entries.last());
        first_chars_of_entries(rest, c);
        first_chars_entry_by_entry(rest, last, seq![last]);
        assert(rest + seq![last] =~= entries);
        let before = first_chars(rest);
        let tail = first_chars(seq![last]);
        assert(first == before + tail);
        if before.contains(c) {
            let j = choose|j: int| 0 <= j < before.len() && before[j] == c;
            assert(first[j] == c);
            let i = choose|i: int|
                0 <= i < rest.len() && (#[trigger] rest[i]).len() > 0 && rest[i][0] == c;
            assert(entries[i] == rest[i]);
        }
        if last.len() > 0 && last[0] == c {
            assert(first[before.len() as int] == c);
            assert(entries[entries.len() - 1] == last);
        }
        if first.contains(c) && !before.contains(c) {
            let j = choose|j: int| 0 <= j < first.len() && first[j] == c;
            if j < before.len() {
                assert(before[j] == c);
            }
            assert(tail[j - before.len()] == c);
            assert(entries[entries.len() - 1] == last);
        }
        if exists|i: int|
            0 <= i < entries.len() && (#[trigger] entries[i]).len() > 0 && entries[i][0] == c {
            let i = choose|i: int|
                0 <= i < entries.len() && (#[trigger] entries[i]).len() > 0 && entries[i][0] == c;
            if i < rest.len() {
                assert(rest[i] == entries[i]);
                let j = choose|j: int| 0 <= j < before.len() && before[j] == c;
                assert(first[j] == c);
            }
        }
    }
}

/// Each character stands alone in its entry, in order.
pub proof fn entries_hold_one_character_each(chars: Seq<char>, i: int)
    ensures
        as_entries(chars).len() == chars.len(),
        0 <= i < chars.len() ==> as_entries(chars)[i].len() == 1 && as_entries(chars)[i][0]
            == chars[i],
{
}

/// The default settings switch replacements and the tray icon on, launching at
/// login off, and make the space the one boundary character.
pub proof fn default_settings_in_words(c: char)
    ensures
        default_settings().enabled,
        default_settings().show_tray_icon,
        !default_settings().start_on_login,
        first_chars(default_settings().characters).contains(c) <==> c == ' ',
{
    first_chars_entry_by_entry(Seq::empty(), seq![' '], Seq::empty());
    assert(first_chars(seq![seq![' ']]) == seq![' ']);
    assert(seq![' '][0] == ' ');
}

/// Boundary characters survive being written to the settings and read back.
pub proof fn boundary_chars_round_trip(chars: Seq<char>)
    ensures
        first_chars(as_entries(chars)) == chars,
    decreases chars.len(),
{
    reveal(Seq::filter);
    let nonempty = |s: Seq<char>| s.len() > 0;
    let head = |s: Seq<char>| s[0];
    let entries = as_entries(chars);
    if chars.len() > 0 {
        boundary_chars_round_trip(chars.drop_last());
        assert(entries.drop_last() =~= as_entries(chars.drop_last()));
        assert(entries.last() == seq![chars.last()]);
        assert(entries.filter(nonempty) == entries.drop_last().filter(nonempty).push(
            entries.last(),
        ));
        assert(first_chars(entries) =~= first_chars(entries.drop_last()).push(chars.last()));
        assert(chars =~= chars.drop_last().push(chars.last()));
    } else {
        assert(first_chars(entries) =~= chars);
    }
}

} // verus!
