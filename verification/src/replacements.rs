//! The abbreviations and what they stand for: reading them from JSON and
//! expanding a typed word.

use std::collections::HashMap;

use vstd::hash_map::StringHashMap;
use vstd::prelude::*;

use crate::case::{apply_case, case_of, detect_case, in_case};
use crate::text::to_lower;

verus! {

/// The abbreviations that a first run starts with.
pub const DEFAULT_REPLACEMENTS: &'static str = "{
    \"pls\": \"please\",
    \"btw\": \"by the way\",
    \"thx\": \"thanks\",
    \"idk\": \"I don't know\"
}
";

/// Why the replacements could not be read.
#[derive(Debug)]
pub struct ConfigError {
    pub message: String,
}

/// The replacements that are in effect after loading, and what to tell the
/// user if loading failed.
pub struct LoadedReplacements {
    pub map: StringHashMap<String>,
    pub warning: Option<String>,
}

/// The texts of a map of strings.
pub open spec fn texts(m: Map<Seq<char>, String>) -> Map<Seq<char>, Seq<char>> {
    m.map_values(|s: String| s@)
}

/// The text of an optional string.
pub open spec fn optional_text(s: Option<String>) -> Option<Seq<char>> {
    match s {
        Some(s) => Some(s@),
        None => None,
    }
}

/// What reading a JSON text as an object of strings gives: its entries, where a
/// repeated key keeps its last value, or the error message.
pub uninterp spec fn json_string_object(text: Seq<char>) -> Result<
    Map<Seq<char>, Seq<char>>,
    Seq<char>,
>;

/// The pairs are the entries of the map, each once, in some order.
pub open spec fn lists_entries(
    pairs: Seq<(String, String)>,
    m: Map<Seq<char>, Seq<char>>,
) -> bool {
    &&& forall|i: int, j: int|
        0 <= i < j < pairs.len() ==> (#[trigger] pairs[i]).0@ != (#[trigger] pairs[j]).0@
    &&& forall|i: int|
        0 <= i < pairs.len() ==> m.contains_key((#[trigger] pairs[i]).0@) && m[pairs[i].0@]
            == pairs[i].1@
    &&& forall|k: Seq<char>| #[trigger]
        m.contains_key(k) ==> exists|i: int|
            0 <= i < pairs.len() && (#[trigger] pairs[i]).0@ == k
}

/// `serde_json::from_str`, asked for a map from strings to strings. The outcome
/// depends on the text alone: the entries of the JSON object, or the text of
/// the error. The order in which the entries come is that of a hash map's walk
/// and is left open.
#[verifier::external_body]
fn parse_string_object(json_text: &str) -> (r: Result<Vec<(String, String)>, String>)
    ensures
        r is Ok == json_string_object(json_text@) is Ok,
        r is Ok ==> lists_entries(r->Ok_0@, json_string_object(json_text@)->Ok_0),
        r is Err ==> r->Err_0@ == json_string_object(json_text@)->Err_0,
{
    match serde_json::from_str::<HashMap<String, String>>(json_text) {
        Ok(map) => Ok(map.into_iter().collect()),
        Err(error) => Err(error.to_string()),
    }
}

/// The pairs as a map under lowercase keys; of two keys that differ only in
/// case, the later one stays.
pub open spec fn lowercased_entries(pairs: Seq<(String, String)>) -> Map<Seq<char>, Seq<char>>
    decreases pairs.len(),
{
    if pairs.len() == 0 {
        Map::empty()
    } else {
        lowercased_entries(pairs.drop_last()).insert(to_lower(pairs.last().0@), pairs.last().1@)
    }
}

/// `low` holds the entries of `raw` under lowercase keys: every key of `raw` is
/// found in lower case, and every entry of `low` stems from one of `raw`.
pub open spec fn keys_lowered(
    raw: Map<Seq<char>, Seq<char>>,
    low: Map<Seq<char>, Seq<char>>,
) -> bool {
    &&& forall|k: Seq<char>| #[trigger]
        raw.contains_key(k) ==> low.contains_key(to_lower(k))
    &&& forall|k: Seq<char>| #[trigger] low.contains_key(k) ==> stems_from(raw, k, low[k])
}

/// The raw map gives `value` under a key whose lowercase form is `key`.
pub open spec fn stems_from(
    raw: Map<Seq<char>, Seq<char>>,
    key: Seq<char>,
    value: Seq<char>,
) -> bool {
    exists|k: Seq<char>| #[trigger]
        raw.contains_key(k) && to_lower(k) == key && raw[k] == value
}

/// Brings all keys to lower case.
pub fn lowercase_keys(pairs: Vec<(String, String)>) -> (r: StringHashMap<String>)
    ensures
        texts(r@) == lowercased_entries(pairs@),
{
    let mut map: StringHashMap<String> = StringHashMap::with_capacity(pairs.len());
    let mut i: usize = 0;
    assert(texts(map@) =~= Map::empty());
    while i < pairs.len()
        invariant
            0 <= i <= pairs@.len(),
            texts(map@) == lowercased_entries(pairs@.take(i as int)),
        decreases pairs@.len() - i,
    {
        let ghost before = map@;
        let value = pairs[i].1.clone();
        map.insert(pairs[i].0.to_lowercase(), value);
        proof {
            let p = pairs@[i as int];
            assert(pairs@.take(i + 1).drop_last() =~= pairs@.take(i as int));
            assert(texts(map@) =~= texts(before).insert(to_lower(p.0@), p.1@));
        }
        i += 1;
    }
    assert(pairs@.take(pairs@.len() as int) =~= pairs@);
    map
}

proof fn lowercased_entries_are_lowered(
    pairs: Seq<(String, String)>,
    raw: Map<Seq<char>, Seq<char>>,
    n: int,
)
    requires
        lists_entries(pairs, raw),
        0 <= n <= pairs.len(),
    ensures
        forall|i: int|
            0 <= i < n ==> #[trigger] lowercased_entries(pairs.take(n)).contains_key(
                to_lower(pairs[i].0@),
            ),
        forall|k: Seq<char>| #[trigger]
            lowercased_entries(pairs.take(n)).contains_key(k) ==> stems_from(
                raw,
                k,
                lowercased_entries(pairs.take(n))[k],
            ),
    decreases n,
{
    if n > 0 {
        lowercased_entries_are_lowered(pairs, raw, n - 1);
        let before = lowercased_entries(pairs.take(n - 1));
        let after = lowercased_entries(pairs.take(n));
        let (key, value) = (pairs[n - 1].0@, pairs[n - 1].1@);
        assert(pairs.take(n).drop_last() =~= pairs.take(n - 1));
        assert(after == before.insert(to_lower(key), value));
        assert forall|i: int| 0 <= i < n implies #[trigger] after.contains_key(
            to_lower(pairs[i].0@),
        ) by {
            if i < n - 1 {
                assert(before.contains_key(to_lower(pairs[i].0@)));
            }
        }
        assert(raw.contains_key(key) && raw[key] == value);
        assert(stems_from(raw, to_lower(key), value));
        assert forall|k: Seq<char>| #[trigger] after.contains_key(k) implies stems_from(
            raw,
            k,
            after[k],
        ) by {
            if k != to_lower(key) {
                assert(before.contains_key(k));
            }
        }
    }
}

/// Parses the replacements file into a map from lowercase abbreviation to
/// expansion.
pub fn load_config_map(json_text: &str) -> (r: Result<StringHashMap<String>, ConfigError>)
    ensures
        r is Ok == json_string_object(json_text@) is Ok,
        r is Ok ==> keys_lowered(json_string_object(json_text@)->Ok_0, texts(r->Ok_0@)),
        r is Err ==> r->Err_0.message@ == json_string_object(json_text@)->Err_0,
{
    match parse_string_object(json_text) {
        Ok(pairs) => {
            proof {
                let raw = json_string_object(json_text@)->Ok_0;
                lowercased_entries_are_lowered(pairs@, raw, pairs@.len() as int);
                assert(pairs@.take(pairs@.len() as int) =~= pairs@);
                assert forall|k: Seq<char>| #[trigger] raw.contains_key(k) implies
                    lowercased_entries(pairs@).contains_key(to_lower(k)) by {
                    let i = choose|i: int|
                        0 <= i < pairs@.len() && (#[trigger] pairs@[i]).0@ == k;
                    assert(lowercased_entries(pairs@).contains_key(to_lower(pairs@[i].0@)));
                }
            }
            Ok(lowercase_keys(pairs))
        },
        Err(message) => Err(ConfigError { message }),
    }
}

/// What to tell the user where the replacements are not valid JSON.
pub open spec fn invalid_replacements_warning(message: Seq<char>) -> Seq<char> {
    "replacements.json is not valid JSON:\n"@ + message
        + "\n\nNo abbreviations were loaded until this is fixed."@
}

/// What to tell the user where the replacements cannot be read.
pub open spec fn unreadable_replacements_warning(error: Seq<char>) -> Seq<char> {
    "Could not read replacements.json:\n"@ + error
}

/// Settles on the parsed replacements, or on none at all with a warning.
pub fn settle_replacements(parsed: Result<StringHashMap<String>, ConfigError>) -> (r:
    LoadedReplacements)
    ensures
        parsed matches Ok(map) ==> r.map == map && r.warning is None,
        parsed matches Err(e) ==> {
            &&& texts(r.map@) == Map::<Seq<char>, Seq<char>>::empty()
            &&& optional_text(r.warning) == Some(invalid_replacements_warning(e.message@))
        },
{
    match parsed {
        Ok(map) => LoadedReplacements { map, warning: None },
        Err(e) => {
            let mut warning = "replacements.json is not valid JSON:\n".to_string();
            warning.append(e.message.as_str());
            warning.append("\n\nNo abbreviations were loaded until this is fixed.");
            let map: StringHashMap<String> = StringHashMap::new();
            assert(texts(map@) =~= Map::empty());
            LoadedReplacements { map, warning: Some(warning) }
        },
    }
}

/// Loads the replacements from what reading their file gave: the text, or the
/// reason why there is none.
pub fn load_replacements(file: Result<String, String>) -> (r: LoadedReplacements)
    ensures
        file matches Ok(text) ==> match json_string_object(text@) {
            Ok(raw) => keys_lowered(raw, texts(r.map@)) && r.warning is None,
            Err(message) => {
                &&& texts(r.map@) == Map::<Seq<char>, Seq<char>>::empty()
                &&& optional_text(r.warning) == Some(invalid_replacements_warning(message))
            },
        },
        file matches Err(error) ==> {
            &&& texts(r.map@) == Map::<Seq<char>, Seq<char>>::empty()
            &&& optional_text(r.warning) == Some(unreadable_replacements_warning(error@))
        },
{
    match file {
        Ok(text) => settle_replacements(load_config_map(text.as_str())),
        Err(error) => {
            let mut warning = "Could not read replacements.json:\n".to_string();
            warning.append(error.as_str());
            let map: StringHashMap<String> = StringHashMap::new();
            assert(texts(map@) =~= Map::empty());
            LoadedReplacements { map, warning: Some(warning) }
        },
    }
}

/// What a typed word expands to: the expansion of its lowercase form, in the
/// casing of the word as it was typed.
pub open spec fn expansion_of(m: Map<Seq<char>, Seq<char>>, word: Seq<char>) -> Option<
    Seq<char>,
> {
    if m.contains_key(to_lower(word)) {
        Some(in_case(m[to_lower(word)], case_of(word)))
    } else {
        None
    }
}

/// Given the map and a typed word (in whatever case the user typed it), returns
/// the correctly cased replacement, or `None` if no abbreviation matches.
pub fn expand(map: &StringHashMap<String>, typed_word: &str) -> (r: Option<String>)
    ensures
        optional_text(r) == expansion_of(texts(map@), typed_word@),
{
    match map.get(typed_word.to_lowercase().as_str()) {
        Some(base) => {
            let style = detect_case(typed_word);
            Some(apply_case(base.as_str(), &style))
        },
        None => None,
    }
}

} // verus!
