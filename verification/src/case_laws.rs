//! What casing and expansion do to the characters of a text, for every text.

use vstd::prelude::*;

use crate::case::{all_lowercase, all_uppercase, case_of, in_case, letters, CaseStyle};
use crate::replacements::{expansion_of, lowercased_entries, optional_text, texts};
use crate::text::{
    all_ascii, alphabetic, ascii, char_to_upper, lowercase, to_lower, unicode_alphabetic,
    unicode_char_to_upper, unicode_lowercase, unicode_to_lower, unicode_to_upper,
    unicode_uppercase, uppercase,
};

verus! {

/// The character has a code below 128.
pub open spec fn in_ascii(c: char) -> bool {
    (c as u32) < 128
}

/// `A` to `Z`, or a character outside ASCII that Unicode calls uppercase.
pub open spec fn is_capital(c: char) -> bool {
    'A' <= c <= 'Z' || (!in_ascii(c) && unicode_uppercase(c))
}

/// `a` to `z`, or a character outside ASCII that Unicode calls lowercase.
pub open spec fn is_small(c: char) -> bool {
    'a' <= c <= 'z' || (!in_ascii(c) && unicode_lowercase(c))
}

/// `a` to `z`, `A` to `Z`, or a character outside ASCII that Unicode calls
/// alphabetic.
pub open spec fn is_letter(c: char) -> bool {
    'a' <= c <= 'z' || 'A' <= c <= 'Z' || (!in_ascii(c) && unicode_alphabetic(c))
}

/// The position holds a letter of the word.
pub open spec fn letter_at(word: Seq<char>, i: int) -> bool {
    0 <= i < word.len() && is_letter(word[i])
}

/// Every letter of the word is a capital.
pub open spec fn letters_are_capital(word: Seq<char>) -> bool {
    forall|i: int| #[trigger] letter_at(word, i) ==> is_capital(word[i])
}

/// Every letter of the word is small.
pub open spec fn letters_are_small(word: Seq<char>) -> bool {
    forall|i: int| #[trigger] letter_at(word, i) ==> is_small(word[i])
}

/// The first letter of the word is a capital, and every later letter is small.
pub open spec fn leads_with_a_capital(word: Seq<char>) -> bool {
    exists|f: int| #[trigger]
        letter_at(word, f) && is_capital(word[f]) && (forall|i: int| #[trigger]
            letter_at(word, i) ==> f <= i) && (forall|i: int| #[trigger]
            letter_at(word, i) && i != f ==> is_small(word[i]))
}

/// The letters of a word, and where each of them stands in it: the positions
/// increase, they hold the letters, and no letter is left out.
proof fn positions_of_letters(word: Seq<char>) -> (at: Seq<int>)
    ensures
        at.len() == letters(word).len(),
        forall|j: int|
            0 <= j < at.len() ==> letter_at(word, #[trigger] at[j]) && letters(word)[j]
                == word[at[j]],
        forall|j: int, k: int| 0 <= j < k < at.len() ==> #[trigger] at[j] < #[trigger] at[k],
        forall|i: int| #[trigger] letter_at(word, i) ==> at.contains(i),
    decreases word.len(),
{
    reveal(Seq::filter);
    if word.len() == 0 {
        Seq::empty()
    } else {
        let rest = word.drop_last();
        let n = word.len() - 1;
        let before = positions_of_letters(rest);
        assert forall|j: int| 0 <= j < before.len() implies letter_at(word, #[trigger] before[j])
            && before[j] < n by {
            assert(letter_at(rest, before[j]));
        }
        assert forall|i: int| #[trigger] letter_at(word, i) && i < n implies before.contains(i) by {
            assert(letter_at(rest, i));
        }
        if is_letter(word.last()) {
            let at = before.push(n);
            assert(alphabetic(word[word.len() - 1]));
            assert(letters(word) == letters(rest).push(word.last()));
            assert forall|i: int| #[trigger] letter_at(word, i) implies at.contains(i) by {
                if i == n {
                    assert(at[before.len() as int] == n);
                } else {
                    let j = choose|j: int| 0 <= j < before.len() && before[j] == i;
                    assert(at[j] == i);
                }
            }
            at
        } else {
            assert(letters(word) == letters(rest));
            assert forall|i: int| #[trigger] letter_at(word, i) implies before.contains(i) by {
                assert(i != n);
            }
            before
        }
    }
}

/// How a word is cased, said of the characters of the word: `Upper` where it has
/// letters and all are capitals; else `Lower` where it has letters and all are
/// small; else `Capitalized` where the first letter is a capital and the later
/// ones are small; else `Mixed`.
pub proof fn case_is_that_of_the_letters(word: Seq<char>)
    ensures
        case_of(word) == CaseStyle::Upper <==> (exists|i: int| letter_at(word, i))
            && letters_are_capital(word),
        case_of(word) == CaseStyle::Lower <==> (exists|i: int| letter_at(word, i))
            && letters_are_small(word) && !letters_are_capital(word),
        case_of(word) == CaseStyle::Capitalized <==> leads_with_a_capital(word)
            && !letters_are_capital(word) && !letters_are_small(word),
        (forall|i: int| !letter_at(word, i)) ==> case_of(word) == CaseStyle::Mixed,
{
    let ls = letters(word);
    let at = positions_of_letters(word);
    assert forall|i: int| #[trigger] letter_at(word, i) implies exists|j: int|
        0 <= j < at.len() && #[trigger] at[j] == i by {
        let j = choose|j: int| 0 <= j < at.len() && at[j] == i;
        assert(at[j] == i);
    }
    if ls.len() > 0 {
        assert(letter_at(word, at[0]));
    }
    assert((exists|i: int| letter_at(word, i)) <==> ls.len() > 0);
    assert(letters_are_capital(word) <==> all_uppercase(ls)) by {
        if letters_are_capital(word) {
            assert forall|j: int| 0 <= j < ls.len() implies uppercase(
                #[trigger] ls[j],
            ) by {
                assert(letter_at(word, at[j]));
            }
        }
        if all_uppercase(ls) {
            assert forall|i: int| #[trigger] letter_at(word, i) implies is_capital(word[i]) by {
                let j = choose|j: int| 0 <= j < at.len() && #[trigger] at[j] == i;
                assert(uppercase(ls[j]));
            }
        }
    }
    assert(letters_are_small(word) <==> all_lowercase(ls)) by {
        if letters_are_small(word) {
            assert forall|j: int| 0 <= j < ls.len() implies lowercase(
                #[trigger] ls[j],
            ) by {
                assert(letter_at(word, at[j]));
            }
        }
        if all_lowercase(ls) {
            assert forall|i: int| #[trigger] letter_at(word, i) implies is_small(word[i]) by {
                let j = choose|j: int| 0 <= j < at.len() && #[trigger] at[j] == i;
                assert(lowercase(ls[j]));
            }
        }
    }
    if ls.len() > 0 {
        let tail = ls.drop_first();
        let f = at[0];
        assert(letter_at(word, f));
        assert forall|i: int| #[trigger] letter_at(word, i) implies f <= i by {
            let j = choose|j: int| 0 <= j < at.len() && #[trigger] at[j] == i;
            if j > 0 {
                assert(at[0] < at[j]);
            }
        }
        if uppercase(ls[0]) && all_lowercase(tail) {
            assert forall|i: int| #[trigger] letter_at(word, i) && i != f implies is_small(
                word[i],
            ) by {
                let j = choose|j: int| 0 <= j < at.len() && #[trigger] at[j] == i;
                assert(lowercase(tail[j - 1]));
            }
            assert(leads_with_a_capital(word));
        }
        if leads_with_a_capital(word) {
            let g = choose|g: int| #[trigger]
                letter_at(word, g) && is_capital(word[g]) && (forall|i: int| #[trigger]
                    letter_at(word, i) ==> g <= i) && (forall|i: int| #[trigger]
                    letter_at(word, i) && i != g ==> is_small(word[i]));
            assert(g == f);
            assert forall|j: int| 0 <= j < tail.len() implies lowercase(
                #[trigger] tail[j],
            ) by {
                assert(at[0] < at[j + 1]);
                assert(letter_at(word, at[j + 1]));
            }
        }
    } else {
        if leads_with_a_capital(word) {
            let g = choose|g: int| #[trigger] letter_at(word, g);
        }
    }
}

/// What is no letter does not bear on the casing: putting it anywhere into a word
/// leaves the casing as it was.
pub proof fn other_characters_do_not_bear_on_the_case(a: Seq<char>, c: char, b: Seq<char>)
    ensures
        !is_letter(c) ==> case_of(a + seq![c] + b) == case_of(a + b),
{
    let pred = |c: char| alphabetic(c);
    Seq::filter_distributes_over_add(a + seq![c], b, pred);
    Seq::filter_distributes_over_add(a, seq![c], pred);
    Seq::filter_distributes_over_add(a, b, pred);
    if !is_letter(c) {
        reveal(Seq::filter);
        assert(seq![c].drop_last().filter(pred) =~= Seq::empty());
        assert(seq![c].filter(pred) =~= Seq::empty());
        assert(letters(a + seq![c] + b) =~= letters(a + b));
    }
}

/// A text is all ASCII or holds a character outside ASCII.
proof fn ascii_or_not(text: Seq<char>)
    ensures
        (forall|j: int| 0 <= j < text.len() ==> in_ascii(#[trigger] text[j])) <==> all_ascii(text),
        (exists|j: int| 0 <= j < text.len() && !in_ascii(#[trigger] text[j])) <==> !all_ascii(text),
{
    if all_ascii(text) {
        assert forall|j: int| 0 <= j < text.len() implies in_ascii(#[trigger] text[j]) by {
            assert(ascii(text[j]));
        }
    } else {
        let j = choose|j: int| 0 <= j < text.len() && !ascii(#[trigger] text[j]);
        assert(!in_ascii(text[j]));
    }
}

/// In upper case an ASCII text keeps its length, `a` to `z` move to the capitals,
/// and every other character stays; any other text becomes what Unicode makes of
/// it as a whole.
pub proof fn upper_case_moves_the_small_letters(text: Seq<char>, i: int)
    ensures
        ({
            let up = in_case(text, CaseStyle::Upper);
            &&& (forall|j: int| 0 <= j < text.len() ==> in_ascii(#[trigger] text[j])) ==> {
                &&& up.len() == text.len()
                &&& 0 <= i < text.len() ==> {
                    &&& 'a' <= text[i] <= 'z' ==> up[i] as u32 == text[i] as u32 - 32
                    &&& !('a' <= text[i] <= 'z') ==> up[i] == text[i]
                }
            }
            &&& (exists|j: int| 0 <= j < text.len() && !in_ascii(#[trigger] text[j])) ==> up
                == unicode_to_upper(text)
        }),
{
    ascii_or_not(text);
}

/// Capitalizing leaves everything after the first character as it is, whatever
/// capitals it has of its own. An ASCII first character goes to upper case and
/// the length stays; any other becomes what Unicode makes of it.
pub proof fn capitalizing_changes_the_first_character_alone(text: Seq<char>, i: int)
    ensures
        ({
            let cap = in_case(text, CaseStyle::Capitalized);
            &&& text.len() == 0 ==> cap.len() == 0
            &&& text.len() > 0 ==> {
                let head = cap.len() - (text.len() - 1);
                &&& head >= 0
                &&& cap.subrange(head, cap.len() as int) == text.subrange(1, text.len() as int)
                &&& in_ascii(text[0]) ==> {
                    &&& cap.len() == text.len()
                    &&& 'a' <= text[0] <= 'z' ==> cap[0] as u32 == text[0] as u32 - 32
                    &&& !('a' <= text[0] <= 'z') ==> cap[0] == text[0]
                    &&& 1 <= i < text.len() ==> cap[i] == text[i]
                }
                &&& !in_ascii(text[0]) ==> cap.take(head) == unicode_char_to_upper(text[0])
            }
        }),
{
    let cap = in_case(text, CaseStyle::Capitalized);
    if text.len() > 0 {
        let head = cap.len() - (text.len() - 1);
        assert(cap.subrange(head, cap.len() as int) =~= text.subrange(1, text.len() as int));
        assert(cap.take(head) =~= char_to_upper(text[0]));
    }
}

/// A word typed in lower case, or in no regular casing, leaves the text alone.
pub proof fn lower_and_mixed_leave_the_text_alone(text: Seq<char>)
    ensures
        in_case(text, CaseStyle::Lower) == text,
        in_case(text, CaseStyle::Mixed) == text,
{
}

/// In lower case an ASCII word keeps its length, `A` to `Z` move to the small
/// letters, and every other character stays; any other word becomes what Unicode
/// makes of it as a whole.
pub proof fn lower_case_moves_the_capitals(word: Seq<char>, i: int)
    ensures
        (forall|j: int| 0 <= j < word.len() ==> in_ascii(#[trigger] word[j])) ==> {
            &&& to_lower(word).len() == word.len()
            &&& 0 <= i < word.len() ==> {
                &&& 'A' <= word[i] <= 'Z' ==> to_lower(word)[i] as u32 == word[i] as u32 + 32
                &&& !('A' <= word[i] <= 'Z') ==> to_lower(word)[i] == word[i]
            }
        },
        (exists|j: int| 0 <= j < word.len() && !in_ascii(#[trigger] word[j])) ==> to_lower(word)
            == unicode_to_lower(word),
{
    ascii_or_not(word);
}

/// The replacements that are looked up are those under the lowercase word: what
/// the map holds elsewhere does not matter, and a word without an entry there
/// expands to nothing.
pub proof fn expansion_depends_on_its_entry_alone(
    m: Map<Seq<char>, Seq<char>>,
    word: Seq<char>,
    key: Seq<char>,
    text: Seq<char>,
)
    ensures
        key != to_lower(word) ==> expansion_of(m.insert(key, text), word) == expansion_of(m, word),
        expansion_of(m.remove(to_lower(word)), word) is None,
        expansion_of(m.insert(to_lower(word), text), word) == Some(in_case(text, case_of(word))),
{
}

/// The texts of a map of strings have its keys, and under each the characters of
/// its string; a string that may be missing has a text exactly where it is there.
pub proof fn texts_are_those_of_the_strings(
    m: Map<Seq<char>, String>,
    key: Seq<char>,
    s: Option<String>,
)
    ensures
        texts(m).contains_key(key) <==> m.contains_key(key),
        m.contains_key(key) ==> texts(m)[key] == m[key]@,
        optional_text(s) is Some <==> s is Some,
        s matches Some(string) ==> optional_text(s) == Some(string@),
{
}

/// Of the pairs whose keys fall together in lower case the last one decides, and
/// a key that no pair has is not there.
pub proof fn last_of_the_pairs_decides(pairs: Seq<(String, String)>, i: int, key: Seq<char>)
    ensures
        0 <= i < pairs.len() && (forall|j: int|
            i < j < pairs.len() ==> to_lower((#[trigger] pairs[j]).0@) != to_lower(pairs[i].0@))
            ==> {
            &&& lowercased_entries(pairs).contains_key(to_lower(pairs[i].0@))
            &&& lowercased_entries(pairs)[to_lower(pairs[i].0@)] == pairs[i].1@
        },
        (forall|j: int| 0 <= j < pairs.len() ==> to_lower((#[trigger] pairs[j]).0@) != key)
            ==> !lowercased_entries(pairs).contains_key(key),
    decreases pairs.len(),
{
    if pairs.len() > 0 {
        let rest = pairs.drop_last();
        let last = pairs.last();
        last_of_the_pairs_decides(rest, i, key);
        assert(last == pairs[pairs.len() - 1]);
        if forall|j: int| 0 <= j < pairs.len() ==> to_lower((#[trigger] pairs[j]).0@) != key {
            assert forall|j: int| 0 <= j < rest.len() implies to_lower((#[trigger] rest[j]).0@)
                != key by {
                assert(rest[j] == pairs[j]);
            }
        }
        if 0 <= i < rest.len() && (forall|j: int|
            i < j < pairs.len() ==> to_lower((#[trigger] pairs[j]).0@) != to_lower(pairs[i].0@)) {
            assert forall|j: int| i < j < rest.len() implies to_lower((#[trigger] rest[j]).0@)
                != to_lower(rest[i].0@) by {
                assert(rest[j] == pairs[j]);
            }
            assert(rest[i] == pairs[i]);
        }
    }
}

} // verus!
