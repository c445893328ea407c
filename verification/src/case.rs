//! How a typed word is cased, and how that casing is carried over to its
//! expansion.

use vstd::prelude::*;

use crate::text::{alphabetic, char_to_upper, lowercase, to_upper, uppercase, uppercase_char};

verus! {

/// The casing of a typed word.
#[derive(Debug, PartialEq, Eq, Structural)]
pub enum CaseStyle {
    /// `pls`
    Lower,
    /// `Pls`
    Capitalized,
    /// `PLS`
    Upper,
    /// Anything else, such as `pLs`; expands like `Lower`.
    Mixed,
}

/// The letters of a word, in order.
pub open spec fn letters(word: Seq<char>) -> Seq<char> {
    word.filter(|c: char| alphabetic(c))
}

/// Every character is in upper case.
pub open spec fn all_uppercase(s: Seq<char>) -> bool {
    forall|i: int| 0 <= i < s.len() ==> uppercase(#[trigger] s[i])
}

/// Every character is in lower case.
pub open spec fn all_lowercase(s: Seq<char>) -> bool {
    forall|i: int| 0 <= i < s.len() ==> lowercase(#[trigger] s[i])
}

/// The casing of a word, which depends on its letters alone. A word of one
/// uppercase letter counts as `Upper`.
pub open spec fn case_of(word: Seq<char>) -> CaseStyle {
    let ls = letters(word);
    if ls.len() == 0 {
        CaseStyle::Mixed
    } else if all_uppercase(ls) {
        CaseStyle::Upper
    } else if all_lowercase(ls) {
        CaseStyle::Lower
    } else if uppercase(ls[0]) && all_lowercase(ls.drop_first()) {
        CaseStyle::Capitalized
    } else {
        CaseStyle::Mixed
    }
}

/// The text with its first character in upper case and the rest as it is.
pub open spec fn capitalized(s: Seq<char>) -> Seq<char> {
    if s.len() == 0 {
        s
    } else {
        char_to_upper(s[0]) + s.drop_first()
    }
}

/// The text as it is written in a casing.
pub open spec fn in_case(text: Seq<char>, style: CaseStyle) -> Seq<char> {
    match style {
        CaseStyle::Upper => to_upper(text),
        CaseStyle::Capitalized => capitalized(text),
        CaseStyle::Lower | CaseStyle::Mixed => text,
    }
}

/// The characters from `from` on are all in upper case.
fn uppercase_from(chars: &Vec<char>, from: usize) -> (r: bool)
    requires
        from <= chars@.len(),
    ensures
        r == all_uppercase(chars@.skip(from as int)),
{
    let ghost rest = chars@.skip(from as int);
    let mut i: usize = from;
    while i < chars.len()
        invariant
            from <= i <= chars@.len(),
            rest == chars@.skip(from as int),
            forall|j: int| 0 <= j < i - from ==> uppercase(#[trigger] rest[j]),
        decreases chars@.len() - i,
    {
        if !chars[i].is_uppercase() {
            assert(rest[i - from] == chars@[i as int]);
            return false;
        }
        i += 1;
    }
    true
}

/// The characters from `from` on are all in lower case.
fn lowercase_from(chars: &Vec<char>, from: usize) -> (r: bool)
    requires
        from <= chars@.len(),
    ensures
        r == all_lowercase(chars@.skip(from as int)),
{
    let ghost rest = chars@.skip(from as int);
    let mut i: usize = from;
    while i < chars.len()
        invariant
            from <= i <= chars@.len(),
            rest == chars@.skip(from as int),
            forall|j: int| 0 <= j < i - from ==> lowercase(#[trigger] rest[j]),
        decreases chars@.len() - i,
    {
        if !chars[i].is_lowercase() {
            assert(rest[i - from] == chars@[i as int]);
            return false;
        }
        i += 1;
    }
    true
}

/// Detects how a typed word is cased, based only on its letters.
pub fn detect_case(word: &str) -> (r: CaseStyle)
    ensures
        r == case_of(word@),
{
    let ghost pred = |c: char| alphabetic(c);
    let mut found: Vec<char> = Vec::new();
    for c in it: word.chars()
        invariant
            it.seq() == word@,
            pred == (|c: char| alphabetic(c)),
            found@ == word@.take(it.index()).filter(pred),
    {
        proof {
            reveal(Seq::filter);
            assert(word@.take(it.index() + 1).drop_last() =~= word@.take(it.index()));
        }
        if c.is_alphabetic() {
            found.push(c);
        }
    }
    proof {
        assert(word@.take(word@.len() as int) =~= word@);
        assert(found@.skip(0) =~= found@);
    }
    if found.is_empty() {
        return CaseStyle::Mixed;
    }
    if uppercase_from(&found, 0) {
        return CaseStyle::Upper;
    }
    if lowercase_from(&found, 0) {
        return CaseStyle::Lower;
    }
    assert(found@.skip(1) =~= found@.drop_first());
    if found[0].is_uppercase() && lowercase_from(&found, 1) {
        return CaseStyle::Capitalized;
    }
    CaseStyle::Mixed
}

/// The text with its first character in upper case.
fn capitalize_first(s: &str) -> (r: String)
    ensures
        r@ == capitalized(s@),
{
    let n: usize = s.unicode_len();
    if n == 0 {
        return String::new();
    }
    let mut r = uppercase_char(s.get_char(0));
    r.append(s.substring_char(1, n));
    assert(s@.subrange(1, n as int) =~= s@.drop_first());
    r
}

/// Applies a detected casing to the canonical (lowercase) expansion text.
pub fn apply_case(expansion: &str, style: &CaseStyle) -> (r: String)
    ensures
        r@ == in_case(expansion@, *style),
{
    match style {
        CaseStyle::Upper => expansion.to_uppercase(),
        CaseStyle::Capitalized => capitalize_first(expansion),
        CaseStyle::Lower | CaseStyle::Mixed => expansion.to_string(),
    }
}

} // verus!
