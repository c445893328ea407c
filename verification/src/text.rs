//! What the crate relies on from the standard library's treatment of
//! characters and strings.
//!
//! Characters outside ASCII are governed by the Unicode tables that ship with
//! the standard library, so their case mappings are only given names here.
//! Inside ASCII the mappings are written out.

use vstd::prelude::*;

verus! {

/// The character is one of the 128 ASCII characters.
pub open spec fn ascii(c: char) -> bool {
    (c as u32) < 128
}

/// One of `a` to `z`.
pub open spec fn ascii_lowercase(c: char) -> bool {
    'a' <= c <= 'z'
}

/// One of `A` to `Z`.
pub open spec fn ascii_uppercase(c: char) -> bool {
    'A' <= c <= 'Z'
}

/// `a` to `z` become `A` to `Z`; any other character stays as it is.
pub open spec fn ascii_to_upper(c: char) -> char {
    if ascii_lowercase(c) {
        ((c as u32) - 32) as char
    } else {
        c
    }
}

/// `A` to `Z` become `a` to `z`; any other character stays as it is.
pub open spec fn ascii_to_lower(c: char) -> char {
    if ascii_uppercase(c) {
        ((c as u32) + 32) as char
    } else {
        c
    }
}

/// Every character of the text is an ASCII character.
pub open spec fn all_ascii(s: Seq<char>) -> bool {
    forall|i: int| 0 <= i < s.len() ==> ascii(#[trigger] s[i])
}

/// Whether a character outside ASCII has the Unicode property `Alphabetic`.
pub uninterp spec fn unicode_alphabetic(c: char) -> bool;

/// Whether a character outside ASCII has the Unicode property `Uppercase`.
pub uninterp spec fn unicode_uppercase(c: char) -> bool;

/// Whether a character outside ASCII has the Unicode property `Lowercase`.
pub uninterp spec fn unicode_lowercase(c: char) -> bool;

/// The uppercase mapping of a character outside ASCII, which may be several
/// characters long.
pub uninterp spec fn unicode_char_to_upper(c: char) -> Seq<char>;

/// The uppercase equivalent of a text that is not all ASCII.
pub uninterp spec fn unicode_to_upper(s: Seq<char>) -> Seq<char>;

/// The lowercase equivalent of a text that is not all ASCII.
pub uninterp spec fn unicode_to_lower(s: Seq<char>) -> Seq<char>;

/// The character is a letter.
pub open spec fn alphabetic(c: char) -> bool {
    if ascii(c) {
        ascii_lowercase(c) || ascii_uppercase(c)
    } else {
        unicode_alphabetic(c)
    }
}

/// The character is in upper case.
pub open spec fn uppercase(c: char) -> bool {
    if ascii(c) {
        ascii_uppercase(c)
    } else {
        unicode_uppercase(c)
    }
}

/// The character is in lower case.
pub open spec fn lowercase(c: char) -> bool {
    if ascii(c) {
        ascii_lowercase(c)
    } else {
        unicode_lowercase(c)
    }
}

/// The uppercase mapping of one character.
pub open spec fn char_to_upper(c: char) -> Seq<char> {
    if ascii(c) {
        seq![ascii_to_upper(c)]
    } else {
        unicode_char_to_upper(c)
    }
}

/// The text in upper case.
pub open spec fn to_upper(s: Seq<char>) -> Seq<char> {
    if all_ascii(s) {
        s.map_values(|c: char| ascii_to_upper(c))
    } else {
        unicode_to_upper(s)
    }
}

/// The text in lower case.
pub open spec fn to_lower(s: Seq<char>) -> Seq<char> {
    if all_ascii(s) {
        s.map_values(|c: char| ascii_to_lower(c))
    } else {
        unicode_to_lower(s)
    }
}

/// `char::is_alphabetic` tells whether a character has the Unicode property
/// `Alphabetic`; among the ASCII characters the letters have it.
pub assume_specification[ char::is_alphabetic ](c: char) -> (r: bool)
    ensures
        ascii(c) ==> r == (ascii_lowercase(c) || ascii_uppercase(c)),
        !ascii(c) ==> r == unicode_alphabetic(c),
;

/// `char::is_uppercase` tells whether a character has the Unicode property
/// `Uppercase`; among the ASCII characters `A` to `Z` have it.
pub assume_specification[ char::is_uppercase ](c: char) -> (r: bool)
    ensures
        ascii(c) ==> r == ascii_uppercase(c),
        !ascii(c) ==> r == unicode_uppercase(c),
;

/// `char::is_lowercase` tells whether a character has the Unicode property
/// `Lowercase`; among the ASCII characters `a` to `z` have it.
pub assume_specification[ char::is_lowercase ](c: char) -> (r: bool)
    ensures
        ascii(c) ==> r == ascii_lowercase(c),
        !ascii(c) ==> r == unicode_lowercase(c),
;

/// `str::to_uppercase` gives the uppercase equivalent of a string; on ASCII
/// text it maps `a` to `z` one by one.
pub assume_specification[ str::to_uppercase ](s: &str) -> (r: String)
    ensures
        all_ascii(s@) ==> r@ == s@.map_values(|c: char| ascii_to_upper(c)),
        !all_ascii(s@) ==> r@ == unicode_to_upper(s@),
;

/// `str::to_lowercase` gives the lowercase equivalent of a string; on ASCII
/// text it maps `A` to `Z` one by one.
pub assume_specification[ str::to_lowercase ](s: &str) -> (r: String)
    ensures
        all_ascii(s@) ==> r@ == s@.map_values(|c: char| ascii_to_lower(c)),
        !all_ascii(s@) ==> r@ == unicode_to_lower(s@),
;

/// `char::to_uppercase` yields the uppercase mapping of a character, here
/// gathered into a string; an ASCII letter maps to one ASCII letter.
#[verifier::external_body]
pub(crate) fn uppercase_char(c: char) -> (r: String)
    ensures
        ascii(c) ==> r@ == seq![ascii_to_upper(c)],
        !ascii(c) ==> r@ == unicode_char_to_upper(c),
{
    c.to_uppercase().collect()
}

/// `String::push` appends one character.
pub assume_specification[ String::push ](s: &mut String, c: char)
    ensures
        final(s)@ == old(s)@.push(c),
;

/// `String::pop` removes the last character and returns it, or returns `None`
/// where there is none.
pub assume_specification[ String::pop ](s: &mut String) -> (r: Option<char>)
    ensures
        old(s)@.len() == 0 ==> r is None && final(s)@ == old(s)@,
        old(s)@.len() > 0 ==> r == Some(old(s)@.last()) && final(s)@ == old(s)@.drop_last(),
;

} // verus!
