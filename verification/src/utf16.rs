//! UTF-16, the encoding in which Windows takes and produces text.

use vstd::prelude::*;

verus! {

/// The character takes a single UTF-16 unit.
pub open spec fn one_unit(c: char) -> bool {
    (c as u32) < 0x10000
}

/// Every character takes a single UTF-16 unit.
pub open spec fn all_one_unit(s: Seq<char>) -> bool {
    forall|i: int| 0 <= i < s.len() ==> one_unit(#[trigger] s[i])
}

/// The UTF-16 units of one character: the code point itself, or a high and a
/// low surrogate.
pub open spec fn units_of(c: char) -> Seq<u16> {
    let code = c as u32;
    if one_unit(c) {
        seq![code as u16]
    } else {
        seq![
            (0xD800 + (code - 0x10000) / 0x400) as u16,
            (0xDC00 + (code - 0x10000) % 0x400) as u16,
        ]
    }
}

/// The UTF-16 encoding of a text.
pub open spec fn utf16(s: Seq<char>) -> Seq<u16>
    decreases s.len(),
{
    if s.len() == 0 {
        Seq::empty()
    } else {
        utf16(s.drop_last()) + units_of(s.last())
    }
}

/// Appends the UTF-16 units of one character.
pub fn push_units(units: &mut Vec<u16>, c: char)
    ensures
        final(units)@ == old(units)@ + units_of(c),
{
    let code: u32 = c as u32;
    if code < 0x10000 {
        units.push(code as u16);
    } else {
        let offset: u32 = code - 0x10000;
        units.push((0xD800 + offset / 0x400) as u16);
        units.push((0xDC00 + offset % 0x400) as u16);
    }
    assert(units@ =~= old(units)@ + units_of(c));
}

/// The UTF-16 encoding of a text.
pub fn encode_utf16(s: &str) -> (r: Vec<u16>)
    ensures
        r@ == utf16(s@),
{
    let mut r: Vec<u16> = Vec::new();
    for c in it: s.chars()
        invariant
            it.seq() == s@,
            r@ == utf16(s@.take(it.index())),
    {
        assert(s@.take(it.index() + 1).drop_last() =~= s@.take(it.index()));
        push_units(&mut r, c);
    }
    assert(s@.take(s@.len() as int) =~= s@);
    r
}

/// The text as a wide string: its UTF-16 encoding and a closing zero.
pub fn to_wide(s: &str) -> (r: Vec<u16>)
    ensures
        r@ == utf16(s@).push(0),
{
    let mut r = encode_utf16(s);
    r.push(0);
    r
}

/// The encoding of two texts side by side is the two encodings side by side.
pub proof fn utf16_concatenates(a: Seq<char>, b: Seq<char>)
    ensures
        utf16(a + b) == utf16(a) + utf16(b),
    decreases b.len(),
{
    if b.len() == 0 {
        assert(a + b =~= a);
        assert(utf16(a) + utf16(b) =~= utf16(a));
    } else {
        utf16_concatenates(a, b.drop_last());
        assert((a + b).drop_last() =~= a + b.drop_last());
        assert(utf16(a + b) =~= utf16(a) + utf16(b));
    }
}

/// A text has as many UTF-16 units as characters where each character takes
/// one unit.
pub proof fn utf16_length(s: Seq<char>)
    requires
        all_one_unit(s),
    ensures
        utf16(s).len() == s.len(),
    decreases s.len(),
{
    if s.len() > 0 {
        assert(one_unit(s[s.len() - 1]));
        assert forall|i: int| 0 <= i < s.drop_last().len() implies one_unit(
            #[trigger] s.drop_last()[i],
        ) by {
            assert(one_unit(s[i]));
        }
        utf16_length(s.drop_last());
    }
}

/// The units of a character tell where it ends: a last unit in the low
/// surrogate range means two units, any other means one.
proof fn units_are_readable(c: char)
    ensures
        units_of(c).len() == 1 || units_of(c).len() == 2,
        units_of(c).len() == 2 <==> 0xDC00 <= units_of(c).last() < 0xE000,
{
}

/// No two characters have the same units.
proof fn units_tell_the_character(a: char, b: char)
    requires
        units_of(a) == units_of(b),
    ensures
        a == b,
{
    let (ua, ub) = (units_of(a), units_of(b));
    units_are_readable(a);
    units_are_readable(b);
    assert(ua[0] == ub[0]);
    if one_unit(a) {
        assert(ua[0] == a as u32 && ub[0] == b as u32);
    } else {
        assert(ua[1] == ub[1]);
        assert(ua[0] == 0xD800 + (a as u32 - 0x10000) / 0x400);
        assert(ub[0] == 0xD800 + (b as u32 - 0x10000) / 0x400);
        assert(ua[1] == 0xDC00 + (a as u32 - 0x10000) % 0x400);
        assert(ub[1] == 0xDC00 + (b as u32 - 0x10000) % 0x400);
        assert(a as u32 == b as u32);
    }
}

/// No two texts have the same encoding.
pub proof fn utf16_is_injective(a: Seq<char>, b: Seq<char>)
    ensures
        utf16(a) == utf16(b) ==> a == b,
    decreases a.len(),
{
    if utf16(a) == utf16(b) {
        if a.len() > 0 && b.len() > 0 {
            let ua = units_of(a.last());
            let ub = units_of(b.last());
            let u = utf16(a);
            units_are_readable(a.last());
            units_are_readable(b.last());
            assert(u.last() == ua.last() && u.last() == ub.last());
            assert(ua.len() == ub.len());
            let m = u.len() - ua.len();
            assert(u.subrange(m, u.len() as int) =~= ua);
            assert(u.subrange(m, u.len() as int) =~= ub);
            assert(u.take(m) =~= utf16(a.drop_last()));
            assert(u.take(m) =~= utf16(b.drop_last()));
            units_tell_the_character(a.last(), b.last());
            utf16_is_injective(a.drop_last(), b.drop_last());
            assert(a =~= a.drop_last().push(a.last()));
            assert(b =~= b.drop_last().push(b.last()));
        } else if a.len() > 0 {
            units_are_readable(a.last());
            assert(utf16(b).len() == 0);
        } else if b.len() > 0 {
            units_are_readable(b.last());
            assert(utf16(a).len() == 0);
        } else {
            assert(a =~= b);
        }
    }
}

} // verus!
