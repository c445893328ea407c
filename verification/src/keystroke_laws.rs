//! What is sent and what is read, event by event and unit by unit.

use vstd::prelude::*;

use crate::input::{replacement_inputs, undo_inputs, ExpansionText, KeyInput};
use crate::keys::{
    hook_event_of, ignored_modifier, key_byte, translated, Boundary, HeldKeys, HookEvent, KeyChar,
};
use crate::utf16::{units_of, utf16};

verus! {

/// The event presses or releases the virtual key: even events of a sequence
/// press, odd ones release.
pub open spec fn is_key_event(input: KeyInput, vk: u16, position: int) -> bool {
    &&& input.vk == vk
    &&& input.scan == 0
    &&& position % 2 == 0 ==> input.flags == 0x0000
    &&& position % 2 == 1 ==> input.flags == 0x0002
}

/// The event presses or releases a UTF-16 unit, sent as Unicode, whatever the
/// keyboard layout.
pub open spec fn is_unit_event(input: KeyInput, unit: u16, position: int) -> bool {
    &&& input.vk == 0
    &&& input.scan == unit
    &&& position % 2 == 0 ==> input.flags == 0x0004
    &&& position % 2 == 1 ==> input.flags == 0x0006
}

/// A replacement sends a Backspace for each character of the abbreviation, then
/// each UTF-16 unit of the expansion as Unicode, then the boundary: its key, or
/// its units as Unicode. Each is pressed and released before the next, and
/// nothing else is sent.
pub proof fn replacement_events(
    abbr_len: nat,
    expansion: Seq<char>,
    boundary: Boundary,
    i: int,
)
    ensures
        ({
            let inputs = replacement_inputs(abbr_len, expansion, boundary);
            let units = utf16(expansion);
            let typed = 2 * abbr_len;
            let ended = typed + 2 * units.len();
            &&& 0 <= i < typed ==> is_key_event(inputs[i], 0x08, i)
            &&& typed <= i < ended ==> is_unit_event(inputs[i], units[(i - typed) / 2], i)
            &&& match boundary {
                Boundary::Key(vk) => {
                    &&& inputs.len() == ended + 2
                    &&& ended <= i < ended + 2 ==> is_key_event(inputs[i], vk as u16, i)
                },
                Boundary::Char(c) => {
                    &&& inputs.len() == ended + 2 * units_of(c).len()
                    &&& ended <= i < inputs.len() ==> is_unit_event(
                        inputs[i],
                        units_of(c)[(i - ended) / 2],
                        i,
                    )
                },
            }
        }),
{
}

/// An undo sends a Backspace for each UTF-16 unit of the expansion and one for
/// the boundary, then each unit of the typed word as Unicode, and nothing else.
pub proof fn undo_events(typed: Seq<char>, expansion: Seq<char>, i: int)
    ensures
        ({
            let inputs = undo_inputs(ExpansionText { typed, expansion });
            let deleted = 2 * (utf16(expansion).len() + 1);
            let units = utf16(typed);
            &&& inputs.len() == deleted + 2 * units.len()
            &&& 0 <= i < deleted ==> is_key_event(inputs[i], 0x08, i)
            &&& deleted <= i < inputs.len() ==> is_unit_event(
                inputs[i],
                units[(i - deleted) / 2],
                i,
            )
        }),
{
}

/// The units of a character say which it is: one unit is its code; two are a
/// high and a low surrogate that put its code together.
pub proof fn units_spell_the_code(c: char)
    ensures
        ({
            let units = units_of(c);
            let code = c as u32;
            ||| units.len() == 1 && units[0] == code
            ||| {
                &&& units.len() == 2
                &&& 0xD800 <= units[0] < 0xDC00
                &&& 0xDC00 <= units[1] < 0xE000
                &&& 0x10000 + (units[0] - 0xD800) * 0x400 + (units[1] - 0xDC00) == code
            }
        }),
{
}

/// The encoding of a text is that of its characters one after the other, whatever
/// comes before or after.
pub proof fn text_is_encoded_character_by_character(before: Seq<char>, c: char, after: Seq<char>)
    ensures
        utf16(Seq::empty()) == Seq::<u16>::empty(),
        utf16(seq![c]) == units_of(c),
        utf16(before + seq![c] + after) == utf16(before) + units_of(c) + utf16(after),
{
    assert(seq![c].drop_last() =~= Seq::empty());
    assert(utf16(seq![c].drop_last()) =~= Seq::<u16>::empty());
    assert(utf16(seq![c]) =~= units_of(c));
    crate::utf16::utf16_concatenates(before + seq![c], after);
    crate::utf16::utf16_concatenates(before, seq![c]);
}

/// A translated key produces exactly the character whose code is the first unit,
/// as Shift, Caps Lock and AltGr made it, where there is one: a negative result
/// is a dead key, and zero or half of a surrogate pair is no character.
pub proof fn translation_gives_the_unit_as_it_is(result: i32, first_unit: u16)
    ensures
        result < 0 ==> translated(result, first_unit) == KeyChar::DeadKey,
        result == 0 ==> translated(result, first_unit) == KeyChar::Nothing,
        result > 0 && 0xD800 <= first_unit <= 0xDFFF ==> translated(result, first_unit)
            == KeyChar::Nothing,
        result > 0 && !(0xD800 <= first_unit <= 0xDFFF) ==> {
            &&& translated(result, first_unit) matches KeyChar::Char(c)
            &&& c as u32 == first_unit
            &&& units_of(c) == seq![first_unit]
        },
{
    if result > 0 && !(0xD800 <= first_unit <= 0xDFFF) {
        let c = translated(result, first_unit)->Char_0;
        assert(c as u32 == first_unit as u32);
        assert(units_of(c) =~= seq![first_unit]);
    }
}

/// Different units translate to different characters, and typing what a key
/// produced sends the unit that it was translated to.
pub proof fn translation_tells_units_apart(a: i32, first: u16, b: i32, second: u16)
    ensures
        translated(a, first) matches KeyChar::Char(c) ==> utf16(seq![c]) == seq![first],
        translated(a, first) is Char && translated(a, first) == translated(b, second) ==> first
            == second,
{
    translation_gives_the_unit_as_it_is(a, first);
    translation_gives_the_unit_as_it_is(b, second);
    if let KeyChar::Char(c) = translated(a, first) {
        text_is_encoded_character_by_character(Seq::empty(), c, Seq::empty());
    }
}

/// The keys that precede a letter without breaking the word are Shift, Ctrl and
/// Alt with their left and right keys, Caps Lock and the two Windows keys.
pub proof fn modifiers_by_their_codes(vk: i32)
    ensures
        ignored_modifier(vk) <==> 0x10 <= vk <= 0x12 || vk == 0x14 || vk == 0x5B || vk == 0x5C
            || 0xA0 <= vk <= 0xA5,
{
}

/// In the keyboard state each modifier has its own byte, with the top bit for
/// being held; Caps Lock has the lowest bit; no other byte is set.
pub proof fn keyboard_state_byte_by_byte(held: HeldKeys, vk: int)
    ensures
        key_byte(held, 0x10) == (if held.shift { 0x80u8 } else { 0u8 }),
        key_byte(held, 0x11) == (if held.control { 0x80u8 } else { 0u8 }),
        key_byte(held, 0x12) == (if held.menu { 0x80u8 } else { 0u8 }),
        key_byte(held, 0x14) == (if held.caps_lock { 1u8 } else { 0u8 }),
        key_byte(held, 0xA0) == (if held.left_shift { 0x80u8 } else { 0u8 }),
        key_byte(held, 0xA1) == (if held.right_shift { 0x80u8 } else { 0u8 }),
        key_byte(held, 0xA2) == (if held.left_control { 0x80u8 } else { 0u8 }),
        key_byte(held, 0xA3) == (if held.right_control { 0x80u8 } else { 0u8 }),
        key_byte(held, 0xA4) == (if held.left_menu { 0x80u8 } else { 0u8 }),
        key_byte(held, 0xA5) == (if held.right_menu { 0x80u8 } else { 0u8 }),
        key_byte(held, vk) != 0 ==> 0x10 <= vk <= 0x12 || vk == 0x14 || 0xA0 <= vk <= 0xA5,
{
}

/// An event that some program sent is ignored, whatever its message. Of the
/// others, the two messages of a press are presses, the two of a release are
/// releases, and there is nothing else.
pub proof fn hook_events_by_their_messages(message: u32, flags: u32)
    ensures
        flags & 0x10 != 0 ==> hook_event_of(message, flags) == HookEvent::Ignored,
        flags & 0x10 == 0 ==> {
            &&& hook_event_of(message, flags) == HookEvent::KeyDown <==> message == 0x0100
                || message == 0x0104
            &&& hook_event_of(message, flags) == HookEvent::KeyUp <==> message == 0x0101
                || message == 0x0105
        },
{
}

} // verus!
