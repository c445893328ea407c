//! A text field as the sent keystrokes see it, and what they make of its text.
//!
//! The field holds UTF-16 units with the cursor at their end. A Backspace
//! removes the last unit, a unit sent as Unicode is added, and Enter and Tab add
//! the control character whose number is their virtual-key code. What any other
//! virtual key would type depends on the keyboard layout, and is taken to add
//! nothing. Releasing a key has no effect.

use vstd::prelude::*;

use crate::input::{
    presses, replacement_inputs, typing, typing_boundary, undo_inputs, unicode_input, vk_input,
    ExpansionText, KeyInput,
};
use crate::keys::{structural_boundary, Boundary, VK_BACK};
use crate::utf16::{all_one_unit, one_unit, units_of, utf16, utf16_length};

verus! {

/// The text after one keyboard event.
pub open spec fn after_input(text: Seq<u16>, input: KeyInput) -> Seq<u16> {
    if input.flags == 4 && input.vk == 0 {
        text.push(input.scan)
    } else if input.flags == 0 && input.vk == 0x08 {
        if text.len() > 0 {
            text.drop_last()
        } else {
            text
        }
    } else if input.flags == 0 && (input.vk == 0x0D || input.vk == 0x09) {
        text.push(input.vk)
    } else {
        text
    }
}

/// The text after a sequence of keyboard events.
pub open spec fn after_inputs(text: Seq<u16>, inputs: Seq<KeyInput>) -> Seq<u16>
    decreases inputs.len(),
{
    if inputs.len() == 0 {
        text
    } else {
        after_input(after_inputs(text, inputs.drop_last()), inputs.last())
    }
}

/// What a boundary adds to the text.
pub open spec fn boundary_units(boundary: Boundary) -> Seq<u16> {
    match boundary {
        Boundary::Key(vk) => seq![vk as u16],
        Boundary::Char(c) => units_of(c),
    }
}

/// The boundary is Enter, Tab, or a character of one UTF-16 unit, which is what
/// a single key press can produce.
pub open spec fn pressed_boundary(boundary: Boundary) -> bool {
    match boundary {
        Boundary::Key(vk) => structural_boundary(vk),
        Boundary::Char(c) => one_unit(c),
    }
}

proof fn inputs_in_turn(text: Seq<u16>, a: Seq<KeyInput>, b: Seq<KeyInput>)
    ensures
        after_inputs(text, a + b) == after_inputs(after_inputs(text, a), b),
    decreases b.len(),
{
    if b.len() == 0 {
        assert(a + b =~= a);
    } else {
        inputs_in_turn(text, a, b.drop_last());
        assert((a + b).drop_last() =~= a + b.drop_last());
    }
}

/// An event that presses a key, followed by its release.
proof fn press_and_release(text: Seq<u16>, inputs: Seq<KeyInput>, down: KeyInput, up: KeyInput)
    requires
        forall|t: Seq<u16>| #[trigger] after_input(t, up) == t,
    ensures
        after_inputs(text, inputs.push(down).push(up)) == after_input(
            after_inputs(text, inputs),
            down,
        ),
{
    let all = inputs.push(down).push(up);
    assert(all.drop_last() =~= inputs.push(down));
    assert(inputs.push(down).drop_last() =~= inputs);
    assert(after_inputs(text, inputs.push(down)) == after_input(after_inputs(text, inputs), down));
}

proof fn backspaces_delete(text: Seq<u16>, n: nat)
    requires
        n <= text.len(),
    ensures
        after_inputs(text, presses(VK_BACK as u16, n)) == text.take(text.len() - n),
    decreases n,
{
    let vk = VK_BACK as u16;
    if n == 0 {
        assert(text.take(text.len() as int) =~= text);
    } else {
        let before = presses(vk, (n - 1) as nat);
        backspaces_delete(text, (n - 1) as nat);
        assert(presses(vk, n) =~= before.push(vk_input(vk, false)).push(vk_input(vk, true)));
        press_and_release(text, before, vk_input(vk, false), vk_input(vk, true));
        assert(text.take(text.len() - (n - 1)).drop_last() =~= text.take(text.len() - n));
    }
}

proof fn typing_adds(text: Seq<u16>, units: Seq<u16>)
    ensures
        after_inputs(text, typing(units)) == text + units,
    decreases units.len(),
{
    if units.len() == 0 {
        assert(text + units =~= text);
    } else {
        let before = typing(units.drop_last());
        let unit = units.last();
        typing_adds(text, units.drop_last());
        assert(typing(units) =~= before.push(unicode_input(unit, false)).push(
            unicode_input(unit, true),
        ));
        press_and_release(text, before, unicode_input(unit, false), unicode_input(unit, true));
        assert((text + units.drop_last()).push(unit) =~= text + units);
    }
}

proof fn boundary_adds(text: Seq<u16>, boundary: Boundary)
    requires
        pressed_boundary(boundary),
    ensures
        after_inputs(text, typing_boundary(boundary)) == text + boundary_units(boundary),
        boundary_units(boundary).len() == 1,
{
    match boundary {
        Boundary::Key(vk) => {
            let none = Seq::<KeyInput>::empty();
            let (down, up) = (vk_input(vk as u16, false), vk_input(vk as u16, true));
            assert(presses(vk as u16, 1) =~= none.push(down).push(up));
            press_and_release(text, none, down, up);
            assert(text.push(vk as u16) =~= text + boundary_units(boundary));
        },
        Boundary::Char(c) => typing_adds(text, units_of(c)),
    }
}

/// The keystrokes of a replacement turn the typed word at the end of the text
/// into its expansion, followed by the boundary. The word's characters take one
/// UTF-16 unit each, as characters that come from single key presses do.
pub proof fn replacement_takes_effect(
    before: Seq<u16>,
    typed: Seq<char>,
    expansion: Seq<char>,
    boundary: Boundary,
)
    requires
        all_one_unit(typed),
        pressed_boundary(boundary),
    ensures
        after_inputs(
            before + utf16(typed),
            replacement_inputs(typed.len(), expansion, boundary),
        ) == before + utf16(expansion) + boundary_units(boundary),
{
    let text = before + utf16(typed);
    let deletes = presses(VK_BACK as u16, typed.len());
    let types = typing(utf16(expansion));
    utf16_length(typed);
    backspaces_delete(text, typed.len());
    assert(text.take(text.len() - typed.len()) =~= before);
    typing_adds(before, utf16(expansion));
    boundary_adds(before + utf16(expansion), boundary);
    inputs_in_turn(text, deletes, types);
    inputs_in_turn(text, deletes + types, typing_boundary(boundary));
}

/// The keystrokes of an undo turn the expansion and the boundary at the end of
/// the text back into the word exactly as it was typed.
pub proof fn undo_takes_effect(
    before: Seq<u16>,
    typed: Seq<char>,
    expansion: Seq<char>,
    boundary: Boundary,
)
    requires
        pressed_boundary(boundary),
    ensures
        after_inputs(
            before + utf16(expansion) + boundary_units(boundary),
            undo_inputs(ExpansionText { typed, expansion }),
        ) == before + utf16(typed),
{
    let text = before + utf16(expansion) + boundary_units(boundary);
    let n = utf16(expansion).len() + 1;
    boundary_adds(before, boundary);
    backspaces_delete(text, n);
    assert(text.take(text.len() - n) =~= before);
    typing_adds(before, utf16(typed));
    inputs_in_turn(text, presses(VK_BACK as u16, n), typing(utf16(typed)));
}

/// Undoing a replacement leaves the text as if nothing had been replaced.
pub proof fn undo_restores_the_text(
    before: Seq<u16>,
    typed: Seq<char>,
    expansion: Seq<char>,
    boundary: Boundary,
)
    requires
        all_one_unit(typed),
        pressed_boundary(boundary),
    ensures
        after_inputs(
            after_inputs(
                before + utf16(typed),
                replacement_inputs(typed.len(), expansion, boundary),
            ),
            undo_inputs(ExpansionText { typed, expansion }),
        ) == before + utf16(typed),
{
    replacement_takes_effect(before, typed, expansion, boundary);
    undo_takes_effect(before, typed, expansion, boundary);
}

} // verus!
