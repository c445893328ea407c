//! The keystrokes that the program types itself: those that put an expansion in
//! place of an abbreviation, and those that take it back.

use vstd::prelude::*;

use crate::keys::{Boundary, VK_BACK};
use crate::utf16::{encode_utf16, push_units, units_of, utf16};

verus! {

pub const KEYEVENTF_KEYUP: u32 = 0x0002;

pub const KEYEVENTF_UNICODE: u32 = 0x0004;

/// One keyboard event to send: a virtual key, or a UTF-16 unit in `scan` where
/// the flags say so.
#[derive(Debug, Clone, Copy, PartialEq, Eq, Structural)]
pub struct KeyInput {
    pub vk: u16,
    pub scan: u16,
    pub flags: u32,
}

/// The most recent expansion: what was typed and what took its place.
#[derive(Debug)]
pub struct LastExpansion {
    pub typed: String,
    pub expansion: String,
}

/// The texts of an expansion: what was typed and what took its place.
#[verifier::ext_equal]
pub struct ExpansionText {
    pub typed: Seq<char>,
    pub expansion: Seq<char>,
}

impl View for LastExpansion {
    type V = ExpansionText;

    open spec fn view(&self) -> ExpansionText {
        ExpansionText { typed: self.typed@, expansion: self.expansion@ }
    }
}

/// A virtual key going down or up.
pub open spec fn vk_input(vk: u16, key_up: bool) -> KeyInput {
    KeyInput {
        vk,
        scan: 0,
        flags: if key_up {
            2
        } else {
            0
        },
    }
}

/// A UTF-16 unit going down or up.
pub open spec fn unicode_input(unit: u16, key_up: bool) -> KeyInput {
    KeyInput {
        vk: 0,
        scan: unit,
        flags: if key_up {
            6
        } else {
            4
        },
    }
}

/// A virtual key pressed and released, `count` times over.
pub open spec fn presses(vk: u16, count: nat) -> Seq<KeyInput> {
    Seq::new(2 * count, |i: int| vk_input(vk, i % 2 == 1))
}

/// Each unit pressed and released, in order.
pub open spec fn typing(units: Seq<u16>) -> Seq<KeyInput> {
    Seq::new(2 * units.len(), |i: int| unicode_input(units[i / 2], i % 2 == 1))
}

/// A boundary pressed and released: its key, or its character's units.
pub open spec fn typing_boundary(boundary: Boundary) -> Seq<KeyInput> {
    match boundary {
        Boundary::Key(vk) => presses(vk as u16, 1),
        Boundary::Char(c) => typing(units_of(c)),
    }
}

/// The keystrokes that replace an abbreviation: a Backspace for each of its
/// characters, the expansion, and the boundary that triggered it.
pub open spec fn replacement_inputs(
    abbr_len: nat,
    expansion: Seq<char>,
    boundary: Boundary,
) -> Seq<KeyInput> {
    presses(VK_BACK as u16, abbr_len) + typing(utf16(expansion)) + typing_boundary(boundary)
}

/// The keystrokes that take an expansion back: a Backspace for each of its
/// UTF-16 units and one for the boundary, then the word as it was typed.
pub open spec fn undo_inputs(last: ExpansionText) -> Seq<KeyInput> {
    presses(VK_BACK as u16, utf16(last.expansion).len() + 1) + typing(utf16(last.typed))
}

/// Appends a virtual key going down or up.
pub fn push_vk_input(inputs: &mut Vec<KeyInput>, vk: u16, key_up: bool)
    ensures
        final(inputs)@ == old(inputs)@.push(vk_input(vk, key_up)),
{
    let flags: u32 = if key_up {
        KEYEVENTF_KEYUP
    } else {
        0
    };
    inputs.push(KeyInput { vk, scan: 0, flags });
}

/// Appends a UTF-16 unit going down or up.
pub fn push_unicode_input(inputs: &mut Vec<KeyInput>, code_unit: u16, key_up: bool)
    ensures
        final(inputs)@ == old(inputs)@.push(unicode_input(code_unit, key_up)),
{
    assert(4u32 | 2u32 == 6u32) by (bit_vector);
    assert(4u32 | 0u32 == 4u32) by (bit_vector);
    let up: u32 = if key_up {
        KEYEVENTF_KEYUP
    } else {
        0
    };
    inputs.push(KeyInput { vk: 0, scan: code_unit, flags: KEYEVENTF_UNICODE | up });
}

/// Appends a number of presses of one virtual key.
fn push_presses(inputs: &mut Vec<KeyInput>, vk: u16, count: usize)
    ensures
        final(inputs)@ == old(inputs)@ + presses(vk, count as nat),
{
    let mut i: usize = 0;
    assert(inputs@ =~= old(inputs)@ + presses(vk, 0));
    while i < count
        invariant
            i <= count,
            inputs@ == old(inputs)@ + presses(vk, i as nat),
        decreases count - i,
    {
        push_vk_input(inputs, vk, false);
        push_vk_input(inputs, vk, true);
        i += 1;
        assert(inputs@ =~= old(inputs)@ + presses(vk, i as nat));
    }
}

/// Appends the typing of a sequence of units.
fn push_typing(inputs: &mut Vec<KeyInput>, units: &Vec<u16>)
    ensures
        final(inputs)@ == old(inputs)@ + typing(units@),
{
    let mut i: usize = 0;
    assert(inputs@ =~= old(inputs)@ + typing(units@.take(0)));
    while i < units.len()
        invariant
            i <= units@.len(),
            inputs@ == old(inputs)@ + typing(units@.take(i as int)),
        decreases units@.len() - i,
    {
        push_unicode_input(inputs, units[i], false);
        push_unicode_input(inputs, units[i], true);
        i += 1;
        assert(inputs@ =~= old(inputs)@ + typing(units@.take(i as int)));
    }
    assert(units@.take(units@.len() as int) =~= units@);
}

/// The keystrokes that delete the typed abbreviation and type the expansion,
/// followed by the boundary that triggered it. The real boundary keystroke is
/// swallowed, so this is the only copy of it.
pub fn perform_replacement(abbr_len: usize, expansion: &str, boundary: Boundary) -> (r: Vec<
    KeyInput,
>)
    ensures
        r@ == replacement_inputs(abbr_len as nat, expansion@, boundary),
{
    let mut inputs: Vec<KeyInput> = Vec::new();
    push_presses(&mut inputs, VK_BACK as u16, abbr_len);
    push_typing(&mut inputs, &encode_utf16(expansion));
    match boundary {
        Boundary::Key(vk) => {
            push_presses(&mut inputs, #[verifier::truncate] (vk as u16), 1);
        },
        Boundary::Char(c) => {
            let mut units: Vec<u16> = Vec::new();
            push_units(&mut units, c);
            assert(units@ =~= units_of(c));
            push_typing(&mut inputs, &units);
        },
    }
    assert(inputs@ =~= replacement_inputs(abbr_len as nat, expansion@, boundary));
    inputs
}

/// The keystrokes that delete the expansion and the boundary that followed it,
/// and retype the abbreviation exactly as the user typed it.
pub fn perform_undo(last: &LastExpansion) -> (r: Vec<KeyInput>)
    ensures
        r@ == undo_inputs(last@),
{
    let mut inputs: Vec<KeyInput> = Vec::new();
    push_presses(&mut inputs, VK_BACK as u16, encode_utf16(last.expansion.as_str()).len());
    push_presses(&mut inputs, VK_BACK as u16, 1);
    assert(inputs@ =~= presses(VK_BACK as u16, utf16(last.expansion@).len() + 1));
    push_typing(&mut inputs, &encode_utf16(last.typed.as_str()));
    inputs
}

} // verus!
