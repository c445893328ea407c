//! Keys as Windows reports them: virtual-key codes, what a key press produces,
//! and which hook events are of interest.

use vstd::prelude::*;
use vstd::utf8::is_scalar;

use crate::utf16::one_unit;

verus! {

pub const VK_BACK: i32 = 0x08;

pub const VK_TAB: i32 = 0x09;

pub const VK_RETURN: i32 = 0x0D;

pub const VK_SHIFT: i32 = 0x10;

pub const VK_CONTROL: i32 = 0x11;

pub const VK_MENU: i32 = 0x12;

pub const VK_CAPITAL: i32 = 0x14;

pub const VK_LWIN: i32 = 0x5B;

pub const VK_RWIN: i32 = 0x5C;

pub const VK_LSHIFT: i32 = 0xA0;

pub const VK_RSHIFT: i32 = 0xA1;

pub const VK_LCONTROL: i32 = 0xA2;

pub const VK_RCONTROL: i32 = 0xA3;

pub const VK_LMENU: i32 = 0xA4;

pub const VK_RMENU: i32 = 0xA5;

pub const WM_KEYDOWN: u32 = 0x0100;

pub const WM_KEYUP: u32 = 0x0101;

pub const WM_SYSKEYDOWN: u32 = 0x0104;

pub const WM_SYSKEYUP: u32 = 0x0105;

/// Set in the flags of a hook event that some program sent, rather than the
/// keyboard.
pub const LLKHF_INJECTED: u32 = 0x10;

/// What a key press produces.
#[derive(Debug, Clone, Copy, PartialEq, Eq, Structural)]
pub enum KeyChar {
    /// A dead key: an accent waiting to combine with the next letter.
    DeadKey,
    /// An ordinary character.
    Char(char),
    /// No character at all (arrows, function keys and the like).
    Nothing,
}

/// A key that finishes a word: Enter or Tab by its code, or one of the
/// configured characters.
#[derive(Debug, Clone, Copy, PartialEq, Eq, Structural)]
pub enum Boundary {
    Key(i32),
    Char(char),
}

/// The modifier keys, which precede a letter without breaking the word: Shift,
/// Ctrl and Alt on either side, the Windows keys, and Caps Lock.
pub open spec fn ignored_modifier(vk: i32) -> bool {
    ||| vk == VK_SHIFT
    ||| vk == VK_LSHIFT
    ||| vk == VK_RSHIFT
    ||| vk == VK_CONTROL
    ||| vk == VK_LCONTROL
    ||| vk == VK_RCONTROL
    ||| vk == VK_MENU
    ||| vk == VK_LMENU
    ||| vk == VK_RMENU
    ||| vk == VK_LWIN
    ||| vk == VK_RWIN
    ||| vk == VK_CAPITAL
}

/// Tells whether a key is one of the modifiers that word tracking ignores.
pub fn is_ignored_modifier(vk: i32) -> (r: bool)
    ensures
        r == ignored_modifier(vk),
{
    vk == VK_SHIFT || vk == VK_LSHIFT || vk == VK_RSHIFT || vk == VK_CONTROL || vk == VK_LCONTROL
        || vk == VK_RCONTROL || vk == VK_MENU || vk == VK_LMENU || vk == VK_RMENU || vk == VK_LWIN
        || vk == VK_RWIN || vk == VK_CAPITAL
}

/// Enter and Tab finish a word whatever characters are configured.
pub open spec fn structural_boundary(vk: i32) -> bool {
    vk == VK_RETURN || vk == VK_TAB
}

/// Ctrl without Alt, or Alt without Ctrl. Both together are AltGr, which types
/// characters.
pub open spec fn shortcut_chord(ctrl: bool, alt: bool) -> bool {
    ctrl != alt
}

/// Reads a key's physical state: the sign bit says that it is held down.
pub fn is_held(state: i16) -> (r: bool)
    ensures
        r == (state < 0),
{
    state < 0
}

/// Reads a key's toggle state: the lowest bit says that it is on.
pub fn is_toggled(state: i16) -> (r: bool)
    ensures
        r == (state & 1 != 0),
{
    state & 1 != 0
}

/// The modifier keys that are held down while a key is translated, and whether
/// Caps Lock is on.
#[derive(Debug, Clone, Copy)]
pub struct HeldKeys {
    pub shift: bool,
    pub left_shift: bool,
    pub right_shift: bool,
    pub control: bool,
    pub left_control: bool,
    pub right_control: bool,
    pub menu: bool,
    pub left_menu: bool,
    pub right_menu: bool,
    pub caps_lock: bool,
}

/// The byte of a keyboard state for a held or released key.
pub open spec fn held_byte(held: bool) -> u8 {
    if held {
        0x80
    } else {
        0
    }
}

/// The byte of the keyboard state at a virtual-key code: the top bit for a held
/// modifier, the lowest bit for Caps Lock switched on.
pub open spec fn key_byte(held: HeldKeys, vk: int) -> u8 {
    if vk == VK_SHIFT {
        held_byte(held.shift)
    } else if vk == VK_LSHIFT {
        held_byte(held.left_shift)
    } else if vk == VK_RSHIFT {
        held_byte(held.right_shift)
    } else if vk == VK_CONTROL {
        held_byte(held.control)
    } else if vk == VK_LCONTROL {
        held_byte(held.left_control)
    } else if vk == VK_RCONTROL {
        held_byte(held.right_control)
    } else if vk == VK_MENU {
        held_byte(held.menu)
    } else if vk == VK_LMENU {
        held_byte(held.left_menu)
    } else if vk == VK_RMENU {
        held_byte(held.right_menu)
    } else if vk == VK_CAPITAL && held.caps_lock {
        1
    } else {
        0
    }
}

/// Tells whether a key, which is one of the nine modifiers, is held.
fn modifier_held(held: &HeldKeys, vk: i32) -> (r: Option<bool>)
    ensures
        r matches Some(h) ==> vk != VK_CAPITAL && key_byte(*held, vk as int) == held_byte(h),
        r is None ==> vk == VK_CAPITAL || key_byte(*held, vk as int) == 0,
{
    if vk == VK_SHIFT {
        Some(held.shift)
    } else if vk == VK_LSHIFT {
        Some(held.left_shift)
    } else if vk == VK_RSHIFT {
        Some(held.right_shift)
    } else if vk == VK_CONTROL {
        Some(held.control)
    } else if vk == VK_LCONTROL {
        Some(held.left_control)
    } else if vk == VK_RCONTROL {
        Some(held.right_control)
    } else if vk == VK_MENU {
        Some(held.menu)
    } else if vk == VK_LMENU {
        Some(held.left_menu)
    } else if vk == VK_RMENU {
        Some(held.right_menu)
    } else {
        None
    }
}

/// The keyboard state to translate a key with: one byte for each of the 256
/// virtual-key codes.
pub fn keyboard_state(held: &HeldKeys) -> (r: Vec<u8>)
    ensures
        r@ == Seq::new(256, |vk: int| key_byte(*held, vk)),
{
    let mut r: Vec<u8> = Vec::new();
    let mut vk: i32 = 0;
    while vk < 256
        invariant
            0 <= vk <= 256,
            r@ == Seq::new(vk as nat, |i: int| key_byte(*held, i)),
        decreases 256 - vk,
    {
        let byte: u8 = if vk == VK_CAPITAL {
            if held.caps_lock {
                1
            } else {
                0
            }
        } else {
            match modifier_held(held, vk) {
                Some(true) => 0x80,
                _ => 0,
            }
        };
        r.push(byte);
        vk += 1;
    }
    r
}

/// Tells whether the stateless mapping of a key to its unshifted character
/// marks it as a dead key, which it does with the highest bit. A key so marked
/// is never translated.
pub fn is_dead_key_mapping(mapped: u32) -> (r: bool)
    ensures
        r == (mapped >= 0x8000_0000),
{
    assert((mapped & 0x8000_0000 != 0) == (mapped >= 0x8000_0000)) by (bit_vector);
    mapped & 0x8000_0000 != 0
}

/// `char::from_u32` gives the character of a code point, and `None` where the
/// number is not a Unicode scalar value.
pub assume_specification[ char::from_u32 ](code: u32) -> (r: Option<char>)
    ensures
        is_scalar(code) ==> r == Some(code as char),
        !is_scalar(code) ==> r is None,
;

/// What a translated key produces: the translation reports a dead key by a
/// negative result, no character by zero, and otherwise leaves the character's
/// first UTF-16 unit. Half of a surrogate pair is no character.
pub open spec fn translated(result: i32, first_unit: u16) -> KeyChar {
    if result < 0 {
        KeyChar::DeadKey
    } else if result == 0 || !is_scalar(first_unit as u32) {
        KeyChar::Nothing
    } else {
        KeyChar::Char(first_unit as char)
    }
}

/// Resolves what a key produces from the translation's result and the first
/// unit it wrote.
pub fn char_from_translation(result: i32, first_unit: u16) -> (r: KeyChar)
    ensures
        r == translated(result, first_unit),
        r matches KeyChar::Char(c) ==> one_unit(c),
{
    if result < 0 {
        return KeyChar::DeadKey;
    }
    if result == 0 {
        return KeyChar::Nothing;
    }
    match char::from_u32(first_unit as u32) {
        Some(c) => KeyChar::Char(c),
        None => KeyChar::Nothing,
    }
}

/// What a hook event is about.
#[derive(Debug, Clone, Copy, PartialEq, Eq, Structural)]
pub enum HookEvent {
    KeyDown,
    KeyUp,
    /// Nothing to handle: an injected event, or another message.
    Ignored,
}

/// The kind of a hook event. Events that a program sent are ignored, so that
/// the keys this program types do not come back to it.
pub open spec fn hook_event_of(message: u32, flags: u32) -> HookEvent {
    if flags & LLKHF_INJECTED != 0 {
        HookEvent::Ignored
    } else if message == WM_KEYDOWN || message == WM_SYSKEYDOWN {
        HookEvent::KeyDown
    } else if message == WM_KEYUP || message == WM_SYSKEYUP {
        HookEvent::KeyUp
    } else {
        HookEvent::Ignored
    }
}

/// Classifies a hook event by its message and flags.
pub fn hook_event(message: u32, flags: u32) -> (r: HookEvent)
    ensures
        r == hook_event_of(message, flags),
{
    if flags & LLKHF_INJECTED != 0 {
        return HookEvent::Ignored;
    }
    if message == WM_KEYDOWN || message == WM_SYSKEYDOWN {
        HookEvent::KeyDown
    } else if message == WM_KEYUP || message == WM_SYSKEYUP {
        HookEvent::KeyUp
    } else {
        HookEvent::Ignored
    }
}

} // verus!
