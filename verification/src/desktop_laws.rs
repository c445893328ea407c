//! What the tray menu, the window's messages and the warnings say, by their
//! numbers and texts.

use vstd::prelude::*;

use crate::replacements::{invalid_replacements_warning, unreadable_replacements_warning};
use crate::settings::{invalid_settings_warning, unreadable_settings_warning};
use crate::shell::{action_of, fitting, menu_of, MenuText, WindowAction};

verus! {

/// A registered wake message shows the tray icon, whatever its number is and
/// whatever comes with it.
pub proof fn wake_message_comes_first(msg: u32, wparam: usize, lparam: isize)
    requires
        msg != 0,
    ensures
        action_of(msg, wparam, lparam, msg) == WindowAction::ShowTrayIcon,
{
}

/// A click of either button on the tray icon shows the menu; whatever else the
/// icon reports is dropped.
pub proof fn tray_icon_answers_to_both_buttons(wparam: usize, lparam: isize, wake_msg: u32)
    requires
        wake_msg != 0x8001,
    ensures
        ({
            let clicked = lparam as u32 == 0x0205 || lparam as u32 == 0x0202;
            let action = action_of(0x8001, wparam, lparam, wake_msg);
            &&& clicked ==> action == WindowAction::ShowTrayMenu
            &&& !clicked ==> action == WindowAction::Handled
        }),
{
}

/// A command is known by the low word of `wparam` alone. Each of the eight
/// numbers has an action of its own, and another number has none.
pub proof fn commands_by_their_numbers(
    wparam: usize,
    lparam: isize,
    wake_msg: u32,
    other: usize,
)
    requires
        wake_msg != 0x0111,
    ensures
        ({
            let id = wparam as int % 0x10000;
            let action = action_of(0x0111, wparam, lparam, wake_msg);
            &&& id == 1001 <==> action == WindowAction::Reload
            &&& id == 1002 <==> action == WindowAction::OpenReplacements
            &&& id == 1003 <==> action == WindowAction::CloseWindow
            &&& id == 1004 <==> action == WindowAction::ToggleEnabled
            &&& id == 1005 <==> action == WindowAction::HideTrayIcon
            &&& id == 1006 <==> action == WindowAction::OpenSettings
            &&& id == 1007 <==> action == WindowAction::ToggleStartOnLogin
            &&& id == 1008 <==> action == WindowAction::ShowAbout
            &&& !(1001 <= id <= 1008) <==> action == WindowAction::Handled
            &&& other as int % 0x10000 == id ==> action_of(0x0111, other, lparam, wake_msg)
                == action
        }),
{
}

/// The end of the window ends the program, and no other message does. Messages
/// that are none of the program's are left to the default handling.
pub proof fn other_messages_are_left_alone(
    msg: u32,
    wparam: usize,
    lparam: isize,
    wake_msg: u32,
)
    requires
        msg != wake_msg || msg == 0,
    ensures
        ({
            let action = action_of(msg, wparam, lparam, wake_msg);
            &&& msg == 0x0002 <==> action == WindowAction::Quit
            &&& msg != 0x0002 && msg != 0x0111 && msg != 0x8001 <==> action
                == WindowAction::Unhandled
            &&& action != WindowAction::ShowTrayIcon
        }),
{
}

/// What choosing a line of the menu does: nothing for a separator.
pub open spec fn chosen(entry: MenuText, lparam: isize) -> Option<WindowAction> {
    match entry {
        MenuText::Command { id, .. } => Some(action_of(0x0111, id, lparam, 0)),
        MenuText::Separator => None,
    }
}

/// The menu's lines do these things, from top to bottom, in every state.
pub proof fn menu_lines_in_order(enabled: bool, start_on_login: bool, lparam: isize)
    ensures
        ({
            let menu = menu_of(enabled, start_on_login);
            &&& menu.len() == 11
            &&& chosen(menu[0], lparam) == Some(WindowAction::ToggleEnabled)
            &&& chosen(menu[1], lparam) == Some(WindowAction::HideTrayIcon)
            &&& chosen(menu[2], lparam) == Some(WindowAction::ToggleStartOnLogin)
            &&& chosen(menu[3], lparam) is None
            &&& chosen(menu[4], lparam) == Some(WindowAction::Reload)
            &&& chosen(menu[5], lparam) == Some(WindowAction::OpenReplacements)
            &&& chosen(menu[6], lparam) == Some(WindowAction::OpenSettings)
            &&& chosen(menu[7], lparam) is None
            &&& chosen(menu[8], lparam) == Some(WindowAction::ShowAbout)
            &&& chosen(menu[9], lparam) is None
            &&& chosen(menu[10], lparam) == Some(WindowAction::CloseWindow)
        }),
{
}

/// Every line says what choosing it does. The first offers the opposite of the
/// state that the program is in; a check mark stands at the login switch alone,
/// and there exactly where the program launches at login.
pub proof fn menu_labels_tell_what_lines_do(
    enabled: bool,
    start_on_login: bool,
    entry: int,
    lparam: isize,
)
    requires
        0 <= entry < menu_of(enabled, start_on_login).len(),
    ensures
        menu_of(enabled, start_on_login)[entry] matches MenuText::Command {
            id,
            label,
            checked,
        } ==> {
            let action = action_of(0x0111, id, lparam, 0);
            &&& action == WindowAction::ToggleEnabled && enabled ==> label
                == "Disable replacements"@
            &&& action == WindowAction::ToggleEnabled && !enabled ==> label
                == "Enable replacements"@
            &&& action == WindowAction::HideTrayIcon ==> label == "Hide tray"@
            &&& action == WindowAction::ToggleStartOnLogin ==> label == "Start on login"@
            &&& action == WindowAction::Reload ==> label == "Reload replacements"@
            &&& action == WindowAction::OpenReplacements ==> label == "Open replacements.json"@
            &&& action == WindowAction::OpenSettings ==> label == "Open settings (config.json)"@
            &&& action == WindowAction::ShowAbout ==> label == "About"@
            &&& action == WindowAction::CloseWindow ==> label == "Exit"@
            &&& checked <==> action == WindowAction::ToggleStartOnLogin && start_on_login
        },
{
}

/// The switches bear on no line but their own.
pub proof fn switches_show_in_their_own_lines(
    enabled: bool,
    start_on_login: bool,
    other_enabled: bool,
    other_start_on_login: bool,
    entry: int,
)
    requires
        0 <= entry < 11,
    ensures
        menu_of(enabled, start_on_login)[entry] == menu_of(
            other_enabled,
            other_start_on_login,
        )[entry] || (entry == 0 && enabled != other_enabled) || (entry == 2 && start_on_login
            != other_start_on_login),
{
}

/// As much fits as there is, as far as there is room.
pub proof fn fitting_is_the_smaller(length: nat, capacity: nat)
    ensures
        fitting(length, capacity) <= length,
        fitting(length, capacity) <= capacity,
        fitting(length, capacity) == length || fitting(length, capacity) == capacity,
{
}

/// A warning about a file that is not valid JSON names the file, gives the whole
/// message and says what is in effect instead.
pub proof fn invalid_file_warnings(message: Seq<char>)
    ensures
        ({
            let warning = invalid_replacements_warning(message);
            let head = "replacements.json is not valid JSON:\n"@;
            let tail = "\n\nNo abbreviations were loaded until this is fixed."@;
            &&& warning.len() == head.len() + message.len() + tail.len()
            &&& warning.take(head.len() as int) == head
            &&& warning.subrange(head.len() as int, warning.len() - tail.len()) == message
            &&& warning.skip(warning.len() - tail.len()) == tail
        }),
        ({
            let warning = invalid_settings_warning(message);
            let head = "config.json is not valid JSON:\n"@;
            let tail = "\n\nUsing default settings until this is fixed."@;
            &&& warning.len() == head.len() + message.len() + tail.len()
            &&& warning.take(head.len() as int) == head
            &&& warning.subrange(head.len() as int, warning.len() - tail.len()) == message
            &&& warning.skip(warning.len() - tail.len()) == tail
        }),
{
}

/// A warning about a file that cannot be read names the file and ends with the
/// whole reason.
pub proof fn unreadable_file_warnings(error: Seq<char>)
    ensures
        ({
            let warning = unreadable_replacements_warning(error);
            let head = "Could not read replacements.json:\n"@;
            &&& warning.take(head.len() as int) == head
            &&& warning.skip(head.len() as int) == error
        }),
        ({
            let warning = unreadable_settings_warning(error);
            let head = "Could not read config.json:\n"@;
            &&& warning.take(head.len() as int) == head
            &&& warning.skip(head.len() as int) == error
        }),
{
}

} // verus!
