//! The program's place on the desktop: its hidden window's messages, the tray
//! icon and its menu, and launching at login.

use vstd::prelude::*;

use crate::state::AppState;
use crate::utf16::{to_wide, utf16};

verus! {

pub const WM_DESTROY: u32 = 0x0002;

pub const WM_COMMAND: u32 = 0x0111;

pub const WM_LBUTTONUP: u32 = 0x0202;

pub const WM_RBUTTONUP: u32 = 0x0205;

/// The message by which the tray icon reports clicks, from the range that is free
/// for an application to use.
pub const WM_TRAYICON: u32 = 0x8001;

pub const ERROR_ALREADY_EXISTS: u32 = 183;

pub const LR_DEFAULTSIZE: u32 = 0x0040;

pub const ID_RELOAD: usize = 1001;

pub const ID_OPEN_CONFIG: usize = 1002;

pub const ID_EXIT: usize = 1003;

pub const ID_TOGGLE_ENABLED: usize = 1004;

pub const ID_HIDE_TRAY: usize = 1005;

pub const ID_OPEN_SETTINGS: usize = 1006;

pub const ID_TOGGLE_STARTUP: usize = 1007;

pub const ID_ABOUT: usize = 1008;

/// Held by the running instance, so that a second launch can tell.
pub const MUTEX_NAME: &'static str = "Local\\Textpander_Alfakynz_Mutex";

/// Asks the running instance to show its tray icon again.
pub const WAKE_MESSAGE_NAME: &'static str = "Textpander_Alfakynz_WakeMessage";

/// The name of the value that makes Windows launch the program at login.
pub const LOGIN_VALUE_NAME: &'static str = "Textpander_Alfakynz";

/// Shown when the pointer rests on the tray icon.
pub const TRAY_TIP: &'static str = "Textpander (abbreviation replacement)";

/// Tells whether another instance is running: the shared mutex could be opened
/// and was there before.
pub fn already_running(mutex_opened: bool, last_error: u32) -> (r: bool)
    ensures
        r == (mutex_opened && last_error == 183),
{
    mutex_opened && last_error == ERROR_ALREADY_EXISTS
}

/// What to do about a message to the hidden window.
#[derive(Debug, Clone, Copy, PartialEq, Eq, Structural)]
pub enum WindowAction {
    /// Show the tray icon: the program was launched again.
    ShowTrayIcon,
    /// Show the tray icon's menu.
    ShowTrayMenu,
    /// Reload replacements and settings.
    Reload,
    /// Open the replacements file.
    OpenReplacements,
    /// Open the settings file.
    OpenSettings,
    /// Switch launching at login on or off.
    ToggleStartOnLogin,
    /// Switch replacements on or off.
    ToggleEnabled,
    /// Hide the tray icon.
    HideTrayIcon,
    /// Show what the program is.
    ShowAbout,
    /// Close the hidden window.
    CloseWindow,
    /// End the message loop.
    Quit,
    /// Nothing: the message is dealt with.
    Handled,
    /// Leave the message to the default handling.
    Unhandled,
}

/// The action behind a menu command.
pub open spec fn command_action(id: int) -> WindowAction {
    if id == ID_RELOAD {
        WindowAction::Reload
    } else if id == ID_OPEN_CONFIG {
        WindowAction::OpenReplacements
    } else if id == ID_OPEN_SETTINGS {
        WindowAction::OpenSettings
    } else if id == ID_TOGGLE_STARTUP {
        WindowAction::ToggleStartOnLogin
    } else if id == ID_TOGGLE_ENABLED {
        WindowAction::ToggleEnabled
    } else if id == ID_HIDE_TRAY {
        WindowAction::HideTrayIcon
    } else if id == ID_ABOUT {
        WindowAction::ShowAbout
    } else if id == ID_EXIT {
        WindowAction::CloseWindow
    } else {
        WindowAction::Handled
    }
}

/// The action that a message to the hidden window asks for. The wake message
/// comes before all others, unless it could not be registered and is zero. A
/// command's number is in the low word of `wparam`, a click on the tray icon in
/// the low half of `lparam`.
pub open spec fn action_of(msg: u32, wparam: usize, lparam: isize, wake_msg: u32) -> WindowAction {
    if msg == wake_msg && msg != 0 {
        WindowAction::ShowTrayIcon
    } else if msg == WM_TRAYICON {
        if lparam as u32 == WM_RBUTTONUP || lparam as u32 == WM_LBUTTONUP {
            WindowAction::ShowTrayMenu
        } else {
            WindowAction::Handled
        }
    } else if msg == WM_COMMAND {
        command_action(wparam as int % 0x10000)
    } else if msg == WM_DESTROY {
        WindowAction::Quit
    } else {
        WindowAction::Unhandled
    }
}

/// Decides what a menu command asks for.
fn menu_command(id: usize) -> (r: WindowAction)
    ensures
        r == command_action(id as int),
{
    if id == ID_RELOAD {
        WindowAction::Reload
    } else if id == ID_OPEN_CONFIG {
        WindowAction::OpenReplacements
    } else if id == ID_OPEN_SETTINGS {
        WindowAction::OpenSettings
    } else if id == ID_TOGGLE_STARTUP {
        WindowAction::ToggleStartOnLogin
    } else if id == ID_TOGGLE_ENABLED {
        WindowAction::ToggleEnabled
    } else if id == ID_HIDE_TRAY {
        WindowAction::HideTrayIcon
    } else if id == ID_ABOUT {
        WindowAction::ShowAbout
    } else if id == ID_EXIT {
        WindowAction::CloseWindow
    } else {
        WindowAction::Handled
    }
}

/// Decides what a message to the hidden window asks for.
pub fn window_action(msg: u32, wparam: usize, lparam: isize, wake_msg: u32) -> (r: WindowAction)
    ensures
        r == action_of(msg, wparam, lparam, wake_msg),
{
    if msg == wake_msg && msg != 0 {
        return WindowAction::ShowTrayIcon;
    }
    if msg == WM_TRAYICON {
        let event: u32 = #[verifier::truncate] (lparam as u32);
        if event == WM_RBUTTONUP || event == WM_LBUTTONUP {
            return WindowAction::ShowTrayMenu;
        }
        return WindowAction::Handled;
    }
    if msg == WM_COMMAND {
        assert(wparam & 0xffff == wparam % 0x10000) by (bit_vector);
        return menu_command(wparam & 0xffff);
    }
    if msg == WM_DESTROY {
        WindowAction::Quit
    } else {
        WindowAction::Unhandled
    }
}

/// One line of the tray menu.
#[derive(Debug, Clone, Copy)]
pub enum MenuEntry {
    Command { id: usize, label: &'static str, checked: bool },
    Separator,
}

/// What a line of the tray menu says.
#[verifier::ext_equal]
pub enum MenuText {
    Command { id: usize, label: Seq<char>, checked: bool },
    Separator,
}

impl View for MenuEntry {
    type V = MenuText;

    open spec fn view(&self) -> MenuText {
        match self {
            MenuEntry::Command { id, label, checked } => MenuText::Command {
                id: *id,
                label: label@,
                checked: *checked,
            },
            MenuEntry::Separator => MenuText::Separator,
        }
    }
}

/// A menu command without a check mark.
pub open spec fn command(id: usize, label: Seq<char>) -> MenuText {
    MenuText::Command { id, label, checked: false }
}

/// The tray menu, from top to bottom.
pub open spec fn menu_of(enabled: bool, start_on_login: bool) -> Seq<MenuText> {
    seq![
        command(
            ID_TOGGLE_ENABLED,
            if enabled {
                "Disable replacements"@
            } else {
                "Enable replacements"@
            },
        ),
        command(ID_HIDE_TRAY, "Hide tray"@),
        MenuText::Command {
            id: ID_TOGGLE_STARTUP,
            label: "Start on login"@,
            checked: start_on_login,
        },
        MenuText::Separator,
        command(ID_RELOAD, "Reload replacements"@),
        command(ID_OPEN_CONFIG, "Open replacements.json"@),
        command(ID_OPEN_SETTINGS, "Open settings (config.json)"@),
        MenuText::Separator,
        command(ID_ABOUT, "About"@),
        MenuText::Separator,
        command(ID_EXIT, "Exit"@),
    ]
}

/// A menu command without a check mark.
fn plain(id: usize, label: &'static str) -> (r: MenuEntry)
    ensures
        r@ == command(id, label@),
{
    MenuEntry::Command { id, label, checked: false }
}

/// The tray menu, from top to bottom. Without a state it is that of a program
/// that is switched on and does not launch at login.
pub fn tray_menu(state: Option<&AppState>) -> (r: Vec<MenuEntry>)
    ensures
        r@.map_values(|e: MenuEntry| e@) == match state {
            Some(s) => menu_of(s@.enabled, s@.start_on_login),
            None => menu_of(true, false),
        },
{
    let (enabled, start_on_login) = match state {
        Some(s) => (s.enabled(), s.start_on_login()),
        None => (true, false),
    };
    let toggle = if enabled {
        "Disable replacements"
    } else {
        "Enable replacements"
    };
    let mut r: Vec<MenuEntry> = Vec::new();
    r.push(plain(ID_TOGGLE_ENABLED, toggle));
    r.push(plain(ID_HIDE_TRAY, "Hide tray"));
    r.push(
        MenuEntry::Command {
            id: ID_TOGGLE_STARTUP,
            label: "Start on login",
            checked: start_on_login,
        },
    );
    r.push(MenuEntry::Separator);
    r.push(plain(ID_RELOAD, "Reload replacements"));
    r.push(plain(ID_OPEN_CONFIG, "Open replacements.json"));
    r.push(plain(ID_OPEN_SETTINGS, "Open settings (config.json)"));
    r.push(MenuEntry::Separator);
    r.push(plain(ID_ABOUT, "About"));
    r.push(MenuEntry::Separator);
    r.push(plain(ID_EXIT, "Exit"));
    assert(r@.map_values(|e: MenuEntry| e@) =~= menu_of(enabled, start_on_login));
    r
}

/// The number of characters of the tray icon's tip that fit, the closing zero
/// counting as one.
pub open spec fn fitting(length: nat, capacity: nat) -> nat {
    if length <= capacity {
        length
    } else {
        capacity
    }
}

/// The tray icon's tip as a wide string, cut to the room that there is for it.
pub fn tray_tip(capacity: usize) -> (r: Vec<u16>)
    ensures
        r@ == utf16(TRAY_TIP@).push(0).take(
            fitting(utf16(TRAY_TIP@).len() + 1, capacity as nat) as int,
        ),
        r@.is_prefix_of(utf16(TRAY_TIP@).push(0)),
        r@.len() <= capacity,
        r@.len() == utf16(TRAY_TIP@).len() + 1 || r@.len() == capacity,
{
    let mut tip = to_wide(TRAY_TIP);
    let ghost whole = tip@;
    if tip.len() > capacity {
        tip.truncate(capacity);
    }
    assert(tip@ =~= whole.take(fitting(whole.len(), capacity as nat) as int));
    tip
}

/// The flags to load an icon with: the system's default size where no size is
/// asked for.
pub fn icon_load_flags(cx: i32, cy: i32) -> (r: u32)
    ensures
        r == if cx == 0 && cy == 0 {
            0x0040u32
        } else {
            0
        },
{
    if cx == 0 && cy == 0 {
        LR_DEFAULTSIZE
    } else {
        0
    }
}

/// What to do about the value that makes Windows launch the program at login.
#[derive(Debug)]
pub enum LoginEntry {
    /// Set it to this command.
    Write(String),
    /// Leave it as it is.
    Keep,
    /// Delete it.
    Delete,
}

/// Decides what becomes of the login entry. The command is quoted, so that it
/// stays correct where the path holds spaces; where the program's own path is
/// not known, nothing is set.
pub fn login_entry(enabled: bool, exe_path: Option<String>) -> (r: LoginEntry)
    ensures
        !enabled ==> r is Delete,
        enabled ==> match exe_path {
            Some(path) => r is Write && r->Write_0@ == seq!['"'] + path@ + seq!['"'],
            None => r is Keep,
        },
{
    if !enabled {
        return LoginEntry::Delete;
    }
    match exe_path {
        Some(path) => {
            let mut quoted = String::new();
            quoted.push('"');
            quoted.append(path.as_str());
            quoted.push('"');
            assert(quoted@ =~= seq!['"'] + path@ + seq!['"']);
            LoginEntry::Write(quoted)
        },
        None => LoginEntry::Keep,
    }
}

/// The size of a wide string in bytes, as the registry counts it.
pub fn wide_byte_len(data: &Vec<u16>) -> (r: u32)
    requires
        data@.len() * 2 <= usize::MAX,
    ensures
        r == (data@.len() * 2) as u32,
{
    #[verifier::truncate] ((data.len() * 2) as u32)
}

/// Every command of the tray menu is one that the window acts on.
pub proof fn menu_commands_are_handled(
    enabled: bool,
    start_on_login: bool,
    entry: int,
    lparam: isize,
    wake_msg: u32,
)
    requires
        0 <= entry < menu_of(enabled, start_on_login).len(),
    ensures
        menu_of(enabled, start_on_login)[entry] matches MenuText::Command { id, .. } ==> {
            let action = action_of(WM_COMMAND, id, lparam, wake_msg);
            &&& action == command_action(id as int) || wake_msg == WM_COMMAND
            &&& action != WindowAction::Handled && action != WindowAction::Unhandled
        },
{
}

/// No two commands of the tray menu do the same.
pub proof fn menu_commands_differ(enabled: bool, start_on_login: bool, i: int, j: int)
    requires
        0 <= i < j < menu_of(enabled, start_on_login).len(),
    ensures
        menu_of(enabled, start_on_login)[i] matches MenuText::Command { id: first, .. } ==> (
        menu_of(enabled, start_on_login)[j] matches MenuText::Command { id: second, .. } ==>
        command_action(first as int) != command_action(second as int)),
{
}

} // verus!
