//! Expands abbreviations as they are typed, keeping the case of the typed word.
//!
//! [`case`] and [`replacements`] turn a typed word into its expansion.
//! [`state`] tracks the word in progress from key press to key press and decides
//! when to replace it or to take a replacement back; [`input`] works out the
//! keystrokes that do so. [`settings`] and [`shell`] hold what the tray menu and
//! the configuration files are about. What holds of all of it together is in
//! [`editor`] and [`laws`]; what each part owes for every input, in [`case_laws`],
//! [`typing_laws`], [`keystroke_laws`] and [`desktop_laws`].

pub mod case;
pub mod case_laws;
pub mod desktop_laws;
pub mod editor;
pub mod input;
pub mod keys;
pub mod keystroke_laws;
pub mod laws;
pub mod replacements;
pub mod settings;
pub mod shell;
pub mod state;
pub mod text;
pub mod typing_laws;
pub mod utf16;

pub use case::{apply_case, detect_case, CaseStyle};
pub use replacements::{expand, load_config_map, ConfigError};
pub use vstd::hash_map::StringHashMap;
