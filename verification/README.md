# Textpander

Expands abbreviations as they are typed, anywhere on a Windows system, keeping
the case of the typed word: `pls` followed by a space becomes `please`, `Pls`
becomes `Please`, and `PLS` becomes `PLEASE`. A Backspace right afterwards takes
the expansion back.

- `src/` is the library, verified with Verus: casing, the replacements, the
  tracking of the typed word, the keystrokes that are sent, the settings and the
  tray menu. `src/laws.rs` and `src/editor.rs` state what holds of these together.
- `app/` is the program around it: the keyboard hook, the tray icon, the registry
  and the two files in `%APPDATA%\Textpander\`, `replacements.json` and
  `config.json`.
- `tests/` holds the library's tests.
