# cap_ime_switch

CapsLock remapping for Windows: a short press of CapsLock switches the input
method (Win+Space), a long press (500 ms by default, 100–5000 ms adjustable)
toggles case; another key pressed while CapsLock is held cancels the press.
An option runs the program as administrator (started at login through an
elevated scheduled task), so that CapsLock also works in elevated windows.

- `src/` is the verified library (Verus): the press state machine, the
  keyboard-hook and timer decisions, configuration normalisation, the
  exclusion-list and delay parsers, the language tables, the tray/panel
  command decoding, the run-as-administrator plan (task, `Run` value,
  relaunch), template filling, UTF-16 encoding and decoding (registry
  values, process image names) and ICO image choice.
  Each public function carries a contract; the laws (at most one action per
  press, the timer runs exactly while a press is undecided, what the panel
  shows reads back the same, ...) are proof functions next to the code.
- `app/` is the Windows program: low-level keyboard hook, tray icon and menu,
  options panel, registry autostart, `schtasks`/elevated relaunch,
  `config.toml` via serde/toml, icon drawing. It performs what the library decides.
- `tests/` runs the library on concrete values.
