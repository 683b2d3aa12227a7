# recenter_mouse

A Windows utility that brings the mouse cursor, and optionally the window in
front, back to the centre of the primary display when a global hotkey is
pressed or its tray icon is clicked.

- `src/` is the verified library (Verus): the settings model and its hotkey
  text, key-name parsing into Win32 virtual-key codes, modifier flags, display
  geometry, the settings dialog's validation and preselection, the tray menu,
  the startup-registration outcome, the command line and the dispatch of
  window messages.
- `app/` is the Windows program around it: the Win32 calls, the registry, the
  JSON settings file (serde) and the message loop.
- `tests/` exercise the library, and compare its Win32 constants with those of
  `windows-sys`.
