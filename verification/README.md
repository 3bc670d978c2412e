# Cursory

Cursory confines the mouse cursor on Windows to an application window, a
monitor, or a rectangle drawn on screen, toggled from a button or a global
hotkey, with a tray icon and settings kept in `%APPDATA%\cursory\settings.conf`.

The decisions of the program live in a library verified with Verus (`src/`):

- `geometry`, `monitor`, `custom_rect`: rectangles, the display layout, the
  custom-rectangle inputs and the caption of the selected display;
- `confine`: resolving a target to a clip rectangle and the state of the
  background clip loop (`ClipState::tick`);
- `settings`: reading and writing the settings file, with the proof that a
  saved file reads back to the same settings;
- `hotkey`: key combos, their descriptions and saved form, the recording
  session and the binding's bookkeeping (the hotkey text parser is
  `global_hotkey`'s, reached through one trusted wrapper);
- `target`: which windows the picker lists and in what order;
- `tray`: tray tooltips, the minimized-window probe, and reading `.ico` files;
- `app_core`, `handlers`: the settings window's state and how it answers each
  message, as a transition to a new state plus a list of commands;
- `laws`: properties spanning several operations.

`app/` is the Windows program around it: the iced windows, the Win32 calls
(cursor clipping, window and monitor lists, tray icon, single instance,
start-up registration), the hotkey registration and the settings file I/O.
It carries out the commands the library returns. `tests/` runs the library on
concrete values.
