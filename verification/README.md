# dashcat

The logic of DashCat, a Windows tray utility (clipboard history, CPU and
memory monitor, sleep prevention, mouse wheel reversal), as a Verus library.

- `src/` — the verified library:
  - `settings` — modes, languages and the default settings;
  - `caffeine` — the thread execution state for each sleep prevention mode;
  - `wheel` — the hook state and the arithmetic of reversed wheel messages;
  - `monitor` — the CPU counter's sampling schedule and the memory load;
  - `icon` — decoding, tinting and packing icon frames, the frame cycle;
  - `menu` — the items of the tray menu;
  - `window` — the meaning of tray window messages;
  - `clipboard` — records and items of the history, capture, previews,
    search patterns, expiry, entries copied back, image files to delete;
  - `autostart` — the registry value that launches the program at login;
  - `text` — character-level helpers.
- `app/` — the Windows program around it: Win32 calls, SQLite storage,
  settings files, the clipboard, the message loop.
- `tests/` — tests of the library.
