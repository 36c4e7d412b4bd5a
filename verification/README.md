# zeterm

The state and decision logic of Zeterm, an SSH terminal client, written in
Verus and proved against its contracts.

- `src/` is the verified library: tabs and split layouts, the main window's
  state, the host list and its dialogs, host key questions, the SFTP
  browser (path bar, file list, transfer queue), the status bar, themes,
  text input, and the session's decisions (connection state, reconnection,
  the data pump and redraw pacing). Each public function states in its
  contract what it returns or changes; the `law_*` proof functions state
  properties that span several calls.
- `tests/` runs the library on concrete values.
- `app/` is the program around it: logging, the shared asynchronous
  runtime, the terminal emulator, the theme settings file, the operating
  system's dark mode, and the host key channel.
