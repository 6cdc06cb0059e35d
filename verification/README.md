# Ultradian Work

A desktop deep-work timer: phases of focused work alternate with rests, with
a time tracker for projects and their sessions and a to-do list whose tasks
can be exported to and imported from Excel.

- `src/` is the library, verified with Verus: the timer's state machine and
  the effects each step asks for (`ultradian`), recording sessions
  (`session_logic`), tasks and the task sheet (`task_logic`, with the
  export/import laws in `task_laws`), the tracker's state and its restoring
  after a restart (`tracker`), settings, durations of projects and sessions
  (`models`), what the screens display (`display`), interface texts (`i18n`),
  brightness parsing and screen tools (`screen`), text helpers (`text`),
  lookups by identifier (`ids`), and the clock and identifier readings the
  rest relies on (`clock`).
- `app/` is the program around it: the egui window, reading and writing the
  JSON data file, the Excel workbooks, desktop notifications and the screen
  commands (`brightnessctl`, `xset`, `loginctl`, `xdg-screensaver`).
- `tests/` runs the library on concrete values.
