# uplink

The decisions of the Uplink desktop client, verified with Verus: what the window, the
login, the pages, the icon of a new release and the dialog of a call show, and what the
tasks that run beside them do next.

- `src/` is the library. Every function takes plain values and states in its contract what
  it decides; public proof functions state what holds of several of them together.
  - `launch`, `window`, `auth`, `session`: from the start of the program to the events of
    its window.
  - `extensions`: the search for extensions.
  - `tasks`: the tasks that run beside the user interface.
  - `routes`, `calls`, `toasts`, `updates`, `style`, `text`: what is shown.
  - `ids`, `platform`: identifiers and operating systems.
- `app/` is the program: it draws with Dioxus what the library decides, talks to the
  backend and the disk, and hands back what came of it.
- `tests/` runs the library on concrete values.
