# kdwm

The configuration of a penrose window manager, with its logic as a verified
library.

- `src/` — the library, verified with Verus: text handling (`text`), the
  clock texts (`clock`, through `chrono`), the bar's texts (`status`), the
  media player (`media`), the commands run (`command`), the bar, layouts and
  window-manager settings (`bar`, `widgets`) and the key bindings
  (`bindings`).
- `app/` — the program: it runs the commands, reads the battery files,
  builds the penrose and penrose_ui values from the library's descriptions and
  starts the window manager.
- `tests/` — tests of the library.
