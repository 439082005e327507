# noches_ui

The decisions behind the Noches desktop interface, verified with Verus: panes,
tabs and drags, terminals, live voice, subagents, updates and project icons.

- `src/` holds the library. Each module models its state by a view, states each
  operation over that view, and proves what holds across operations as public
  proof functions.
- `tests/` runs the library on concrete values.
- `app/` connects it to devices, sockets, files and floating-point geometry.

State machines take an event and return what has to be done; whoever owns the
engine, the sockets or the window does it and hands back the outcome.

Calls into other crates (base64, chrono, sha2) stand behind small wrappers in
`codec`, `clock` and `layout_file`; what is claimed of each is said above it.
