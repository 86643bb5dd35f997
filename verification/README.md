# limux

A GTK terminal host built on libghostty-vt: a PTY running the user's shell,
a VT terminal fed from it, and a Cairo/Pango renderer with keyboard input.

- `src/` is the verified library: the key map and key events (`keys`), the
  cell grid and resizing (`grid`), what is painted for cells and the cursor
  (`render`), title decoding (`effects`), the shell and PTY decisions (`pty`),
  the Ghostty resources search (`resources`), the GTK log filter and
  environment values (`logs`), and the plain-data model of the libghostty-vt
  interface (`ghostty`). `strings` holds the standard-library text operations
  the library calls, each with the contract its documentation gives.
- `app/` is the program: GTK widgets, the libghostty-vt C calls, fork/exec of
  the shell, file-system and environment access.
- `tests/` runs the library on concrete values.
