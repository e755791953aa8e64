# tui_studio

A code editor for the terminal, as a verified library and a thin program around it.

- `src/` is the library, written in Verus with its contracts proved: wide strings, the
  code buffer with its cursor, view and edit history, the editor and its modes, key
  bindings and commands, syntax highlighting, the in-memory screen and the panels that
  draw the editor on it, and the application's handling of keys and events.
- `app/` is the program: it reads the arguments and files, talks to the terminal, writes
  the saves the library asks for, and holds the copies of library types that carry
  `serde` and `thiserror` derives.
- `tests/` runs the library on concrete cases.

The keymap keeps its bindings in a `Vec` of entries whose view is the map they make, a
later entry replacing an earlier one for the same mode and key. Its keys are a mode and a
key, enums of the crate with derived `Eq` and `Hash`; of a `HashMap` with such keys
Verus proves nothing of what an insert or a lookup does, since it does not read the derived
impls, so the map is kept as a vector, where every lookup is proved.

A commit message (`COMMIT_EDITMSG`) has a language support of its own, which highlights
in gray the lines that start with `#`, the lines git leaves out of the message.
