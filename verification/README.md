# pmenu

A password picker: the entries of a `pass` or `passage` store are offered in a
menu (`wofi`, `fuzzel`, `bemenu`), and the chosen field of the chosen entry is
copied to the clipboard (`wl-clipboard`, `xclip`) or typed into the focused
window (`wtype`).

- `src/` is the library, verified with Verus: entry parsing, the picker flow as a
  state machine, configuration resolution (defaults, config file, command line),
  the backends' choices and argument lists, what each program run means, the
  listing of store entries, and the focused-window search.
- `app/` is the program around it: command-line parsing with clap, the
  environment and the file system, the TOML parse, tracing, and running the
  external programs.
- `tests/` exercises the library on concrete values.
