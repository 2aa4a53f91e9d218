# brush

The decisions of an embeddable shell, verified with Verus: which commands and programs an
interceptor lets through, what the `exec` builtin does, and how a run with captured output
proceeds.

- `src/` is the verified library.
  - `extensions` - the traits a host implements: `ErrorFormatter`, `CommandInterceptor`,
    `ShellExtensions`; and their defaults, which change nothing.
  - `shell` - the parts of a shell that hooks and builtins look at.
  - `commands` - dispatch of commands and opening of files under an interceptor.
  - `error`, `outcome` - failures, exit codes, and which failures end a run.
  - `exec` - the `exec` builtin.
  - `capture`, `completed` - runs with captured output, and their results.
  - `host` - what a captured run does to the files and the shell that the host works on.
  - `settings` - set-up of an embedded shell, and variables set from outside.
  - `text` - text out of bytes, and the forms in which values are shown.
- `tests/` runs the library.
- `app/` connects the library to the `brush_core` and `brush_builtins` crates, which parse and
  run shell code, and to Python.

Two functions of the standard library are trusted, both in `text`: `String::from_utf8_lossy`
and the `{:?}` form of a string.
