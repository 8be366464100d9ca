# ferriscan

Code metrics for Rust projects: size, cyclomatic and cognitive complexity, maintainability
and Halstead measures, per function, file, crate and workspace, with comparisons between two
versions of a workspace.

## Layout

- `src/` is the verified library (Verus). It holds the logic that decides without touching
  the machine: parsing repository sources (`path@ref` URLs), the arguments of `git clone`,
  crate discovery as a state machine that the caller drives with what the file system holds,
  the shape of parsed source trees (which spaces are functions, how many of each kind),
  integer count primitives and file counts, and the messages of the errors.
- `app/` is the program around it: command-line parsing, the file system, `git`,
  rust-code-analysis, and the floating-point metrics, their averages, thresholds and reports.
- `tests/` exercises the library on concrete values.
