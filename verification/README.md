# flutter_rust_bridge

The verified core of a bridge between Rust and Dart, in Verus.

- `src/` is the library.
  - `codegen`, `codegen_all`, `steps`: the course of a code generation as a script of outside work,
    and of several generations in a row.
  - `rust_output`, `dart_output`: which files a generation writes and formats, and what is in them.
  - `config`, `paths`: the settings of a generation, and the parts of the paths in them.
  - `build_script`: what a build script does within a macro expansion.
  - `handler`, `calls`, `error`: calls from Dart, from the start to the report, whatever panics.
  - `data`: sample data of a bridged crate.
  - `text`: lines, numerals and quotes.
- `tests/` runs the library.
- `app/` is the program around it: the command line, files, processes, threads and ports.

What the library relies on without proof is marked `external_body` or `uninterp` in `text` and
`paths`; `error` declares an outside type.
