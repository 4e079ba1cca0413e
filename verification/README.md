# react_compiler

Source locations and diagnostics of the React compiler, verified with Verus.

- `src/` is the verified library. `filename` interns filenames; `location` and
  `ast/location` hold the two forms of a source location and convert between
  them; `ast/raw_node` and `ast/node` hold what syntax tree nodes have in
  common; `category`, `diagnostic` and `error` report what went wrong; `text`
  builds text.
- `app/` is ordinary Rust around it: the interner of the process, serialization
  with serde, `Display` and `std::error::Error`.
- `tests/` runs the library.

Filenames are interned in a `FilenameInterner` that the caller passes in, so the
library itself has no global state.
