# quack_rs

A toolkit for writing `DuckDB` loadable extensions in Rust, with its logic
verified by Verus.

- `src/` is the verified library: the checks that keep a value `DuckDB` would
  throw on away from the C API (dates, times, timestamps, time zones,
  decimals, intervals, catalog lookups, SQL text), the error categories and
  the exception JSON `DuckDB` reports them in, the entry point's decisions
  (the layout-check policy, refused arguments), the validation of extension
  metadata, and the project scaffold with its YAML quoting and doc comments.
  Every public function states its result in its `ensures`; the laws that
  relate several functions (round trips, injectivity, what a policy never
  does) are public proof functions beside them.
- `app/` is the C API side: the RAII handles and FFI calls, which take every
  decision from the library.
- `tests/` exercises the library on concrete values.

The outside crate is `libduckdb-sys`, built with `loadable-extension` and
without its default features.
