# udf

A library for writing MySQL and MariaDB user-defined functions (UDFs) in
Rust, with its logic verified by Verus.

A UDF is a struct implementing `BasicUdf` (and `AggregateUdf` for
aggregates). The server calls C entry points with raw buffers; the library
turns those into plain values (`ArgList`, `UdfCfg`) and turns the UDF's
results back into the server's flags and buffers.

Layout:

- `src/` — the verified library: SQL types and values (`sql_types`),
  argument lists and type coercion (`arg`, `coerce`), result configuration
  (`config`), the work around each server call (`wrapper`), the checks of a
  UDF's registration (`registration`, `ret_types`), compile-time-style
  buffer helpers (`const_helpers`), mocks for testing UDFs (`mock`) and
  example UDFs (`examples`).
- `app/` — ordinary Rust around it: the C entry points and pointer handling,
  logging, the code generator behind `#[register]`, the `mock_args!` and
  `udf_log!` macros, and the example UDFs that use floating point or the
  network.
- `tests/` — tests of the library.
