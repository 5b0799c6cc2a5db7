# errorstack

Typed error stacks with source-code locations, verified with Verus.

The library (`src/`) holds the logic of the `ErrorStack` derive and of
error reports:

- `model` — the derive's input as plain values (item, variants, fields,
  field types, attribute names).
- `fields` — classification of fields into the error source, the location
  field and the caller-supplied fields, with the clash errors.
- `naming` — constructor names (snake case through `heck`).
- `plan` — the constructors and links generated for a struct or variant,
  including the `_with` constructor of an optional source.
- `render` — the generated items as Rust source text.
- `derive` — the whole expansion of an item, or the error it reports.
- `report` — report entries, the walk over an error chain, and the
  rendering of a report.
- `laws` — properties of the derive and of reports, proved for all inputs.
- `text` — decimal rendering and string comparison.

`app/` holds what cannot be verified: the `ErrorStack` trait itself (it
extends `std::error::Error` and hands out `std::panic::Location`s), the
loop that asks `dyn ErrorStack` values for their links, the `Display` and
`Debug` impls of reports, and the conversion between `syn` syntax trees,
the library's model and `proc_macro2` tokens.
