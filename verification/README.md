# pliron_python

The verified core of pliron's Python bindings.

`src/` is a Verus library. It holds the decisions behind the bindings' code
generators and runtime, each with a contract:

- `tokens`, `text`, `syntax` — a flat model of token streams, character-text
  helpers, and what `syn` accepts as an identifier or string literal.
- `envelope`, `reflect` — the `pliron_reflect_v1` envelope: its grammar and
  parser, and the export side that emits it (with round-trip laws).
- `rust_type` — the model of Rust type expressions, their classification
  (`&Context`, PyO3-trivial, `PyMap`-routed) and `Self` substitution.
- `method_plan` — the Python mirror of an `impl` block: receivers,
  parameters, context injection and return conversion of every `pub fn`.
- `class_plan`, `derive_plan`, `entity_name` — wrapper-class naming and
  getters, the checks of `#[def_type]` / `#[def_attribute]` /
  `#[derive_type_get]`, and the search for an item's `dialect.entity` name.
- `registration`, `active_context`, `builtin_types`, `callbacks`, `py_map` —
  routing of classes into dialect submodules (order-independent), the
  per-thread active context, signedness and IR-status values, the policies
  around calls into Python objects, and typed-handle wrappers.

`app/` is ordinary Rust around the library: it converts `syn` syntax into the
library's models, emits tokens from the library's plans with `quote`, and does
the pyo3 side of the runtime.
