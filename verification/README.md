# rune

The verified core of a scripting language: the parts of its compiler, of its
native modules and of its command line that decide something.

- `src/ast.rs`, `src/query.rs`, `src/compile/`: syntax trees, what is known of the
  items of a program, errors and metadata.
- `src/hir/`: lowering of syntax trees. `model.rs` and `rules.rs` say what every
  node is lowered to, and `lowering/` does it. `scopes.rs` resolves names, and
  `scope_laws.rs` holds the laws of scopes.
- `src/hash.rs`: hashes of names. `hash_laws.rs` says what those of the names in the
  native modules are, so that they are known to differ.
- `src/module/`: modules of native functions and types, in which no name is taken
  twice.
- `src/modules/`: the native modules for hash maps, testing and JSON. Functions are
  registered by numbers. `hash_map_calls.rs` and the functions `call` and `expand` of
  the other modules say what each number stands for.
- `src/runtime/`: values, and how they are compared and shown.
- `src/slice/`: iterators over slices, shared and mutable.
- `src/cli/`: formatting, differences, dumps and traces.
- `app/`: what reads files, writes to the terminal and waits for scripts.

What is not proved but believed stands in doc comments next to
`#[verifier::external_body]`: conversions of big integers, the difference between
two texts, how strings, characters and JSON errors are shown, and which of those
errors come from reading or writing.
