# rpkl

Language bindings to [Pkl](https://pkl-lang.org) for Rust, with the logic verified by Verus.

- `src/` is the verified library: decoding the MessagePack bytes of an evaluated module,
  read with `rmpv` behind a trusted wrapper (`msgpack`, `decoder`), turning members into insertion-ordered maps (`pkl`, `value`), the messages
  of the pkl message-passing API and the decisions taken on them (`internal::msgapi`,
  `api`), evaluator options, client-side and external readers, integer and duration
  helpers (`types`, `utils`), the code generator's options (`codegen`) and command-line
  mappings (`cli`). Public functions state their results in contracts; the laws of the
  library (map read-after-write, unique keys, last-member-wins, parse/format round trip,
  narrowest integer widths) are proof functions.
- Readers are traits that users implement. Their spec functions (`spec_scheme`,
  `spec_hierarchical`, `spec_globbable`, `spec_local`, `read_gives`, `list_gives`) are
  what verified code knows of a reader: the request handlers state that the first reader
  of a URI's scheme answers and that its outcome is what is sent, and the descriptions
  sent to the server carry the reader's scheme and flags. The flag methods have no
  default bodies, since a default body could not be held to a spec function that an
  implementation overrides.
- Registering readers that share a scheme is ruled out by the `requires` of
  `add_resource_readers` and `add_module_readers`; `try_add_resource_readers` and
  `try_add_module_readers` check and report it instead.
- `app/` is the rest: the `pkl server` process and its pipes (the evaluate loop follows
  the verified `evaluate_step`), the external reader loop on
  standard input and output, MessagePack and serde codecs, float arithmetic of durations,
  and the code generator's command line.
- `tests/` runs the library on concrete values.
