# hachimi

The text and UI hooks of a game mod, as a library whose logic is proved with
Verus.

- `src/` is the verified library. Each hooked game class has a module under
  `src/il2cpp/hook/`, named after the class; it holds the decisions the hook
  makes (which text a label shows, which settings a text generation gets, which
  elements move and by how much, what the settings dialog reads and saves), each
  with a contract, and the laws that tie them together as proof functions.
  `src/text.rs` holds the character-level string operations the hooks share, and
  `src/fnv_collections.rs` the trusted contracts of the `fnv` maps and sets.
  Floating-point values are carried as `f32` bit patterns and never computed on.
- `app/` is ordinary Rust around the library: the serde form of the override
  configuration, process-wide state behind locks, translations, the order in
  which the generation hook composes the library's decisions, the settings
  dialog's save and option lists, and the floating-point arithmetic (positions,
  slider values, font scale, the `scale` and `ls` filters). The engine bindings
  themselves belong to the host and are reached through small traits.
- `tests/` runs the library on concrete values.
