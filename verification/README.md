# chunk_merge

Merges the ECMAScript modules of a chunk into one module, and proves with Verus
what merging does to names, exports and imports.

- `src/` is the verified library. `merge` decides which module is merged when;
  `export_renamer`, `actual_marker`, `unexporter`, `local_marker` and `injector`
  are the passes over a module; `syntax`, `run`, `pattern`, `specifier`, `scope`
  and `hygiene` are what they work on. `connection`, `uses`, `marking_laws` and
  `renaming_laws` state what the passes give together, `merge_laws` what one step of a merge
  gives, and `whole_merge` what a merge gives from its first step to its last.
- `tests/` runs the library.
- `app/` reads modules of `swc_ecma_ast`, runs a merge and writes the result
  back. Other stages of a bundler (re-exports, circular modules, CommonJS, tree
  shaking) plug in through its `Stages` trait.

`ast_node`, `scoped-tls`, `serde` and `swc_macros_common` are named in
`Cargo.toml` only to hold them to the versions that this `swc_common` compiles
with.

The library trusts one statement about `swc_common`: that a mark applied to the
empty syntax context gives the chain of that one mark (`hygiene`).
