# phosphor_core

The vocabulary and the Action spine of the Phosphor editor, written in
Verus: the library's functions carry contracts that Verus proves, and the
properties that span several calls are stated and proved as lemmas. Where a
result comes from the standard library's Unicode tables or from a keymap the
user supplies, the contracts say what holds of every answer rather than what
the answer is.

## Layout

- `src/` — the verified library.
  - `registry.rs` and `registry/` — the one registry of capabilities and its
    three doors: Steel bindings (`steel.rs`), MCP tools with their JSON
    schemas (`mcp.rs`) and CLI verbs with flag flattening and reading
    (`cli.rs`).
  - `action.rs`, `query.rs` — the rows of every Action and Query.
  - `calls.rs` — Actions and Queries as door-neutral calls, both ways, with
    the round trip proved.
  - `codec.rs` — each payload type's wire form, both ways, with the round
    trip proved.
  - `request.rs` — the payload nouns and their declared shapes.
  - `input.rs` and `input/` — key notation, the keymap table, the seed vim
    table, the text motions and objects, and the modal input machine.
  - `journal.rs` and `journal/` — the journal codec and framing, the undo
    history fold and its compaction.
  - `language.rs`, `config.rs`, `value.rs`, `text_util.rs` — the language
    table, configuration paths, door-neutral values (and the `Wire` trait
    every payload type implements) and text helpers.
- `tests/` — behaviour checked on concrete values.
- `app/` — what touches the file system and the environment: opening,
  appending to and rewriting journal files, and finding the state directory.
