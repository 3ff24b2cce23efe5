# tixschema

Emitters for the source text a schema publishes in other languages, verified with Verus:

- Kotlin declarations with `kotlinx.serialization` annotations for each declared item
  (`src/kotlin.rs`, its fixed text in `src/kotlin_text.rs`, its laws in `src/kotlin_laws.rs`);
- the Kotlin `ws_rpc` client, transport and dispatcher (`src/kotlin_ws_client.rs`,
  `src/kotlin_ws_text.rs`);
- the Swift `ws_rpc` client actor (`src/swift_ws_client.rs`, `src/swift_ws_text.rs`) and Swift
  type names (`src/swift_type.rs`);
- the TypeScript connection-accepting `ws_rpc` server (`src/ws_server.rs`,
  `src/ws_server_text.rs`);
- the Dart sealed result families (`src/dart_result.rs`);
- the message naming, bound arguments and raw-string coercion shared by the TypeScript sides
  (`src/message.rs`).

Every emitter works on a plain model of the Rust declarations it describes: `src/field_def.rs`
(a field's type), `src/item.rs` (a declared struct, enum or alias), `src/service.rs` (a service and
its operations), with serde's rename rules in `src/rename_rule.rs` and the registry of published
names in `src/names.rs`. Each emitter's contract states its whole output as a spec function of
that model.

`app/` reads a `syn` item into the model and wraps each item's Kotlin text in the module tokens a
macro expands to.
