# synchole

Device-to-device synchronization primitives, written in Verus and verified:

- `src/` — the library. Identifiers, hybrid logical clocks, version vectors
  and their causality laws, the trust policy, storage records and their
  SQLite row layout, the conflict rules of the sync protocol (last-writer-wins
  convergence, keep-both), configuration defaults and binding values.
- `app/` — ordinary Rust around it: the async extension traits, the SQLite
  store, the engine that talks to peers, the SDK facade, serde and thiserror
  forms of library types, and the C ABI, JNI and WebAssembly entry
  points.
- `tests/` — tests of the library on concrete values.
