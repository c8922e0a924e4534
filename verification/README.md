# zkos_hooks

The system hooks of the ZKsync OS execution environment on revm, as a
library whose behaviour is stated in contracts and proved with Verus.

- `src/` — the verified library: byte and word helpers (`words`), gas
  accounting (`gas`), call outcomes (`outcome`), the L2→L1 log store
  (`chain`), the hooks (`l1_messenger`, `l2_base_token`, `l2_base_token_v1`,
  `deployer`, `deployer_v1`, `nonce_holder`, `known_codes`), the precompile
  table (`precompiles`), deposit transaction parts (`transaction`), and the
  properties that span several operations (`laws`).
- `app/` — plain Rust that runs the hooks against a revm context: it reads
  the call inputs, performs the journal and database reads and writes the
  hooks ask for, and implements revm's `PrecompileProvider`. The gas schedule
  of the hooks, the Ethereum fork of each version and the L1 messenger of the
  first version come from the embedding environment (`HookEnvironment`).
- `tests/` — tests of the library on concrete calls.
