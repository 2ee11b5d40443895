# commitlabs

The logic of the CommitLabs Soroban contracts (commitment transformation,
price oracle, mock oracle, version registry and the shared storage, pause,
math and validation helpers), written in Verus with its behaviour stated in
`requires` / `ensures` contracts and proved.

- `src/` — the verified library. Each contract's storage is a value of a
  library type with a mathematical view; every entry point takes the
  caller's address and the ledger time as plain values and returns the
  contract's answer as a `Result`. Laws that relate several operations are
  public proof functions next to the code they speak of.
- `tests/` — tests that run the library on concrete values.
- `app/` — the Soroban contract shells: authentication, conversion between
  host values and plain values, token transfers, code upgrades and events.

Verification: `verus src/lib.rs` with the crate's dependencies.
