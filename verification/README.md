# voxproof_evidence

A verified library for the persistence evidence of VoxProof: the
current-contract evidence model of a review session, the independent oracle
that validates and compares states, and the decisions of two storage
candidates (an append log and a set of SQLite tables) that are compared
against the same scenarios and measurements.

Every function in `src/` is checked by Verus against its `requires` /
`ensures` contract. Laws that relate several functions are public proof
functions whose names start with `law_`.

## Layout

- `src/model.rs`, `src/derivation.rs`, `src/governance.rs`,
  `src/review_ledger.rs`, `src/production_bridge.rs`: the evidence state, the
  rebuild of its derived fields, governance of reusable corrections, the
  review ledger and the identity checks shared with the review application.
- `src/oracle.rs`, `src/violations.rs`, `src/json.rs`, `src/digest.rs`:
  the oracle, its findings, and the fingerprints. A fingerprint is
  `semantic:sha256-v1:` (or `derived:sha256-v1:`) and the hex SHA-256 of the
  compact JSON text of a projection, as the stored state writes it.
- `src/append_*.rs`: the append candidate: replay of its log, the decisions
  of an append, scoped commands.
- `src/sqlite_*.rs`: the SQLite candidate: rows, metadata, writer leases,
  reconstruction, transitions, scoped commands.
- `src/scenario_contract.rs`, `src/measurement.rs`, `src/durability.rs`,
  `src/evidence_01c/`: the scenario and measurement contracts, durability
  experiments, and the decisions of an evidence run (routing, outcomes,
  aggregation, readiness, comparison).
- `app/`: the surroundings the library does not verify: clock readings,
  configuration from the environment, file I/O for the append log, and the
  JSON form of its records (serde copies of the state types).
- `tests/`: tests of the library on concrete values.

SHA-256 comes from the `sha2` crate through one trusted wrapper
(`digest::sha256`); time, files and the database are read outside and handed
to the library as plain values.
