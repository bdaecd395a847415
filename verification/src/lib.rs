pub mod digest;
pub mod durability;
pub mod text;
pub mod order;
pub mod model;
pub mod violations;
pub mod production_bridge;
pub mod serialization;
pub mod derivation;
pub mod review_ledger;
pub mod governance;
pub mod json;
pub mod oracle;
pub mod scenario_contract;
pub mod classification;
pub mod measurement;
pub mod candidate_equivalence;
pub mod readiness;
pub mod evidence_fixture;
pub mod projection;
pub mod evidence_01c;
pub mod append_authority;
pub mod append_scoped;
pub mod append_replay;
pub mod append_protocol;
pub mod sqlite_authority;
pub mod sqlite_rows;
pub mod sqlite_load;
pub mod sqlite_scoped;
pub mod sqlite_transition;
