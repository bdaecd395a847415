pub mod types;
pub mod methodology;
pub mod scenario_observation;
pub mod readiness;
pub mod comparison;
pub mod measurement_ops;
pub mod measurement_transitions;
pub mod candidate;
pub mod runner;
pub mod scenarios;
pub mod measurements;
