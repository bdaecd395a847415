//! The scales of the candidate-neutral evidence fixture.
use vstd::prelude::*;

verus! {

/// The id of the small evidence fixture.
pub const SMALL_FIXTURE_ID: &'static str = "voxproof-persistence-evidence-small";

/// The version of the small evidence fixture.
pub const SMALL_FIXTURE_VERSION: &'static str = "2";

/// The size of an evidence fixture workload.
#[derive(Debug, Clone, Copy, PartialEq, Eq, Structural)]
pub enum FixtureScale {
    Small,
    Medium,
    Stress,
}

impl FixtureScale {
    /// Only the small fixture is implemented.
    pub fn is_implemented(self) -> (r: bool)
        ensures
            r == (self == FixtureScale::Small),
    {
        match self {
            FixtureScale::Small => true,
            _ => false,
        }
    }
}

} // verus!
