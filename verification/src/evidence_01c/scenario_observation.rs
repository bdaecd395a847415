use vstd::prelude::*;
use crate::evidence_01c::types::ScenarioExecutionStatus;
use crate::model::{opt_duplicate, opt_eq, opt_same, opt_view, vec_duplicate, vec_same, vec_view, SameAs};
use crate::text::concat3;

verus! {

/// An observed outcome label.
pub const OBSERVED_RECOVERY_NONE: &'static str = "none";

/// An observed outcome label.
pub const OBSERVED_RECOVERY_LAST_COMMITTED: &'static str = "last_committed_state";

/// An observed outcome label.
pub const OBSERVED_RECOVERY_SAFE_AUTOMATIC: &'static str = "safe_automatic_recovery";

/// An observed outcome label.
pub const OBSERVED_RECOVERY_MANUAL_REVIEW: &'static str = "manual_review_required";

/// An observed outcome label.
pub const OBSERVED_RECOVERY_UNRECOVERABLE: &'static str = "unrecoverable";

/// An observed outcome label.
pub const OBSERVED_RECOVERY_UNSUPPORTED_VERSION: &'static str = "unsupported_version";

/// An observed outcome label.
pub const OBSERVED_OPEN_NORMAL: &'static str = "normal";

/// An observed outcome label.
pub const OBSERVED_OPEN_REFUSED: &'static str = "open_refused";

/// An observed outcome label.
pub const OBSERVED_OPEN_UNSUPPORTED_VERSION: &'static str = "unsupported_version";

/// An observed outcome label.
pub const OBSERVED_OPEN_UNRECOVERABLE: &'static str = "unrecoverable";

/// An observed outcome label.
pub const APPEND_STALE_ASYMMETRY_LIMITATION: &'static str = "append: equivalent generation stale only; sqlite-specific precondition classes not exercised";

/// What a scenario run observed: never the contract's expectations echoed back.
pub struct ScenarioOutcome {
    pub status: ScenarioExecutionStatus,
    pub oracle_compare: bool,
    pub recovery_class: String,
    pub open_state: String,
    pub failure_code: Option<String>,
    pub limitations: Vec<String>,
}

/// The mathematical value of a [`ScenarioOutcome`].
pub struct ScenarioOutcomeView {
    pub status: ScenarioExecutionStatus,
    pub oracle_compare: bool,
    pub recovery_class: Seq<char>,
    pub open_state: Seq<char>,
    pub failure_code: Option<Seq<char>>,
    pub limitations: Seq<Seq<char>>,
}

impl View for ScenarioOutcome {
    type V = ScenarioOutcomeView;

    open spec fn view(&self) -> ScenarioOutcomeView {
        ScenarioOutcomeView {
            status: self.status,
            oracle_compare: self.oracle_compare,
            recovery_class: self.recovery_class@,
            open_state: self.open_state@,
            failure_code: opt_view(self.failure_code),
            limitations: vec_view(self.limitations@),
        }
    }
}

impl Clone for ScenarioOutcome {
    fn clone(&self) -> (r: Self)
        ensures
            r@ == self@,
    {
        ScenarioOutcome {
            status: self.status,
            oracle_compare: self.oracle_compare,
            recovery_class: self.recovery_class.clone(),
            open_state: self.open_state.clone(),
            failure_code: opt_duplicate(&self.failure_code),
            limitations: vec_duplicate(&self.limitations),
        }
    }
}

impl SameAs for ScenarioOutcome {
    fn duplicate(&self) -> (r: Self) {
        self.clone()
    }

    fn same_as(&self, other: &Self) -> (r: bool) {
        self.status == other.status
            && self.oracle_compare == other.oracle_compare
            && self.recovery_class.same_as(&other.recovery_class)
            && self.open_state.same_as(&other.open_state)
            && opt_same(&self.failure_code, &other.failure_code)
            && vec_same(&self.limitations, &other.limitations)
    }
}

impl ScenarioOutcome {
    /// Passed, with the oracle comparing the reopened state.
    pub fn passed_with_oracle() -> (r: Self)
        ensures
            r@ == (ScenarioOutcomeView {
                status: ScenarioExecutionStatus::Passed,
                oracle_compare: true,
                recovery_class: OBSERVED_RECOVERY_NONE@,
                open_state: OBSERVED_OPEN_NORMAL@,
                failure_code: None,
                limitations: Seq::empty(),
            }),
    {
        let r = ScenarioOutcome {
            status: ScenarioExecutionStatus::Passed,
            oracle_compare: true,
            recovery_class: String::from_str(OBSERVED_RECOVERY_NONE),
            open_state: String::from_str(OBSERVED_OPEN_NORMAL),
            failure_code: None,
            limitations: Vec::new(),
        };
        proof {
            assert(r@.limitations =~= Seq::empty());
        }
        r
    }

    /// Passed at the interface, without an oracle comparison.
    pub fn passed_interface() -> (r: Self)
        ensures
            r@ == (ScenarioOutcomeView {
                status: ScenarioExecutionStatus::Passed,
                oracle_compare: false,
                recovery_class: OBSERVED_RECOVERY_NONE@,
                open_state: OBSERVED_OPEN_NORMAL@,
                failure_code: None,
                limitations: Seq::empty(),
            }),
    {
        let r = ScenarioOutcome {
            status: ScenarioExecutionStatus::Passed,
            oracle_compare: false,
            recovery_class: String::from_str(OBSERVED_RECOVERY_NONE),
            open_state: String::from_str(OBSERVED_OPEN_NORMAL),
            failure_code: None,
            limitations: Vec::new(),
        };
        proof {
            assert(r@.limitations =~= Seq::empty());
        }
        r
    }

    /// Passed, with recorded limitations.
    pub fn passed_with_limitations(limitations: Vec<String>) -> (r: Self)
        ensures
            r@ == (ScenarioOutcomeView {
                status: ScenarioExecutionStatus::Passed,
                oracle_compare: false,
                recovery_class: OBSERVED_RECOVERY_NONE@,
                open_state: OBSERVED_OPEN_NORMAL@,
                failure_code: None,
                limitations: vec_view(limitations@),
            }),
    {
        let r = ScenarioOutcome {
            status: ScenarioExecutionStatus::Passed,
            oracle_compare: false,
            recovery_class: String::from_str(OBSERVED_RECOVERY_NONE),
            open_state: String::from_str(OBSERVED_OPEN_NORMAL),
            failure_code: None,
            limitations: limitations,
        };
        proof {
            assert(r@.limitations =~= vec_view(limitations@));
        }
        r
    }

    /// Not supported by the candidate, with recorded limitations.
    pub fn unsupported(limitations: Vec<String>) -> (r: Self)
        ensures
            r@ == (ScenarioOutcomeView {
                status: ScenarioExecutionStatus::Unsupported,
                oracle_compare: false,
                recovery_class: OBSERVED_RECOVERY_NONE@,
                open_state: OBSERVED_OPEN_NORMAL@,
                failure_code: None,
                limitations: vec_view(limitations@),
            }),
    {
        let r = ScenarioOutcome {
            status: ScenarioExecutionStatus::Unsupported,
            oracle_compare: false,
            recovery_class: String::from_str(OBSERVED_RECOVERY_NONE),
            open_state: String::from_str(OBSERVED_OPEN_NORMAL),
            failure_code: None,
            limitations: limitations,
        };
        proof {
            assert(r@.limitations =~= vec_view(limitations@));
        }
        r
    }

    /// Failed with the given code.
    pub fn failed(code: &str) -> (r: Self)
        ensures
            r@ == (ScenarioOutcomeView {
                status: ScenarioExecutionStatus::Failed,
                oracle_compare: false,
                recovery_class: OBSERVED_RECOVERY_NONE@,
                open_state: OBSERVED_OPEN_NORMAL@,
                failure_code: Some(code@),
                limitations: Seq::empty(),
            }),
    {
        let r = ScenarioOutcome {
            status: ScenarioExecutionStatus::Failed,
            oracle_compare: false,
            recovery_class: String::from_str(OBSERVED_RECOVERY_NONE),
            open_state: String::from_str(OBSERVED_OPEN_NORMAL),
            failure_code: Some(String::from_str(code)),
            limitations: Vec::new(),
        };
        proof {
            assert(r@.limitations =~= Seq::empty());
        }
        r
    }

    /// Passed by refusing to open unrecoverable storage.
    pub fn refused_open(code: &str) -> (r: Self)
        ensures
            r@ == (ScenarioOutcomeView {
                status: ScenarioExecutionStatus::Passed,
                oracle_compare: false,
                recovery_class: OBSERVED_RECOVERY_UNRECOVERABLE@,
                open_state: OBSERVED_OPEN_REFUSED@,
                failure_code: Some(code@),
                limitations: Seq::empty(),
            }),
    {
        let r = ScenarioOutcome {
            status: ScenarioExecutionStatus::Passed,
            oracle_compare: false,
            recovery_class: String::from_str(OBSERVED_RECOVERY_UNRECOVERABLE),
            open_state: String::from_str(OBSERVED_OPEN_REFUSED),
            failure_code: Some(String::from_str(code)),
            limitations: Vec::new(),
        };
        proof {
            assert(r@.limitations =~= Seq::empty());
        }
        r
    }

    /// Passed by refusing to open an unsupported version.
    pub fn unsupported_version_open(code: &str) -> (r: Self)
        ensures
            r@ == (ScenarioOutcomeView {
                status: ScenarioExecutionStatus::Passed,
                oracle_compare: false,
                recovery_class: OBSERVED_RECOVERY_UNSUPPORTED_VERSION@,
                open_state: OBSERVED_OPEN_UNSUPPORTED_VERSION@,
                failure_code: Some(code@),
                limitations: Seq::empty(),
            }),
    {
        let r = ScenarioOutcome {
            status: ScenarioExecutionStatus::Passed,
            oracle_compare: false,
            recovery_class: String::from_str(OBSERVED_RECOVERY_UNSUPPORTED_VERSION),
            open_state: String::from_str(OBSERVED_OPEN_UNSUPPORTED_VERSION),
            failure_code: Some(String::from_str(code)),
            limitations: Vec::new(),
        };
        proof {
            assert(r@.limitations =~= Seq::empty());
        }
        r
    }

    /// The same outcome with these limitations.
    pub fn with_limitations(self, limitations: Vec<String>) -> (r: Self)
        ensures
            r@ == (ScenarioOutcomeView { limitations: vec_view(limitations@), ..self@ }),
    {
        let mut s = self;
        s.limitations = limitations;
        s
    }

    /// The same outcome with this observed recovery class.
    pub fn with_recovery(self, recovery_class: &str) -> (r: Self)
        ensures
            r@ == (ScenarioOutcomeView { recovery_class: recovery_class@, ..self@ }),
    {
        let mut s = self;
        s.recovery_class = String::from_str(recovery_class);
        s
    }
}

/// `<candidate>: harness tamper `<tamper>` exercises refusal for `<scenario>``.
pub open spec fn corruption_tamper_limitation_spec(candidate: Seq<char>, scenario_id: Seq<char>, tamper: Seq<char>) -> Seq<char> {
    candidate + ": harness tamper `"@ + tamper + "` exercises refusal for `"@ + scenario_id + "`"@
}

/// The limitation recorded when the harness tampered with storage to exercise a refusal.
pub fn corruption_tamper_limitation(candidate: &str, scenario_id: &str, tamper: &str) -> (r: String)
    ensures
        r@ == corruption_tamper_limitation_spec(candidate@, scenario_id@, tamper@),
{
    let head = concat3(candidate, ": harness tamper `", tamper);
    let tail = concat3("` exercises refusal for `", scenario_id, "`");
    let r = concat3(head.as_str(), tail.as_str(), "");
    proof {
        reveal_strlit("");
        assert(r@ =~= corruption_tamper_limitation_spec(candidate@, scenario_id@, tamper@));
    }
    r
}

} // verus!
