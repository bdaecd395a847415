use vstd::prelude::*;
use crate::measurement::MEASUREMENT_CONTRACT_VERSION;
use crate::model::{opt_duplicate, opt_eq, opt_same, opt_view, vec_duplicate, vec_same, vec_view, SameAs, CURRENT_CONTRACT_FIXTURE_ID, CURRENT_CONTRACT_FIXTURE_VERSION};
use crate::oracle::CURRENT_CONTRACT_ORACLE_VERSION;
use crate::scenario_contract::{required_ids_spec, required_scenario_ids_for_both_candidates, SCENARIO_CONTRACT_VERSION};

verus! {

/// Where a candidate stands with respect to equivalent execution.
#[derive(Debug, Clone, Copy, PartialEq, Eq, Structural)]
pub enum CandidateEligibilityStatus {
    EligibleForEquivalentExecution,
    IneligibleContractFailure,
    ImplementationNotYetEvaluated,
    DisqualifiedByDemonstratedFailure,
}

/// What both candidates must share for their execution to count as equivalent.
pub struct CandidateEquivalenceRequirements {
    pub contract_version: String,
    pub fixture_id: String,
    pub fixture_version: String,
    pub oracle_version: String,
    pub scenario_contract_version: String,
    pub measurement_contract_version: String,
    pub sqlite_candidate_id: String,
    pub append_candidate_id: String,
    pub sqlite_status: CandidateEligibilityStatus,
    pub append_status: CandidateEligibilityStatus,
    pub shared_required_scenarios: Vec<String>,
    pub append_authoritative_requirements: Vec<String>,
    pub sqlite_obligations: Vec<String>,
    pub cross_platform_labels: Vec<String>,
}

/// The mathematical value of a [`CandidateEquivalenceRequirements`].
pub struct CandidateEquivalenceRequirementsView {
    pub contract_version: Seq<char>,
    pub fixture_id: Seq<char>,
    pub fixture_version: Seq<char>,
    pub oracle_version: Seq<char>,
    pub scenario_contract_version: Seq<char>,
    pub measurement_contract_version: Seq<char>,
    pub sqlite_candidate_id: Seq<char>,
    pub append_candidate_id: Seq<char>,
    pub sqlite_status: CandidateEligibilityStatus,
    pub append_status: CandidateEligibilityStatus,
    pub shared_required_scenarios: Seq<Seq<char>>,
    pub append_authoritative_requirements: Seq<Seq<char>>,
    pub sqlite_obligations: Seq<Seq<char>>,
    pub cross_platform_labels: Seq<Seq<char>>,
}

impl View for CandidateEquivalenceRequirements {
    type V = CandidateEquivalenceRequirementsView;

    open spec fn view(&self) -> CandidateEquivalenceRequirementsView {
        CandidateEquivalenceRequirementsView {
            contract_version: self.contract_version@,
            fixture_id: self.fixture_id@,
            fixture_version: self.fixture_version@,
            oracle_version: self.oracle_version@,
            scenario_contract_version: self.scenario_contract_version@,
            measurement_contract_version: self.measurement_contract_version@,
            sqlite_candidate_id: self.sqlite_candidate_id@,
            append_candidate_id: self.append_candidate_id@,
            sqlite_status: self.sqlite_status,
            append_status: self.append_status,
            shared_required_scenarios: vec_view(self.shared_required_scenarios@),
            append_authoritative_requirements: vec_view(self.append_authoritative_requirements@),
            sqlite_obligations: vec_view(self.sqlite_obligations@),
            cross_platform_labels: vec_view(self.cross_platform_labels@),
        }
    }
}

impl Clone for CandidateEquivalenceRequirements {
    fn clone(&self) -> (r: Self)
        ensures
            r@ == self@,
    {
        CandidateEquivalenceRequirements {
            contract_version: self.contract_version.clone(),
            fixture_id: self.fixture_id.clone(),
            fixture_version: self.fixture_version.clone(),
            oracle_version: self.oracle_version.clone(),
            scenario_contract_version: self.scenario_contract_version.clone(),
            measurement_contract_version: self.measurement_contract_version.clone(),
            sqlite_candidate_id: self.sqlite_candidate_id.clone(),
            append_candidate_id: self.append_candidate_id.clone(),
            sqlite_status: self.sqlite_status,
            append_status: self.append_status,
            shared_required_scenarios: vec_duplicate(&self.shared_required_scenarios),
            append_authoritative_requirements: vec_duplicate(&self.append_authoritative_requirements),
            sqlite_obligations: vec_duplicate(&self.sqlite_obligations),
            cross_platform_labels: vec_duplicate(&self.cross_platform_labels),
        }
    }
}

impl SameAs for CandidateEquivalenceRequirements {
    fn duplicate(&self) -> (r: Self) {
        self.clone()
    }

    fn same_as(&self, other: &Self) -> (r: bool) {
        self.contract_version.same_as(&other.contract_version)
            && self.fixture_id.same_as(&other.fixture_id)
            && self.fixture_version.same_as(&other.fixture_version)
            && self.oracle_version.same_as(&other.oracle_version)
            && self.scenario_contract_version.same_as(&other.scenario_contract_version)
            && self.measurement_contract_version.same_as(&other.measurement_contract_version)
            && self.sqlite_candidate_id.same_as(&other.sqlite_candidate_id)
            && self.append_candidate_id.same_as(&other.append_candidate_id)
            && self.sqlite_status == other.sqlite_status
            && self.append_status == other.append_status
            && vec_same(&self.shared_required_scenarios, &other.shared_required_scenarios)
            && vec_same(&self.append_authoritative_requirements, &other.append_authoritative_requirements)
            && vec_same(&self.sqlite_obligations, &other.sqlite_obligations)
            && vec_same(&self.cross_platform_labels, &other.cross_platform_labels)
    }
}

/// The equivalence requirements of the two candidates.
pub open spec fn equivalence_requirements_spec() -> CandidateEquivalenceRequirementsView {
    CandidateEquivalenceRequirementsView {
        contract_version: "1"@,
        fixture_id: CURRENT_CONTRACT_FIXTURE_ID@,
        fixture_version: CURRENT_CONTRACT_FIXTURE_VERSION@,
        oracle_version: CURRENT_CONTRACT_ORACLE_VERSION@,
        scenario_contract_version: SCENARIO_CONTRACT_VERSION@,
        measurement_contract_version: MEASUREMENT_CONTRACT_VERSION@,
        sqlite_candidate_id: "embedded-relational-sqlite-spike"@,
        append_candidate_id: "append-bundle-log-spike"@,
        sqlite_status: CandidateEligibilityStatus::ImplementationNotYetEvaluated,
        append_status: CandidateEligibilityStatus::ImplementationNotYetEvaluated,
        shared_required_scenarios: required_ids_spec(),
        append_authoritative_requirements: seq!["append history contains sufficient canonical command payloads"@, "state can be reconstructed from append authority"@, "checkpoint is not sole hidden authority"@, "record ordering and lineage are validated"@, "truncation and malformed records fail closed"@, "compaction preserves event identity, order, and provenance"@, "interrupted compaction does not expose mixed generations"@, "writer ownership and takeover are validated"@, "unknown newer format refuses writable open"@, "semantic duplication creates new identity and independent ownership"@],
        sqlite_obligations: seq!["same fixture version"@, "same oracle version"@, "same scenario versions"@, "same platform matrix"@, "same measurement contract"@, "same normalized result schema"@],
        cross_platform_labels: seq!["macos_native"@, "windows_github_actions"@],
    }
}

/// The equivalence requirements of the two candidates.
pub fn candidate_equivalence_requirements() -> (r: CandidateEquivalenceRequirements)
    ensures
        r@ == equivalence_requirements_spec(),
{
    let mut areq: Vec<String> = Vec::new();
    areq.push(String::from_str("append history contains sufficient canonical command payloads"));
    areq.push(String::from_str("state can be reconstructed from append authority"));
    areq.push(String::from_str("checkpoint is not sole hidden authority"));
    areq.push(String::from_str("record ordering and lineage are validated"));
    areq.push(String::from_str("truncation and malformed records fail closed"));
    areq.push(String::from_str("compaction preserves event identity, order, and provenance"));
    areq.push(String::from_str("interrupted compaction does not expose mixed generations"));
    areq.push(String::from_str("writer ownership and takeover are validated"));
    areq.push(String::from_str("unknown newer format refuses writable open"));
    areq.push(String::from_str("semantic duplication creates new identity and independent ownership"));
    proof {
        assert(vec_view(areq@) =~= seq!["append history contains sufficient canonical command payloads"@, "state can be reconstructed from append authority"@, "checkpoint is not sole hidden authority"@, "record ordering and lineage are validated"@, "truncation and malformed records fail closed"@, "compaction preserves event identity, order, and provenance"@, "interrupted compaction does not expose mixed generations"@, "writer ownership and takeover are validated"@, "unknown newer format refuses writable open"@, "semantic duplication creates new identity and independent ownership"@]);
    }
    let mut sob: Vec<String> = Vec::new();
    sob.push(String::from_str("same fixture version"));
    sob.push(String::from_str("same oracle version"));
    sob.push(String::from_str("same scenario versions"));
    sob.push(String::from_str("same platform matrix"));
    sob.push(String::from_str("same measurement contract"));
    sob.push(String::from_str("same normalized result schema"));
    proof {
        assert(vec_view(sob@) =~= seq!["same fixture version"@, "same oracle version"@, "same scenario versions"@, "same platform matrix"@, "same measurement contract"@, "same normalized result schema"@]);
    }
    let mut plat: Vec<String> = Vec::new();
    plat.push(String::from_str("macos_native"));
    plat.push(String::from_str("windows_github_actions"));
    proof {
        assert(vec_view(plat@) =~= seq!["macos_native"@, "windows_github_actions"@]);
    }
    let r = CandidateEquivalenceRequirements {
        contract_version: String::from_str("1"),
        fixture_id: String::from_str(CURRENT_CONTRACT_FIXTURE_ID),
        fixture_version: String::from_str(CURRENT_CONTRACT_FIXTURE_VERSION),
        oracle_version: String::from_str(CURRENT_CONTRACT_ORACLE_VERSION),
        scenario_contract_version: String::from_str(SCENARIO_CONTRACT_VERSION),
        measurement_contract_version: String::from_str(MEASUREMENT_CONTRACT_VERSION),
        sqlite_candidate_id: String::from_str("embedded-relational-sqlite-spike"),
        append_candidate_id: String::from_str("append-bundle-log-spike"),
        sqlite_status: CandidateEligibilityStatus::ImplementationNotYetEvaluated,
        append_status: CandidateEligibilityStatus::ImplementationNotYetEvaluated,
        shared_required_scenarios: required_scenario_ids_for_both_candidates(),
        append_authoritative_requirements: areq,
        sqlite_obligations: sob,
        cross_platform_labels: plat,
    };
    r
}

} // verus!
