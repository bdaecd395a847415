use vstd::prelude::*;
use crate::derivation::{
    find_case, has_revision, has_revision_spec, lookup_case, ValidatedCaseEntry, ValidatedCaseEntryView,
    ValidatedReviewCase, ValidatedReviewCaseView, ValidatedReviewDecision, ValidatedReviewDecisionView,
};
use crate::model::{
    opt_view, vec_view, CurrentContractState, CurrentContractStateView, EvidenceExactReusableCorrection,
    EvidenceExactReusableCorrectionView, EvidenceReuseCandidateKey, EvidenceReuseCandidateKeyView,
    EvidenceSourceDecisionLocator, EvidenceSourceDecisionLocatorView, SameAs, EvidenceReusableRecord,
    EvidenceReusableRecordView, EvidenceGovernanceActor, EvidenceGovernanceActorView,
    EvidenceReuseGovernanceEvent, EvidenceReuseGovernanceEventView,
};
use crate::model::{vec_duplicate, governance_event_index, governance_event_index_spec, sort_records, sort_records_keys, str_key, str_key_spec};
use crate::order::{keys_view, lemma_sort_by_keys_map, sort_by_keys, sort_by_keys_spec};
use crate::serialization::{rejection_identity_digest, rejection_identity_spec};
use crate::text::{concat3, decimal, decimal_spec};
use crate::production_bridge::{
    find_snapshot, first_snapshot_index, is_canonical_analysis_snapshot, matches_configuration_spec,
    parse_decision_digest_hex, parse_decision_digest_hex_spec, parse_review_case_id, parse_review_case_id_spec,
    production_decision_digest_hex, production_decision_digest_hex_spec, ContractRules, ContractRulesView,
    actor_session_bound_spec, validate_governance_actor_session_bound, opt_diags,
};
use crate::review_ledger::{
    decisions_view, manual_replacement_of, prefix_effective_at, prefix_effective_at_spec,
};
use crate::violations::{
    diag, diagnostic, diags_view, push_diag, OracleDiagnosticV3, OracleDiagnosticV3View, OracleViolationCodeV3,
};

verus! {

/// The finding `d` where `bad` holds, and none otherwise.
pub open spec fn finding_if(bad: bool, d: OracleDiagnosticV3View) -> Seq<OracleDiagnosticV3View> {
    if bad {
        seq![d]
    } else {
        Seq::empty()
    }
}

/// Findings about what a locator says of the source revision and analysis snapshot.
pub open spec fn locator_snapshot_diags(
    s: CurrentContractStateView,
    rules: ContractRulesView,
    l: EvidenceSourceDecisionLocatorView,
) -> Seq<OracleDiagnosticV3View> {
    let boundary = OracleViolationCodeV3::SourceLocatorBoundaryViolation;
    let snapshot_path = "source_locator.source_analysis_snapshot_identity"@;
    finding_if(
        !has_revision_spec(s, l.source_revision_id),
        diag(boundary, "source_locator.source_revision_id"@, "referenced source revision does not exist"@),
    ) + match first_snapshot_index(s.analysis_snapshots, l.source_analysis_snapshot_identity) {
        None => seq![diag(boundary, snapshot_path, "referenced analysis snapshot does not exist"@)],
        Some(k) => {
            let snap = s.analysis_snapshots[k as int];
            finding_if(
                snap.source_revision_id != l.source_revision_id,
                diag(
                    boundary,
                    snapshot_path,
                    "analysis snapshot source revision differs from source locator revision"@,
                ),
            ) + finding_if(
                snap.session_terms_identity != s.session_terms_identity || !matches_configuration_spec(
                    snap,
                    rules.canonical_configuration,
                ),
                diag(
                    boundary,
                    snapshot_path,
                    "source locator must bind the canonical session-term analysis snapshot"@,
                ),
            )
        },
    }
}

/// Findings about the ledger decision a locator names, given the review case it resolves to.
pub open spec fn locator_decision_diags(
    s: CurrentContractStateView,
    decs: Seq<Option<ValidatedReviewDecisionView>>,
    rules: ContractRulesView,
    l: EvidenceSourceDecisionLocatorView,
    payload: EvidenceExactReusableCorrectionView,
    rc: ValidatedReviewCaseView,
) -> Seq<OracleDiagnosticV3View> {
    let boundary = OracleViolationCodeV3::SourceLocatorBoundaryViolation;
    let position_path = "source_locator.review_ledger_position"@;
    if l.review_ledger_position >= s.review_ledger_events.len() {
        seq![diag(boundary, position_path, "review ledger position out of bounds"@)]
    } else {
        finding_if(
            l.review_ledger_position >= l.effective_at_ledger_length || l.effective_at_ledger_length == 0
                || l.effective_at_ledger_length > s.review_ledger_events.len(),
            diag(boundary, "source_locator.effective_at_ledger_length"@, "invalid effective ledger prefix"@),
        ) + match decs[l.review_ledger_position as int] {
            None => seq![diag(boundary, position_path, "locator references an invalid review ledger event"@)],
            Some(v) => finding_if(
                v.case_id != l.source_review_case_id,
                diag(boundary, position_path, "ledger event case mismatch"@),
            ) + match manual_replacement_of(v.decision) {
                None => seq![
                    diag(
                        OracleViolationCodeV3::ManualReplacementByteMismatch,
                        position_path,
                        "locator must reference a validated manual replacement decision"@,
                    ),
                ],
                Some(rep) => finding_if(
                    rep != payload.confirmed_replacement,
                    diag(
                        OracleViolationCodeV3::ManualReplacementByteMismatch,
                        "source_locator.decision_digest"@,
                        "manual replacement bytes do not match ledger event"@,
                    ),
                ) + match production_decision_digest_hex_spec(
                    l.source_review_case_id,
                    l.source_revision_id,
                    rep,
                    rc.observed_source_bytes,
                    rules.max_manual_replacement_utf8_bytes,
                ) {
                    Ok(expected) => finding_if(
                        l.decision_digest != expected,
                        diag(
                            OracleViolationCodeV3::DecisionDigestMismatch,
                            "source_locator.decision_digest"@,
                            "decision digest does not match canonical exact decision bytes"@,
                        ),
                    ),
                    Err(e) => seq![e],
                } + finding_if(
                    !prefix_effective_at_spec(decs, l.source_review_case_id, l.effective_at_ledger_length, rep),
                    diag(
                        boundary,
                        "source_locator.effective_at_ledger_length"@,
                        "decision is not effective at declared ledger prefix"@,
                    ),
                ),
            },
        }
    }
}

/// Findings about the review case a locator names and what follows from it.
pub open spec fn locator_case_diags(
    s: CurrentContractStateView,
    cases: Seq<ValidatedCaseEntryView>,
    decs: Seq<Option<ValidatedReviewDecisionView>>,
    rules: ContractRulesView,
    l: EvidenceSourceDecisionLocatorView,
    payload: EvidenceExactReusableCorrectionView,
) -> Seq<OracleDiagnosticV3View> {
    let boundary = OracleViolationCodeV3::SourceLocatorBoundaryViolation;
    let case_path = "source_locator.source_review_case_id"@;
    match lookup_case(cases, l.source_review_case_id) {
        None => seq![
            diag(
                OracleViolationCodeV3::SourceAnchorResolvedBytesMismatch,
                case_path,
                "referenced review case is missing or does not resolve to its source anchor bytes"@,
            ),
        ],
        Some(rc) => finding_if(
            rc.observed_revision_id != l.source_revision_id || rc.anchor_revision_id != l.source_revision_id,
            diag(boundary, case_path, "review case revision binding mismatch"@),
        ) + finding_if(
            payload.observed_text != rc.observed_source_bytes,
            diag(boundary, case_path, "reusable observed text does not match exact review-case source bytes"@),
        ) + locator_decision_diags(s, decs, rules, l, payload, rc),
    }
}

/// Every finding about a source decision locator and the payload it backs;
/// the locator holds when there is none.
pub open spec fn locator_integrity_diags(
    s: CurrentContractStateView,
    cases: Seq<ValidatedCaseEntryView>,
    decs: Seq<Option<ValidatedReviewDecisionView>>,
    rules: ContractRulesView,
    l: EvidenceSourceDecisionLocatorView,
    payload: EvidenceExactReusableCorrectionView,
) -> Seq<OracleDiagnosticV3View> {
    if parse_review_case_id_spec(l.source_review_case_id) is Err {
        seq![
            diag(
                OracleViolationCodeV3::MalformedReviewCaseId,
                "source_locator.source_review_case_id"@,
                "malformed review case id in source locator"@,
            ),
        ]
    } else if parse_decision_digest_hex_spec(l.decision_digest) is Err {
        seq![
            diag(
                OracleViolationCodeV3::MalformedDecisionDigest,
                "source_locator.decision_digest"@,
                "malformed decision digest in source locator"@,
            ),
        ]
    } else {
        locator_snapshot_diags(s, rules, l) + locator_case_diags(s, cases, decs, rules, l, payload)
    }
}

/// Every finding about a candidate key: its project scope, then its locator.
pub open spec fn candidate_key_diags(
    s: CurrentContractStateView,
    cases: Seq<ValidatedCaseEntryView>,
    decs: Seq<Option<ValidatedReviewDecisionView>>,
    rules: ContractRulesView,
    k: EvidenceReuseCandidateKeyView,
) -> Seq<OracleDiagnosticV3View> {
    if k.project_scope_stable_id != s.project_scope.stable_id {
        seq![
            diag(
                OracleViolationCodeV3::CrossProjectRecordReference,
                "candidate_key.project_scope_stable_id"@,
                "candidate key project scope mismatch"@,
            ),
        ]
    } else {
        locator_integrity_diags(s, cases, decs, rules, k.source_locator, k.exact_payload)
    }
}

fn check_locator_snapshot(
    state: &CurrentContractState,
    rules: &ContractRules,
    locator: &EvidenceSourceDecisionLocator,
    violations: &mut Vec<OracleDiagnosticV3>,
)
    ensures
        diags_view(final(violations)@) == diags_view(old(violations)@) + locator_snapshot_diags(
            state@,
            rules@,
            locator@,
        ),
{
    let ghost start = diags_view(violations@);
    let boundary = OracleViolationCodeV3::SourceLocatorBoundaryViolation;
    if !has_revision(state, &locator.source_revision_id) {
        push_diag(
            violations,
            diagnostic(boundary, "source_locator.source_revision_id", "referenced source revision does not exist"),
        );
    }
    let ghost mid = diags_view(violations@);
    match find_snapshot(&state.analysis_snapshots, &locator.source_analysis_snapshot_identity) {
        None => {
            push_diag(
                violations,
                diagnostic(
                    boundary,
                    "source_locator.source_analysis_snapshot_identity",
                    "referenced analysis snapshot does not exist",
                ),
            );
        },
        Some(k) => {
            let snapshot = &state.analysis_snapshots[k];
            proof {
                assert(state@.analysis_snapshots[k as int] == snapshot@);
            }
            if !snapshot.source_revision_id.same_as(&locator.source_revision_id) {
                push_diag(
                    violations,
                    diagnostic(
                        boundary,
                        "source_locator.source_analysis_snapshot_identity",
                        "analysis snapshot source revision differs from source locator revision",
                    ),
                );
            }
            if !snapshot.session_terms_identity.same_as(&state.session_terms_identity)
                || !is_canonical_analysis_snapshot(snapshot, rules) {
                push_diag(
                    violations,
                    diagnostic(
                        boundary,
                        "source_locator.source_analysis_snapshot_identity",
                        "source locator must bind the canonical session-term analysis snapshot",
                    ),
                );
            }
        },
    }
    proof {
        assert(diags_view(violations@) =~= start + locator_snapshot_diags(state@, rules@, locator@));
    }
}

#[verifier::spinoff_prover]
#[verifier::rlimit(40)]
fn check_locator_decision(
    state: &CurrentContractState,
    decisions: &Vec<Option<ValidatedReviewDecision>>,
    rules: &ContractRules,
    locator: &EvidenceSourceDecisionLocator,
    payload: &EvidenceExactReusableCorrection,
    review_case: &ValidatedReviewCase,
    violations: &mut Vec<OracleDiagnosticV3>,
)
    requires
        decisions@.len() == state@.review_ledger_events.len(),
    ensures
        diags_view(final(violations)@) == diags_view(old(violations)@) + locator_decision_diags(
            state@,
            decisions_view(decisions@),
            rules@,
            locator@,
            payload@,
            review_case@,
        ),
{
    let ghost start = diags_view(violations@);
    let ghost dv = decisions_view(decisions@);
    let boundary = OracleViolationCodeV3::SourceLocatorBoundaryViolation;
    let position = locator.review_ledger_position;
    if position >= state.review_ledger_events.len() {
        push_diag(
            violations,
            diagnostic(boundary, "source_locator.review_ledger_position", "review ledger position out of bounds"),
        );
        return ;
    }
    let effective_at = locator.effective_at_ledger_length;
    if position >= effective_at || effective_at == 0 || effective_at > state.review_ledger_events.len() {
        push_diag(
            violations,
            diagnostic(boundary, "source_locator.effective_at_ledger_length", "invalid effective ledger prefix"),
        );
    }
    let ghost mid = diags_view(violations@);
    proof {
        assert(dv[position as int] == opt_view(decisions@[position as int]));
    }
    match &decisions[position] {
        None => {
            push_diag(
                violations,
                diagnostic(
                    boundary,
                    "source_locator.review_ledger_position",
                    "locator references an invalid review ledger event",
                ),
            );
        },
        Some(validated) => {
            if !validated.case_id.same_as(&locator.source_review_case_id) {
                push_diag(
                    violations,
                    diagnostic(boundary, "source_locator.review_ledger_position", "ledger event case mismatch"),
                );
            }
            let replacement = match &validated.decision {
                crate::model::EvidenceCorrectionDecision::ManualReplacement { replacement } => replacement,
                _ => {
                    push_diag(
                        violations,
                        diagnostic(
                            OracleViolationCodeV3::ManualReplacementByteMismatch,
                            "source_locator.review_ledger_position",
                            "locator must reference a validated manual replacement decision",
                        ),
                    );
                    proof {
                        assert(diags_view(violations@) =~= start + locator_decision_diags(
                            state@,
                            dv,
                            rules@,
                            locator@,
                            payload@,
                            review_case@,
                        ));
                    }
                    return ;
                },
            };
            if !replacement.same_as(&payload.confirmed_replacement) {
                push_diag(
                    violations,
                    diagnostic(
                        OracleViolationCodeV3::ManualReplacementByteMismatch,
                        "source_locator.decision_digest",
                        "manual replacement bytes do not match ledger event",
                    ),
                );
            }
            match production_decision_digest_hex(
                locator.source_review_case_id.as_str(),
                locator.source_revision_id.as_str(),
                replacement.as_str(),
                review_case.observed_source_bytes.as_str(),
                rules.max_manual_replacement_utf8_bytes,
            ) {
                Ok(expected) => {
                    if !locator.decision_digest.same_as(&expected) {
                        push_diag(
                            violations,
                            diagnostic(
                                OracleViolationCodeV3::DecisionDigestMismatch,
                                "source_locator.decision_digest",
                                "decision digest does not match canonical exact decision bytes",
                            ),
                        );
                    }
                },
                Err(d) => {
                    push_diag(violations, d);
                },
            }
            if !prefix_effective_at(decisions, &locator.source_review_case_id, effective_at, replacement) {
                push_diag(
                    violations,
                    diagnostic(
                        boundary,
                        "source_locator.effective_at_ledger_length",
                        "decision is not effective at declared ledger prefix",
                    ),
                );
            }
        },
    }
    proof {
        assert(diags_view(violations@) =~= start + locator_decision_diags(
            state@,
            dv,
            rules@,
            locator@,
            payload@,
            review_case@,
        ));
    }
}

#[verifier::spinoff_prover]
fn check_locator_case(
    state: &CurrentContractState,
    cases: &Vec<ValidatedCaseEntry>,
    decisions: &Vec<Option<ValidatedReviewDecision>>,
    rules: &ContractRules,
    locator: &EvidenceSourceDecisionLocator,
    payload: &EvidenceExactReusableCorrection,
    violations: &mut Vec<OracleDiagnosticV3>,
)
    requires
        decisions@.len() == state@.review_ledger_events.len(),
    ensures
        diags_view(final(violations)@) == diags_view(old(violations)@) + locator_case_diags(
            state@,
            vec_view(cases@),
            decisions_view(decisions@),
            rules@,
            locator@,
            payload@,
        ),
{
    let ghost start = diags_view(violations@);
    match find_case(cases, &locator.source_review_case_id) {
        None => {
            push_diag(
                violations,
                diagnostic(
                    OracleViolationCodeV3::SourceAnchorResolvedBytesMismatch,
                    "source_locator.source_review_case_id",
                    "referenced review case is missing or does not resolve to its source anchor bytes",
                ),
            );
        },
        Some(review_case) => {
            if !review_case.observed_revision_id.same_as(&locator.source_revision_id)
                || !review_case.anchor_revision_id.same_as(&locator.source_revision_id) {
                push_diag(
                    violations,
                    diagnostic(
                        OracleViolationCodeV3::SourceLocatorBoundaryViolation,
                        "source_locator.source_review_case_id",
                        "review case revision binding mismatch",
                    ),
                );
            }
            if !payload.observed_text.same_as(&review_case.observed_source_bytes) {
                push_diag(
                    violations,
                    diagnostic(
                        OracleViolationCodeV3::SourceLocatorBoundaryViolation,
                        "source_locator.source_review_case_id",
                        "reusable observed text does not match exact review-case source bytes",
                    ),
                );
            }
            check_locator_decision(state, decisions, rules, locator, payload, &review_case, violations);
        },
    }
    proof {
        assert(diags_view(violations@) =~= start + locator_case_diags(
            state@,
            vec_view(cases@),
            decisions_view(decisions@),
            rules@,
            locator@,
            payload@,
        ));
    }
}

/// Checks that a source decision locator binds exactly the revision, snapshot,
/// review case and manual replacement decision it names; true when nothing was found.
#[verifier::spinoff_prover]
fn validate_locator_integrity(
    state: &CurrentContractState,
    cases: &Vec<ValidatedCaseEntry>,
    decisions: &Vec<Option<ValidatedReviewDecision>>,
    rules: &ContractRules,
    locator: &EvidenceSourceDecisionLocator,
    payload: &EvidenceExactReusableCorrection,
    violations: &mut Vec<OracleDiagnosticV3>,
) -> (r: bool)
    requires
        decisions@.len() == state@.review_ledger_events.len(),
    ensures
        diags_view(final(violations)@) == diags_view(old(violations)@) + locator_integrity_diags(
            state@,
            vec_view(cases@),
            decisions_view(decisions@),
            rules@,
            locator@,
            payload@,
        ),
        r == (locator_integrity_diags(
            state@,
            vec_view(cases@),
            decisions_view(decisions@),
            rules@,
            locator@,
            payload@,
        ).len() == 0),
{
    let ghost start = diags_view(violations@);
    if parse_review_case_id(locator.source_review_case_id.as_str()).is_err() {
        push_diag(
            violations,
            diagnostic(
                OracleViolationCodeV3::MalformedReviewCaseId,
                "source_locator.source_review_case_id",
                "malformed review case id in source locator",
            ),
        );
        return false;
    }
    if parse_decision_digest_hex(locator.decision_digest.as_str()).is_err() {
        push_diag(
            violations,
            diagnostic(
                OracleViolationCodeV3::MalformedDecisionDigest,
                "source_locator.decision_digest",
                "malformed decision digest in source locator",
            ),
        );
        return false;
    }
    let before = violations.len();
    check_locator_snapshot(state, rules, locator, violations);
    check_locator_case(state, cases, decisions, rules, locator, payload, violations);
    proof {
        assert(diags_view(violations@) =~= start + locator_integrity_diags(
            state@,
            vec_view(cases@),
            decisions_view(decisions@),
            rules@,
            locator@,
            payload@,
        ));
        assert(diags_view(violations@).len() == violations@.len());
        assert(start.len() == before);
    }
    violations.len() == before
}

/// Checks a candidate key's project scope and then its locator; true when nothing was found.
fn validate_candidate_key(
    state: &CurrentContractState,
    cases: &Vec<ValidatedCaseEntry>,
    decisions: &Vec<Option<ValidatedReviewDecision>>,
    rules: &ContractRules,
    key: &EvidenceReuseCandidateKey,
    violations: &mut Vec<OracleDiagnosticV3>,
) -> (r: bool)
    requires
        decisions@.len() == state@.review_ledger_events.len(),
    ensures
        diags_view(final(violations)@) == diags_view(old(violations)@) + candidate_key_diags(
            state@,
            vec_view(cases@),
            decisions_view(decisions@),
            rules@,
            key@,
        ),
        r == (candidate_key_diags(state@, vec_view(cases@), decisions_view(decisions@), rules@, key@).len() == 0),
{
    if !key.project_scope_stable_id.same_as(&state.project_scope.stable_id) {
        push_diag(
            violations,
            diagnostic(
                OracleViolationCodeV3::CrossProjectRecordReference,
                "candidate_key.project_scope_stable_id",
                "candidate key project scope mismatch",
            ),
        );
        return false;
    }
    validate_locator_integrity(state, cases, decisions, rules, &key.source_locator, &key.exact_payload, violations)
}


/// What the reuse-governance fold has established so far: rejected candidate
/// identities, accepted records, revoked record ids and supersession pairs,
/// each in the order it was established.
pub struct GovernanceFoldState {
    pub rejected: Vec<String>,
    pub records: Vec<EvidenceReusableRecord>,
    pub revoked: Vec<usize>,
    pub superseded: Vec<(usize, usize)>,
}

/// The mathematical value of a [`GovernanceFoldState`].
pub struct GovernanceFoldView {
    pub rejected: Seq<Seq<char>>,
    pub records: Seq<EvidenceReusableRecordView>,
    pub revoked: Seq<usize>,
    pub superseded: Seq<(usize, usize)>,
}

impl View for GovernanceFoldState {
    type V = GovernanceFoldView;

    open spec fn view(&self) -> GovernanceFoldView {
        GovernanceFoldView {
            rejected: vec_view(self.rejected@),
            records: vec_view(self.records@),
            revoked: self.revoked@,
            superseded: self.superseded@,
        }
    }
}

/// The fold before any event.
pub open spec fn empty_fold() -> GovernanceFoldView {
    GovernanceFoldView {
        rejected: Seq::empty(),
        records: Seq::empty(),
        revoked: Seq::empty(),
        superseded: Seq::empty(),
    }
}

impl GovernanceFoldState {
    /// The fold before any event.
    pub fn new() -> (r: Self)
        ensures
            r@ == empty_fold(),
    {
        let r = GovernanceFoldState { rejected: Vec::new(), records: Vec::new(), revoked: Vec::new(), superseded: Vec::new() };
        proof {
            assert(r@.rejected =~= Seq::<Seq<char>>::empty());
            assert(r@.records =~= Seq::<EvidenceReusableRecordView>::empty());
        }
        r
    }
}

/// The position of the accepted record with the given id.
pub open spec fn record_index(recs: Seq<EvidenceReusableRecordView>, id: usize) -> Option<nat>
    decreases recs.len(),
{
    if recs.len() == 0 {
        None
    } else if recs[0].record_id == id {
        Some(0)
    } else {
        match record_index(recs.drop_first(), id) {
            Some(i) => Some(i + 1),
            None => None,
        }
    }
}

proof fn lemma_record_index(recs: Seq<EvidenceReusableRecordView>, id: usize)
    ensures
        match record_index(recs, id) {
            Some(i) => i < recs.len() && recs[i as int].record_id == id,
            None => forall|j: int| 0 <= j < recs.len() ==> (#[trigger] recs[j]).record_id != id,
        },
    decreases recs.len(),
{
    if recs.len() > 0 && recs[0].record_id != id {
        let rest = recs.drop_first();
        lemma_record_index(rest, id);
        match record_index(rest, id) {
            Some(i) => {
                assert(recs[(i + 1) as int] == rest[i as int]);
            },
            None => {
                assert forall|j: int| 0 <= j < recs.len() implies (#[trigger] recs[j]).record_id != id by {
                    if j > 0 {
                        assert(recs[j] == rest[j - 1]);
                    }
                }
            },
        }
    }
}

fn record_position(records: &Vec<EvidenceReusableRecord>, id: usize) -> (r: Option<usize>)
    ensures
        match r {
            Some(k) => record_index(vec_view(records@), id) == Some(k as nat),
            None => record_index(vec_view(records@), id) is None,
        },
{
    let ghost rv = vec_view(records@);
    let mut index: usize = 0;
    proof {
        assert(rv.skip(0) =~= rv);
    }
    while index < records.len()
        invariant
            index <= records.len(),
            rv == vec_view(records@),
            record_index(rv, id) == match record_index(rv.skip(index as int), id) {
                Some(k) => Some((k + index) as nat),
                None => None::<nat>,
            },
        decreases records.len() - index,
    {
        proof {
            let sk = rv.skip(index as int);
            assert(sk[0] == rv[index as int]);
            assert(sk.drop_first() =~= rv.skip(index + 1));
        }
        if records[index].record_id == id {
            return Some(index);
        }
        index = index + 1;
    }
    proof {
        assert(rv.skip(index as int).len() == 0);
    }
    None
}

/// Some supersession has this record as its predecessor.
pub open spec fn superseded_has(sup: Seq<(usize, usize)>, id: usize) -> bool {
    exists|k: int| 0 <= k < sup.len() && (#[trigger] sup[k]).0 == id
}

fn superseded_contains(sup: &Vec<(usize, usize)>, id: usize) -> (r: bool)
    ensures
        r == superseded_has(sup@, id),
{
    let mut k: usize = 0;
    while k < sup.len()
        invariant
            k <= sup.len(),
            forall|j: int| 0 <= j < k ==> (#[trigger] sup@[j]).0 != id,
        decreases sup.len() - k,
    {
        if sup[k].0 == id {
            proof {
                assert(sup@[k as int].0 == id);
            }
            return true;
        }
        k = k + 1;
    }
    false
}

fn contains_index(v: &Vec<usize>, x: usize) -> (r: bool)
    ensures
        r == v@.contains(x),
{
    let mut k: usize = 0;
    while k < v.len()
        invariant
            k <= v.len(),
            forall|j: int| 0 <= j < k ==> v@[j] != x,
        decreases v.len() - k,
    {
        if v[k] == x {
            proof {
                assert(v@[k as int] == x);
            }
            return true;
        }
        k = k + 1;
    }
    false
}

fn contains_text(v: &Vec<String>, x: &String) -> (r: bool)
    ensures
        r == vec_view(v@).contains(x@),
{
    let ghost vv = vec_view(v@);
    let mut k: usize = 0;
    while k < v.len()
        invariant
            k <= v.len(),
            vv == vec_view(v@),
            forall|j: int| 0 <= j < k ==> vv[j] != x@,
        decreases v.len() - k,
    {
        if v[k].same_as(x) {
            proof {
                assert(vv[k as int] == x@);
            }
            return true;
        }
        k = k + 1;
    }
    false
}

/// A record is active while it is accepted and neither revoked nor superseded.
pub open spec fn record_active(f: GovernanceFoldView, id: usize) -> bool {
    record_index(f.records, id) is Some && !f.revoked.contains(id) && !superseded_has(f.superseded, id)
}

/// The path under which findings about a governance event are reported.
pub open spec fn governance_path(index: usize) -> Seq<char> {
    "reuse_governance_events["@ + decimal_spec(index as nat) + "]"@
}

/// Some accepted record comes from this candidate's locator and project scope.
pub open spec fn promoted_from(f: GovernanceFoldView, k: EvidenceReuseCandidateKeyView) -> bool {
    exists|j: int|
        0 <= j < f.records.len() && (#[trigger] f.records[j]).source_locator == k.source_locator
            && f.records[j].project_scope_stable_id == k.project_scope_stable_id
}

fn promoted_from_exec(fold: &GovernanceFoldState, key: &EvidenceReuseCandidateKey) -> (r: bool)
    ensures
        r == promoted_from(fold@, key@),
{
    let ghost rv = vec_view(fold.records@);
    let mut j: usize = 0;
    while j < fold.records.len()
        invariant
            j <= fold.records.len(),
            rv == vec_view(fold.records@),
            forall|i: int|
                0 <= i < j ==> !((#[trigger] rv[i]).source_locator == key@.source_locator
                    && rv[i].project_scope_stable_id == key@.project_scope_stable_id),
        decreases fold.records.len() - j,
    {
        let record = &fold.records[j];
        proof {
            assert(rv[j as int] == record@);
        }
        if record.source_locator.same_as(&key.source_locator) && record.project_scope_stable_id.same_as(
            &key.project_scope_stable_id,
        ) {
            return true;
        }
        j = j + 1;
    }
    false
}

/// The identity under which a candidate's rejection is remembered.
pub open spec fn key_rejection_identity(k: EvidenceReuseCandidateKeyView) -> Seq<char> {
    rejection_identity_spec(
        k.project_scope_stable_id,
        k.source_locator.source_review_case_id,
        k.source_locator.review_ledger_position,
        k.source_locator.decision_digest,
    )
}

/// What a candidate rejection does to the fold, and what it finds.
pub open spec fn rejection_step(
    s: CurrentContractStateView,
    cases: Seq<ValidatedCaseEntryView>,
    decs: Seq<Option<ValidatedReviewDecisionView>>,
    rules: ContractRulesView,
    f: GovernanceFoldView,
    event_index: usize,
    k: EvidenceReuseCandidateKeyView,
    actor: EvidenceGovernanceActorView,
) -> (GovernanceFoldView, Seq<OracleDiagnosticV3View>) {
    let path = governance_path(event_index);
    match actor_session_bound_spec(actor, s.session_authority, path) {
        Some(d) => (f, seq![d]),
        None => {
            let kd = candidate_key_diags(s, cases, decs, rules, k);
            if kd.len() > 0 {
                (f, kd)
            } else if f.rejected.contains(key_rejection_identity(k)) {
                (
                    f,
                    seq![
                        diag(
                            OracleViolationCodeV3::DuplicateRejectionIdentity,
                            path,
                            "candidate has already been rejected"@,
                        ),
                    ],
                )
            } else if promoted_from(f, k) {
                (
                    f,
                    seq![
                        diag(
                            OracleViolationCodeV3::PromotionAfterRejectedCandidate,
                            path,
                            "candidate rejection after promotion is forbidden"@,
                        ),
                    ],
                )
            } else {
                (GovernanceFoldView { rejected: f.rejected.push(key_rejection_identity(k)), ..f }, Seq::empty())
            }
        },
    }
}

/// What an accepted promotion does to the fold, and what it finds.
pub open spec fn promotion_step(
    s: CurrentContractStateView,
    cases: Seq<ValidatedCaseEntryView>,
    decs: Seq<Option<ValidatedReviewDecisionView>>,
    rules: ContractRulesView,
    f: GovernanceFoldView,
    event_index: usize,
    k: EvidenceReuseCandidateKeyView,
    payload: EvidenceExactReusableCorrectionView,
    locator: EvidenceSourceDecisionLocatorView,
    actor: EvidenceGovernanceActorView,
    scope: Seq<char>,
) -> (GovernanceFoldView, Seq<OracleDiagnosticV3View>) {
    let path = governance_path(event_index);
    match actor_session_bound_spec(actor, s.session_authority, path) {
        Some(d) => (f, seq![d]),
        None => {
            let kd = candidate_key_diags(s, cases, decs, rules, k);
            let ld = locator_integrity_diags(s, cases, decs, rules, locator, payload);
            if kd.len() > 0 {
                (f, kd)
            } else if k.exact_payload != payload {
                (
                    f,
                    seq![
                        diag(
                            OracleViolationCodeV3::PromotionPayloadMismatch,
                            path,
                            "promotion payload does not match candidate key payload"@,
                        ),
                    ],
                )
            } else if k.source_locator != locator {
                (
                    f,
                    seq![
                        diag(
                            OracleViolationCodeV3::PromotionLocatorMismatch,
                            path,
                            "promotion source locator does not equal candidate locator"@,
                        ),
                    ],
                )
            } else if ld.len() > 0 {
                (f, ld)
            } else if scope != s.project_scope.stable_id {
                (
                    f,
                    seq![
                        diag(
                            OracleViolationCodeV3::CrossProjectRecordReference,
                            path,
                            "promotion project scope does not match session project scope"@,
                        ),
                    ],
                )
            } else if f.rejected.contains(key_rejection_identity(k)) {
                (
                    f,
                    seq![
                        diag(
                            OracleViolationCodeV3::PromotionAfterRejectedCandidate,
                            path,
                            "promotion accepted after candidate rejection"@,
                        ),
                    ],
                )
            } else if record_index(f.records, event_index) is Some {
                (
                    f,
                    seq![
                        diag(
                            OracleViolationCodeV3::DuplicateAcceptedRecordId,
                            path,
                            "duplicate promotion accepted record id"@,
                        ),
                    ],
                )
            } else {
                (
                    GovernanceFoldView {
                        records: f.records.push(
                            EvidenceReusableRecordView {
                                record_id: event_index,
                                project_scope_stable_id: scope,
                                observed_text: payload.observed_text,
                                confirmed_replacement: payload.confirmed_replacement,
                                source_locator: locator,
                                promotion_actor: actor,
                                superseded_by: None,
                            },
                        ),
                        ..f
                    },
                    Seq::empty(),
                )
            }
        },
    }
}

/// What a revocation does to the fold, and what it finds.
pub open spec fn revocation_step(
    s: CurrentContractStateView,
    f: GovernanceFoldView,
    event_index: usize,
    record_id: usize,
    actor: EvidenceGovernanceActorView,
) -> (GovernanceFoldView, Seq<OracleDiagnosticV3View>) {
    let path = governance_path(event_index);
    match actor_session_bound_spec(actor, s.session_authority, path) {
        Some(d) => (f, seq![d]),
        None => match record_index(f.records, record_id) {
            None => (
                f,
                seq![diag(OracleViolationCodeV3::RevokeUnknownRecord, path, "revocation references unknown record"@)],
            ),
            Some(ri) => if f.records[ri as int].project_scope_stable_id != s.project_scope.stable_id {
                (
                    f,
                    seq![
                        diag(
                            OracleViolationCodeV3::CrossProjectRecordReference,
                            path,
                            "revocation references record outside session project scope"@,
                        ),
                    ],
                )
            } else if f.revoked.contains(record_id) || superseded_has(f.superseded, record_id) {
                (
                    f,
                    seq![
                        diag(
                            OracleViolationCodeV3::RevokeInactiveRecord,
                            path,
                            "revocation targets already inactive record"@,
                        ),
                    ],
                )
            } else {
                (GovernanceFoldView { revoked: f.revoked.push(record_id), ..f }, Seq::empty())
            },
        },
    }
}

/// What a supersession does to the fold, and what it finds.
pub open spec fn supersession_step(
    s: CurrentContractStateView,
    f: GovernanceFoldView,
    event_index: usize,
    predecessor: usize,
    successor: usize,
    actor: EvidenceGovernanceActorView,
) -> (GovernanceFoldView, Seq<OracleDiagnosticV3View>) {
    let path = governance_path(event_index);
    match actor_session_bound_spec(actor, s.session_authority, path) {
        Some(d) => (f, seq![d]),
        None => if predecessor == successor {
            (
                f,
                seq![
                    diag(
                        OracleViolationCodeV3::InvalidSupersessionLineage,
                        path,
                        "supersession predecessor equals successor"@,
                    ),
                ],
            )
        } else if !record_active(f, predecessor) {
            (
                f,
                seq![
                    diag(
                        OracleViolationCodeV3::SupersedeUnknownPredecessor,
                        path,
                        "supersession references inactive or unknown predecessor"@,
                    ),
                ],
            )
        } else if !record_active(f, successor) {
            (
                f,
                seq![
                    diag(
                        OracleViolationCodeV3::SupersedeUnknownSuccessor,
                        path,
                        "supersession references inactive or unknown successor"@,
                    ),
                ],
            )
        } else {
            let pi = record_index(f.records, predecessor).unwrap() as int;
            let si = record_index(f.records, successor).unwrap() as int;
            if f.records[pi].project_scope_stable_id != f.records[si].project_scope_stable_id {
                (
                    f,
                    seq![
                        diag(
                            OracleViolationCodeV3::CrossProjectRecordReference,
                            path,
                            "supersession records must belong to the same project scope"@,
                        ),
                    ],
                )
            } else {
                (
                    GovernanceFoldView {
                        superseded: f.superseded.push((predecessor, successor)),
                        records: f.records.update(
                            pi,
                            EvidenceReusableRecordView { superseded_by: Some(successor), ..f.records[pi] },
                        ),
                        ..f
                    },
                    Seq::empty(),
                )
            }
        },
    }
}

/// What one governance event does to the fold, and what it finds.
pub open spec fn apply_governance_spec(
    s: CurrentContractStateView,
    cases: Seq<ValidatedCaseEntryView>,
    decs: Seq<Option<ValidatedReviewDecisionView>>,
    rules: ContractRulesView,
    f: GovernanceFoldView,
    e: EvidenceReuseGovernanceEventView,
) -> (GovernanceFoldView, Seq<OracleDiagnosticV3View>) {
    match e {
        EvidenceReuseGovernanceEventView::PromotionCandidateRejected { event_index, candidate_key, actor } =>
            rejection_step(s, cases, decs, rules, f, event_index, candidate_key, actor),
        EvidenceReuseGovernanceEventView::PromotionAccepted {
            event_index,
            candidate_key,
            payload,
            source_locator,
            actor,
            project_scope_stable_id,
        } => promotion_step(
            s,
            cases,
            decs,
            rules,
            f,
            event_index,
            candidate_key,
            payload,
            source_locator,
            actor,
            project_scope_stable_id,
        ),
        EvidenceReuseGovernanceEventView::ReusableInfluenceRevoked { event_index, record_id, actor } =>
            revocation_step(s, f, event_index, record_id, actor),
        EvidenceReuseGovernanceEventView::ReusableInfluenceSuperseded {
            event_index,
            predecessor_record_id,
            successor_record_id,
            actor,
        } => supersession_step(s, f, event_index, predecessor_record_id, successor_record_id, actor),
    }
}


/// The one insertion that an accepted governance event makes in the fold:
/// a rejection adds its rejection identity, a promotion adds its record, a
/// revocation adds the revoked id, and a supersession adds the pair and marks
/// the predecessor's record as superseded by the successor.
pub open spec fn governance_insertion(
    f: GovernanceFoldView,
    e: EvidenceReuseGovernanceEventView,
    next: GovernanceFoldView,
) -> bool {
    match e {
        EvidenceReuseGovernanceEventView::PromotionCandidateRejected { candidate_key, .. } => {
            &&& !f.rejected.contains(key_rejection_identity(candidate_key))
            &&& next == GovernanceFoldView { rejected: f.rejected.push(key_rejection_identity(candidate_key)), ..f }
        },
        EvidenceReuseGovernanceEventView::PromotionAccepted {
            event_index,
            payload,
            source_locator,
            actor,
            project_scope_stable_id,
            ..
        } => {
            &&& record_index(f.records, event_index) is None
            &&& next == GovernanceFoldView {
                records: f.records.push(
                    EvidenceReusableRecordView {
                        record_id: event_index,
                        project_scope_stable_id,
                        observed_text: payload.observed_text,
                        confirmed_replacement: payload.confirmed_replacement,
                        source_locator,
                        promotion_actor: actor,
                        superseded_by: None,
                    },
                ),
                ..f
            }
        },
        EvidenceReuseGovernanceEventView::ReusableInfluenceRevoked { record_id, .. } => {
            &&& record_index(f.records, record_id) is Some
            &&& next == GovernanceFoldView { revoked: f.revoked.push(record_id), ..f }
        },
        EvidenceReuseGovernanceEventView::ReusableInfluenceSuperseded {
            predecessor_record_id,
            successor_record_id,
            ..
        } => {
            &&& record_index(f.records, predecessor_record_id) is Some
            &&& next == GovernanceFoldView {
                superseded: f.superseded.push((predecessor_record_id, successor_record_id)),
                records: f.records.update(
                    record_index(f.records, predecessor_record_id).unwrap() as int,
                    EvidenceReusableRecordView {
                        superseded_by: Some(successor_record_id),
                        ..f.records[record_index(f.records, predecessor_record_id).unwrap() as int]
                    },
                ),
                ..f
            }
        },
    }
}

/// Each governance event either reports at least one finding and leaves the
/// fold as it was, or reports none and makes exactly the one insertion that
/// its kind calls for.
pub proof fn law_governance_step_finds_or_inserts_once(
    s: CurrentContractStateView,
    cases: Seq<ValidatedCaseEntryView>,
    decs: Seq<Option<ValidatedReviewDecisionView>>,
    rules: ContractRulesView,
    f: GovernanceFoldView,
    e: EvidenceReuseGovernanceEventView,
)
    ensures
        ({
            let (next, found) = apply_governance_spec(s, cases, decs, rules, f, e);
            (found.len() > 0 && next == f) || (found.len() == 0 && governance_insertion(f, e, next))
        }),
{
}

fn governance_path_text(index: usize) -> (r: String)
    ensures
        r@ == governance_path(index),
{
    let number = decimal(index);
    concat3("reuse_governance_events[", number.as_str(), "]")
}

fn apply_rejection(
    state: &CurrentContractState,
    cases: &Vec<ValidatedCaseEntry>,
    decisions: &Vec<Option<ValidatedReviewDecision>>,
    rules: &ContractRules,
    fold: &mut GovernanceFoldState,
    event_index: usize,
    key: &EvidenceReuseCandidateKey,
    actor: &EvidenceGovernanceActor,
    violations: &mut Vec<OracleDiagnosticV3>,
)
    requires
        decisions@.len() == state@.review_ledger_events.len(),
    ensures
        final(fold)@ == rejection_step(
            state@,
            vec_view(cases@),
            decisions_view(decisions@),
            rules@,
            old(fold)@,
            event_index,
            key@,
            actor@,
        ).0,
        diags_view(final(violations)@) == diags_view(old(violations)@) + rejection_step(
            state@,
            vec_view(cases@),
            decisions_view(decisions@),
            rules@,
            old(fold)@,
            event_index,
            key@,
            actor@,
        ).1,
{
    let ghost start = diags_view(violations@);
    let path = governance_path_text(event_index);
    if !validate_governance_actor_session_bound(actor, &state.session_authority, path.as_str(), violations) {
        return ;
    }
    if !validate_candidate_key(state, cases, decisions, rules, key, violations) {
        return ;
    }
    proof {
        assert(diags_view(violations@) =~= start);
    }
    let identity = rejection_identity_digest(
        key.project_scope_stable_id.as_str(),
        key.source_locator.source_review_case_id.as_str(),
        key.source_locator.review_ledger_position,
        key.source_locator.decision_digest.as_str(),
    );
    if contains_text(&fold.rejected, &identity) {
        push_diag(
            violations,
            diagnostic(OracleViolationCodeV3::DuplicateRejectionIdentity, path.as_str(), "candidate has already been rejected"),
        );
        return ;
    }
    if promoted_from_exec(fold, key) {
        push_diag(
            violations,
            diagnostic(
                OracleViolationCodeV3::PromotionAfterRejectedCandidate,
                path.as_str(),
                "candidate rejection after promotion is forbidden",
            ),
        );
        return ;
    }
    let ghost before = fold@;
    fold.rejected.push(identity);
    proof {
        assert(fold@.rejected =~= before.rejected.push(key_rejection_identity(key@)));
    }
}

fn apply_promotion(
    state: &CurrentContractState,
    cases: &Vec<ValidatedCaseEntry>,
    decisions: &Vec<Option<ValidatedReviewDecision>>,
    rules: &ContractRules,
    fold: &mut GovernanceFoldState,
    event_index: usize,
    key: &EvidenceReuseCandidateKey,
    payload: &EvidenceExactReusableCorrection,
    locator: &EvidenceSourceDecisionLocator,
    actor: &EvidenceGovernanceActor,
    scope: &String,
    violations: &mut Vec<OracleDiagnosticV3>,
)
    requires
        decisions@.len() == state@.review_ledger_events.len(),
    ensures
        final(fold)@ == promotion_step(
            state@,
            vec_view(cases@),
            decisions_view(decisions@),
            rules@,
            old(fold)@,
            event_index,
            key@,
            payload@,
            locator@,
            actor@,
            scope@,
        ).0,
        diags_view(final(violations)@) == diags_view(old(violations)@) + promotion_step(
            state@,
            vec_view(cases@),
            decisions_view(decisions@),
            rules@,
            old(fold)@,
            event_index,
            key@,
            payload@,
            locator@,
            actor@,
            scope@,
        ).1,
{
    let ghost start = diags_view(violations@);
    let path = governance_path_text(event_index);
    if !validate_governance_actor_session_bound(actor, &state.session_authority, path.as_str(), violations) {
        return ;
    }
    if !validate_candidate_key(state, cases, decisions, rules, key, violations) {
        return ;
    }
    proof {
        assert(diags_view(violations@) =~= start);
    }
    if !key.exact_payload.same_as(payload) {
        push_diag(
            violations,
            diagnostic(
                OracleViolationCodeV3::PromotionPayloadMismatch,
                path.as_str(),
                "promotion payload does not match candidate key payload",
            ),
        );
        return ;
    }
    if !key.source_locator.same_as(locator) {
        push_diag(
            violations,
            diagnostic(
                OracleViolationCodeV3::PromotionLocatorMismatch,
                path.as_str(),
                "promotion source locator does not equal candidate locator",
            ),
        );
        return ;
    }
    if !validate_locator_integrity(state, cases, decisions, rules, locator, payload, violations) {
        return ;
    }
    proof {
        assert(diags_view(violations@) =~= start);
    }
    if !scope.same_as(&state.project_scope.stable_id) {
        push_diag(
            violations,
            diagnostic(
                OracleViolationCodeV3::CrossProjectRecordReference,
                path.as_str(),
                "promotion project scope does not match session project scope",
            ),
        );
        return ;
    }
    let rejection = rejection_identity_digest(
        key.project_scope_stable_id.as_str(),
        key.source_locator.source_review_case_id.as_str(),
        key.source_locator.review_ledger_position,
        key.source_locator.decision_digest.as_str(),
    );
    if contains_text(&fold.rejected, &rejection) {
        push_diag(
            violations,
            diagnostic(
                OracleViolationCodeV3::PromotionAfterRejectedCandidate,
                path.as_str(),
                "promotion accepted after candidate rejection",
            ),
        );
        return ;
    }
    if record_position(&fold.records, event_index).is_some() {
        push_diag(
            violations,
            diagnostic(
                OracleViolationCodeV3::DuplicateAcceptedRecordId,
                path.as_str(),
                "duplicate promotion accepted record id",
            ),
        );
        return ;
    }
    let ghost before = fold@;
    let record = EvidenceReusableRecord {
        record_id: event_index,
        project_scope_stable_id: scope.clone(),
        observed_text: payload.observed_text.clone(),
        confirmed_replacement: payload.confirmed_replacement.clone(),
        source_locator: locator.clone(),
        promotion_actor: actor.clone(),
        superseded_by: None,
    };
    fold.records.push(record);
    proof {
        assert(fold@.records =~= before.records.push(record@));
    }
}

fn apply_revocation(
    state: &CurrentContractState,
    fold: &mut GovernanceFoldState,
    event_index: usize,
    record_id: usize,
    actor: &EvidenceGovernanceActor,
    violations: &mut Vec<OracleDiagnosticV3>,
)
    ensures
        final(fold)@ == revocation_step(state@, old(fold)@, event_index, record_id, actor@).0,
        diags_view(final(violations)@) == diags_view(old(violations)@) + revocation_step(
            state@,
            old(fold)@,
            event_index,
            record_id,
            actor@,
        ).1,
{
    let path = governance_path_text(event_index);
    if !validate_governance_actor_session_bound(actor, &state.session_authority, path.as_str(), violations) {
        return ;
    }
    let index = match record_position(&fold.records, record_id) {
        Some(k) => k,
        None => {
            push_diag(
                violations,
                diagnostic(OracleViolationCodeV3::RevokeUnknownRecord, path.as_str(), "revocation references unknown record"),
            );
            return ;
        },
    };
    proof {
        lemma_record_index(fold@.records, record_id);
        assert(fold@.records[index as int] == fold.records@[index as int]@);
    }
    if !fold.records[index].project_scope_stable_id.same_as(&state.project_scope.stable_id) {
        push_diag(
            violations,
            diagnostic(
                OracleViolationCodeV3::CrossProjectRecordReference,
                path.as_str(),
                "revocation references record outside session project scope",
            ),
        );
        return ;
    }
    if contains_index(&fold.revoked, record_id) || superseded_contains(&fold.superseded, record_id) {
        push_diag(
            violations,
            diagnostic(
                OracleViolationCodeV3::RevokeInactiveRecord,
                path.as_str(),
                "revocation targets already inactive record",
            ),
        );
        return ;
    }
    fold.revoked.push(record_id);
}

fn record_is_active(fold: &GovernanceFoldState, id: usize) -> (r: bool)
    ensures
        r == record_active(fold@, id),
{
    record_position(&fold.records, id).is_some() && !contains_index(&fold.revoked, id) && !superseded_contains(
        &fold.superseded,
        id,
    )
}

fn apply_supersession(
    state: &CurrentContractState,
    fold: &mut GovernanceFoldState,
    event_index: usize,
    predecessor: usize,
    successor: usize,
    actor: &EvidenceGovernanceActor,
    violations: &mut Vec<OracleDiagnosticV3>,
)
    ensures
        final(fold)@ == supersession_step(state@, old(fold)@, event_index, predecessor, successor, actor@).0,
        diags_view(final(violations)@) == diags_view(old(violations)@) + supersession_step(
            state@,
            old(fold)@,
            event_index,
            predecessor,
            successor,
            actor@,
        ).1,
{
    let path = governance_path_text(event_index);
    if !validate_governance_actor_session_bound(actor, &state.session_authority, path.as_str(), violations) {
        return ;
    }
    if predecessor == successor {
        push_diag(
            violations,
            diagnostic(
                OracleViolationCodeV3::InvalidSupersessionLineage,
                path.as_str(),
                "supersession predecessor equals successor",
            ),
        );
        return ;
    }
    if !record_is_active(fold, predecessor) {
        push_diag(
            violations,
            diagnostic(
                OracleViolationCodeV3::SupersedeUnknownPredecessor,
                path.as_str(),
                "supersession references inactive or unknown predecessor",
            ),
        );
        return ;
    }
    if !record_is_active(fold, successor) {
        push_diag(
            violations,
            diagnostic(
                OracleViolationCodeV3::SupersedeUnknownSuccessor,
                path.as_str(),
                "supersession references inactive or unknown successor",
            ),
        );
        return ;
    }
    let pi = match record_position(&fold.records, predecessor) {
        Some(k) => k,
        None => {
            return ;
        },
    };
    let si = match record_position(&fold.records, successor) {
        Some(k) => k,
        None => {
            return ;
        },
    };
    proof {
        lemma_record_index(fold@.records, predecessor);
        lemma_record_index(fold@.records, successor);
        assert(fold@.records[pi as int] == fold.records@[pi as int]@);
        assert(fold@.records[si as int] == fold.records@[si as int]@);
    }
    if !fold.records[pi].project_scope_stable_id.same_as(&fold.records[si].project_scope_stable_id) {
        push_diag(
            violations,
            diagnostic(
                OracleViolationCodeV3::CrossProjectRecordReference,
                path.as_str(),
                "supersession records must belong to the same project scope",
            ),
        );
        return ;
    }
    let ghost before = fold@;
    fold.superseded.push((predecessor, successor));
    let mut record = fold.records[pi].clone();
    record.superseded_by = Some(successor);
    fold.records.set(pi, record);
    proof {
        assert(fold@.records =~= before.records.update(
            pi as int,
            EvidenceReusableRecordView { superseded_by: Some(successor), ..before.records[pi as int] },
        ));
    }
}

/// Applies one reuse-governance event to the fold: the actor must be the
/// session's, and each kind of event has its own conditions; a refused event
/// leaves the fold unchanged and its finding in `violations`.
fn apply_governance_event(
    state: &CurrentContractState,
    cases: &Vec<ValidatedCaseEntry>,
    decisions: &Vec<Option<ValidatedReviewDecision>>,
    rules: &ContractRules,
    event: &EvidenceReuseGovernanceEvent,
    fold: &mut GovernanceFoldState,
    violations: &mut Vec<OracleDiagnosticV3>,
)
    requires
        decisions@.len() == state@.review_ledger_events.len(),
    ensures
        final(fold)@ == apply_governance_spec(
            state@,
            vec_view(cases@),
            decisions_view(decisions@),
            rules@,
            old(fold)@,
            event@,
        ).0,
        diags_view(final(violations)@) == diags_view(old(violations)@) + apply_governance_spec(
            state@,
            vec_view(cases@),
            decisions_view(decisions@),
            rules@,
            old(fold)@,
            event@,
        ).1,
{
    match event {
        EvidenceReuseGovernanceEvent::PromotionCandidateRejected { event_index, candidate_key, actor } => {
            apply_rejection(state, cases, decisions, rules, fold, *event_index, candidate_key, actor, violations);
        },
        EvidenceReuseGovernanceEvent::PromotionAccepted {
            event_index,
            candidate_key,
            payload,
            source_locator,
            actor,
            project_scope_stable_id,
        } => {
            apply_promotion(
                state,
                cases,
                decisions,
                rules,
                fold,
                *event_index,
                candidate_key,
                payload,
                source_locator,
                actor,
                project_scope_stable_id,
                violations,
            );
        },
        EvidenceReuseGovernanceEvent::ReusableInfluenceRevoked { event_index, record_id, actor } => {
            apply_revocation(state, fold, *event_index, *record_id, actor, violations);
        },
        EvidenceReuseGovernanceEvent::ReusableInfluenceSuperseded {
            event_index,
            predecessor_record_id,
            successor_record_id,
            actor,
        } => {
            apply_supersession(
                state,
                fold,
                *event_index,
                *predecessor_record_id,
                *successor_record_id,
                actor,
                violations,
            );
        },
    }
}


/// The fold and the findings after the first `n` governance events; an event
/// whose index is out of place is skipped with a finding.
pub open spec fn fold_upto(
    s: CurrentContractStateView,
    cases: Seq<ValidatedCaseEntryView>,
    decs: Seq<Option<ValidatedReviewDecisionView>>,
    rules: ContractRulesView,
    n: int,
) -> (GovernanceFoldView, Seq<OracleDiagnosticV3View>)
    decreases n,
{
    if n <= 0 {
        (empty_fold(), Seq::empty())
    } else {
        let prev = fold_upto(s, cases, decs, rules, n - 1);
        let e = s.reuse_governance_events[n - 1];
        if governance_event_index_spec(e) != n - 1 {
            (
                prev.0,
                prev.1.push(
                    diag(
                        OracleViolationCodeV3::ReuseGovernanceIndexGap,
                        "reuse_governance_events"@,
                        "reuse governance event index is not contiguous"@,
                    ),
                ),
            )
        } else {
            let step = apply_governance_spec(s, cases, decs, rules, prev.0, e);
            (step.0, prev.1 + step.1)
        }
    }
}

/// Whether a record is no longer in force: revoked or superseded.
pub open spec fn inactive_pred(f: GovernanceFoldView) -> spec_fn(EvidenceReusableRecordView) -> bool {
    |r: EvidenceReusableRecordView| f.revoked.contains(r.record_id) || superseded_has(f.superseded, r.record_id)
}

/// Whether a record is still in force.
pub open spec fn active_pred(f: GovernanceFoldView) -> spec_fn(EvidenceReusableRecordView) -> bool {
    |r: EvidenceReusableRecordView| !(f.revoked.contains(r.record_id) || superseded_has(f.superseded, r.record_id))
}

/// The accepted records in record-id order.
pub open spec fn sorted_fold_records(f: GovernanceFoldView) -> Seq<EvidenceReusableRecordView> {
    sort_by_keys_spec(sort_records_keys(f.records), f.records)
}

/// The records still in force, in record-id order.
pub open spec fn fold_effective(f: GovernanceFoldView) -> Seq<EvidenceReusableRecordView> {
    sorted_fold_records(f).filter(active_pred(f))
}

/// The revoked or superseded records, in record-id order.
pub open spec fn fold_historical(f: GovernanceFoldView) -> Seq<EvidenceReusableRecordView> {
    sorted_fold_records(f).filter(inactive_pred(f))
}

/// The rejected candidate identities in text order.
pub open spec fn fold_rejected(f: GovernanceFoldView) -> Seq<Seq<char>> {
    sort_by_keys_spec(f.rejected.map_values(|x: Seq<char>| str_key_spec(x)), f.rejected)
}

/// Sorts texts by their characters.
pub fn sort_texts(v: Vec<String>) -> (r: Vec<String>)
    ensures
        vec_view(r@) == sort_by_keys_spec(vec_view(v@).map_values(|x: Seq<char>| str_key_spec(x)), vec_view(v@)),
{
    let ghost keyspec = vec_view(v@).map_values(|x: Seq<char>| str_key_spec(x));
    let mut keys: Vec<Vec<u64>> = Vec::new();
    let mut i: usize = 0;
    while i < v.len()
        invariant
            i <= v.len(),
            keys@.len() == i,
            keyspec == vec_view(v@).map_values(|x: Seq<char>| str_key_spec(x)),
            forall|j: int| 0 <= j < i ==> #[trigger] keys@[j]@ == keyspec[j],
        decreases v.len() - i,
    {
        keys.push(str_key(&v[i]));
        i = i + 1;
    }
    let ghost items = v@;
    proof {
        assert(keys_view(keys@) =~= keyspec);
        lemma_sort_by_keys_map(keys_view(keys@), items, |x: String| x@);
        assert(vec_view(items) =~= items.map_values(|x: String| x@));
    }
    let r = sort_by_keys(v, keys);
    proof {
        assert(vec_view(r@) =~= r@.map_values(|x: String| x@));
    }
    r
}

impl GovernanceFoldState {
    fn is_inactive(&self, id: usize) -> (r: bool)
        ensures
            r == (self@.revoked.contains(id) || superseded_has(self@.superseded, id)),
    {
        contains_index(&self.revoked, id) || superseded_contains(&self.superseded, id)
    }

    /// Splits the accepted records into those in force and those revoked or
    /// superseded, each in record-id order.
    pub fn finalize(self) -> (r: (Vec<EvidenceReusableRecord>, Vec<EvidenceReusableRecord>))
        ensures
            vec_view(r.0@) == fold_effective(self@),
            vec_view(r.1@) == fold_historical(self@),
    {
        let ghost f = self@;
        let sorted = sort_records(vec_duplicate(&self.records));
        let ghost sv = vec_view(sorted@);
        let mut effective: Vec<EvidenceReusableRecord> = Vec::new();
        let mut historical: Vec<EvidenceReusableRecord> = Vec::new();
        let mut i: usize = 0;
        proof {
            assert(sv.take(0) =~= Seq::<EvidenceReusableRecordView>::empty());
            assert(vec_view(effective@) =~= sv.take(0).filter(active_pred(f)));
            assert(vec_view(historical@) =~= sv.take(0).filter(inactive_pred(f)));
        }
        while i < sorted.len()
            invariant
                i <= sorted.len(),
                f == self@,
                sv == vec_view(sorted@),
                sv == sorted_fold_records(f),
                vec_view(effective@) == sv.take(i as int).filter(active_pred(f)),
                vec_view(historical@) == sv.take(i as int).filter(inactive_pred(f)),
            decreases sorted.len() - i,
        {
            let record = sorted[i].clone();
            proof {
                assert(sv.take(i + 1).drop_last() =~= sv.take(i as int));
                assert(sv.take(i + 1).last() == record@);
            }
            let ghost e0 = vec_view(effective@);
            let ghost h0 = vec_view(historical@);
            if self.is_inactive(record.record_id) {
                historical.push(record);
                proof {
                    assert(inactive_pred(f)(sv[i as int]));
                    assert(!active_pred(f)(sv[i as int]));
                    assert(sv.take(i + 1) =~= sv.take(i as int).push(sv[i as int]));
                    sv.take(i as int).lemma_filter_push(sv[i as int], inactive_pred(f));
                    sv.take(i as int).lemma_filter_push(sv[i as int], active_pred(f));
                    assert(vec_view(historical@) =~= h0.push(sv[i as int]));
                }
            } else {
                effective.push(record);
                proof {
                    assert(!inactive_pred(f)(sv[i as int]));
                    assert(active_pred(f)(sv[i as int]));
                    assert(sv.take(i + 1) =~= sv.take(i as int).push(sv[i as int]));
                    sv.take(i as int).lemma_filter_push(sv[i as int], inactive_pred(f));
                    sv.take(i as int).lemma_filter_push(sv[i as int], active_pred(f));
                    assert(vec_view(effective@) =~= e0.push(sv[i as int]));
                }
            }
            i = i + 1;
        }
        proof {
            assert(sv.take(i as int) =~= sv);
        }
        (effective, historical)
    }
}

/// The bounded number of governance events a fold reads.
pub open spec fn fold_length(s: CurrentContractStateView, limit: usize) -> int {
    if limit < s.reuse_governance_events.len() {
        limit as int
    } else {
        s.reuse_governance_events.len() as int
    }
}

/// Folds the first `limit` reuse-governance events; returns the records in
/// force, the revoked or superseded records, and the rejected candidate
/// identities in text order.
pub(crate) fn fold_reuse_governance(
    state: &CurrentContractState,
    cases: &Vec<ValidatedCaseEntry>,
    decisions: &Vec<Option<ValidatedReviewDecision>>,
    rules: &ContractRules,
    limit: usize,
    violations: &mut Vec<OracleDiagnosticV3>,
) -> (r: (Vec<EvidenceReusableRecord>, Vec<EvidenceReusableRecord>, Vec<String>))
    requires
        decisions@.len() == state@.review_ledger_events.len(),
    ensures
        ({
            let folded = fold_upto(
                state@,
                vec_view(cases@),
                decisions_view(decisions@),
                rules@,
                fold_length(state@, limit),
            );
            &&& vec_view(r.0@) == fold_effective(folded.0)
            &&& vec_view(r.1@) == fold_historical(folded.0)
            &&& vec_view(r.2@) == fold_rejected(folded.0)
            &&& diags_view(final(violations)@) == diags_view(old(violations)@) + folded.1
        }),
{
    let ghost s = state@;
    let ghost cv = vec_view(cases@);
    let ghost dv = decisions_view(decisions@);
    let ghost start = diags_view(violations@);
    let n = if limit < state.reuse_governance_events.len() {
        limit
    } else {
        state.reuse_governance_events.len()
    };
    let mut fold = GovernanceFoldState::new();
    let mut i: usize = 0;
    while i < n
        invariant
            i <= n <= state.reuse_governance_events.len(),
            n == fold_length(s, limit),
            s == state@,
            cv == vec_view(cases@),
            dv == decisions_view(decisions@),
            decisions@.len() == s.review_ledger_events.len(),
            fold@ == fold_upto(s, cv, dv, rules@, i as int).0,
            diags_view(violations@) == start + fold_upto(s, cv, dv, rules@, i as int).1,
        decreases n - i,
    {
        let event = &state.reuse_governance_events[i];
        proof {
            assert(s.reuse_governance_events[i as int] == event@);
        }
        let ghost d0 = diags_view(violations@);
        if governance_event_index(event) != i {
            push_diag(
                violations,
                diagnostic(
                    OracleViolationCodeV3::ReuseGovernanceIndexGap,
                    "reuse_governance_events",
                    "reuse governance event index is not contiguous",
                ),
            );
        } else {
            apply_governance_event(state, cases, decisions, rules, event, &mut fold, violations);
            proof {
                assert(diags_view(violations@) =~= start + fold_upto(s, cv, dv, rules@, i + 1).1);
            }
        }
        i = i + 1;
    }
    let rejected = sort_texts(vec_duplicate(&fold.rejected));
    let (effective, historical) = fold.finalize();
    (effective, historical, rejected)
}

} // verus!
