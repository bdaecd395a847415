use vstd::prelude::*;
use crate::derivation::{
    has_revision, has_revision_spec, find_case, lookup_case, ValidatedCaseEntry, ValidatedCaseEntryView,
    ValidatedReviewDecision, ValidatedReviewDecisionView,
};
use crate::model::{
    opt_view, vec_view, CurrentContractState, CurrentContractStateView, EvidenceCorrectionDecision,
    EvidenceCorrectionDecisionView, EvidenceEffectiveReviewStatus, EvidenceEffectiveReviewStatusView,
    EvidenceReviewCaseView, EvidenceReviewLedgerEvent, EvidenceReviewLedgerEventView, SameAs, sort_review_status,
    sort_review_status_keys, str_key_spec,
};
use crate::order::{in_key_order, lemma_sort_by_key_fn, lemma_sort_by_keys_permutes, sort_by_keys_spec};
use crate::production_bridge::{
    manual_replacement_valid_spec, parse_review_case_id, parse_review_case_id_spec, validate_manual_replacement,
    validate_revision_id, validate_revision_id_spec, ContractRules, ContractRulesView,
};
use crate::text::{concat2, concat3, decimal, decimal_spec, str_eq};
use crate::violations::{
    concat_upto, diag, diagnostic, diags_view, push_diag, OracleDiagnosticV3, OracleDiagnosticV3View,
    OracleViolationCodeV3,
};

verus! {

/// The path under which findings about a review ledger event are reported.
pub open spec fn event_path_spec(e: EvidenceReviewLedgerEventView) -> Seq<char> {
    "review_ledger_events["@ + decimal_spec(e.event_index as nat) + "]"@
}

/// The position of the first review case with the given id.
pub open spec fn first_case_index(cases: Seq<EvidenceReviewCaseView>, id: Seq<char>) -> Option<nat>
    decreases cases.len(),
{
    if cases.len() == 0 {
        None
    } else if cases[0].case_id == id {
        Some(0)
    } else {
        match first_case_index(cases.drop_first(), id) {
            Some(i) => Some(i + 1),
            None => None,
        }
    }
}

proof fn lemma_first_case_index(cases: Seq<EvidenceReviewCaseView>, id: Seq<char>)
    ensures
        match first_case_index(cases, id) {
            Some(i) => i < cases.len() && cases[i as int].case_id == id,
            None => forall|j: int| 0 <= j < cases.len() ==> (#[trigger] cases[j]).case_id != id,
        },
    decreases cases.len(),
{
    if cases.len() > 0 && cases[0].case_id != id {
        let rest = cases.drop_first();
        lemma_first_case_index(rest, id);
        match first_case_index(rest, id) {
            Some(i) => {
                assert(cases[(i + 1) as int] == rest[i as int]);
            },
            None => {
                assert forall|j: int| 0 <= j < cases.len() implies (#[trigger] cases[j]).case_id != id by {
                    if j > 0 {
                        assert(cases[j] == rest[j - 1]);
                    }
                }
            },
        }
    }
}

/// The position of the first review case with the given id.
fn first_case_position(state: &CurrentContractState, id: &String) -> (r: Option<usize>)
    ensures
        match r {
            Some(k) => first_case_index(state@.review_cases, id@) == Some(k as nat),
            None => first_case_index(state@.review_cases, id@) is None,
        },
{
    let ghost cases = state@.review_cases;
    let mut index: usize = 0;
    proof {
        assert(cases.skip(0) =~= cases);
    }
    while index < state.review_cases.len()
        invariant
            index <= state.review_cases.len(),
            cases == state@.review_cases,
            first_case_index(cases, id@) == match first_case_index(cases.skip(index as int), id@) {
                Some(k) => Some((k + index) as nat),
                None => None::<nat>,
            },
        decreases state.review_cases.len() - index,
    {
        proof {
            let sk = cases.skip(index as int);
            assert(sk[0] == cases[index as int]);
            assert(sk.drop_first() =~= cases.skip(index + 1));
        }
        if state.review_cases[index].case_id.same_as(id) {
            return Some(index);
        }
        index = index + 1;
    }
    proof {
        assert(cases.skip(index as int).len() == 0);
    }
    None
}

/// The decision a review action encodes, or the finding that refuses it.
pub open spec fn action_decision_spec(
    e: EvidenceReviewLedgerEventView,
    observed_source_bytes: Seq<char>,
    alternative_count: usize,
    rules: ContractRulesView,
) -> Result<EvidenceCorrectionDecisionView, OracleDiagnosticV3View> {
    let path = event_path_spec(e);
    let malformed = OracleViolationCodeV3::MalformedReviewLedgerEvent;
    if e.action_kind == "manual_replacement"@ {
        if e.alternative_index is Some {
            Err(diag(malformed, path, "manual replacement must not include alternative index"@))
        } else {
            match e.manual_replacement_bytes {
                None => Err(diag(malformed, path, "manual replacement bytes are required"@)),
                Some(t) => if t.len() == 0 {
                    Err(diag(malformed, path, "manual replacement bytes must not be empty"@))
                } else if manual_replacement_valid_spec(
                    t,
                    observed_source_bytes,
                    rules.max_manual_replacement_utf8_bytes,
                ) {
                    Ok(EvidenceCorrectionDecisionView::ManualReplacement { replacement: t })
                } else {
                    Err(diag(malformed, path, "manual replacement bytes are invalid for observed source bytes"@))
                },
            }
        }
    } else if e.action_kind == "accept_alternative"@ {
        if e.manual_replacement_bytes is Some {
            Err(diag(malformed, path, "accept alternative must not include manual replacement bytes"@))
        } else {
            match e.alternative_index {
                None => Err(diag(malformed, path, "accept alternative requires alternative index"@)),
                Some(a) => if a >= alternative_count {
                    Err(
                        diag(
                            malformed,
                            path,
                            "accept alternative index is outside the recorded review-case alternatives"@,
                        ),
                    )
                } else {
                    Ok(EvidenceCorrectionDecisionView::AcceptAlternative { alternative_index: a })
                },
            }
        }
    } else if e.action_kind == "reject"@ || e.action_kind == "defer"@ || e.action_kind
        == "needs_manual_correction"@ {
        if e.manual_replacement_bytes is Some || e.alternative_index is Some {
            Err(diag(malformed, path, "non-replacement actions must not include replacement payload fields"@))
        } else if e.action_kind == "reject"@ {
            Ok(EvidenceCorrectionDecisionView::Reject)
        } else if e.action_kind == "defer"@ {
            Ok(EvidenceCorrectionDecisionView::Defer)
        } else {
            Ok(EvidenceCorrectionDecisionView::NeedsManualCorrection)
        }
    } else {
        Err(
            diag(
                OracleViolationCodeV3::ChangedReviewLedgerPayload,
                path,
                "unsupported action kind "@ + e.action_kind,
            ),
        )
    }
}

/// The decision a review ledger event records, or the first finding that
/// refuses it: the case it names, its anchor, its revision, its provenance
/// and its action, in that order.
pub open spec fn decode_event_spec(
    s: CurrentContractStateView,
    cases: Seq<ValidatedCaseEntryView>,
    rules: ContractRulesView,
    e: EvidenceReviewLedgerEventView,
) -> Result<EvidenceCorrectionDecisionView, OracleDiagnosticV3View> {
    let path = event_path_spec(e);
    match first_case_index(s.review_cases, e.case_id) {
        None => Err(
            diag(
                OracleViolationCodeV3::MissingReviewCaseReference,
                path,
                "review ledger references missing review case"@,
            ),
        ),
        Some(ci) => match lookup_case(cases, e.case_id) {
            None => Err(
                diag(
                    OracleViolationCodeV3::SourceAnchorResolvedBytesMismatch,
                    path,
                    "review ledger cannot consume a review case with an invalid source anchor"@,
                ),
            ),
            Some(vc) => if e.target_event_index is Some {
                Err(
                    diag(
                        OracleViolationCodeV3::MalformedReviewLedgerEvent,
                        path,
                        "target_event_index is not part of an MD-017 review action"@,
                    ),
                )
            } else if parse_review_case_id_spec(e.case_id) is Err {
                Err(
                    diag(
                        OracleViolationCodeV3::MalformedReviewCaseId,
                        path,
                        "review ledger event references malformed review case id"@,
                    ),
                )
            } else if !has_revision_spec(s, e.observed_revision_id) {
                Err(
                    diag(
                        OracleViolationCodeV3::ChangedSourceRevisionIdentity,
                        path,
                        "review ledger references missing source revision"@,
                    ),
                )
            } else if e.observed_revision_id != s.review_cases[ci as int].observed_revision_id {
                Err(
                    diag(
                        OracleViolationCodeV3::ReviewLedgerEventRevisionMismatch,
                        path,
                        "review ledger event observed revision differs from review case"@,
                    ),
                )
            } else if e.provenance == "automatic"@ {
                Err(diag(OracleViolationCodeV3::FabricatedAutomaticDecision, path, "automatic provenance is forbidden"@))
            } else if e.provenance != "human"@ {
                Err(diag(OracleViolationCodeV3::UnknownDecisionProvenance, path, "unknown review ledger provenance"@))
            } else {
                action_decision_spec(e, vc.observed_source_bytes, vc.alternative_count, rules)
            },
        },
    }
}

/// The result of a decision check, as a value.
pub open spec fn decision_result_view(
    r: Result<EvidenceCorrectionDecision, OracleDiagnosticV3>,
) -> Result<EvidenceCorrectionDecisionView, OracleDiagnosticV3View> {
    match r {
        Ok(d) => Ok(d@),
        Err(e) => Err(e@),
    }
}

fn action_decision(
    event: &EvidenceReviewLedgerEvent,
    path: &String,
    observed_source_bytes: &String,
    alternative_count: usize,
    rules: &ContractRules,
) -> (r: Result<EvidenceCorrectionDecision, OracleDiagnosticV3>)
    requires
        path@ == event_path_spec(event@),
    ensures
        decision_result_view(r) == action_decision_spec(event@, observed_source_bytes@, alternative_count, rules@),
{
    let malformed = OracleViolationCodeV3::MalformedReviewLedgerEvent;
    let kind = event.action_kind.as_str();
    if str_eq(kind, "manual_replacement") {
        if event.alternative_index.is_some() {
            return Err(diagnostic(malformed, path.as_str(), "manual replacement must not include alternative index"));
        }
        match &event.manual_replacement_bytes {
            None => Err(diagnostic(malformed, path.as_str(), "manual replacement bytes are required")),
            Some(t) => {
                if t.as_str().is_empty() {
                    return Err(diagnostic(malformed, path.as_str(), "manual replacement bytes must not be empty"));
                }
                match validate_manual_replacement(
                    t.as_str(),
                    observed_source_bytes.as_str(),
                    rules.max_manual_replacement_utf8_bytes,
                ) {
                    Ok(()) => Ok(EvidenceCorrectionDecision::ManualReplacement { replacement: t.clone() }),
                    Err(_) => Err(
                        diagnostic(
                            malformed,
                            path.as_str(),
                            "manual replacement bytes are invalid for observed source bytes",
                        ),
                    ),
                }
            },
        }
    } else if str_eq(kind, "accept_alternative") {
        if event.manual_replacement_bytes.is_some() {
            return Err(
                diagnostic(malformed, path.as_str(), "accept alternative must not include manual replacement bytes"),
            );
        }
        match event.alternative_index {
            None => Err(diagnostic(malformed, path.as_str(), "accept alternative requires alternative index")),
            Some(a) => {
                if a >= alternative_count {
                    Err(
                        diagnostic(
                            malformed,
                            path.as_str(),
                            "accept alternative index is outside the recorded review-case alternatives",
                        ),
                    )
                } else {
                    Ok(EvidenceCorrectionDecision::AcceptAlternative { alternative_index: a })
                }
            },
        }
    } else if str_eq(kind, "reject") || str_eq(kind, "defer") || str_eq(kind, "needs_manual_correction") {
        if event.manual_replacement_bytes.is_some() || event.alternative_index.is_some() {
            return Err(
                diagnostic(
                    malformed,
                    path.as_str(),
                    "non-replacement actions must not include replacement payload fields",
                ),
            );
        }
        if str_eq(kind, "reject") {
            Ok(EvidenceCorrectionDecision::Reject)
        } else if str_eq(kind, "defer") {
            Ok(EvidenceCorrectionDecision::Defer)
        } else {
            Ok(EvidenceCorrectionDecision::NeedsManualCorrection)
        }
    } else {
        let message = concat2("unsupported action kind ", kind);
        Err(diagnostic(OracleViolationCodeV3::ChangedReviewLedgerPayload, path.as_str(), message.as_str()))
    }
}

/// Decodes one review ledger event into the decision it records, or returns
/// the first finding that refuses it.
fn validate_and_decode_review_event(
    state: &CurrentContractState,
    cases: &Vec<ValidatedCaseEntry>,
    rules: &ContractRules,
    event: &EvidenceReviewLedgerEvent,
) -> (r: Result<EvidenceCorrectionDecision, OracleDiagnosticV3>)
    ensures
        decision_result_view(r) == decode_event_spec(state@, vec_view(cases@), rules@, event@),
{
    let number = decimal(event.event_index);
    let path = concat3("review_ledger_events[", number.as_str(), "]");
    let case_index = match first_case_position(state, &event.case_id) {
        Some(k) => k,
        None => {
            return Err(
                diagnostic(
                    OracleViolationCodeV3::MissingReviewCaseReference,
                    path.as_str(),
                    "review ledger references missing review case",
                ),
            );
        },
    };
    proof {
        lemma_first_case_index(state@.review_cases, event@.case_id);
    }
    let validated = match find_case(cases, &event.case_id) {
        Some(v) => v,
        None => {
            return Err(
                diagnostic(
                    OracleViolationCodeV3::SourceAnchorResolvedBytesMismatch,
                    path.as_str(),
                    "review ledger cannot consume a review case with an invalid source anchor",
                ),
            );
        },
    };
    if event.target_event_index.is_some() {
        return Err(
            diagnostic(
                OracleViolationCodeV3::MalformedReviewLedgerEvent,
                path.as_str(),
                "target_event_index is not part of an MD-017 review action",
            ),
        );
    }
    if parse_review_case_id(event.case_id.as_str()).is_err() {
        return Err(
            diagnostic(
                OracleViolationCodeV3::MalformedReviewCaseId,
                path.as_str(),
                "review ledger event references malformed review case id",
            ),
        );
    }
    if !has_revision(state, &event.observed_revision_id) {
        return Err(
            diagnostic(
                OracleViolationCodeV3::ChangedSourceRevisionIdentity,
                path.as_str(),
                "review ledger references missing source revision",
            ),
        );
    }
    if !event.observed_revision_id.same_as(&state.review_cases[case_index].observed_revision_id) {
        return Err(
            diagnostic(
                OracleViolationCodeV3::ReviewLedgerEventRevisionMismatch,
                path.as_str(),
                "review ledger event observed revision differs from review case",
            ),
        );
    }
    if str_eq(event.provenance.as_str(), "automatic") {
        return Err(
            diagnostic(
                OracleViolationCodeV3::FabricatedAutomaticDecision,
                path.as_str(),
                "automatic provenance is forbidden",
            ),
        );
    }
    if !str_eq(event.provenance.as_str(), "human") {
        return Err(
            diagnostic(
                OracleViolationCodeV3::UnknownDecisionProvenance,
                path.as_str(),
                "unknown review ledger provenance",
            ),
        );
    }
    action_decision(event, &path, &validated.observed_source_bytes, validated.alternative_count, rules)
}


/// The validated decision of review ledger event `i`, or the finding that refuses it.
pub open spec fn ledger_step_spec(
    s: CurrentContractStateView,
    cases: Seq<ValidatedCaseEntryView>,
    rules: ContractRulesView,
    i: int,
) -> Result<ValidatedReviewDecisionView, OracleDiagnosticV3View> {
    let e = s.review_ledger_events[i];
    if e.event_index != i {
        Err(
            diag(
                OracleViolationCodeV3::ReviewLedgerIndexGap,
                "review_ledger_events"@,
                "review ledger event index is not contiguous"@,
            ),
        )
    } else {
        match decode_event_spec(s, cases, rules, e) {
            Err(d) => Err(d),
            Ok(dec) => match validate_revision_id_spec(e.observed_revision_id) {
                Err(d) => Err(d),
                Ok(_) => Ok(
                    ValidatedReviewDecisionView {
                        case_id: e.case_id,
                        observed_revision_id: e.observed_revision_id,
                        decision: dec,
                    },
                ),
            },
        }
    }
}

/// The value a step produced, if it succeeded.
pub open spec fn step_ok<T>(r: Result<T, OracleDiagnosticV3View>) -> Option<T> {
    match r {
        Ok(v) => Some(v),
        Err(_) => None,
    }
}

/// The finding a step produced, if it failed.
pub open spec fn step_diags<T>(r: Result<T, OracleDiagnosticV3View>) -> Seq<OracleDiagnosticV3View> {
    match r {
        Ok(_) => Seq::empty(),
        Err(d) => seq![d],
    }
}

/// The validated decision at each ledger position (`None` where the event is refused).
pub open spec fn ledger_decisions_spec(
    s: CurrentContractStateView,
    cases: Seq<ValidatedCaseEntryView>,
    rules: ContractRulesView,
) -> Seq<Option<ValidatedReviewDecisionView>> {
    Seq::new(s.review_ledger_events.len(), |i: int| step_ok(ledger_step_spec(s, cases, rules, i)))
}

/// Per-event ledger findings.
pub open spec fn ledger_diags_fn(
    s: CurrentContractStateView,
    cases: Seq<ValidatedCaseEntryView>,
    rules: ContractRulesView,
) -> spec_fn(int) -> Seq<OracleDiagnosticV3View> {
    |k: int| step_diags(ledger_step_spec(s, cases, rules, k))
}

/// The values of a sequence of optional decisions.
pub open spec fn decisions_view(v: Seq<Option<ValidatedReviewDecision>>) -> Seq<Option<ValidatedReviewDecisionView>> {
    v.map_values(|o: Option<ValidatedReviewDecision>| opt_view(o))
}

/// Decodes every review ledger event; a refused event leaves `None` at its
/// position and its finding in `violations`.
pub(crate) fn validate_review_ledger(
    state: &CurrentContractState,
    cases: &Vec<ValidatedCaseEntry>,
    rules: &ContractRules,
    violations: &mut Vec<OracleDiagnosticV3>,
) -> (r: Vec<Option<ValidatedReviewDecision>>)
    ensures
        decisions_view(r@) == ledger_decisions_spec(state@, vec_view(cases@), rules@),
        diags_view(final(violations)@) == diags_view(old(violations)@) + concat_upto(
            state@.review_ledger_events.len() as int,
            ledger_diags_fn(state@, vec_view(cases@), rules@),
        ),
{
    let ghost s = state@;
    let ghost cv = vec_view(cases@);
    let ghost start = diags_view(violations@);
    let mut validated: Vec<Option<ValidatedReviewDecision>> = Vec::new();
    let mut i: usize = 0;
    while i < state.review_ledger_events.len()
        invariant
            i <= state.review_ledger_events.len(),
            s == state@,
            cv == vec_view(cases@),
            validated@.len() == i,
            forall|j: int| 0 <= j < i ==> opt_view(#[trigger] validated@[j]) == step_ok(ledger_step_spec(s, cv, rules@, j)),
            diags_view(violations@) == start + concat_upto(i as int, ledger_diags_fn(s, cv, rules@)),
        decreases state.review_ledger_events.len() - i,
    {
        let event = &state.review_ledger_events[i];
        proof {
            assert(s.review_ledger_events[i as int] == event@);
        }
        let ghost before = diags_view(violations@);
        let step: Result<ValidatedReviewDecision, OracleDiagnosticV3> = if event.event_index != i {
            Err(
                diagnostic(
                    OracleViolationCodeV3::ReviewLedgerIndexGap,
                    "review_ledger_events",
                    "review ledger event index is not contiguous",
                ),
            )
        } else {
            match validate_and_decode_review_event(state, cases, rules, event) {
                Err(d) => Err(d),
                Ok(decision) => match validate_revision_id(event.observed_revision_id.as_str()) {
                    Err(d) => Err(d),
                    Ok(()) => Ok(
                        ValidatedReviewDecision {
                            case_id: event.case_id.clone(),
                            observed_revision_id: event.observed_revision_id.clone(),
                            decision,
                        },
                    ),
                },
            }
        };
        proof {
            assert(match step {
                Ok(v) => ledger_step_spec(s, cv, rules@, i as int) == Ok::<ValidatedReviewDecisionView, OracleDiagnosticV3View>(v@),
                Err(d) => ledger_step_spec(s, cv, rules@, i as int) == Err::<ValidatedReviewDecisionView, OracleDiagnosticV3View>(d@),
            });
        }
        match step {
            Ok(v) => {
                validated.push(Some(v));
            },
            Err(d) => {
                push_diag(violations, d);
                validated.push(None);
            },
        }
        i = i + 1;
        proof {
            assert(diags_view(violations@) =~= start + concat_upto(i as int, ledger_diags_fn(s, cv, rules@)));
        }
    }
    proof {
        assert(decisions_view(validated@) =~= ledger_decisions_spec(s, cv, rules@));
    }
    validated
}

/// The effective review status a validated decision establishes.
pub open spec fn status_of(d: ValidatedReviewDecisionView) -> EvidenceEffectiveReviewStatusView {
    EvidenceEffectiveReviewStatusView {
        case_id: d.case_id,
        observed_revision_id: d.observed_revision_id,
        decision: d.decision,
    }
}

/// The position of the status recorded under a case id.
pub open spec fn first_status_index(entries: Seq<EvidenceEffectiveReviewStatusView>, id: Seq<char>) -> Option<nat>
    decreases entries.len(),
{
    if entries.len() == 0 {
        None
    } else if entries[0].case_id == id {
        Some(0)
    } else {
        match first_status_index(entries.drop_first(), id) {
            Some(i) => Some(i + 1),
            None => None,
        }
    }
}

proof fn lemma_first_status_index(entries: Seq<EvidenceEffectiveReviewStatusView>, id: Seq<char>)
    ensures
        match first_status_index(entries, id) {
            Some(i) => i < entries.len() && entries[i as int].case_id == id,
            None => forall|j: int| 0 <= j < entries.len() ==> (#[trigger] entries[j]).case_id != id,
        },
    decreases entries.len(),
{
    if entries.len() > 0 && entries[0].case_id != id {
        let rest = entries.drop_first();
        lemma_first_status_index(rest, id);
        match first_status_index(rest, id) {
            Some(i) => {
                assert(entries[(i + 1) as int] == rest[i as int]);
            },
            None => {
                assert forall|j: int| 0 <= j < entries.len() implies (#[trigger] entries[j]).case_id != id by {
                    if j > 0 {
                        assert(entries[j] == rest[j - 1]);
                    }
                }
            },
        }
    }
}

/// Records a status, replacing the one already kept under its case id.
pub open spec fn upsert_status(
    entries: Seq<EvidenceEffectiveReviewStatusView>,
    st: EvidenceEffectiveReviewStatusView,
) -> Seq<EvidenceEffectiveReviewStatusView> {
    match first_status_index(entries, st.case_id) {
        Some(k) => entries.update(k as int, st),
        None => entries.push(st),
    }
}

/// The latest status per case id after the first `n` decisions, in order of
/// first appearance.
pub open spec fn latest_statuses(decs: Seq<Option<ValidatedReviewDecisionView>>, n: int) -> Seq<
    EvidenceEffectiveReviewStatusView,
>
    decreases n,
{
    if n <= 0 {
        Seq::empty()
    } else {
        let prev = latest_statuses(decs, n - 1);
        match decs[n - 1] {
            Some(d) => upsert_status(prev, status_of(d)),
            None => prev,
        }
    }
}

/// The effective review status: the last valid decision per case id, ordered by case id.
pub open spec fn effective_status_spec(decs: Seq<Option<ValidatedReviewDecisionView>>) -> Seq<
    EvidenceEffectiveReviewStatusView,
> {
    let latest = latest_statuses(decs, decs.len() as int);
    sort_by_keys_spec(sort_review_status_keys(latest), latest)
}

fn status_position(entries: &Vec<EvidenceEffectiveReviewStatus>, id: &String) -> (r: Option<usize>)
    ensures
        match r {
            Some(k) => first_status_index(vec_view(entries@), id@) == Some(k as nat),
            None => first_status_index(vec_view(entries@), id@) is None,
        },
{
    let ghost ev = vec_view(entries@);
    let mut index: usize = 0;
    proof {
        assert(ev.skip(0) =~= ev);
    }
    while index < entries.len()
        invariant
            index <= entries.len(),
            ev == vec_view(entries@),
            first_status_index(ev, id@) == match first_status_index(ev.skip(index as int), id@) {
                Some(k) => Some((k + index) as nat),
                None => None::<nat>,
            },
        decreases entries.len() - index,
    {
        proof {
            let sk = ev.skip(index as int);
            assert(sk[0] == ev[index as int]);
            assert(sk.drop_first() =~= ev.skip(index + 1));
        }
        if entries[index].case_id.same_as(id) {
            return Some(index);
        }
        index = index + 1;
    }
    proof {
        assert(ev.skip(index as int).len() == 0);
    }
    None
}

/// The last valid decision for each review case, ordered by case id.
pub(crate) fn fold_effective_review_status(decisions: &Vec<Option<ValidatedReviewDecision>>) -> (r: Vec<
    EvidenceEffectiveReviewStatus,
>)
    ensures
        vec_view(r@) == effective_status_spec(decisions_view(decisions@)),
{
    let ghost dv = decisions_view(decisions@);
    let mut latest: Vec<EvidenceEffectiveReviewStatus> = Vec::new();
    let mut i: usize = 0;
    while i < decisions.len()
        invariant
            i <= decisions.len(),
            dv == decisions_view(decisions@),
            vec_view(latest@) == latest_statuses(dv, i as int),
        decreases decisions.len() - i,
    {
        let ghost prev = vec_view(latest@);
        match &decisions[i] {
            Some(d) => {
                let st = EvidenceEffectiveReviewStatus {
                    case_id: d.case_id.clone(),
                    observed_revision_id: d.observed_revision_id.clone(),
                    decision: d.decision.clone(),
                };
                proof {
                    assert(dv[i as int] == Some(d@));
                    assert(st@ == status_of(d@));
                    lemma_first_status_index(prev, st@.case_id);
                }
                match status_position(&latest, &d.case_id) {
                    Some(k) => {
                        latest.set(k, st);
                        proof {
                            assert(vec_view(latest@) =~= prev.update(k as int, status_of(d@)));
                        }
                    },
                    None => {
                        latest.push(st);
                        proof {
                            assert(vec_view(latest@) =~= prev.push(status_of(d@)));
                        }
                    },
                }
            },
            None => {
                proof {
                    assert(dv[i as int] is None);
                }
            },
        }
        i = i + 1;
    }
    sort_review_status(latest)
}

/// The replacement text of a manual replacement decision.
pub open spec fn manual_replacement_of(d: EvidenceCorrectionDecisionView) -> Option<Seq<char>> {
    match d {
        EvidenceCorrectionDecisionView::ManualReplacement { replacement } => Some(replacement),
        _ => None,
    }
}

/// The replacement text of a manual replacement decision.
fn manual_replacement_text(d: &EvidenceCorrectionDecision) -> (r: Option<String>)
    ensures
        opt_view(r) == manual_replacement_of(d@),
{
    match d {
        EvidenceCorrectionDecision::ManualReplacement { replacement } => Some(replacement.clone()),
        _ => None,
    }
}

/// The last valid decision for a case id among the given decisions.
pub open spec fn last_decision_for(decs: Seq<Option<ValidatedReviewDecisionView>>, id: Seq<char>) -> Option<
    ValidatedReviewDecisionView,
>
    decreases decs.len(),
{
    if decs.len() == 0 {
        None
    } else {
        match decs.last() {
            Some(d) => if d.case_id == id {
                Some(d)
            } else {
                last_decision_for(decs.drop_last(), id)
            },
            None => last_decision_for(decs.drop_last(), id),
        }
    }
}

/// Whether, within the first `prefix` ledger positions, the last valid
/// decision for the case is a manual replacement with exactly this text.
pub open spec fn prefix_effective_at_spec(
    decs: Seq<Option<ValidatedReviewDecisionView>>,
    id: Seq<char>,
    prefix: usize,
    replacement: Seq<char>,
) -> bool {
    let upto = if prefix < decs.len() {
        prefix as int
    } else {
        decs.len() as int
    };
    match last_decision_for(decs.take(upto), id) {
        Some(d) => manual_replacement_of(d.decision) == Some(replacement),
        None => false,
    }
}

/// Whether the decision for a case, as of a ledger prefix, is this manual replacement.
pub(crate) fn prefix_effective_at(
    decisions: &Vec<Option<ValidatedReviewDecision>>,
    case_id: &String,
    prefix_length: usize,
    replacement: &String,
) -> (r: bool)
    ensures
        r == prefix_effective_at_spec(decisions_view(decisions@), case_id@, prefix_length, replacement@),
{
    let ghost dv = decisions_view(decisions@);
    let upto = if prefix_length < decisions.len() {
        prefix_length
    } else {
        decisions.len()
    };
    let mut effective: Option<usize> = None;
    let mut i: usize = 0;
    proof {
        assert(dv.take(0).len() == 0);
    }
    while i < upto
        invariant
            i <= upto <= decisions.len(),
            dv == decisions_view(decisions@),
            match effective {
                Some(k) => k < i && decisions@[k as int] is Some && last_decision_for(dv.take(i as int), case_id@)
                    == opt_view(decisions@[k as int]),
                None => last_decision_for(dv.take(i as int), case_id@) is None,
            },
        decreases upto - i,
    {
        proof {
            assert(dv.take(i + 1).drop_last() =~= dv.take(i as int));
            assert(dv.take(i + 1).last() == dv[i as int]);
        }
        match &decisions[i] {
            Some(d) => {
                if d.case_id.same_as(case_id) {
                    effective = Some(i);
                }
            },
            None => {},
        }
        i = i + 1;
    }
    match effective {
        Some(k) => match &decisions[k] {
            Some(d) => match manual_replacement_text(&d.decision) {
                Some(text) => text.same_as(replacement),
                None => false,
            },
            None => false,
        },
        None => false,
    }
}


proof fn lemma_latest_statuses(decs: Seq<Option<ValidatedReviewDecisionView>>, n: int)
    requires
        0 <= n <= decs.len(),
    ensures
        ({
            let l = latest_statuses(decs, n);
            let p = decs.take(n);
            &&& forall|j: int|
                0 <= j < l.len() ==> (last_decision_for(p, #[trigger] l[j].case_id) matches Some(d) && l[j]
                    == status_of(d))
            &&& forall|id: Seq<char>|
                (#[trigger] last_decision_for(p, id)) is Some ==> exists|j: int| 0 <= j < l.len() && l[j].case_id == id
            &&& forall|i: int, j: int| 0 <= i < j < l.len() ==> (#[trigger] l[i]).case_id != (#[trigger] l[j]).case_id
        }),
    decreases n,
{
    if n > 0 {
        lemma_latest_statuses(decs, n - 1);
        let prev = latest_statuses(decs, n - 1);
        let pp = decs.take(n - 1);
        let p = decs.take(n);
        assert(p.drop_last() =~= pp);
        assert(p.last() == decs[n - 1]);
        let l = latest_statuses(decs, n);
        match decs[n - 1] {
            None => {
                assert forall|id: Seq<char>| last_decision_for(p, id) == last_decision_for(pp, id) by {}
                assert(l == prev);
            },
            Some(d) => {
                let st = status_of(d);
                let c = d.case_id;
                assert forall|id: Seq<char>| #[trigger] last_decision_for(p, id) == (if id == c {
                    Some(d)
                } else {
                    last_decision_for(pp, id)
                }) by {}
                lemma_first_status_index(prev, c);
                match first_status_index(prev, c) {
                    Some(k) => {
                        assert(l == prev.update(k as int, st));
                        assert forall|j: int| 0 <= j < l.len() implies (last_decision_for(
                            p,
                            #[trigger] l[j].case_id,
                        ) matches Some(e) && l[j] == status_of(e)) by {
                            if j != k {
                                assert(prev[j].case_id != c);
                                assert(l[j] == prev[j]);
                                assert(last_decision_for(p, prev[j].case_id) == last_decision_for(pp, prev[j].case_id));
                            }
                        }
                        assert forall|id: Seq<char>| (#[trigger] last_decision_for(p, id)) is Some implies exists|
                            j: int,
                        | 0 <= j < l.len() && l[j].case_id == id by {
                            if id == c {
                                assert(l[k as int].case_id == id);
                            } else {
                                assert(last_decision_for(pp, id) is Some);
                                let j = choose|j: int| 0 <= j < prev.len() && prev[j].case_id == id;
                                assert(l[j].case_id == id);
                            }
                        }
                        assert forall|i: int, j: int| 0 <= i < j < l.len() implies (#[trigger] l[i]).case_id
                            != (#[trigger] l[j]).case_id by {
                            assert(prev[i].case_id != prev[j].case_id);
                            if i == k {
                                assert(l[j] == prev[j]);
                            } else if j == k {
                                assert(l[i] == prev[i]);
                            } else {
                                assert(l[i] == prev[i] && l[j] == prev[j]);
                            }
                        }
                    },
                    None => {
                        assert(l == prev.push(st));
                        assert forall|j: int| 0 <= j < l.len() implies (last_decision_for(
                            p,
                            #[trigger] l[j].case_id,
                        ) matches Some(e) && l[j] == status_of(e)) by {
                            if j < prev.len() {
                                assert(prev[j].case_id != c);
                                assert(l[j] == prev[j]);
                                assert(last_decision_for(p, prev[j].case_id) == last_decision_for(pp, prev[j].case_id));
                            }
                        }
                        assert forall|id: Seq<char>| (#[trigger] last_decision_for(p, id)) is Some implies exists|
                            j: int,
                        | 0 <= j < l.len() && l[j].case_id == id by {
                            if id == c {
                                assert(l[prev.len() as int].case_id == id);
                            } else {
                                assert(last_decision_for(pp, id) is Some);
                                let j = choose|j: int| 0 <= j < prev.len() && prev[j].case_id == id;
                                assert(l[j].case_id == id);
                            }
                        }
                        assert forall|i: int, j: int| 0 <= i < j < l.len() implies (#[trigger] l[i]).case_id
                            != (#[trigger] l[j]).case_id by {
                            assert(l[i] == prev[i]);
                            if j < prev.len() {
                                assert(l[j] == prev[j]);
                                assert(prev[i].case_id != prev[j].case_id);
                            }
                        }
                    },
                }
            },
        }
    }
}

/// The effective review status is last-decision-wins over the whole ledger:
/// every case with a valid decision has an entry holding its last valid
/// decision (case, observed revision and decision), and every entry is the
/// last valid decision of its case; decisions that a later one for the same
/// case overrides leave no trace. The entries come ordered by case id.
pub proof fn law_effective_status_is_last_decision(decs: Seq<Option<ValidatedReviewDecisionView>>)
    ensures
        forall|id: Seq<char>|
            #![trigger last_decision_for(decs, id)]
            last_decision_for(decs, id) matches Some(d) ==> effective_status_spec(decs).contains(status_of(d)),
        forall|j: int|
            0 <= j < effective_status_spec(decs).len() ==> (last_decision_for(
                decs,
                #[trigger] effective_status_spec(decs)[j].case_id,
            ) matches Some(d) && effective_status_spec(decs)[j] == status_of(d)),
        in_key_order(sort_review_status_keys(effective_status_spec(decs))),
{
    broadcast use vstd::seq_lib::group_to_multiset_ensures;

    let n = decs.len() as int;
    lemma_latest_statuses(decs, n);
    assert(decs.take(n) =~= decs);
    let l = latest_statuses(decs, n);
    let e = effective_status_spec(decs);
    lemma_sort_by_keys_permutes(sort_review_status_keys(l), l);
    let key = |x: EvidenceEffectiveReviewStatusView| str_key_spec(x.case_id);
    assert(sort_review_status_keys(l) =~= l.map_values(key));
    lemma_sort_by_key_fn(l, key);
    assert(sort_review_status_keys(e) =~= e.map_values(key));
    assert(e.to_multiset() == l.to_multiset());
    assert forall|id: Seq<char>|
        #![trigger last_decision_for(decs, id)]
        last_decision_for(decs, id) is Some implies e.contains(status_of(last_decision_for(decs, id)->Some_0)) by {
        let d = last_decision_for(decs, id).unwrap();
        let j = choose|j: int| 0 <= j < l.len() && l[j].case_id == id;
        assert(l[j] == status_of(d));
        assert(l.contains(status_of(d)));
        assert(l.to_multiset().count(status_of(d)) > 0);
    }
    assert forall|j: int| 0 <= j < e.len() implies (last_decision_for(decs, #[trigger] e[j].case_id) matches Some(
        d,
    ) && e[j] == status_of(d)) by {
        assert(e.contains(e[j]));
        assert(e.to_multiset().count(e[j]) > 0);
        assert(l.contains(e[j]));
        let m = choose|m: int| 0 <= m < l.len() && l[m] == e[j];
        assert(l[m].case_id == e[j].case_id);
    }
}

} // verus!
