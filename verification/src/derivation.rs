use vstd::prelude::*;
use vstd::utf8::encode_utf8;
use crate::model::{
    governance_event_index, governance_event_index_spec, opt_duplicate, opt_same, opt_view, vec_duplicate, vec_view, vec_same, CurrentContractState, CurrentContractStateView,
    EvidenceCorrectionDecision, EvidenceCorrectionDecisionView, EvidenceAnalysisSnapshotView, SameAs,
};
use crate::production_bridge::{
    parse_review_case_id, parse_review_case_id_spec, validate_analysis_snapshot, validate_analysis_snapshot_spec,
    ContractRules, ContractRulesView,
};
use crate::governance::{fold_effective, fold_historical, fold_rejected, fold_reuse_governance, fold_upto, finding_if, GovernanceFoldView};
use crate::model::{canonical_projection_view, EvidenceEffectiveReviewStatusView, DerivedContractProjection, DerivedContractProjectionView, EvidenceAnalysisSnapshot, EvidenceReusableRecord, EvidenceReusableRecordView};
use crate::production_bridge::{
    compute_production_snapshot_identity, is_reuse_enabled_analysis_snapshot, matches_configuration_spec,
    production_snapshot_identity_spec, REUSABLE_INFLUENCE_PROJECTION_VERSION,
};
use crate::review_ledger::{
    decisions_view, effective_status_spec, fold_effective_review_status, ledger_decisions_spec, ledger_diags_fn,
    validate_review_ledger,
};
use crate::text::{concat2, concat3, decimal, decimal_spec, str_eq};
use crate::violations::{
    concat_upto, diag, diagnostic, diags_view, push_diag, OracleDiagnosticV3, OracleDiagnosticV3View,
    OracleViolationCodeV3,
};

verus! {

/// The reading of a transcript: the revision id its bytes identify and the text of each segment.
pub struct ParsedTranscript {
    pub revision_id: String,
    pub segment_texts: Vec<String>,
}

/// The mathematical value of a [`ParsedTranscript`].
pub struct ParsedTranscriptView {
    pub revision_id: Seq<char>,
    pub segment_texts: Seq<Seq<char>>,
}

impl View for ParsedTranscript {
    type V = ParsedTranscriptView;

    open spec fn view(&self) -> ParsedTranscriptView {
        ParsedTranscriptView {
            revision_id: self.revision_id@,
            segment_texts: vec_view(self.segment_texts@),
        }
    }
}

impl Clone for ParsedTranscript {
    fn clone(&self) -> (r: Self)
        ensures
            r@ == self@,
    {
        ParsedTranscript {
            revision_id: self.revision_id.clone(),
            segment_texts: vec_duplicate(&self.segment_texts),
        }
    }
}

impl SameAs for ParsedTranscript {
    fn duplicate(&self) -> (r: Self) {
        self.clone()
    }

    fn same_as(&self, other: &Self) -> (r: bool) {
        self.revision_id.same_as(&other.revision_id)
            && vec_same(&self.segment_texts, &other.segment_texts)
    }
}

/// How one transcript text reads: its parse, or `None` where it is malformed.
pub struct TranscriptReading {
    pub transcript_bytes: String,
    pub parsed: Option<ParsedTranscript>,
}

/// The mathematical value of a [`TranscriptReading`].
pub struct TranscriptReadingView {
    pub transcript_bytes: Seq<char>,
    pub parsed: Option<ParsedTranscriptView>,
}

impl View for TranscriptReading {
    type V = TranscriptReadingView;

    open spec fn view(&self) -> TranscriptReadingView {
        TranscriptReadingView {
            transcript_bytes: self.transcript_bytes@,
            parsed: opt_view(self.parsed),
        }
    }
}

impl Clone for TranscriptReading {
    fn clone(&self) -> (r: Self)
        ensures
            r@ == self@,
    {
        TranscriptReading {
            transcript_bytes: self.transcript_bytes.clone(),
            parsed: opt_duplicate(&self.parsed),
        }
    }
}

impl SameAs for TranscriptReading {
    fn duplicate(&self) -> (r: Self) {
        self.clone()
    }

    fn same_as(&self, other: &Self) -> (r: bool) {
        self.transcript_bytes.same_as(&other.transcript_bytes)
            && opt_same(&self.parsed, &other.parsed)
    }
}

/// A review case whose anchor resolves to its observed source bytes.
pub struct ValidatedReviewCase {
    pub observed_revision_id: String,
    pub anchor_revision_id: String,
    pub observed_source_bytes: String,
    pub alternative_count: usize,
}

/// The mathematical value of a [`ValidatedReviewCase`].
pub struct ValidatedReviewCaseView {
    pub observed_revision_id: Seq<char>,
    pub anchor_revision_id: Seq<char>,
    pub observed_source_bytes: Seq<char>,
    pub alternative_count: usize,
}

impl View for ValidatedReviewCase {
    type V = ValidatedReviewCaseView;

    open spec fn view(&self) -> ValidatedReviewCaseView {
        ValidatedReviewCaseView {
            observed_revision_id: self.observed_revision_id@,
            anchor_revision_id: self.anchor_revision_id@,
            observed_source_bytes: self.observed_source_bytes@,
            alternative_count: self.alternative_count,
        }
    }
}

impl Clone for ValidatedReviewCase {
    fn clone(&self) -> (r: Self)
        ensures
            r@ == self@,
    {
        ValidatedReviewCase {
            observed_revision_id: self.observed_revision_id.clone(),
            anchor_revision_id: self.anchor_revision_id.clone(),
            observed_source_bytes: self.observed_source_bytes.clone(),
            alternative_count: self.alternative_count,
        }
    }
}

impl SameAs for ValidatedReviewCase {
    fn duplicate(&self) -> (r: Self) {
        self.clone()
    }

    fn same_as(&self, other: &Self) -> (r: bool) {
        self.observed_revision_id.same_as(&other.observed_revision_id)
            && self.anchor_revision_id.same_as(&other.anchor_revision_id)
            && self.observed_source_bytes.same_as(&other.observed_source_bytes)
            && self.alternative_count == other.alternative_count
    }
}

/// A review ledger event that decoded to a valid decision.
pub struct ValidatedReviewDecision {
    pub case_id: String,
    pub observed_revision_id: String,
    pub decision: EvidenceCorrectionDecision,
}

/// The mathematical value of a [`ValidatedReviewDecision`].
pub struct ValidatedReviewDecisionView {
    pub case_id: Seq<char>,
    pub observed_revision_id: Seq<char>,
    pub decision: EvidenceCorrectionDecisionView,
}

impl View for ValidatedReviewDecision {
    type V = ValidatedReviewDecisionView;

    open spec fn view(&self) -> ValidatedReviewDecisionView {
        ValidatedReviewDecisionView {
            case_id: self.case_id@,
            observed_revision_id: self.observed_revision_id@,
            decision: self.decision@,
        }
    }
}

impl Clone for ValidatedReviewDecision {
    fn clone(&self) -> (r: Self)
        ensures
            r@ == self@,
    {
        ValidatedReviewDecision {
            case_id: self.case_id.clone(),
            observed_revision_id: self.observed_revision_id.clone(),
            decision: self.decision.clone(),
        }
    }
}

impl SameAs for ValidatedReviewDecision {
    fn duplicate(&self) -> (r: Self) {
        self.clone()
    }

    fn same_as(&self, other: &Self) -> (r: bool) {
        self.case_id.same_as(&other.case_id)
            && self.observed_revision_id.same_as(&other.observed_revision_id)
            && self.decision.same_as(&other.decision)
    }
}


/// Some source revision has the given id.
pub open spec fn has_revision_spec(s: CurrentContractStateView, id: Seq<char>) -> bool {
    exists|j: int| 0 <= j < s.source_revisions.len() && (#[trigger] s.source_revisions[j]).revision_id == id
}

/// Whether some source revision has the given id.
pub fn has_revision(state: &CurrentContractState, id: &String) -> (r: bool)
    ensures
        r == has_revision_spec(state@, id@),
{
    let mut i: usize = 0;
    while i < state.source_revisions.len()
        invariant
            i <= state.source_revisions.len(),
            forall|j: int| 0 <= j < i ==> (#[trigger] state@.source_revisions[j]).revision_id != id@,
        decreases state.source_revisions.len() - i,
    {
        if state.source_revisions[i].revision_id.same_as(id) {
            proof {
                assert(state@.source_revisions[i as int].revision_id == id@);
            }
            return true;
        }
        i = i + 1;
    }
    false
}

/// The finding, if any, about one analysis snapshot's binding to the session.
pub open spec fn snapshot_binding_diags(
    s: CurrentContractStateView,
    rules: ContractRulesView,
    snap: EvidenceAnalysisSnapshotView,
) -> Seq<OracleDiagnosticV3View> {
    match validate_analysis_snapshot_spec(snap, rules) {
        Err(e) => seq![e],
        Ok(_) => if !has_revision_spec(s, snap.source_revision_id) || snap.session_terms_identity
            != s.session_terms_identity {
            seq![
                diag(
                    OracleViolationCodeV3::MalformedAnalysisSnapshot,
                    "analysis_snapshots"@,
                    "analysis snapshot does not bind a canonical source revision and session terms identity"@,
                ),
            ]
        } else {
            Seq::empty()
        },
    }
}

/// Per-snapshot binding findings.
pub open spec fn snapshot_binding_fn(s: CurrentContractStateView, rules: ContractRulesView) -> spec_fn(int) -> Seq<OracleDiagnosticV3View> {
    |k: int| snapshot_binding_diags(s, rules, s.analysis_snapshots[k])
}

/// Findings about the shape of review case `i`: id syntax, origin, duplication.
pub open spec fn case_shape_diags(s: CurrentContractStateView, i: int) -> Seq<OracleDiagnosticV3View> {
    let c = s.review_cases[i];
    (if parse_review_case_id_spec(c.case_id) is Err {
        seq![diag(OracleViolationCodeV3::MalformedReviewCaseId, "review_cases"@, "malformed review case id"@)]
    } else {
        Seq::empty()
    }) + (if c.origin != "detector_raised"@ {
        seq![
            diag(
                OracleViolationCodeV3::HumanRaisedCasePresent,
                "review_cases"@,
                "only detector_raised review cases are valid in current-contract fixture v3"@,
            ),
        ]
    } else {
        Seq::empty()
    }) + (if exists|j: int| 0 <= j < i && (#[trigger] s.review_cases[j]).case_id == c.case_id {
        seq![diag(OracleViolationCodeV3::DuplicateReviewCaseId, "review_cases"@, "duplicate review case id"@)]
    } else {
        Seq::empty()
    })
}

/// Per-case shape findings.
pub open spec fn case_shape_fn(s: CurrentContractStateView) -> spec_fn(int) -> Seq<OracleDiagnosticV3View> {
    |k: int| case_shape_diags(s, k)
}

/// Findings about the index of review ledger event `i`: gaps and duplicates.
pub open spec fn ledger_index_diags(s: CurrentContractStateView, i: int) -> Seq<OracleDiagnosticV3View> {
    let e = s.review_ledger_events[i];
    (if e.event_index != i {
        seq![
            diag(
                OracleViolationCodeV3::ReviewLedgerIndexGap,
                "review_ledger_events"@,
                "review ledger event index is not contiguous"@,
            ),
        ]
    } else {
        Seq::empty()
    }) + (if exists|j: int| 0 <= j < i && (#[trigger] s.review_ledger_events[j]).event_index == e.event_index {
        seq![
            diag(
                OracleViolationCodeV3::ReviewLedgerDuplicateIndex,
                "review_ledger_events"@,
                "duplicate review ledger event index"@,
            ),
        ]
    } else {
        Seq::empty()
    })
}

/// Per-event index findings.
pub open spec fn ledger_index_fn(s: CurrentContractStateView) -> spec_fn(int) -> Seq<OracleDiagnosticV3View> {
    |k: int| ledger_index_diags(s, k)
}

/// Findings of the first validation pass: snapshot bindings, case shapes and
/// ledger indices, in that order.
pub open spec fn cases_and_ledger_diags(s: CurrentContractStateView, rules: ContractRulesView) -> Seq<OracleDiagnosticV3View> {
    concat_upto(s.analysis_snapshots.len() as int, snapshot_binding_fn(s, rules)) + concat_upto(
        s.review_cases.len() as int,
        case_shape_fn(s),
    ) + concat_upto(s.review_ledger_events.len() as int, ledger_index_fn(s))
}

pub(crate) fn validate_review_cases_and_ledger(
    state: &CurrentContractState,
    rules: &ContractRules,
    violations: &mut Vec<OracleDiagnosticV3>,
)
    ensures
        diags_view(final(violations)@) == diags_view(old(violations)@) + cases_and_ledger_diags(state@, rules@),
{
    let ghost s = state@;
    let ghost start = diags_view(violations@);
    let mut i: usize = 0;
    while i < state.analysis_snapshots.len()
        invariant
            i <= state.analysis_snapshots.len(),
            s == state@,
            diags_view(violations@) == start + concat_upto(i as int, snapshot_binding_fn(s, rules@)),
        decreases state.analysis_snapshots.len() - i,
    {
        let snapshot = &state.analysis_snapshots[i];
        proof {
            assert(s.analysis_snapshots[i as int] == snapshot@);
        }
        match validate_analysis_snapshot(snapshot, rules) {
            Err(e) => {
                push_diag(violations, e);
            },
            Ok(()) => {
                if !has_revision(state, &snapshot.source_revision_id) || !snapshot.session_terms_identity.same_as(
                    &state.session_terms_identity,
                ) {
                    push_diag(
                        violations,
                        diagnostic(
                            OracleViolationCodeV3::MalformedAnalysisSnapshot,
                            "analysis_snapshots",
                            "analysis snapshot does not bind a canonical source revision and session terms identity",
                        ),
                    );
                }
            },
        }
        i = i + 1;
        proof {
            assert(diags_view(violations@) =~= start + concat_upto(i as int, snapshot_binding_fn(s, rules@)));
        }
    }
    let ghost mid1 = diags_view(violations@);
    let mut i: usize = 0;
    while i < state.review_cases.len()
        invariant
            i <= state.review_cases.len(),
            s == state@,
            diags_view(violations@) == mid1 + concat_upto(i as int, case_shape_fn(s)),
        decreases state.review_cases.len() - i,
    {
        let case = &state.review_cases[i];
        proof {
            assert(s.review_cases[i as int] == case@);
        }
        let ghost before = diags_view(violations@);
        if parse_review_case_id(case.case_id.as_str()).is_err() {
            push_diag(
                violations,
                diagnostic(OracleViolationCodeV3::MalformedReviewCaseId, "review_cases", "malformed review case id"),
            );
        }
        let detector = String::from_str("detector_raised");
        if !case.origin.same_as(&detector) {
            push_diag(
                violations,
                diagnostic(
                    OracleViolationCodeV3::HumanRaisedCasePresent,
                    "review_cases",
                    "only detector_raised review cases are valid in current-contract fixture v3",
                ),
            );
        }
        let mut seen = false;
        let mut j: usize = 0;
        while j < i
            invariant
                j <= i < state.review_cases.len(),
                s == state@,
                case@ == s.review_cases[i as int],
                seen == exists|k: int| 0 <= k < j && (#[trigger] s.review_cases[k]).case_id == s.review_cases[i as int].case_id,
            decreases i - j,
        {
            if state.review_cases[j].case_id.same_as(&case.case_id) {
                seen = true;
            }
            proof {
                if s.review_cases[j as int].case_id == s.review_cases[i as int].case_id {
                    assert(exists|k: int| 0 <= k < j + 1 && (#[trigger] s.review_cases[k]).case_id == s.review_cases[i as int].case_id);
                }
            }
            j = j + 1;
        }
        if seen {
            push_diag(
                violations,
                diagnostic(OracleViolationCodeV3::DuplicateReviewCaseId, "review_cases", "duplicate review case id"),
            );
        }
        i = i + 1;
        proof {
            assert(diags_view(violations@) =~= before + case_shape_diags(s, i - 1));
            assert(diags_view(violations@) =~= mid1 + concat_upto(i as int, case_shape_fn(s)));
        }
    }
    let ghost mid2 = diags_view(violations@);
    let mut i: usize = 0;
    while i < state.review_ledger_events.len()
        invariant
            i <= state.review_ledger_events.len(),
            s == state@,
            diags_view(violations@) == mid2 + concat_upto(i as int, ledger_index_fn(s)),
        decreases state.review_ledger_events.len() - i,
    {
        let index = state.review_ledger_events[i].event_index;
        let ghost before = diags_view(violations@);
        if index != i {
            push_diag(
                violations,
                diagnostic(
                    OracleViolationCodeV3::ReviewLedgerIndexGap,
                    "review_ledger_events",
                    "review ledger event index is not contiguous",
                ),
            );
        }
        let mut seen = false;
        let mut j: usize = 0;
        while j < i
            invariant
                j <= i < state.review_ledger_events.len(),
                s == state@,
                index == s.review_ledger_events[i as int].event_index,
                seen == exists|k: int| 0 <= k < j && (#[trigger] s.review_ledger_events[k]).event_index == index,
            decreases i - j,
        {
            if state.review_ledger_events[j].event_index == index {
                seen = true;
            }
            proof {
                if s.review_ledger_events[j as int].event_index == index {
                    assert(exists|k: int| 0 <= k < j + 1 && (#[trigger] s.review_ledger_events[k]).event_index == index);
                }
            }
            j = j + 1;
        }
        if seen {
            push_diag(
                violations,
                diagnostic(
                    OracleViolationCodeV3::ReviewLedgerDuplicateIndex,
                    "review_ledger_events",
                    "duplicate review ledger event index",
                ),
            );
        }
        i = i + 1;
        proof {
            assert(diags_view(violations@) =~= before + ledger_index_diags(s, i - 1));
            assert(diags_view(violations@) =~= mid2 + concat_upto(i as int, ledger_index_fn(s)));
        }
    }
    proof {
        assert(diags_view(violations@) =~= start + cases_and_ledger_diags(s, rules@));
    }
}

/// A validated review case under its case id.
pub struct ValidatedCaseEntry {
    pub case_id: String,
    pub case: ValidatedReviewCase,
}

/// The mathematical value of a [`ValidatedCaseEntry`].
pub struct ValidatedCaseEntryView {
    pub case_id: Seq<char>,
    pub case: ValidatedReviewCaseView,
}

impl View for ValidatedCaseEntry {
    type V = ValidatedCaseEntryView;

    open spec fn view(&self) -> ValidatedCaseEntryView {
        ValidatedCaseEntryView {
            case_id: self.case_id@,
            case: self.case@,
        }
    }
}

impl Clone for ValidatedCaseEntry {
    fn clone(&self) -> (r: Self)
        ensures
            r@ == self@,
    {
        ValidatedCaseEntry {
            case_id: self.case_id.clone(),
            case: self.case.clone(),
        }
    }
}

impl SameAs for ValidatedCaseEntry {
    fn duplicate(&self) -> (r: Self) {
        self.clone()
    }

    fn same_as(&self, other: &Self) -> (r: bool) {
        self.case_id.same_as(&other.case_id)
            && self.case.same_as(&other.case)
    }
}

/// The parse of the first reading of the given transcript text, if any.
pub open spec fn reading_of(readings: Seq<TranscriptReadingView>, bytes: Seq<char>) -> Option<ParsedTranscriptView>
    decreases readings.len(),
{
    if readings.len() == 0 {
        None
    } else if readings[0].transcript_bytes == bytes {
        readings[0].parsed
    } else {
        reading_of(readings.drop_first(), bytes)
    }
}

/// The parse of the first reading of the given transcript text, if any.
pub fn find_reading(readings: &Vec<TranscriptReading>, bytes: &String) -> (r: Option<ParsedTranscript>)
    ensures
        opt_view(r) == reading_of(vec_view(readings@), bytes@),
{
    let ghost rv = vec_view(readings@);
    let mut i: usize = 0;
    proof {
        assert(rv.skip(0) =~= rv);
    }
    while i < readings.len()
        invariant
            i <= readings.len(),
            rv == vec_view(readings@),
            reading_of(rv, bytes@) == reading_of(rv.skip(i as int), bytes@),
        decreases readings.len() - i,
    {
        proof {
            let sk = rv.skip(i as int);
            assert(sk[0] == readings@[i as int]@);
            assert(sk.drop_first() =~= rv.skip(i + 1));
        }
        if readings[i].transcript_bytes.same_as(bytes) {
            return opt_duplicate(&readings[i].parsed);
        }
        i = i + 1;
    }
    proof {
        assert(rv.skip(i as int).len() == 0);
    }
    None
}

/// A revision with the given id exists whose text reads as that same revision.
pub open spec fn anchor_eligible_spec(
    s: CurrentContractStateView,
    readings: Seq<TranscriptReadingView>,
    id: Seq<char>,
) -> bool {
    exists|j: int|
        0 <= j < s.source_revisions.len() && (#[trigger] s.source_revisions[j]).revision_id == id && match reading_of(
            readings,
            s.source_revisions[j].transcript_bytes,
        ) {
            Some(t) => t.revision_id == id,
            None => false,
        }
}

/// Findings about source revision `i`: duplication, its reading, its predecessor.
pub open spec fn revision_diags(
    s: CurrentContractStateView,
    readings: Seq<TranscriptReadingView>,
    i: int,
) -> Seq<OracleDiagnosticV3View> {
    let r = s.source_revisions[i];
    (if exists|j: int| 0 <= j < i && (#[trigger] s.source_revisions[j]).revision_id == r.revision_id {
        seq![
            diag(
                OracleViolationCodeV3::ChangedSourceRevisionIdentity,
                "source_revisions"@,
                "duplicate source revision id"@,
            ),
        ]
    } else {
        Seq::empty()
    }) + (match reading_of(readings, r.transcript_bytes) {
        Some(t) => if t.revision_id == r.revision_id {
            Seq::empty()
        } else {
            seq![
                diag(
                    OracleViolationCodeV3::ChangedSourceRevisionIdentity,
                    "source_revisions"@,
                    "declared source revision id does not match transcript bytes"@,
                ),
            ]
        },
        None => seq![
            diag(
                OracleViolationCodeV3::MalformedTranscriptRepresentation,
                "source_revisions"@,
                "malformed transcript representation for source revision validation"@,
            ),
        ],
    }) + (match r.predecessor_revision_id {
        Some(p) => if p == r.revision_id || !has_revision_spec(s, p) {
            seq![
                diag(
                    OracleViolationCodeV3::ChangedSourceRevisionIdentity,
                    "source_revisions.predecessor_revision_id"@,
                    "source revision predecessor is missing or self-referential"@,
                ),
            ]
        } else {
            Seq::empty()
        },
        None => Seq::empty(),
    })
}

/// Per-revision findings.
pub open spec fn revision_fn(s: CurrentContractStateView, readings: Seq<TranscriptReadingView>) -> spec_fn(int) -> Seq<OracleDiagnosticV3View> {
    |k: int| revision_diags(s, readings, k)
}

/// The position of the first source revision with the given id.
pub open spec fn first_revision_index(revs: Seq<crate::model::EvidenceSourceRevisionView>, id: Seq<char>) -> Option<nat>
    decreases revs.len(),
{
    if revs.len() == 0 {
        None
    } else if revs[0].revision_id == id {
        Some(0)
    } else {
        match first_revision_index(revs.drop_first(), id) {
            Some(i) => Some(i + 1),
            None => None,
        }
    }
}

proof fn lemma_first_revision_index(revs: Seq<crate::model::EvidenceSourceRevisionView>, id: Seq<char>)
    ensures
        match first_revision_index(revs, id) {
            Some(i) => i < revs.len() && revs[i as int].revision_id == id,
            None => forall|j: int| 0 <= j < revs.len() ==> (#[trigger] revs[j]).revision_id != id,
        },
    decreases revs.len(),
{
    if revs.len() > 0 && revs[0].revision_id != id {
        let rest = revs.drop_first();
        lemma_first_revision_index(rest, id);
        match first_revision_index(rest, id) {
            Some(i) => {
                assert(revs[(i + 1) as int] == rest[i as int]);
            },
            None => {
                assert forall|j: int| 0 <= j < revs.len() implies (#[trigger] revs[j]).revision_id != id by {
                    if j > 0 {
                        assert(revs[j] == rest[j - 1]);
                    }
                }
            },
        }
    }
}

/// How review case `c` resolves against its anchor: the validated case, or the
/// one finding that stops it.
pub open spec fn case_anchor_spec(
    s: CurrentContractStateView,
    readings: Seq<TranscriptReadingView>,
    c: crate::model::EvidenceReviewCaseView,
) -> Result<ValidatedReviewCaseView, OracleDiagnosticV3View> {
    if c.observed_revision_id != c.anchor_revision_id {
        Err(
            diag(
                OracleViolationCodeV3::SourceAnchorRevisionMismatch,
                "review_cases"@,
                "observed revision differs from anchor revision"@,
            ),
        )
    } else {
        match first_revision_index(s.source_revisions, c.anchor_revision_id) {
            None => Err(
                diag(OracleViolationCodeV3::SourceAnchorRevisionMismatch, "review_cases"@, "anchor revision missing"@),
            ),
            Some(ri) => if !anchor_eligible_spec(s, readings, c.anchor_revision_id) {
                Err(
                    diag(
                        OracleViolationCodeV3::SourceAnchorRevisionMismatch,
                        "review_cases"@,
                        "anchor revision transcript bytes do not validate to the declared revision"@,
                    ),
                )
            } else {
                match reading_of(readings, s.source_revisions[ri as int].transcript_bytes) {
                    None => Err(
                        diag(
                            OracleViolationCodeV3::MalformedTranscriptRepresentation,
                            "source_revisions"@,
                            "malformed transcript representation for anchor validation"@,
                        ),
                    ),
                    Some(t) => if c.anchor_segment_position >= t.segment_texts.len() {
                        Err(
                            diag(
                                OracleViolationCodeV3::SourceAnchorSegmentMismatch,
                                "review_cases"@,
                                "anchor segment position out of bounds"@,
                            ),
                        )
                    } else {
                        let bytes = encode_utf8(t.segment_texts[c.anchor_segment_position as int]);
                        if c.anchor_start_byte >= c.anchor_end_byte || !vstd::utf8::is_char_boundary(
                            bytes,
                            c.anchor_start_byte as int,
                        ) || !vstd::utf8::is_char_boundary(bytes, c.anchor_end_byte as int)
                            || c.anchor_end_byte > bytes.len() {
                            Err(
                                diag(
                                    OracleViolationCodeV3::Utf8AnchorBoundaryViolation,
                                    "review_cases"@,
                                    "anchor byte range is not a valid UTF-8 boundary"@,
                                ),
                            )
                        } else if encode_utf8(c.observed_source_bytes) != bytes.subrange(
                            c.anchor_start_byte as int,
                            c.anchor_end_byte as int,
                        ) {
                            Err(
                                diag(
                                    OracleViolationCodeV3::SourceAnchorResolvedBytesMismatch,
                                    "review_cases"@,
                                    "resolved anchor bytes do not match observed source bytes"@,
                                ),
                            )
                        } else {
                            Ok(
                                ValidatedReviewCaseView {
                                    observed_revision_id: c.observed_revision_id,
                                    anchor_revision_id: c.anchor_revision_id,
                                    observed_source_bytes: c.observed_source_bytes,
                                    alternative_count: c.alternative_count,
                                },
                            )
                        }
                    },
                }
            },
        }
    }
}

/// The finding an anchor check gives, if any.
pub open spec fn anchor_diags(r: Result<ValidatedReviewCaseView, OracleDiagnosticV3View>) -> Seq<OracleDiagnosticV3View> {
    match r {
        Ok(_) => Seq::empty(),
        Err(d) => seq![d],
    }
}

/// Per-case anchor findings.
pub open spec fn case_anchor_fn(s: CurrentContractStateView, readings: Seq<TranscriptReadingView>) -> spec_fn(int) -> Seq<OracleDiagnosticV3View> {
    |k: int| anchor_diags(case_anchor_spec(s, readings, s.review_cases[k]))
}

/// The validated cases of the first `n` review cases, in order.
pub open spec fn validated_cases_upto(
    s: CurrentContractStateView,
    readings: Seq<TranscriptReadingView>,
    n: int,
) -> Seq<ValidatedCaseEntryView>
    decreases n,
{
    if n <= 0 {
        Seq::empty()
    } else {
        validated_cases_upto(s, readings, n - 1) + match case_anchor_spec(s, readings, s.review_cases[n - 1]) {
            Ok(v) => seq![ValidatedCaseEntryView { case_id: s.review_cases[n - 1].case_id, case: v }],
            Err(_) => Seq::empty(),
        }
    }
}

/// All validated review cases.
pub open spec fn validated_cases_spec(s: CurrentContractStateView, readings: Seq<TranscriptReadingView>) -> Seq<ValidatedCaseEntryView> {
    validated_cases_upto(s, readings, s.review_cases.len() as int)
}

/// The validated case recorded last under a case id, as a map keeps it.
pub open spec fn lookup_case(entries: Seq<ValidatedCaseEntryView>, id: Seq<char>) -> Option<ValidatedReviewCaseView>
    decreases entries.len(),
{
    if entries.len() == 0 {
        None
    } else if entries.last().case_id == id {
        Some(entries.last().case)
    } else {
        lookup_case(entries.drop_last(), id)
    }
}

/// The validated case recorded last under a case id.
pub fn find_case(entries: &Vec<ValidatedCaseEntry>, id: &String) -> (r: Option<ValidatedReviewCase>)
    ensures
        opt_view(r) == lookup_case(vec_view(entries@), id@),
{
    let ghost ev = vec_view(entries@);
    let mut i: usize = entries.len();
    proof {
        assert(ev.subrange(0, i as int) =~= ev);
    }
    while i > 0
        invariant
            i <= entries.len(),
            ev == vec_view(entries@),
            lookup_case(ev, id@) == lookup_case(ev.subrange(0, i as int), id@),
        decreases i,
    {
        proof {
            let sub = ev.subrange(0, i as int);
            assert(sub.last() == entries@[i - 1]@);
            assert(sub.drop_last() =~= ev.subrange(0, i - 1));
        }
        if entries[i - 1].case_id.same_as(id) {
            return Some(entries[i - 1].case.clone());
        }
        i = i - 1;
    }
    None
}

fn revision_seen_before(state: &CurrentContractState, i: usize) -> (r: bool)
    requires
        i < state.source_revisions.len(),
    ensures
        r == exists|j: int| 0 <= j < i && (#[trigger] state@.source_revisions[j]).revision_id == state@.source_revisions[i as int].revision_id,
{
    let mut j: usize = 0;
    while j < i
        invariant
            j <= i < state.source_revisions.len(),
            forall|k: int| 0 <= k < j ==> (#[trigger] state@.source_revisions[k]).revision_id != state@.source_revisions[i as int].revision_id,
        decreases i - j,
    {
        if state.source_revisions[j].revision_id.same_as(&state.source_revisions[i].revision_id) {
            proof {
                assert(state@.source_revisions[j as int].revision_id == state@.source_revisions[i as int].revision_id);
            }
            return true;
        }
        j = j + 1;
    }
    false
}

fn anchor_eligible(state: &CurrentContractState, readings: &Vec<TranscriptReading>, id: &String) -> (r: bool)
    ensures
        r == anchor_eligible_spec(state@, vec_view(readings@), id@),
{
    let ghost s = state@;
    let ghost rv = vec_view(readings@);
    let mut j: usize = 0;
    while j < state.source_revisions.len()
        invariant
            j <= state.source_revisions.len(),
            s == state@,
            rv == vec_view(readings@),
            forall|k: int|
                0 <= k < j ==> !((#[trigger] s.source_revisions[k]).revision_id == id@ && match reading_of(
                    rv,
                    s.source_revisions[k].transcript_bytes,
                ) {
                    Some(t) => t.revision_id == id@,
                    None => false,
                }),
        decreases state.source_revisions.len() - j,
    {
        let revision = &state.source_revisions[j];
        if revision.revision_id.same_as(id) {
            match find_reading(readings, &revision.transcript_bytes) {
                Some(t) => {
                    if t.revision_id.same_as(id) {
                        proof {
                            assert(s.source_revisions[j as int] == revision@);
                        }
                        return true;
                    }
                },
                None => {},
            }
        }
        j = j + 1;
    }
    false
}

/// The position of the first source revision with the given id.
fn first_revision_position(state: &CurrentContractState, id: &String) -> (r: Option<usize>)
    ensures
        match r {
            Some(k) => first_revision_index(state@.source_revisions, id@) == Some(k as nat),
            None => first_revision_index(state@.source_revisions, id@) is None,
        },
{
    let ghost revs = state@.source_revisions;
    let mut index: usize = 0;
    proof {
        assert(revs.skip(0) =~= revs);
    }
    while index < state.source_revisions.len()
        invariant
            index <= state.source_revisions.len(),
            revs == state@.source_revisions,
            first_revision_index(revs, id@) == match first_revision_index(revs.skip(index as int), id@) {
                Some(k) => Some((k + index) as nat),
                None => None::<nat>,
            },
        decreases state.source_revisions.len() - index,
    {
        proof {
            let sk = revs.skip(index as int);
            assert(sk[0] == revs[index as int]);
            assert(sk.drop_first() =~= revs.skip(index + 1));
        }
        if state.source_revisions[index].revision_id.same_as(id) {
            return Some(index);
        }
        index = index + 1;
    }
    proof {
        assert(revs.skip(index as int).len() == 0);
    }
    None
}

/// Compares the observed text with the bytes `start .. end` of a segment.
fn resolves_to(text: &String, start: usize, end: usize, observed: &String) -> (r: bool)
    requires
        start <= end <= encode_utf8(text@).len(),
    ensures
        r == (encode_utf8(observed@) == encode_utf8(text@).subrange(start as int, end as int)),
{
    let tb = text.as_str().as_bytes();
    let ob = observed.as_str().as_bytes();
    if ob.len() != end - start {
        return false;
    }
    let mut k: usize = 0;
    while k < ob.len()
        invariant
            k <= ob@.len() == end - start,
            end <= tb@.len(),
            tb@ == encode_utf8(text@),
            ob@ == encode_utf8(observed@),
            forall|m: int| 0 <= m < k ==> ob@[m] == #[trigger] tb@[start + m],
        decreases ob.len() - k,
    {
        if ob[k] != tb[start + k] {
            proof {
                assert(encode_utf8(text@).subrange(start as int, end as int)[k as int] == tb@[start + k]);
            }
            return false;
        }
        k = k + 1;
    }
    proof {
        assert forall|m: int| 0 <= m < ob@.len() implies ob@[m] == tb@.subrange(start as int, end as int)[m] by {
            assert(ob@[m] == tb@[start + m]);
        }
        assert(ob@ =~= tb@.subrange(start as int, end as int));
    }
    true
}

fn case_anchor(
    state: &CurrentContractState,
    readings: &Vec<TranscriptReading>,
    case: &crate::model::EvidenceReviewCase,
) -> (r: Result<ValidatedReviewCase, OracleDiagnosticV3>)
    ensures
        match r {
            Ok(v) => case_anchor_spec(state@, vec_view(readings@), case@) == Ok::<ValidatedReviewCaseView, OracleDiagnosticV3View>(v@),
            Err(d) => case_anchor_spec(state@, vec_view(readings@), case@) == Err::<ValidatedReviewCaseView, OracleDiagnosticV3View>(d@),
        },
{
    if !case.observed_revision_id.same_as(&case.anchor_revision_id) {
        return Err(
            diagnostic(
                OracleViolationCodeV3::SourceAnchorRevisionMismatch,
                "review_cases",
                "observed revision differs from anchor revision",
            ),
        );
    }
    let index = match first_revision_position(state, &case.anchor_revision_id) {
        Some(k) => k,
        None => {
            return Err(
                diagnostic(OracleViolationCodeV3::SourceAnchorRevisionMismatch, "review_cases", "anchor revision missing"),
            );
        },
    };
    proof {
        lemma_first_revision_index(state@.source_revisions, case@.anchor_revision_id);
    }
    if !anchor_eligible(state, readings, &case.anchor_revision_id) {
        return Err(
            diagnostic(
                OracleViolationCodeV3::SourceAnchorRevisionMismatch,
                "review_cases",
                "anchor revision transcript bytes do not validate to the declared revision",
            ),
        );
    }
    let transcript = match find_reading(readings, &state.source_revisions[index].transcript_bytes) {
        Some(t) => t,
        None => {
            return Err(
                diagnostic(
                    OracleViolationCodeV3::MalformedTranscriptRepresentation,
                    "source_revisions",
                    "malformed transcript representation for anchor validation",
                ),
            );
        },
    };
    if case.anchor_segment_position >= transcript.segment_texts.len() {
        return Err(
            diagnostic(
                OracleViolationCodeV3::SourceAnchorSegmentMismatch,
                "review_cases",
                "anchor segment position out of bounds",
            ),
        );
    }
    let text = &transcript.segment_texts[case.anchor_segment_position];
    proof {
        assert(vec_view(transcript.segment_texts@)[case.anchor_segment_position as int] == text@);
    }
    let start = case.anchor_start_byte;
    let end = case.anchor_end_byte;
    if start >= end || !text.as_str().is_char_boundary(start) || !text.as_str().is_char_boundary(end)
        || end > text.as_str().as_bytes().len() {
        return Err(
            diagnostic(
                OracleViolationCodeV3::Utf8AnchorBoundaryViolation,
                "review_cases",
                "anchor byte range is not a valid UTF-8 boundary",
            ),
        );
    }
    if !resolves_to(text, start, end, &case.observed_source_bytes) {
        return Err(
            diagnostic(
                OracleViolationCodeV3::SourceAnchorResolvedBytesMismatch,
                "review_cases",
                "resolved anchor bytes do not match observed source bytes",
            ),
        );
    }
    Ok(
        ValidatedReviewCase {
            observed_revision_id: case.observed_revision_id.clone(),
            anchor_revision_id: case.anchor_revision_id.clone(),
            observed_source_bytes: case.observed_source_bytes.clone(),
            alternative_count: case.alternative_count,
        },
    )
}


/// Findings of the anchor pass: each source revision's findings, then each
/// review case's anchor finding.
pub open spec fn source_anchor_diags(s: CurrentContractStateView, readings: Seq<TranscriptReadingView>) -> Seq<OracleDiagnosticV3View> {
    concat_upto(s.source_revisions.len() as int, revision_fn(s, readings)) + concat_upto(
        s.review_cases.len() as int,
        case_anchor_fn(s, readings),
    )
}

/// Checks each source revision and resolves each review case against its
/// anchor; returns the cases that resolve, in order.
pub(crate) fn validate_source_anchors(
    state: &CurrentContractState,
    readings: &Vec<TranscriptReading>,
    violations: &mut Vec<OracleDiagnosticV3>,
) -> (r: Vec<ValidatedCaseEntry>)
    ensures
        diags_view(final(violations)@) == diags_view(old(violations)@) + source_anchor_diags(state@, vec_view(readings@)),
        vec_view(r@) == validated_cases_spec(state@, vec_view(readings@)),
{
    let ghost s = state@;
    let ghost rv = vec_view(readings@);
    let ghost start = diags_view(violations@);
    let mut i: usize = 0;
    while i < state.source_revisions.len()
        invariant
            i <= state.source_revisions.len(),
            s == state@,
            rv == vec_view(readings@),
            diags_view(violations@) == start + concat_upto(i as int, revision_fn(s, rv)),
        decreases state.source_revisions.len() - i,
    {
        let revision = &state.source_revisions[i];
        proof {
            assert(s.source_revisions[i as int] == revision@);
        }
        let ghost before = diags_view(violations@);
        if revision_seen_before(state, i) {
            push_diag(
                violations,
                diagnostic(
                    OracleViolationCodeV3::ChangedSourceRevisionIdentity,
                    "source_revisions",
                    "duplicate source revision id",
                ),
            );
        }
        match find_reading(readings, &revision.transcript_bytes) {
            Some(t) => {
                if !t.revision_id.same_as(&revision.revision_id) {
                    push_diag(
                        violations,
                        diagnostic(
                            OracleViolationCodeV3::ChangedSourceRevisionIdentity,
                            "source_revisions",
                            "declared source revision id does not match transcript bytes",
                        ),
                    );
                }
            },
            None => {
                push_diag(
                    violations,
                    diagnostic(
                        OracleViolationCodeV3::MalformedTranscriptRepresentation,
                        "source_revisions",
                        "malformed transcript representation for source revision validation",
                    ),
                );
            },
        }
        match &revision.predecessor_revision_id {
            Some(p) => {
                if p.same_as(&revision.revision_id) || !has_revision(state, p) {
                    push_diag(
                        violations,
                        diagnostic(
                            OracleViolationCodeV3::ChangedSourceRevisionIdentity,
                            "source_revisions.predecessor_revision_id",
                            "source revision predecessor is missing or self-referential",
                        ),
                    );
                }
            },
            None => {},
        }
        i = i + 1;
        proof {
            assert(diags_view(violations@) =~= before + revision_diags(s, rv, i - 1));
            assert(diags_view(violations@) =~= start + concat_upto(i as int, revision_fn(s, rv)));
        }
    }
    let ghost mid = diags_view(violations@);
    let mut validated: Vec<ValidatedCaseEntry> = Vec::new();
    let mut i: usize = 0;
    while i < state.review_cases.len()
        invariant
            i <= state.review_cases.len(),
            s == state@,
            rv == vec_view(readings@),
            diags_view(violations@) == mid + concat_upto(i as int, case_anchor_fn(s, rv)),
            vec_view(validated@) == validated_cases_upto(s, rv, i as int),
        decreases state.review_cases.len() - i,
    {
        let case = &state.review_cases[i];
        proof {
            assert(s.review_cases[i as int] == case@);
        }
        let ghost before = diags_view(violations@);
        let ghost vbefore = vec_view(validated@);
        match case_anchor(state, readings, case) {
            Ok(v) => {
                validated.push(ValidatedCaseEntry { case_id: case.case_id.clone(), case: v });
            },
            Err(d) => {
                push_diag(violations, d);
            },
        }
        i = i + 1;
        proof {
            assert(diags_view(violations@) =~= mid + concat_upto(i as int, case_anchor_fn(s, rv)));
            assert(vec_view(validated@) =~= validated_cases_upto(s, rv, i as int));
        }
    }
    proof {
        assert(diags_view(violations@) =~= start + source_anchor_diags(s, rv));
    }
    validated
}

/// Findings about the index of reuse-governance event `i`: gaps and duplicates.
pub open spec fn governance_index_diags(s: CurrentContractStateView, i: int) -> Seq<OracleDiagnosticV3View> {
    let e = governance_event_index_spec(s.reuse_governance_events[i]);
    (if e != i {
        seq![
            diag(
                OracleViolationCodeV3::ReuseGovernanceIndexGap,
                "reuse_governance_events"@,
                "reuse governance event index is not contiguous"@,
            ),
        ]
    } else {
        Seq::empty()
    }) + (if exists|j: int| 0 <= j < i && governance_event_index_spec(#[trigger] s.reuse_governance_events[j]) == e {
        seq![
            diag(
                OracleViolationCodeV3::ReuseGovernanceDuplicateIndex,
                "reuse_governance_events"@,
                "duplicate reuse governance event index"@,
            ),
        ]
    } else {
        Seq::empty()
    })
}

/// Per-event governance index findings.
pub open spec fn governance_index_fn(s: CurrentContractStateView) -> spec_fn(int) -> Seq<OracleDiagnosticV3View> {
    |k: int| governance_index_diags(s, k)
}

/// Checks that reuse-governance event indices run 0, 1, 2, ... without repeats.
pub(crate) fn validate_governance_events(state: &CurrentContractState, violations: &mut Vec<OracleDiagnosticV3>)
    ensures
        diags_view(final(violations)@) == diags_view(old(violations)@) + concat_upto(
            state@.reuse_governance_events.len() as int,
            governance_index_fn(state@),
        ),
{
    let ghost s = state@;
    let ghost start = diags_view(violations@);
    let mut i: usize = 0;
    while i < state.reuse_governance_events.len()
        invariant
            i <= state.reuse_governance_events.len(),
            s == state@,
            diags_view(violations@) == start + concat_upto(i as int, governance_index_fn(s)),
        decreases state.reuse_governance_events.len() - i,
    {
        let index = governance_event_index(&state.reuse_governance_events[i]);
        proof {
            assert(s.reuse_governance_events[i as int] == state.reuse_governance_events@[i as int]@);
        }
        let ghost before = diags_view(violations@);
        if index != i {
            push_diag(
                violations,
                diagnostic(
                    OracleViolationCodeV3::ReuseGovernanceIndexGap,
                    "reuse_governance_events",
                    "reuse governance event index is not contiguous",
                ),
            );
        }
        let mut seen = false;
        let mut j: usize = 0;
        while j < i
            invariant
                j <= i < state.reuse_governance_events.len(),
                s == state@,
                index == governance_event_index_spec(s.reuse_governance_events[i as int]),
                seen == exists|k: int| 0 <= k < j && governance_event_index_spec(#[trigger] s.reuse_governance_events[k]) == index,
            decreases i - j,
        {
            proof {
                assert(s.reuse_governance_events[j as int] == state.reuse_governance_events@[j as int]@);
            }
            if governance_event_index(&state.reuse_governance_events[j]) == index {
                seen = true;
            }
            proof {
                if governance_event_index_spec(s.reuse_governance_events[j as int]) == index {
                    assert(exists|k: int| 0 <= k < j + 1 && governance_event_index_spec(#[trigger] s.reuse_governance_events[k]) == index);
                }
            }
            j = j + 1;
        }
        if seen {
            push_diag(
                violations,
                diagnostic(
                    OracleViolationCodeV3::ReuseGovernanceDuplicateIndex,
                    "reuse_governance_events",
                    "duplicate reuse governance event index",
                ),
            );
        }
        i = i + 1;
        proof {
            assert(diags_view(violations@) =~= before + governance_index_diags(s, i - 1));
            assert(diags_view(violations@) =~= start + concat_upto(i as int, governance_index_fn(s)));
        }
    }
}


/// Whether the state lists exactly this analysis snapshot.
fn snapshot_listed(state: &CurrentContractState, snapshot: &EvidenceAnalysisSnapshot) -> (r: bool)
    ensures
        r == state@.analysis_snapshots.contains(snapshot@),
{
    let ghost sv = state@.analysis_snapshots;
    let mut k: usize = 0;
    while k < state.analysis_snapshots.len()
        invariant
            k <= state.analysis_snapshots.len(),
            sv == state@.analysis_snapshots,
            forall|j: int| 0 <= j < k ==> sv[j] != snapshot@,
        decreases state.analysis_snapshots.len() - k,
    {
        if state.analysis_snapshots[k].same_as(snapshot) {
            proof {
                assert(sv[k as int] == snapshot@);
            }
            return true;
        }
        k = k + 1;
    }
    false
}

/// Findings about the historical reuse-enabled analysis binding, if the state has one.
pub open spec fn historical_binding_diags(
    s: CurrentContractStateView,
    cases: Seq<ValidatedCaseEntryView>,
    decs: Seq<Option<ValidatedReviewDecisionView>>,
    rules: ContractRulesView,
) -> Seq<OracleDiagnosticV3View> {
    let mismatch = OracleViolationCodeV3::HistoricalBindingAnalysisMismatch;
    let snapshot_path = "reuse_enabled_analysis_binding.analysis_snapshot"@;
    match s.reuse_enabled_analysis_binding {
        None => Seq::empty(),
        Some(b) => if b.governance_event_boundary > s.reuse_governance_events.len() {
            seq![
                diag(
                    mismatch,
                    "reuse_enabled_analysis_binding.governance_event_boundary"@,
                    "historical binding governance boundary is outside governance history"@,
                ),
            ]
        } else {
            match validate_analysis_snapshot_spec(b.analysis_snapshot, rules) {
                Err(e) => seq![e],
                Ok(_) => {
                    let at = fold_upto(s, cases, decs, rules, b.governance_event_boundary as int);
                    finding_if(
                        !matches_configuration_spec(b.analysis_snapshot, rules.reuse_enabled_configuration),
                        diag(mismatch, snapshot_path, "historical binding must use the reuse-enabled analysis configuration"@),
                    ) + finding_if(
                        b.analysis_snapshot.source_revision_id.len() == 0 || !has_revision_spec(
                            s,
                            b.analysis_snapshot.source_revision_id,
                        ) || b.analysis_snapshot.session_terms_identity != s.session_terms_identity
                            || !s.analysis_snapshots.contains(b.analysis_snapshot),
                        diag(
                            mismatch,
                            snapshot_path,
                            "historical binding analysis snapshot is not an exact canonical session snapshot"@,
                        ),
                    ) + finding_if(
                        b.projection_version != REUSABLE_INFLUENCE_PROJECTION_VERSION@,
                        diag(
                            mismatch,
                            "reuse_enabled_analysis_binding.projection_version"@,
                            "historical binding projection version mismatch"@,
                        ),
                    ) + finding_if(
                        b.analysis_snapshot_identity != b.analysis_snapshot.identity,
                        diag(
                            mismatch,
                            "reuse_enabled_analysis_binding.analysis_snapshot_identity"@,
                            "historical binding analysis snapshot identity mismatch"@,
                        ),
                    ) + at.1 + match production_snapshot_identity_spec(
                        s.project_scope.stable_id,
                        b.governance_event_boundary,
                        fold_effective(at.0),
                        s.analysis_snapshots,
                        rules,
                    ) {
                        Ok(expected) => finding_if(
                            b.reusable_snapshot_identity != expected,
                            diag(
                                OracleViolationCodeV3::HistoricalBindingSnapshotMismatch,
                                "reuse_enabled_analysis_binding.reusable_snapshot_identity"@,
                                "historical binding snapshot does not match production identity at boundary"@,
                            ),
                        ),
                        Err(e) => seq![e],
                    }
                },
            }
        },
    }
}

#[verifier::spinoff_prover]
fn validate_historical_binding(
    state: &CurrentContractState,
    cases: &Vec<ValidatedCaseEntry>,
    decisions: &Vec<Option<ValidatedReviewDecision>>,
    rules: &ContractRules,
    violations: &mut Vec<OracleDiagnosticV3>,
)
    requires
        decisions@.len() == state@.review_ledger_events.len(),
    ensures
        diags_view(final(violations)@) == diags_view(old(violations)@) + historical_binding_diags(
            state@,
            vec_view(cases@),
            decisions_view(decisions@),
            rules@,
        ),
{
    let ghost start = diags_view(violations@);
    let binding = match &state.reuse_enabled_analysis_binding {
        Some(b) => b,
        None => {
            proof {
                assert(diags_view(violations@) =~= start + historical_binding_diags(
                    state@,
                    vec_view(cases@),
                    decisions_view(decisions@),
                    rules@,
                ));
            }
            return ;
        },
    };
    let mismatch = OracleViolationCodeV3::HistoricalBindingAnalysisMismatch;
    let boundary = binding.governance_event_boundary;
    if boundary > state.reuse_governance_events.len() {
        push_diag(
            violations,
            diagnostic(
                mismatch,
                "reuse_enabled_analysis_binding.governance_event_boundary",
                "historical binding governance boundary is outside governance history",
            ),
        );
        return ;
    }
    match validate_analysis_snapshot(&binding.analysis_snapshot, rules) {
        Err(e) => {
            push_diag(violations, e);
            return ;
        },
        Ok(()) => {},
    }
    if !is_reuse_enabled_analysis_snapshot(&binding.analysis_snapshot, rules) {
        push_diag(
            violations,
            diagnostic(
                mismatch,
                "reuse_enabled_analysis_binding.analysis_snapshot",
                "historical binding must use the reuse-enabled analysis configuration",
            ),
        );
    }
    if binding.analysis_snapshot.source_revision_id.as_str().is_empty() || !has_revision(
        state,
        &binding.analysis_snapshot.source_revision_id,
    ) || !binding.analysis_snapshot.session_terms_identity.same_as(&state.session_terms_identity)
        || !snapshot_listed(state, &binding.analysis_snapshot) {
        push_diag(
            violations,
            diagnostic(
                mismatch,
                "reuse_enabled_analysis_binding.analysis_snapshot",
                "historical binding analysis snapshot is not an exact canonical session snapshot",
            ),
        );
    }
    if !str_eq(binding.projection_version.as_str(), REUSABLE_INFLUENCE_PROJECTION_VERSION) {
        push_diag(
            violations,
            diagnostic(
                mismatch,
                "reuse_enabled_analysis_binding.projection_version",
                "historical binding projection version mismatch",
            ),
        );
    }
    if !binding.analysis_snapshot_identity.same_as(&binding.analysis_snapshot.identity) {
        push_diag(
            violations,
            diagnostic(
                mismatch,
                "reuse_enabled_analysis_binding.analysis_snapshot_identity",
                "historical binding analysis snapshot identity mismatch",
            ),
        );
    }
    let (active_at_boundary, _historical, _rejected) = fold_reuse_governance(
        state,
        cases,
        decisions,
        rules,
        boundary,
        violations,
    );
    match compute_production_snapshot_identity(
        state.project_scope.stable_id.as_str(),
        boundary,
        &active_at_boundary,
        &state.analysis_snapshots,
        rules,
    ) {
        Ok(expected) => {
            if !binding.reusable_snapshot_identity.same_as(&expected) {
                push_diag(
                    violations,
                    diagnostic(
                        OracleViolationCodeV3::HistoricalBindingSnapshotMismatch,
                        "reuse_enabled_analysis_binding.reusable_snapshot_identity",
                        "historical binding snapshot does not match production identity at boundary",
                    ),
                );
            }
        },
        Err(e) => {
            push_diag(violations, e);
        },
    }
    proof {
        assert(diags_view(violations@) =~= start + historical_binding_diags(
            state@,
            vec_view(cases@),
            decisions_view(decisions@),
            rules@,
        ));
    }
}

/// The reusable snapshot identity of the records in force, and the finding
/// when it cannot be computed; empty where the project scope is empty.
pub open spec fn snapshot_identity_outcome(
    s: CurrentContractStateView,
    records: Seq<EvidenceReusableRecordView>,
    boundary: usize,
    rules: ContractRulesView,
) -> (Seq<char>, Seq<OracleDiagnosticV3View>) {
    if s.project_scope.stable_id.len() == 0 {
        (Seq::empty(), Seq::empty())
    } else {
        match production_snapshot_identity_spec(s.project_scope.stable_id, boundary, records, s.analysis_snapshots, rules) {
            Ok(identity) => (identity, Seq::empty()),
            Err(e) => (Seq::empty(), seq![e]),
        }
    }
}

fn recompute_snapshot_identity(
    state: &CurrentContractState,
    active_records: &Vec<EvidenceReusableRecord>,
    boundary: usize,
    rules: &ContractRules,
    violations: &mut Vec<OracleDiagnosticV3>,
) -> (r: String)
    ensures
        r@ == snapshot_identity_outcome(state@, vec_view(active_records@), boundary, rules@).0,
        diags_view(final(violations)@) == diags_view(old(violations)@) + snapshot_identity_outcome(
            state@,
            vec_view(active_records@),
            boundary,
            rules@,
        ).1,
{
    if state.project_scope.stable_id.as_str().is_empty() {
        proof {
            assert(diags_view(violations@) =~= diags_view(violations@) + Seq::<OracleDiagnosticV3View>::empty());
        }
        return String::new();
    }
    match compute_production_snapshot_identity(
        state.project_scope.stable_id.as_str(),
        boundary,
        active_records,
        &state.analysis_snapshots,
        rules,
    ) {
        Ok(identity) => {
            proof {
                assert(diags_view(violations@) =~= diags_view(violations@) + Seq::<OracleDiagnosticV3View>::empty());
            }
            identity
        },
        Err(e) => {
            push_diag(violations, e);
            String::new()
        },
    }
}

/// The validated review decisions of a state, position by position.
pub open spec fn derivation_decisions(
    s: CurrentContractStateView,
    rules: ContractRulesView,
    readings: Seq<TranscriptReadingView>,
) -> Seq<Option<ValidatedReviewDecisionView>> {
    ledger_decisions_spec(s, validated_cases_spec(s, readings), rules)
}

/// The reuse-governance fold over all of a state's governance events.
pub open spec fn derivation_fold(
    s: CurrentContractStateView,
    rules: ContractRulesView,
    readings: Seq<TranscriptReadingView>,
) -> (GovernanceFoldView, Seq<OracleDiagnosticV3View>) {
    fold_upto(
        s,
        validated_cases_spec(s, readings),
        derivation_decisions(s, rules, readings),
        rules,
        s.reuse_governance_events.len() as int,
    )
}

/// `queue:<first revision id or "missing">:<ledger length>`.
pub open spec fn queue_projection_spec(s: CurrentContractStateView) -> Seq<char> {
    "queue:"@ + (if s.source_revisions.len() > 0 {
        s.source_revisions[0].revision_id
    } else {
        "missing"@
    }) + ":"@ + decimal_spec(s.review_ledger_events.len() as nat)
}

/// What the independent rebuild derives from a state.
pub open spec fn derived_projection_spec(
    s: CurrentContractStateView,
    rules: ContractRulesView,
    readings: Seq<TranscriptReadingView>,
) -> DerivedContractProjectionView {
    let folded = derivation_fold(s, rules, readings).0;
    DerivedContractProjectionView {
        effective_review_status: effective_status_spec(derivation_decisions(s, rules, readings)),
        rejected_candidate_identities: fold_rejected(folded),
        effective_reusable_records: fold_effective(folded),
        historical_reusable_records: fold_historical(folded),
        reusable_snapshot_identity: snapshot_identity_outcome(
            s,
            fold_effective(folded),
            s.reuse_governance_events.len() as usize,
            rules,
        ).0,
        derived_queue_projection: queue_projection_spec(s),
    }
}

/// Every finding of the independent rebuild, in the order the passes make them.
pub open spec fn derivation_diags(
    s: CurrentContractStateView,
    rules: ContractRulesView,
    readings: Seq<TranscriptReadingView>,
) -> Seq<OracleDiagnosticV3View> {
    let cases = validated_cases_spec(s, readings);
    let decs = derivation_decisions(s, rules, readings);
    let folded = derivation_fold(s, rules, readings);
    cases_and_ledger_diags(s, rules) + source_anchor_diags(s, readings) + concat_upto(
        s.reuse_governance_events.len() as int,
        governance_index_fn(s),
    ) + concat_upto(s.review_ledger_events.len() as int, ledger_diags_fn(s, cases, rules))
        + historical_binding_diags(s, cases, decs, rules) + folded.1 + snapshot_identity_outcome(
        s,
        fold_effective(folded.0),
        s.reuse_governance_events.len() as usize,
        rules,
    ).1
}

/// Rebuilds the derived projection of a state from its canonical parts and
/// reports every finding met on the way.
pub fn derive_contract_projection(
    state: &CurrentContractState,
    rules: &ContractRules,
    readings: &Vec<TranscriptReading>,
) -> (r: (DerivedContractProjection, Vec<OracleDiagnosticV3>))
    ensures
        r.0@ == derived_projection_spec(state@, rules@, vec_view(readings@)),
        diags_view(r.1@) == derivation_diags(state@, rules@, vec_view(readings@)),
{
    let mut violations: Vec<OracleDiagnosticV3> = Vec::new();
    proof {
        assert(diags_view(violations@) =~= Seq::<OracleDiagnosticV3View>::empty());
    }
    validate_review_cases_and_ledger(state, rules, &mut violations);
    let cases = validate_source_anchors(state, readings, &mut violations);
    validate_governance_events(state, &mut violations);
    let decisions = validate_review_ledger(state, &cases, rules, &mut violations);
    proof {
        assert(decisions_view(decisions@).len() == decisions@.len());
    }
    validate_historical_binding(state, &cases, &decisions, rules, &mut violations);
    let effective_review_status = fold_effective_review_status(&decisions);
    let (effective, historical, rejected) = fold_reuse_governance(
        state,
        &cases,
        &decisions,
        rules,
        state.reuse_governance_events.len(),
        &mut violations,
    );
    let identity = recompute_snapshot_identity(
        state,
        &effective,
        state.reuse_governance_events.len(),
        rules,
        &mut violations,
    );
    let first = if state.source_revisions.len() > 0 {
        state.source_revisions[0].revision_id.clone()
    } else {
        String::from_str("missing")
    };
    let count = decimal(state.review_ledger_events.len());
    let head = concat3("queue:", first.as_str(), ":");
    let queue = concat2(head.as_str(), count.as_str());
    let derived = DerivedContractProjection {
        effective_review_status,
        rejected_candidate_identities: rejected,
        effective_reusable_records: effective,
        historical_reusable_records: historical,
        reusable_snapshot_identity: identity,
        derived_queue_projection: queue,
    };
    proof {
        assert(diags_view(violations@) =~= derivation_diags(state@, rules@, vec_view(readings@)));
        assert(derived@ == derived_projection_spec(state@, rules@, vec_view(readings@)));
    }
    (derived, violations)
}

/// Findings where the candidate-supplied derived fields, when present, differ
/// from the independent rebuild.
pub open spec fn supplied_derived_diags(
    d: DerivedContractProjectionView,
    s: CurrentContractStateView,
) -> Seq<OracleDiagnosticV3View> {
    let rebuild = OracleViolationCodeV3::DerivedRebuildMismatch;
    finding_if(
        s.effective_review_status.len() > 0 && s.effective_review_status != d.effective_review_status,
        diag(
            rebuild,
            "effective_review_status"@,
            "candidate-supplied effective review status does not match independent fold"@,
        ),
    ) + finding_if(
        s.effective_reusable_records.len() > 0 && s.effective_reusable_records != d.effective_reusable_records,
        diag(
            rebuild,
            "effective_reusable_records"@,
            "candidate-supplied effective reusable records do not match independent fold"@,
        ),
    ) + finding_if(
        s.historical_reusable_records.len() > 0 && s.historical_reusable_records != d.historical_reusable_records,
        diag(
            rebuild,
            "historical_reusable_records"@,
            "candidate-supplied historical reusable records do not match independent fold"@,
        ),
    ) + finding_if(
        s.reusable_snapshot_identity.len() > 0 && s.reusable_snapshot_identity != d.reusable_snapshot_identity,
        diag(
            OracleViolationCodeV3::ChangedReusableSnapshotIdentity,
            "reusable_snapshot_identity"@,
            "candidate-supplied snapshot identity does not match independent recomputation"@,
        ),
    )
}

/// Compares the derived fields a candidate supplied with the independent
/// rebuild; an empty supplied field is not compared.
pub fn compare_supplied_derived(
    derived: &DerivedContractProjection,
    state: &CurrentContractState,
    violations: &mut Vec<OracleDiagnosticV3>,
)
    ensures
        diags_view(final(violations)@) == diags_view(old(violations)@) + supplied_derived_diags(derived@, state@),
{
    let ghost start = diags_view(violations@);
    let rebuild = OracleViolationCodeV3::DerivedRebuildMismatch;
    if state.effective_review_status.len() > 0 && !vec_same(
        &state.effective_review_status,
        &derived.effective_review_status,
    ) {
        push_diag(
            violations,
            diagnostic(
                rebuild,
                "effective_review_status",
                "candidate-supplied effective review status does not match independent fold",
            ),
        );
    }
    if state.effective_reusable_records.len() > 0 && !vec_same(
        &state.effective_reusable_records,
        &derived.effective_reusable_records,
    ) {
        push_diag(
            violations,
            diagnostic(
                rebuild,
                "effective_reusable_records",
                "candidate-supplied effective reusable records do not match independent fold",
            ),
        );
    }
    if state.historical_reusable_records.len() > 0 && !vec_same(
        &state.historical_reusable_records,
        &derived.historical_reusable_records,
    ) {
        push_diag(
            violations,
            diagnostic(
                rebuild,
                "historical_reusable_records",
                "candidate-supplied historical reusable records do not match independent fold",
            ),
        );
    }
    if !state.reusable_snapshot_identity.as_str().is_empty() && !state.reusable_snapshot_identity.same_as(
        &derived.reusable_snapshot_identity,
    ) {
        push_diag(
            violations,
            diagnostic(
                OracleViolationCodeV3::ChangedReusableSnapshotIdentity,
                "reusable_snapshot_identity",
                "candidate-supplied snapshot identity does not match independent recomputation",
            ),
        );
    }
    proof {
        assert(diags_view(violations@) =~= start + supplied_derived_diags(derived@, state@));
    }
}

/// A state with its derived fields replaced by those the independent rebuild derives.
pub open spec fn finalized_view(
    s: CurrentContractStateView,
    rules: ContractRulesView,
    readings: Seq<TranscriptReadingView>,
) -> CurrentContractStateView {
    let d = derived_projection_spec(s, rules, readings);
    CurrentContractStateView {
        effective_review_status: d.effective_review_status,
        effective_reusable_records: d.effective_reusable_records,
        historical_reusable_records: d.historical_reusable_records,
        reusable_snapshot_identity: d.reusable_snapshot_identity,
        derived_queue_projection: d.derived_queue_projection,
        ..s
    }
}

/// A state with its derived fields replaced and everything else kept.
pub open spec fn with_derived_fields(
    s: CurrentContractStateView,
    effective_review_status: Seq<EvidenceEffectiveReviewStatusView>,
    effective_reusable_records: Seq<EvidenceReusableRecordView>,
    historical_reusable_records: Seq<EvidenceReusableRecordView>,
    reusable_snapshot_identity: Seq<char>,
    derived_queue_projection: Seq<char>,
) -> CurrentContractStateView {
    CurrentContractStateView {
        effective_review_status,
        effective_reusable_records,
        historical_reusable_records,
        reusable_snapshot_identity,
        derived_queue_projection,
        ..s
    }
}

proof fn lemma_validated_cases_ignore_derived(
    s: CurrentContractStateView,
    t: CurrentContractStateView,
    readings: Seq<TranscriptReadingView>,
    n: int,
)
    requires
        t == with_derived_fields(
            s,
            t.effective_review_status,
            t.effective_reusable_records,
            t.historical_reusable_records,
            t.reusable_snapshot_identity,
            t.derived_queue_projection,
        ),
    ensures
        validated_cases_upto(t, readings, n) == validated_cases_upto(s, readings, n),
    decreases n,
{
    if n > 0 {
        lemma_validated_cases_ignore_derived(s, t, readings, n - 1);
    }
}

proof fn lemma_fold_ignores_derived(
    s: CurrentContractStateView,
    t: CurrentContractStateView,
    cases: Seq<ValidatedCaseEntryView>,
    decs: Seq<Option<ValidatedReviewDecisionView>>,
    rules: ContractRulesView,
    n: int,
)
    requires
        t == with_derived_fields(
            s,
            t.effective_review_status,
            t.effective_reusable_records,
            t.historical_reusable_records,
            t.reusable_snapshot_identity,
            t.derived_queue_projection,
        ),
    ensures
        fold_upto(t, cases, decs, rules, n) == fold_upto(s, cases, decs, rules, n),
    decreases n,
{
    if n > 0 {
        lemma_fold_ignores_derived(s, t, cases, decs, rules, n - 1);
    }
}

/// The independent rebuild reads no derived field: two states that differ
/// only in their derived fields derive the same projection.
pub proof fn law_derivation_ignores_derived_fields(
    s: CurrentContractStateView,
    rules: ContractRulesView,
    readings: Seq<TranscriptReadingView>,
    effective_review_status: Seq<EvidenceEffectiveReviewStatusView>,
    effective_reusable_records: Seq<EvidenceReusableRecordView>,
    historical_reusable_records: Seq<EvidenceReusableRecordView>,
    reusable_snapshot_identity: Seq<char>,
    derived_queue_projection: Seq<char>,
)
    ensures
        derived_projection_spec(
            with_derived_fields(
                s,
                effective_review_status,
                effective_reusable_records,
                historical_reusable_records,
                reusable_snapshot_identity,
                derived_queue_projection,
            ),
            rules,
            readings,
        ) == derived_projection_spec(s, rules, readings),
{
    let t = with_derived_fields(
        s,
        effective_review_status,
        effective_reusable_records,
        historical_reusable_records,
        reusable_snapshot_identity,
        derived_queue_projection,
    );
    lemma_validated_cases_ignore_derived(s, t, readings, s.review_cases.len() as int);
    let cases = validated_cases_spec(s, readings);
    assert(ledger_decisions_spec(t, cases, rules) =~= ledger_decisions_spec(s, cases, rules));
    lemma_fold_ignores_derived(
        s,
        t,
        cases,
        derivation_decisions(s, rules, readings),
        rules,
        s.reuse_governance_events.len() as int,
    );
}

/// Rebuilding the derived fields is idempotent, keeps the canonical
/// projection and the project scope, and leaves exactly the derived projection
/// in the derived fields.
pub proof fn law_finalize_is_idempotent(
    s: CurrentContractStateView,
    rules: ContractRulesView,
    readings: Seq<TranscriptReadingView>,
)
    ensures
        finalized_view(finalized_view(s, rules, readings), rules, readings) == finalized_view(s, rules, readings),
        canonical_projection_view(finalized_view(s, rules, readings)) == canonical_projection_view(s),
        finalized_view(s, rules, readings).project_scope == s.project_scope,
        finalized_view(s, rules, readings).effective_review_status
            == derived_projection_spec(s, rules, readings).effective_review_status,
        finalized_view(s, rules, readings).effective_reusable_records
            == derived_projection_spec(s, rules, readings).effective_reusable_records,
        finalized_view(s, rules, readings).historical_reusable_records
            == derived_projection_spec(s, rules, readings).historical_reusable_records,
        finalized_view(s, rules, readings).reusable_snapshot_identity
            == derived_projection_spec(s, rules, readings).reusable_snapshot_identity,
        finalized_view(s, rules, readings).derived_queue_projection
            == derived_projection_spec(s, rules, readings).derived_queue_projection,
{
    let d = derived_projection_spec(s, rules, readings);
    law_derivation_ignores_derived_fields(
        s,
        rules,
        readings,
        d.effective_review_status,
        d.effective_reusable_records,
        d.historical_reusable_records,
        d.reusable_snapshot_identity,
        d.derived_queue_projection,
    );
}

/// Replaces a state's derived fields with those the independent rebuild derives.
pub fn finalize_derived_fields(
    state: &mut CurrentContractState,
    rules: &ContractRules,
    readings: &Vec<TranscriptReading>,
)
    ensures
        final(state)@ == finalized_view(old(state)@, rules@, vec_view(readings@)),
{
    let (derived, _violations) = derive_contract_projection(state, rules, readings);
    state.effective_review_status = derived.effective_review_status;
    state.effective_reusable_records = derived.effective_reusable_records;
    state.historical_reusable_records = derived.historical_reusable_records;
    state.reusable_snapshot_identity = derived.reusable_snapshot_identity;
    state.derived_queue_projection = derived.derived_queue_projection;
}

} // verus!
