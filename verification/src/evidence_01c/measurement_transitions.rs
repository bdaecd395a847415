//! Precursor/target state pairs for comparative transition measurements.
//!
//! Each pair shares one session id and differs by exactly the write-set of
//! one authoritative command. The states are assembled on the evidence model
//! from a transcript of `Kafak` cues, a glossary that offers `Kafka` for it,
//! and the review and reuse-governance history that each command boundary
//! needs; derived fields come from the independent rebuild.
use vstd::prelude::*;
use vstd::utf8::encode_utf8;
use crate::derivation::{finalize_derived_fields, finalized_view, has_revision, has_revision_spec, ParsedTranscript, ParsedTranscriptView, TranscriptReading, TranscriptReadingView};
use crate::digest::{field_spec, hex_spec, push_field, sha256_spec, tagged_digest};
use crate::measurement::MeasurementFixtureScale;
use crate::model::{
    normalize_view, push_viewed, vec_duplicate, vec_view, SameAs, CurrentContractState, CurrentContractStateView, EvidenceAnalysisSnapshot,
    EvidenceAnalysisSnapshotView, EvidenceDurableCommandTokens, EvidenceDurableCommandTokensView,
    EvidenceExactReusableCorrection, EvidenceExactReusableCorrectionView, EvidenceGovernanceActor,
    EvidenceGovernanceActorView, EvidenceMaterialUseDeclaration, EvidenceMaterialUseDeclarationView,
    EvidenceProjectScope, EvidenceProjectScopeView, EvidenceReuseCandidateKey, EvidenceReuseCandidateKeyView,
    EvidenceReuseEnabledAnalysisBinding, EvidenceReuseEnabledAnalysisBindingView, EvidenceReuseGovernanceEvent,
    EvidenceReuseGovernanceEventView, EvidenceReviewCase, EvidenceReviewCaseView, EvidenceReviewLedgerEvent,
    EvidenceReviewLedgerEventView, EvidenceSessionAuthority, EvidenceSessionAuthorityView, EvidenceSourceDecisionLocator,
    EvidenceSourceDecisionLocatorView, EvidenceSourceRevision, EvidenceSourceRevisionView,
};
use crate::production_bridge::{
    analysis_identity_spec, evidence_analysis_snapshot_identity, find_snapshot, first_snapshot_index, production_decision_digest_hex,
    production_decision_digest_hex_spec, AnalysisConfigurationIdentity, AnalysisConfigurationIdentityView, ContractRules,
    ContractRulesView, REUSABLE_INFLUENCE_PROJECTION_VERSION,
};
use crate::append_authority::AppendAuthorityErrorView;
use crate::append_scoped::{infer_scope_spec, AppendCommandScope};
use crate::model::canonical_projection_view;
use crate::text::{decimal, decimal_spec, push_char, push_decimal_wide, str_eq};

verus! {

/// One transcript cue: its 1-based index, its time span and its text.
pub struct TranscriptSegment {
    pub index: usize,
    pub start_ms: u64,
    pub end_ms: u64,
    pub text: String,
}

/// The mathematical value of a [`TranscriptSegment`].
pub struct TranscriptSegmentView {
    pub index: usize,
    pub start_ms: u64,
    pub end_ms: u64,
    pub text: Seq<char>,
}

impl View for TranscriptSegment {
    type V = TranscriptSegmentView;

    open spec fn view(&self) -> TranscriptSegmentView {
        TranscriptSegmentView { index: self.index, start_ms: self.start_ms, end_ms: self.end_ms, text: self.text@ }
    }
}

/// `n` in decimal, left-padded with zeros to `width` digits.
pub open spec fn zero_padded_spec(n: nat, width: nat) -> Seq<char> {
    let d = decimal_spec(n);
    if d.len() >= width {
        d
    } else {
        Seq::new((width - d.len()) as nat, |_i: int| '0') + d
    }
}

/// Appends `n` in decimal, left-padded with zeros to `width` digits.
pub(crate) fn push_zero_padded(out: &mut String, n: u64, width: usize)
    ensures
        final(out)@ == old(out)@ + zero_padded_spec(n as nat, width as nat),
{
    let mut digits = String::new();
    push_decimal_wide(&mut digits, n as u128);
    assert(digits@ =~= decimal_spec(n as nat));
    let len = digits.unicode_len();
    let ghost start = out@;
    if len < width {
        let mut i: usize = len;
        while i < width
            invariant
                len <= i <= width,
                out@ == start + Seq::new((i - len) as nat, |_j: int| '0'),
            decreases width - i,
        {
            push_char(out, '0');
            i = i + 1;
            assert(out@ =~= start + Seq::new((i - len) as nat, |_j: int| '0'));
        }
    }
    out.append(digits.as_str());
    assert(out@ =~= start + zero_padded_spec(n as nat, width as nat));
}

/// A millisecond offset as an SRT timestamp, `hh:mm:ss,mmm`.
pub open spec fn srt_timestamp_spec(ms: u64) -> Seq<char> {
    zero_padded_spec((ms / 3_600_000) as nat, 2) + seq![':'] + zero_padded_spec(((ms % 3_600_000) / 60_000) as nat, 2)
        + seq![':'] + zero_padded_spec(((ms % 60_000) / 1_000) as nat, 2) + seq![','] + zero_padded_spec(
        (ms % 1_000) as nat,
        3,
    )
}

/// Formats a millisecond offset as an SRT timestamp, `hh:mm:ss,mmm`.
pub fn format_srt_timestamp(ms: u64) -> (out: String)
    ensures
        out@ == srt_timestamp_spec(ms),
{
    let mut out = String::new();
    push_zero_padded(&mut out, ms / 3_600_000, 2);
    push_char(&mut out, ':');
    push_zero_padded(&mut out, (ms % 3_600_000) / 60_000, 2);
    push_char(&mut out, ':');
    push_zero_padded(&mut out, (ms % 60_000) / 1_000, 2);
    push_char(&mut out, ',');
    push_zero_padded(&mut out, ms % 1_000, 3);
    assert(out@ =~= srt_timestamp_spec(ms));
    out
}


/// One cue as SRT text: index, time span, text and a blank line.
pub open spec fn cue_text_spec(seg: TranscriptSegmentView) -> Seq<char> {
    decimal_spec(seg.index as nat) + seq!['\n'] + srt_timestamp_spec(seg.start_ms) + " --> "@ + srt_timestamp_spec(
        seg.end_ms,
    ) + seq!['\n'] + seg.text + seq!['\n', '\n']
}

/// The SRT text of a sequence of cues.
pub open spec fn transcript_text_spec(segs: Seq<TranscriptSegmentView>) -> Seq<char>
    decreases segs.len(),
{
    if segs.len() == 0 {
        Seq::empty()
    } else {
        transcript_text_spec(segs.drop_last()) + cue_text_spec(segs.last())
    }
}

/// Appends one cue as SRT text.
fn push_cue(out: &mut String, seg: &TranscriptSegment)
    ensures
        final(out)@ == old(out)@ + cue_text_spec(seg@),
{
    let ghost start_text = old(out)@;
    push_decimal_wide(out, seg.index as u128);
    push_char(out, '\n');
    let start = format_srt_timestamp(seg.start_ms);
    out.append(start.as_str());
    out.append(" --> ");
    let end = format_srt_timestamp(seg.end_ms);
    out.append(end.as_str());
    push_char(out, '\n');
    out.append(seg.text.as_str());
    push_char(out, '\n');
    push_char(out, '\n');
    assert(out@ =~= start_text + cue_text_spec(seg@));
}

/// Formats cues as SRT text, each cue followed by a blank line.
pub fn format_transcript_bytes(segments: &Vec<TranscriptSegment>) -> (out: String)
    ensures
        out@ == transcript_text_spec(segments@.map_values(|s: TranscriptSegment| s@)),
{
    let ghost segs = segments@.map_values(|s: TranscriptSegment| s@);
    let mut out = String::new();
    let mut i: usize = 0;
    while i < segments.len()
        invariant
            i <= segments.len(),
            segs == segments@.map_values(|s: TranscriptSegment| s@),
            out@ == transcript_text_spec(segs.subrange(0, i as int)),
        decreases segments.len() - i,
    {
        push_cue(&mut out, &segments[i]);
        proof {
            let sub = segs.subrange(0, i + 1);
            assert(sub.drop_last() =~= segs.subrange(0, i as int));
            assert(sub.last() == segs[i as int]);
        }
        i = i + 1;
    }
    assert(segs.subrange(0, segments.len() as int) =~= segs);
    out
}

/// The cues of a transcript of `n` one-second `Kafak` cues.
pub open spec fn kafak_segments_spec(n: nat) -> Seq<TranscriptSegmentView> {
    Seq::new(
        n,
        |i: int|
            TranscriptSegmentView {
                index: (i + 1) as usize,
                start_ms: (i * 1000) as u64,
                end_ms: ((i + 1) * 1000) as u64,
                text: "Kafak"@,
            },
    )
}

/// `n` one-second cues, each reading `Kafak`.
fn kafak_segments(n: usize) -> (out: Vec<TranscriptSegment>)
    requires
        n * 1000 <= u64::MAX,
    ensures
        out@.map_values(|s: TranscriptSegment| s@) == kafak_segments_spec(n as nat),
{
    let mut out: Vec<TranscriptSegment> = Vec::new();
    let mut i: usize = 0;
    while i < n
        invariant
            i <= n,
            n * 1000 <= u64::MAX,
            out@.map_values(|s: TranscriptSegment| s@) == kafak_segments_spec(i as nat),
        decreases n - i,
    {
        let start: u64 = (i as u64) * 1000;
        let end: u64 = (i as u64 + 1) * 1000;
        let ghost prev = out@;
        out.push(TranscriptSegment { index: i + 1, start_ms: start, end_ms: end, text: String::from_str("Kafak") });
        i = i + 1;
        proof {
            let v = out@.map_values(|s: TranscriptSegment| s@);
            let w = kafak_segments_spec(i as nat);
            let pv = prev.map_values(|s: TranscriptSegment| s@);
            assert(pv.len() == (i - 1) as nat);
            assert(out@ == prev.push(out@[i - 1]));
            assert(v.len() == w.len());
            assert forall|k: int| 0 <= k < v.len() implies v[k] == w[k] by {
                if k < i - 1 {
                    assert(out@[k] == prev[k]);
                    assert(pv[k] == kafak_segments_spec((i - 1) as nat)[k]);
                }
            }
            assert(v =~= w);
        }
    }
    out
}

/// The number of cues of the medium measurement transcript.
pub const MEDIUM_TRANSCRIPT_SEGMENT_COUNT: usize = 12;

/// The SRT text of `segment_count` one-second `Kafak` cues; the last cue's
/// end, in milliseconds, must fit in a `u64`.
pub fn build_medium_transcript_srt(segment_count: usize) -> (out: String)
    requires
        segment_count * 1000 <= u64::MAX,
    ensures
        out@ == transcript_text_spec(kafak_segments_spec(segment_count as nat)),
{
    let segments = kafak_segments(segment_count);
    format_transcript_bytes(&segments)
}


/// The session id of the measurement fixtures at a scale.
pub open spec fn measurement_session_id_spec(scale: MeasurementFixtureScale) -> Seq<char> {
    match scale {
        MeasurementFixtureScale::Small => "session:current-contract:measurement-small"@,
        MeasurementFixtureScale::Medium => "session:current-contract:measurement-medium"@,
        MeasurementFixtureScale::Stress => "session:current-contract:measurement-stress"@,
    }
}

/// The evidence writer token of the measurement fixtures at a scale.
pub open spec fn measurement_writer_token_spec(scale: MeasurementFixtureScale) -> Seq<char> {
    match scale {
        MeasurementFixtureScale::Small => "writer:measurement-small"@,
        MeasurementFixtureScale::Medium => "writer:measurement-medium"@,
        MeasurementFixtureScale::Stress => "writer:measurement-stress"@,
    }
}

/// The session id and writer token of the measurement fixtures at a scale.
fn measurement_identity(scale: MeasurementFixtureScale) -> (r: (&'static str, &'static str))
    ensures
        r.0@ == measurement_session_id_spec(scale),
        r.1@ == measurement_writer_token_spec(scale),
{
    match scale {
        MeasurementFixtureScale::Small => ("session:current-contract:measurement-small", "writer:measurement-small"),
        MeasurementFixtureScale::Medium => ("session:current-contract:measurement-medium", "writer:measurement-medium"),
        MeasurementFixtureScale::Stress => ("session:current-contract:measurement-stress", "writer:measurement-stress"),
    }
}

/// The project scope, id and display name, that reuse commands run in at a scale.
pub open spec fn measurement_project_spec(scale: MeasurementFixtureScale) -> (Seq<char>, Seq<char>) {
    match scale {
        MeasurementFixtureScale::Small => ("proj-a"@, "Project A"@),
        _ => ("proj-medium"@, "Project Medium"@),
    }
}

fn measurement_project(scale: MeasurementFixtureScale) -> (r: (&'static str, &'static str))
    ensures
        (r.0@, r.1@) == measurement_project_spec(scale),
{
    match scale {
        MeasurementFixtureScale::Small => ("proj-a", "Project A"),
        _ => ("proj-medium", "Project Medium"),
    }
}

/// The transcript text of `n` one-second `Kafak` cues.
pub open spec fn kafak_transcript_spec(n: nat) -> Seq<char> {
    transcript_text_spec(kafak_segments_spec(n))
}

/// The tagged SHA-256 revision id of a transcript text.
pub open spec fn revision_id_spec(text: Seq<char>) -> Seq<char> {
    "rev:sha256-v1"@ + seq![':'] + hex_spec(sha256_spec(encode_utf8(text)))
}

/// The tagged SHA-256 identity of the glossary (`Kafka`, with the alias `Kafak`).
pub open spec fn glossary_terms_identity_spec() -> Seq<char> {
    "session-terms:sha256-v1"@ + seq![':'] + hex_spec(sha256_spec(field_spec("Kafka"@) + field_spec("Kafak"@)))
}

fn glossary_terms_identity() -> (r: String)
    ensures
        r@ == glossary_terms_identity_spec(),
{
    let mut bytes: Vec<u8> = Vec::new();
    push_field(&mut bytes, "Kafka");
    push_field(&mut bytes, "Kafak");
    assert(bytes@ =~= field_spec("Kafka"@) + field_spec("Kafak"@));
    tagged_digest("session-terms:sha256-v1", bytes.as_slice())
}

/// An analysis snapshot of a revision under a configuration, with the display
/// identity its typed fields determine.
pub open spec fn analysis_snapshot_spec(
    rev: Seq<char>,
    terms: Seq<char>,
    cfg: AnalysisConfigurationIdentityView,
) -> EvidenceAnalysisSnapshotView {
    let bare = EvidenceAnalysisSnapshotView {
        identity: Seq::empty(),
        source_revision_id: rev,
        session_terms_identity: terms,
        detectors: cfg.detectors,
        detector_config_id: cfg.detector_config_id,
        detector_config_version: cfg.detector_config_version,
        algorithm_id: cfg.algorithm_id,
        algorithm_version: cfg.algorithm_version,
    };
    EvidenceAnalysisSnapshotView { identity: analysis_identity_spec(bare), ..bare }
}

fn analysis_snapshot(rev: &String, terms: &String, cfg: &AnalysisConfigurationIdentity) -> (r: EvidenceAnalysisSnapshot)
    ensures
        r@ == analysis_snapshot_spec(rev@, terms@, cfg@),
{
    let mut snapshot = EvidenceAnalysisSnapshot {
        identity: String::new(),
        source_revision_id: rev.clone(),
        session_terms_identity: terms.clone(),
        detectors: vec_duplicate(&cfg.detectors),
        detector_config_id: cfg.detector_config_id.clone(),
        detector_config_version: cfg.detector_config_version.clone(),
        algorithm_id: cfg.algorithm_id.clone(),
        algorithm_version: cfg.algorithm_version.clone(),
    };
    snapshot.identity = evidence_analysis_snapshot_identity(&snapshot);
    snapshot
}

/// The id of the review case raised on cue `i`.
pub open spec fn case_id_spec(i: nat) -> Seq<char> {
    "review-case:"@ + decimal_spec(i)
}

fn case_id(i: usize) -> (r: String)
    ensures
        r@ == case_id_spec(i as nat),
{
    let mut out = String::from_str("review-case:");
    let d = decimal(i);
    out.append(d.as_str());
    out
}

/// The review case the glossary detector raises on the `Kafak` of cue `i`.
pub open spec fn kafak_case_spec(i: nat, rev: Seq<char>) -> EvidenceReviewCaseView {
    EvidenceReviewCaseView {
        case_id: case_id_spec(i),
        origin: "detector_raised"@,
        observed_revision_id: rev,
        anchor_revision_id: rev,
        anchor_segment_position: i as usize,
        anchor_start_byte: 0,
        anchor_end_byte: 5,
        observed_source_bytes: "Kafak"@,
        alternative_count: 1,
    }
}

/// The reading of the transcript of `n` `Kafak` cues.
pub open spec fn kafak_readings_spec(n: nat) -> Seq<TranscriptReadingView> {
    let text = kafak_transcript_spec(n);
    seq![
        TranscriptReadingView {
            transcript_bytes: text,
            parsed: Some(
                ParsedTranscriptView { revision_id: revision_id_spec(text), segment_texts: Seq::new(n, |_i: int| "Kafak"@) },
            ),
        },
    ]
}

/// The state of a session whose review is still pending: one revision, its
/// canonical analysis and a review case per cue, no decisions and no project scope.
pub open spec fn pending_state_spec(scale: MeasurementFixtureScale, n: nat, rules: ContractRulesView) -> CurrentContractStateView {
    let text = kafak_transcript_spec(n);
    let rev = revision_id_spec(text);
    let canonical = analysis_snapshot_spec(rev, glossary_terms_identity_spec(), rules.canonical_configuration);
    CurrentContractStateView {
        session_id: measurement_session_id_spec(scale),
        duplicated_from_session_id: None,
        session_authority: EvidenceSessionAuthorityView {
            role_label: "declared_local_owner_operator"@,
            display_label: "Ezra"@,
        },
        material_use_declaration: EvidenceMaterialUseDeclarationView { basis: "self_owned"@ },
        source_revisions: seq![EvidenceSourceRevisionView { revision_id: rev, predecessor_revision_id: None, transcript_bytes: text }],
        session_terms_identity: glossary_terms_identity_spec(),
        analysis_snapshots: seq![canonical],
        review_cases: Seq::new(n, |i: int| kafak_case_spec(i as nat, rev)),
        review_ledger_events: Seq::empty(),
        effective_review_status: Seq::empty(),
        project_scope: EvidenceProjectScopeView { stable_id: Seq::empty(), display_name: Seq::empty() },
        reuse_governance_events: Seq::empty(),
        effective_reusable_records: Seq::empty(),
        historical_reusable_records: Seq::empty(),
        reusable_snapshot_identity: Seq::empty(),
        reuse_enabled_analysis_binding: None,
        derived_queue_projection: Seq::empty(),
        durable_command_tokens: EvidenceDurableCommandTokensView {
            review_ledger_head: 0,
            reuse_governance_head: 0,
            active_analysis_snapshot_identity: canonical.identity,
            evidence_writer_token: measurement_writer_token_spec(scale),
        },
    }
}

/// The reading of the transcript of `n` `Kafak` cues.
pub fn kafak_readings(n: usize) -> (r: Vec<TranscriptReading>)
    requires
        n * 1000 <= u64::MAX,
    ensures
        vec_view(r@) == kafak_readings_spec(n as nat),
{
    let text = build_medium_transcript_srt(n);
    let rev = tagged_digest("rev:sha256-v1", text.as_str().as_bytes());
    let mut texts: Vec<String> = Vec::new();
    let mut i: usize = 0;
    while i < n
        invariant
            i <= n,
            vec_view(texts@) == Seq::new(i as nat, |_k: int| "Kafak"@),
        decreases n - i,
    {
        push_viewed(&mut texts, String::from_str("Kafak"));
        i = i + 1;
        assert(vec_view(texts@) =~= Seq::new(i as nat, |_k: int| "Kafak"@));
    }
    let readings = vec![
        TranscriptReading { transcript_bytes: text, parsed: Some(ParsedTranscript { revision_id: rev, segment_texts: texts }) },
    ];
    assert(vec_view(readings@) =~= kafak_readings_spec(n as nat));
    readings
}

/// A pending state with its readings, the revision id and the glossary identity.
fn pending_state(scale: MeasurementFixtureScale, n: usize, rules: &ContractRules) -> (r: (
    CurrentContractState,
    Vec<TranscriptReading>,
    String,
))
    requires
        n <= 1000,
    ensures
        r.0@ == pending_state_spec(scale, n as nat, rules@),
        vec_view(r.1@) == kafak_readings_spec(n as nat),
        r.2@ == revision_id_spec(kafak_transcript_spec(n as nat)),
{
    let text = build_medium_transcript_srt(n);
    let rev = tagged_digest("rev:sha256-v1", text.as_str().as_bytes());
    let terms = glossary_terms_identity();
    let canonical = analysis_snapshot(&rev, &terms, &rules.canonical_configuration);
    let mut cases: Vec<EvidenceReviewCase> = Vec::new();
    let mut texts: Vec<String> = Vec::new();
    let mut i: usize = 0;
    while i < n
        invariant
            i <= n <= 1000,
            vec_view(cases@) == Seq::new(i as nat, |k: int| kafak_case_spec(k as nat, rev@)),
            vec_view(texts@) == Seq::new(i as nat, |_k: int| "Kafak"@),
        decreases n - i,
    {
        push_viewed(
            &mut cases,
            EvidenceReviewCase {
                case_id: case_id(i),
                origin: String::from_str("detector_raised"),
                observed_revision_id: rev.clone(),
                anchor_revision_id: rev.clone(),
                anchor_segment_position: i,
                anchor_start_byte: 0,
                anchor_end_byte: 5,
                observed_source_bytes: String::from_str("Kafak"),
                alternative_count: 1,
            },
        );
        push_viewed(&mut texts, String::from_str("Kafak"));
        i = i + 1;
        assert(vec_view(cases@) =~= Seq::new(i as nat, |k: int| kafak_case_spec(k as nat, rev@)));
        assert(vec_view(texts@) =~= Seq::new(i as nat, |_k: int| "Kafak"@));
    }
    let readings = vec![
        TranscriptReading {
            transcript_bytes: text.clone(),
            parsed: Some(ParsedTranscript { revision_id: rev.clone(), segment_texts: texts }),
        },
    ];
    let (session_id, writer) = measurement_identity(scale);
    let active = canonical.identity.clone();
    let state = CurrentContractState {
        session_id: String::from_str(session_id),
        duplicated_from_session_id: None,
        session_authority: EvidenceSessionAuthority {
            role_label: String::from_str("declared_local_owner_operator"),
            display_label: String::from_str("Ezra"),
        },
        material_use_declaration: EvidenceMaterialUseDeclaration { basis: String::from_str("self_owned") },
        source_revisions: vec![
            EvidenceSourceRevision { revision_id: rev.clone(), predecessor_revision_id: None, transcript_bytes: text },
        ],
        session_terms_identity: terms,
        analysis_snapshots: vec![canonical],
        review_cases: cases,
        review_ledger_events: Vec::new(),
        effective_review_status: Vec::new(),
        project_scope: EvidenceProjectScope { stable_id: String::new(), display_name: String::new() },
        reuse_governance_events: Vec::new(),
        effective_reusable_records: Vec::new(),
        historical_reusable_records: Vec::new(),
        reusable_snapshot_identity: String::new(),
        reuse_enabled_analysis_binding: None,
        derived_queue_projection: String::new(),
        durable_command_tokens: EvidenceDurableCommandTokens {
            review_ledger_head: 0,
            reuse_governance_head: 0,
            active_analysis_snapshot_identity: active,
            evidence_writer_token: String::from_str(writer),
        },
    };
    proof {
        assert(vec_view(state.source_revisions@) =~= pending_state_spec(scale, n as nat, rules@).source_revisions);
        assert(vec_view(state.analysis_snapshots@) =~= pending_state_spec(scale, n as nat, rules@).analysis_snapshots);
        assert(vec_view(state.review_ledger_events@) =~= Seq::<EvidenceReviewLedgerEventView>::empty());
        assert(vec_view(state.effective_review_status@) =~= pending_state_spec(scale, n as nat, rules@).effective_review_status);
        assert(vec_view(state.reuse_governance_events@) =~= pending_state_spec(scale, n as nat, rules@).reuse_governance_events);
        assert(vec_view(state.effective_reusable_records@) =~= pending_state_spec(scale, n as nat, rules@).effective_reusable_records);
        assert(vec_view(state.historical_reusable_records@) =~= pending_state_spec(scale, n as nat, rules@).historical_reusable_records);
        assert(state@ =~= pending_state_spec(scale, n as nat, rules@));
        assert(vec_view(readings@) =~= kafak_readings_spec(n as nat));
    }
    (state, readings, rev)
}


/// The state after a human review decision on case `case`: a manual
/// replacement by `Kafka`, or else acceptance of the first alternative.
pub open spec fn decided_spec(s: CurrentContractStateView, rev: Seq<char>, case: nat, manual: bool) -> CurrentContractStateView {
    let event = EvidenceReviewLedgerEventView {
        event_index: s.review_ledger_events.len() as usize,
        case_id: case_id_spec(case),
        observed_revision_id: rev,
        action_kind: if manual { "manual_replacement"@ } else { "accept_alternative"@ },
        manual_replacement_bytes: if manual { Some("Kafka"@) } else { None },
        alternative_index: if manual { None } else { Some(0usize) },
        target_event_index: None,
        provenance: "human"@,
    };
    CurrentContractStateView {
        review_ledger_events: s.review_ledger_events.push(event),
        durable_command_tokens: EvidenceDurableCommandTokensView {
            review_ledger_head: (s.review_ledger_events.len() + 1) as usize,
            ..s.durable_command_tokens
        },
        ..s
    }
}

fn record_decision(state: &mut CurrentContractState, rev: &String, case: usize, manual: bool)
    ensures
        final(state)@ == decided_spec(old(state)@, rev@, case as nat, manual),
{
    let index = state.review_ledger_events.len();
    let event = EvidenceReviewLedgerEvent {
        event_index: index,
        case_id: case_id(case),
        observed_revision_id: rev.clone(),
        action_kind: if manual { String::from_str("manual_replacement") } else { String::from_str("accept_alternative") },
        manual_replacement_bytes: if manual { Some(String::from_str("Kafka")) } else { None },
        alternative_index: if manual { None } else { Some(0usize) },
        target_event_index: None,
        provenance: String::from_str("human"),
    };
    let ghost ev = event@;
    assert(ev == decided_spec(old(state)@, rev@, case as nat, manual).review_ledger_events.last());
    push_viewed(&mut state.review_ledger_events, event);
    assert(state.review_ledger_events@.len() == old(state).review_ledger_events@.len() + 1);
    state.durable_command_tokens.review_ledger_head = state.review_ledger_events.len();
    assert(vec_view(state.review_ledger_events@) =~= decided_spec(old(state)@, rev@, case as nat, manual).review_ledger_events);
    assert(state@ =~= decided_spec(old(state)@, rev@, case as nat, manual));
}

/// The state after manual replacements on cases `0..k`, in order.
pub open spec fn replaced_upto_spec(s: CurrentContractStateView, rev: Seq<char>, k: nat) -> CurrentContractStateView
    decreases k,
{
    if k == 0 {
        s
    } else {
        decided_spec(replaced_upto_spec(s, rev, (k - 1) as nat), rev, (k - 1) as nat, true)
    }
}

fn replace_upto(state: &mut CurrentContractState, rev: &String, k: usize)
    ensures
        final(state)@ == replaced_upto_spec(old(state)@, rev@, k as nat),
{
    let mut i: usize = 0;
    while i < k
        invariant
            i <= k,
            state@ == replaced_upto_spec(old(state)@, rev@, i as nat),
        decreases k - i,
    {
        record_decision(state, rev, i, true);
        i = i + 1;
    }
}

/// The state with its project scope set.
pub open spec fn scoped_spec(s: CurrentContractStateView, scale: MeasurementFixtureScale) -> CurrentContractStateView {
    CurrentContractStateView {
        project_scope: EvidenceProjectScopeView {
            stable_id: measurement_project_spec(scale).0,
            display_name: measurement_project_spec(scale).1,
        },
        ..s
    }
}

fn set_project_scope(state: &mut CurrentContractState, scale: MeasurementFixtureScale)
    ensures
        final(state)@ == scoped_spec(old(state)@, scale),
{
    let (id, name) = measurement_project(scale);
    state.project_scope = EvidenceProjectScope { stable_id: String::from_str(id), display_name: String::from_str(name) };
}

/// The governance actor that the session authority acts as.
pub open spec fn authority_actor_spec(s: CurrentContractStateView) -> EvidenceGovernanceActorView {
    EvidenceGovernanceActorView {
        role_label: s.session_authority.role_label,
        display_label: s.session_authority.display_label,
    }
}

fn authority_actor(state: &CurrentContractState) -> (r: EvidenceGovernanceActor)
    ensures
        r@ == authority_actor_spec(state@),
{
    EvidenceGovernanceActor {
        role_label: state.session_authority.role_label.clone(),
        display_label: state.session_authority.display_label.clone(),
    }
}

/// The decision digest of the `Kafka` replacement of case `case`, or the
/// empty text where the replacement is refused.
pub open spec fn kafka_decision_digest_spec(rev: Seq<char>, case: nat, rules: ContractRulesView) -> Seq<char> {
    match production_decision_digest_hex_spec(case_id_spec(case), rev, "Kafka"@, "Kafak"@, rules.max_manual_replacement_utf8_bytes) {
        Ok(d) => d,
        Err(_) => Seq::empty(),
    }
}

/// The state after accepting the reuse candidate of case `case`, whose manual
/// replacement stands at ledger position `position`.
pub open spec fn promoted_spec(
    s: CurrentContractStateView,
    rev: Seq<char>,
    case: nat,
    position: nat,
    rules: ContractRulesView,
) -> CurrentContractStateView {
    let locator = EvidenceSourceDecisionLocatorView {
        source_revision_id: rev,
        source_analysis_snapshot_identity: s.durable_command_tokens.active_analysis_snapshot_identity,
        source_review_case_id: case_id_spec(case),
        review_ledger_position: position as usize,
        decision_digest: kafka_decision_digest_spec(rev, case, rules),
        effective_at_ledger_length: s.review_ledger_events.len() as usize,
    };
    let payload = EvidenceExactReusableCorrectionView { observed_text: "Kafak"@, confirmed_replacement: "Kafka"@ };
    let event = EvidenceReuseGovernanceEventView::PromotionAccepted {
        event_index: s.reuse_governance_events.len() as usize,
        candidate_key: EvidenceReuseCandidateKeyView {
            project_scope_stable_id: s.project_scope.stable_id,
            source_locator: locator,
            exact_payload: payload,
        },
        payload: payload,
        source_locator: locator,
        actor: authority_actor_spec(s),
        project_scope_stable_id: s.project_scope.stable_id,
    };
    governed_spec(s, event)
}

/// The state with one more governance event.
pub open spec fn governed_spec(s: CurrentContractStateView, event: EvidenceReuseGovernanceEventView) -> CurrentContractStateView {
    CurrentContractStateView {
        reuse_governance_events: s.reuse_governance_events.push(event),
        durable_command_tokens: EvidenceDurableCommandTokensView {
            reuse_governance_head: (s.reuse_governance_events.len() + 1) as usize,
            ..s.durable_command_tokens
        },
        ..s
    }
}

fn record_governance(state: &mut CurrentContractState, event: EvidenceReuseGovernanceEvent)
    ensures
        final(state)@ == governed_spec(old(state)@, event@),
{
    push_viewed(&mut state.reuse_governance_events, event);
    assert(vec_view(state.reuse_governance_events@).len() == state.reuse_governance_events@.len());
    assert(vec_view(old(state).reuse_governance_events@).len() == old(state).reuse_governance_events@.len());
    assert(state.reuse_governance_events@.len() == old(state).reuse_governance_events@.len() + 1);
    state.durable_command_tokens.reuse_governance_head = state.reuse_governance_events.len();
    assert(state@ =~= governed_spec(old(state)@, event@));
}

fn record_promotion(state: &mut CurrentContractState, rev: &String, case: usize, position: usize, rules: &ContractRules)
    ensures
        final(state)@ == promoted_spec(old(state)@, rev@, case as nat, position as nat, rules@),
{
    let id = case_id(case);
    let digest = match production_decision_digest_hex(
        id.as_str(),
        rev.as_str(),
        "Kafka",
        "Kafak",
        rules.max_manual_replacement_utf8_bytes,
    ) {
        Ok(d) => d,
        Err(_) => String::new(),
    };
    let locator = EvidenceSourceDecisionLocator {
        source_revision_id: rev.clone(),
        source_analysis_snapshot_identity: state.durable_command_tokens.active_analysis_snapshot_identity.clone(),
        source_review_case_id: id,
        review_ledger_position: position,
        decision_digest: digest,
        effective_at_ledger_length: state.review_ledger_events.len(),
    };
    let event = EvidenceReuseGovernanceEvent::PromotionAccepted {
        event_index: state.reuse_governance_events.len(),
        candidate_key: EvidenceReuseCandidateKey {
            project_scope_stable_id: state.project_scope.stable_id.clone(),
            source_locator: locator.clone(),
            exact_payload: EvidenceExactReusableCorrection {
                observed_text: String::from_str("Kafak"),
                confirmed_replacement: String::from_str("Kafka"),
            },
        },
        payload: EvidenceExactReusableCorrection {
            observed_text: String::from_str("Kafak"),
            confirmed_replacement: String::from_str("Kafka"),
        },
        source_locator: locator,
        actor: authority_actor(state),
        project_scope_stable_id: state.project_scope.stable_id.clone(),
    };
    record_governance(state, event);
}

/// The state after accepting the candidates of cases `0..k`, in order, each
/// replaced at the ledger position of its case.
pub open spec fn promoted_upto_spec(
    s: CurrentContractStateView,
    rev: Seq<char>,
    k: nat,
    rules: ContractRulesView,
) -> CurrentContractStateView
    decreases k,
{
    if k == 0 {
        s
    } else {
        promoted_spec(promoted_upto_spec(s, rev, (k - 1) as nat, rules), rev, (k - 1) as nat, (k - 1) as nat, rules)
    }
}

fn promote_upto(state: &mut CurrentContractState, rev: &String, k: usize, rules: &ContractRules)
    ensures
        final(state)@ == promoted_upto_spec(old(state)@, rev@, k as nat, rules@),
{
    let mut i: usize = 0;
    while i < k
        invariant
            i <= k,
            state@ == promoted_upto_spec(old(state)@, rev@, i as nat, rules@),
        decreases k - i,
    {
        record_promotion(state, rev, i, i, rules);
        i = i + 1;
    }
}

/// The state after revoking reusable record `record`.
pub open spec fn revoked_spec(s: CurrentContractStateView, record: usize) -> CurrentContractStateView {
    governed_spec(
        s,
        EvidenceReuseGovernanceEventView::ReusableInfluenceRevoked {
            event_index: s.reuse_governance_events.len() as usize,
            record_id: record,
            actor: authority_actor_spec(s),
        },
    )
}

fn record_revocation(state: &mut CurrentContractState, record: usize)
    ensures
        final(state)@ == revoked_spec(old(state)@, record),
{
    let event = EvidenceReuseGovernanceEvent::ReusableInfluenceRevoked {
        event_index: state.reuse_governance_events.len(),
        record_id: record,
        actor: authority_actor(state),
    };
    record_governance(state, event);
}

/// The state after superseding record `predecessor` by record `successor`.
pub open spec fn superseded_spec(s: CurrentContractStateView, predecessor: usize, successor: usize) -> CurrentContractStateView {
    governed_spec(
        s,
        EvidenceReuseGovernanceEventView::ReusableInfluenceSuperseded {
            event_index: s.reuse_governance_events.len() as usize,
            predecessor_record_id: predecessor,
            successor_record_id: successor,
            actor: authority_actor_spec(s),
        },
    )
}

fn record_supersession(state: &mut CurrentContractState, predecessor: usize, successor: usize)
    ensures
        final(state)@ == superseded_spec(old(state)@, predecessor, successor),
{
    let event = EvidenceReuseGovernanceEvent::ReusableInfluenceSuperseded {
        event_index: state.reuse_governance_events.len(),
        predecessor_record_id: predecessor,
        successor_record_id: successor,
        actor: authority_actor(state),
    };
    record_governance(state, event);
}

/// The state after a reuse-enabled analysis run: the run's snapshot is stored
/// and bound to the reusable snapshot and governance boundary it ran against.
pub open spec fn reuse_run_spec(
    s: CurrentContractStateView,
    rev: Seq<char>,
    rules: ContractRulesView,
    readings: Seq<TranscriptReadingView>,
) -> CurrentContractStateView {
    let snapshot = analysis_snapshot_spec(rev, s.session_terms_identity, rules.reuse_enabled_configuration);
    CurrentContractStateView {
        analysis_snapshots: s.analysis_snapshots.push(snapshot),
        reuse_enabled_analysis_binding: Some(
            EvidenceReuseEnabledAnalysisBindingView {
                analysis_snapshot: snapshot,
                analysis_snapshot_identity: snapshot.identity,
                reusable_snapshot_identity: finalized_view(s, rules, readings).reusable_snapshot_identity,
                governance_event_boundary: s.reuse_governance_events.len() as usize,
                projection_version: REUSABLE_INFLUENCE_PROJECTION_VERSION@,
            },
        ),
        ..s
    }
}

fn run_reuse_enabled_analysis(
    state: &mut CurrentContractState,
    rev: &String,
    rules: &ContractRules,
    readings: &Vec<TranscriptReading>,
)
    ensures
        final(state)@ == reuse_run_spec(old(state)@, rev@, rules@, vec_view(readings@)),
{
    let mut derived = state.clone();
    finalize_derived_fields(&mut derived, rules, readings);
    let snapshot = analysis_snapshot(rev, &state.session_terms_identity, &rules.reuse_enabled_configuration);
    let binding = EvidenceReuseEnabledAnalysisBinding {
        analysis_snapshot: snapshot.clone(),
        analysis_snapshot_identity: snapshot.identity.clone(),
        reusable_snapshot_identity: derived.reusable_snapshot_identity,
        governance_event_boundary: state.reuse_governance_events.len(),
        projection_version: String::from_str(REUSABLE_INFLUENCE_PROJECTION_VERSION),
    };
    push_viewed(&mut state.analysis_snapshots, snapshot);
    state.reuse_enabled_analysis_binding = Some(binding);
    assert(state@ =~= reuse_run_spec(old(state)@, rev@, rules@, vec_view(readings@)));
}

/// A state as the projection stores it: derived fields rebuilt, collections
/// in canonical order.
#[verifier::opaque]
pub open spec fn settled_spec(
    s: CurrentContractStateView,
    rules: ContractRulesView,
    readings: Seq<TranscriptReadingView>,
) -> CurrentContractStateView {
    normalize_view(finalized_view(s, rules, readings))
}

fn settle(state: CurrentContractState, rules: &ContractRules, readings: &Vec<TranscriptReading>) -> (r: CurrentContractState)
    ensures
        r@ == settled_spec(state@, rules@, vec_view(readings@)),
{
    let mut s = state;
    finalize_derived_fields(&mut s, rules, readings);
    proof {
        reveal(settled_spec);
    }
    s.normalize()
}


/// Whether an operation is one of the five authoritative transition commands.
pub open spec fn is_transition_operation_spec(op: Seq<char>) -> bool {
    op == "append_review_decision"@ || op == "append_manual_replacement"@ || op == "append_reusable_promotion"@
        || op == "append_reusable_revocation"@ || op == "append_reusable_supersession"@
}

/// The number of transcript cues of the session a transition runs on.
pub open spec fn transition_segment_count_spec(op: Seq<char>, scale: MeasurementFixtureScale) -> nat {
    match scale {
        MeasurementFixtureScale::Small => if op == "append_reusable_supersession"@ {
            2
        } else {
            1
        },
        _ => MEDIUM_TRANSCRIPT_SEGMENT_COUNT as nat,
    }
}

/// The precursor and target states of a transition command at a scale.
///
/// The review commands start from a pending review; the reuse commands start
/// from a session whose every case was replaced by `Kafka` and whose project
/// scope is set. Promotion accepts the first candidate and runs a
/// reuse-enabled analysis; revocation starts after every candidate was accepted
/// and analysed, and revokes the first record; supersession starts after the
/// first candidate was accepted and analysed, accepts the second and lets it
/// supersede the first.
pub open spec fn transition_pair_spec(
    op: Seq<char>,
    scale: MeasurementFixtureScale,
    rules: ContractRulesView,
) -> (CurrentContractStateView, CurrentContractStateView) {
    let n = transition_segment_count_spec(op, scale);
    let readings = kafak_readings_spec(n);
    let rev = revision_id_spec(kafak_transcript_spec(n));
    let base = pending_state_spec(scale, n, rules);
    let scoped = scoped_spec(replaced_upto_spec(base, rev, n), scale);
    if op == "append_review_decision"@ {
        (settled_spec(base, rules, readings), settled_spec(decided_spec(base, rev, 0, false), rules, readings))
    } else if op == "append_manual_replacement"@ {
        (settled_spec(base, rules, readings), settled_spec(decided_spec(base, rev, 0, true), rules, readings))
    } else if op == "append_reusable_promotion"@ {
        (
            settled_spec(scoped, rules, readings),
            settled_spec(reuse_run_spec(promoted_spec(scoped, rev, 0, 0, rules), rev, rules, readings), rules, readings),
        )
    } else if op == "append_reusable_revocation"@ {
        let pre = reuse_run_spec(promoted_upto_spec(scoped, rev, n, rules), rev, rules, readings);
        (settled_spec(pre, rules, readings), settled_spec(revoked_spec(pre, 0), rules, readings))
    } else {
        let pre = reuse_run_spec(promoted_spec(scoped, rev, 0, 0, rules), rev, rules, readings);
        (
            settled_spec(pre, rules, readings),
            settled_spec(superseded_spec(promoted_spec(pre, rev, 1, 1, rules), 0, 1), rules, readings),
        )
    }
}

/// The precursor and target states of a transition command at a scale:
/// `None` for an operation that is no transition command.
pub fn measurement_transition_states(
    operation: &str,
    scale: MeasurementFixtureScale,
    rules: &ContractRules,
) -> (r: Option<(CurrentContractState, CurrentContractState)>)
    ensures
        r.is_some() == is_transition_operation_spec(operation@),
        r matches Some(pair) ==> (pair.0@, pair.1@) == transition_pair_spec(operation@, scale, rules@),
{
    let review = str_eq(operation, "append_review_decision");
    let manual = str_eq(operation, "append_manual_replacement");
    let promotion = str_eq(operation, "append_reusable_promotion");
    let revocation = str_eq(operation, "append_reusable_revocation");
    let supersession = str_eq(operation, "append_reusable_supersession");
    if !(review || manual || promotion || revocation || supersession) {
        return None;
    }
    let n: usize = match scale {
        MeasurementFixtureScale::Small => if supersession {
            2
        } else {
            1
        },
        _ => MEDIUM_TRANSCRIPT_SEGMENT_COUNT,
    };
    let (base, readings, rev) = pending_state(scale, n, rules);
    if review || manual {
        proof {
            reveal_strlit("append_review_decision");
            reveal_strlit("append_manual_replacement");
            assert("append_review_decision"@.len() != "append_manual_replacement"@.len());
        }
        let mut target = base.clone();
        record_decision(&mut target, &rev, 0, manual);
        let pre = settle(base, rules, &readings);
        let post = settle(target, rules, &readings);
        return Some((pre, post));
    }
    let mut scoped = base;
    replace_upto(&mut scoped, &rev, n);
    set_project_scope(&mut scoped, scale);
    if promotion {
        let mut target = scoped.clone();
        record_promotion(&mut target, &rev, 0, 0, rules);
        run_reuse_enabled_analysis(&mut target, &rev, rules, &readings);
        let pre = settle(scoped, rules, &readings);
        let post = settle(target, rules, &readings);
        Some((pre, post))
    } else if revocation {
        let mut pre = scoped;
        promote_upto(&mut pre, &rev, n, rules);
        run_reuse_enabled_analysis(&mut pre, &rev, rules, &readings);
        let mut target = pre.clone();
        record_revocation(&mut target, 0);
        let pre = settle(pre, rules, &readings);
        let post = settle(target, rules, &readings);
        Some((pre, post))
    } else {
        let mut pre = scoped;
        record_promotion(&mut pre, &rev, 0, 0, rules);
        run_reuse_enabled_analysis(&mut pre, &rev, rules, &readings);
        let mut target = pre.clone();
        record_promotion(&mut target, &rev, 1, 1, rules);
        record_supersession(&mut target, 0, 1);
        let pre = settle(pre, rules, &readings);
        let post = settle(target, rules, &readings);
        Some((pre, post))
    }
}


proof fn lemma_settled_keeps_identity(s: CurrentContractStateView, rules: ContractRulesView, readings: Seq<TranscriptReadingView>)
    ensures
        settled_spec(s, rules, readings).session_id == s.session_id,
        settled_spec(s, rules, readings).durable_command_tokens == s.durable_command_tokens,
{
    reveal(settled_spec);
}

proof fn lemma_replaced_upto(s: CurrentContractStateView, rev: Seq<char>, k: nat)
    ensures
        replaced_upto_spec(s, rev, k).session_id == s.session_id,
        replaced_upto_spec(s, rev, k).reuse_governance_events == s.reuse_governance_events,
        replaced_upto_spec(s, rev, k).durable_command_tokens.reuse_governance_head
            == s.durable_command_tokens.reuse_governance_head,
        replaced_upto_spec(s, rev, k).durable_command_tokens.active_analysis_snapshot_identity
            == s.durable_command_tokens.active_analysis_snapshot_identity,
    decreases k,
{
    if k > 0 {
        lemma_replaced_upto(s, rev, (k - 1) as nat);
    }
}

proof fn lemma_promoted_upto(s: CurrentContractStateView, rev: Seq<char>, k: nat, rules: ContractRulesView)
    ensures
        promoted_upto_spec(s, rev, k, rules).session_id == s.session_id,
        promoted_upto_spec(s, rev, k, rules).durable_command_tokens.review_ledger_head
            == s.durable_command_tokens.review_ledger_head,
        promoted_upto_spec(s, rev, k, rules).durable_command_tokens.active_analysis_snapshot_identity
            == s.durable_command_tokens.active_analysis_snapshot_identity,
        promoted_upto_spec(s, rev, k, rules).reuse_governance_events.len() == s.reuse_governance_events.len() + k,
        k > 0 ==> promoted_upto_spec(s, rev, k, rules).durable_command_tokens.reuse_governance_head
            == (s.reuse_governance_events.len() + k) as usize,
    decreases k,
{
    if k > 0 {
        lemma_promoted_upto(s, rev, (k - 1) as nat, rules);
    }
}

/// The scope a transition command writes: the review ledger for review
/// commands, reuse governance for the others.
pub open spec fn transition_scope_spec(op: Seq<char>) -> AppendCommandScope {
    if op == "append_review_decision"@ || op == "append_manual_replacement"@ {
        AppendCommandScope::ReviewLedger
    } else {
        AppendCommandScope::ReuseGovernance
    }
}

/// The identity facts a transition pair is judged by, for a precursor and a
/// target state before they are settled.
pub open spec fn one_command_boundary(
    p: CurrentContractStateView,
    t: CurrentContractStateView,
    scale: MeasurementFixtureScale,
    scope: AppendCommandScope,
) -> bool {
    &&& p.session_id == measurement_session_id_spec(scale)
    &&& t.session_id == measurement_session_id_spec(scale)
    &&& infer_scope_spec(p, t) == Ok::<AppendCommandScope, AppendAuthorityErrorView>(scope)
}

proof fn lemma_settled_boundary(
    p: CurrentContractStateView,
    t: CurrentContractStateView,
    scale: MeasurementFixtureScale,
    scope: AppendCommandScope,
    rules: ContractRulesView,
    readings: Seq<TranscriptReadingView>,
)
    requires
        one_command_boundary(p, t, scale, scope),
    ensures
        one_command_boundary(settled_spec(p, rules, readings), settled_spec(t, rules, readings), scale, scope),
        canonical_projection_view(settled_spec(p, rules, readings)) != canonical_projection_view(
            settled_spec(t, rules, readings),
        ),
{
    lemma_settled_keeps_identity(p, rules, readings);
    lemma_settled_keeps_identity(t, rules, readings);
    let sp = settled_spec(p, rules, readings);
    let st = settled_spec(t, rules, readings);
    assert(canonical_projection_view(sp).durable_command_tokens != canonical_projection_view(st).durable_command_tokens);
}

#[verifier::spinoff_prover]
proof fn lemma_review_boundary(scale: MeasurementFixtureScale, n: nat, rules: ContractRulesView, manual: bool)
    ensures
        one_command_boundary(
            pending_state_spec(scale, n, rules),
            decided_spec(pending_state_spec(scale, n, rules), revision_id_spec(kafak_transcript_spec(n)), 0, manual),
            scale,
            AppendCommandScope::ReviewLedger,
        ),
{
}

#[verifier::spinoff_prover]
proof fn lemma_scoped_facts(scale: MeasurementFixtureScale, n: nat, rules: ContractRulesView)
    ensures
        ({
            let base = pending_state_spec(scale, n, rules);
            let scoped = scoped_spec(replaced_upto_spec(base, revision_id_spec(kafak_transcript_spec(n)), n), scale);
            &&& scoped.session_id == measurement_session_id_spec(scale)
            &&& scoped.reuse_governance_events.len() == 0
            &&& scoped.durable_command_tokens.reuse_governance_head == 0
            &&& scoped.durable_command_tokens.active_analysis_snapshot_identity
                == base.durable_command_tokens.active_analysis_snapshot_identity
        }),
{
    let base = pending_state_spec(scale, n, rules);
    lemma_replaced_upto(base, revision_id_spec(kafak_transcript_spec(n)), n);
}

proof fn lemma_transition_operations_distinct()
    ensures
        "append_review_decision"@ != "append_manual_replacement"@,
        "append_review_decision"@ != "append_reusable_promotion"@,
        "append_review_decision"@ != "append_reusable_revocation"@,
        "append_review_decision"@ != "append_reusable_supersession"@,
        "append_manual_replacement"@ != "append_reusable_promotion"@,
        "append_manual_replacement"@ != "append_reusable_revocation"@,
        "append_manual_replacement"@ != "append_reusable_supersession"@,
        "append_reusable_promotion"@ != "append_reusable_revocation"@,
        "append_reusable_promotion"@ != "append_reusable_supersession"@,
        "append_reusable_revocation"@ != "append_reusable_supersession"@,
{
    reveal_strlit("append_review_decision");
    reveal_strlit("append_manual_replacement");
    reveal_strlit("append_reusable_promotion");
    reveal_strlit("append_reusable_revocation");
    reveal_strlit("append_reusable_supersession");
    assert("append_review_decision"@[7] != "append_manual_replacement"@[7]);
    assert("append_review_decision"@[9] != "append_reusable_promotion"@[9]);
    assert("append_manual_replacement"@[7] != "append_reusable_promotion"@[7]);
    assert("append_reusable_promotion"@[16] != "append_reusable_revocation"@[16]);
    assert("append_reusable_promotion"@[16] != "append_reusable_supersession"@[16]);
    assert("append_reusable_revocation"@[16] != "append_reusable_supersession"@[16]);
}

/// Each transition pair is one authoritative command boundary: both states
/// belong to the measurement session of the scale, exactly the write-set of the
/// command's scope moves between them, and so their canonical projections differ.
pub proof fn law_transition_pair_is_one_command_boundary(
    op: Seq<char>,
    scale: MeasurementFixtureScale,
    rules: ContractRulesView,
)
    requires
        is_transition_operation_spec(op),
    ensures
        transition_pair_spec(op, scale, rules).0.session_id == measurement_session_id_spec(scale),
        transition_pair_spec(op, scale, rules).1.session_id == measurement_session_id_spec(scale),
        infer_scope_spec(transition_pair_spec(op, scale, rules).0, transition_pair_spec(op, scale, rules).1)
            == Ok::<AppendCommandScope, AppendAuthorityErrorView>(transition_scope_spec(op)),
        canonical_projection_view(transition_pair_spec(op, scale, rules).0) != canonical_projection_view(
            transition_pair_spec(op, scale, rules).1,
        ),
{
    let n = transition_segment_count_spec(op, scale);
    let readings = kafak_readings_spec(n);
    let rev = revision_id_spec(kafak_transcript_spec(n));
    let base = pending_state_spec(scale, n, rules);
    let scoped = scoped_spec(replaced_upto_spec(base, rev, n), scale);
    let scope = transition_scope_spec(op);
    lemma_transition_operations_distinct();
    if op == "append_review_decision"@ || op == "append_manual_replacement"@ {
        let manual = op == "append_manual_replacement"@;
        lemma_review_boundary(scale, n, rules, manual);
        lemma_settled_boundary(base, decided_spec(base, rev, 0, manual), scale, scope, rules, readings);
    } else {
        lemma_scoped_facts(scale, n, rules);
        if op == "append_reusable_promotion"@ {
            let target = reuse_run_spec(promoted_spec(scoped, rev, 0, 0, rules), rev, rules, readings);
            lemma_settled_boundary(scoped, target, scale, scope, rules, readings);
        } else if op == "append_reusable_revocation"@ {
            lemma_promoted_upto(scoped, rev, n, rules);
            let pre = reuse_run_spec(promoted_upto_spec(scoped, rev, n, rules), rev, rules, readings);
            lemma_settled_boundary(pre, revoked_spec(pre, 0), scale, scope, rules, readings);
        } else {
            let pre = reuse_run_spec(promoted_spec(scoped, rev, 0, 0, rules), rev, rules, readings);
            let target = superseded_spec(promoted_spec(pre, rev, 1, 1, rules), 0, 1);
            lemma_settled_boundary(pre, target, scale, scope, rules, readings);
        }
    }
}


/// The state with a revision added, unless one with its id is already there.
pub open spec fn with_revision_spec(s: CurrentContractStateView, r: EvidenceSourceRevisionView) -> CurrentContractStateView {
    if has_revision_spec(s, r.revision_id) {
        s
    } else {
        CurrentContractStateView { source_revisions: s.source_revisions.push(r), ..s }
    }
}

/// The state with each of `extra` added in order, skipping known revision ids.
pub open spec fn with_revisions_spec(s: CurrentContractStateView, extra: Seq<EvidenceSourceRevisionView>) -> CurrentContractStateView
    decreases extra.len(),
{
    if extra.len() == 0 {
        s
    } else {
        with_revision_spec(with_revisions_spec(s, extra.drop_last()), extra.last())
    }
}

fn add_revisions(state: &mut CurrentContractState, extra: &Vec<EvidenceSourceRevision>)
    ensures
        final(state)@ == with_revisions_spec(old(state)@, vec_view(extra@)),
{
    let ghost ev = vec_view(extra@);
    let mut i: usize = 0;
    while i < extra.len()
        invariant
            i <= extra.len(),
            ev == vec_view(extra@),
            state@ == with_revisions_spec(old(state)@, ev.subrange(0, i as int)),
        decreases extra.len() - i,
    {
        let ghost before = state@;
        if !has_revision(state, &extra[i].revision_id) {
            push_viewed(&mut state.source_revisions, extra[i].clone());
            assert(state@ =~= with_revision_spec(before, ev[i as int]));
        }
        proof {
            let sub = ev.subrange(0, i + 1);
            assert(sub.drop_last() =~= ev.subrange(0, i as int));
        }
        i = i + 1;
    }
    assert(ev.subrange(0, extra.len() as int) =~= ev);
}

/// The state with a snapshot added, unless one with identity `identity` is already there.
pub open spec fn with_snapshot_spec(
    s: CurrentContractStateView,
    identity: Seq<char>,
    snapshot: EvidenceAnalysisSnapshotView,
) -> CurrentContractStateView {
    if first_snapshot_index(s.analysis_snapshots, identity) is Some {
        s
    } else {
        CurrentContractStateView { analysis_snapshots: s.analysis_snapshots.push(snapshot), ..s }
    }
}

/// The state with each of `extra` added in order, skipping known identities.
pub open spec fn with_snapshots_spec(s: CurrentContractStateView, extra: Seq<EvidenceAnalysisSnapshotView>) -> CurrentContractStateView
    decreases extra.len(),
{
    if extra.len() == 0 {
        s
    } else {
        let prev = with_snapshots_spec(s, extra.drop_last());
        with_snapshot_spec(prev, extra.last().identity, extra.last())
    }
}

fn add_snapshot(state: &mut CurrentContractState, identity: &String, snapshot: &EvidenceAnalysisSnapshot)
    ensures
        final(state)@ == with_snapshot_spec(old(state)@, identity@, snapshot@),
{
    if find_snapshot(&state.analysis_snapshots, identity).is_none() {
        push_viewed(&mut state.analysis_snapshots, snapshot.clone());
        assert(state@ =~= with_snapshot_spec(old(state)@, identity@, snapshot@));
    }
}

fn add_snapshots(state: &mut CurrentContractState, extra: &Vec<EvidenceAnalysisSnapshot>)
    ensures
        final(state)@ == with_snapshots_spec(old(state)@, vec_view(extra@)),
{
    let ghost ev = vec_view(extra@);
    let mut i: usize = 0;
    while i < extra.len()
        invariant
            i <= extra.len(),
            ev == vec_view(extra@),
            state@ == with_snapshots_spec(old(state)@, ev.subrange(0, i as int)),
        decreases extra.len() - i,
    {
        add_snapshot(state, &extra[i].identity, &extra[i]);
        proof {
            let sub = ev.subrange(0, i + 1);
            assert(sub.drop_last() =~= ev.subrange(0, i as int));
        }
        i = i + 1;
    }
    assert(ev.subrange(0, extra.len() as int) =~= ev);
}

/// The identity of the analysis a state's reuse-enabled run is bound to.
pub open spec fn reuse_attachment_identity_spec(s: CurrentContractStateView) -> Option<Seq<char>> {
    match s.reuse_enabled_analysis_binding {
        Some(b) => Some(b.analysis_snapshot_identity),
        None => None,
    }
}

fn reuse_attachment_identity(state: &CurrentContractState) -> (r: Option<String>)
    ensures
        match r {
            Some(x) => reuse_attachment_identity_spec(state@) == Some(x@),
            None => reuse_attachment_identity_spec(state@) is None,
        },
{
    match &state.reuse_enabled_analysis_binding {
        Some(b) => Some(b.analysis_snapshot_identity.clone()),
        None => None,
    }
}

/// The state a precursor reaches by attaching the analyses of another state and
/// selecting one of them as active: `selected`, else the other state's
/// reuse-enabled analysis, else its active analysis.
pub open spec fn analysis_selection_target_spec(
    precursor: CurrentContractStateView,
    source: CurrentContractStateView,
    selected: Option<Seq<char>>,
    rules: ContractRulesView,
    readings: Seq<TranscriptReadingView>,
) -> CurrentContractStateView {
    let attached = with_snapshots_spec(precursor, source.analysis_snapshots);
    let bound = match source.reuse_enabled_analysis_binding {
        Some(b) => with_snapshot_spec(attached, b.analysis_snapshot_identity, b.analysis_snapshot),
        None => attached,
    };
    let identity = match selected {
        Some(x) => x,
        None => match source.reuse_enabled_analysis_binding {
            Some(b) => b.analysis_snapshot_identity,
            None => source.durable_command_tokens.active_analysis_snapshot_identity,
        },
    };
    settled_spec(
        CurrentContractStateView {
            durable_command_tokens: EvidenceDurableCommandTokensView {
                active_analysis_snapshot_identity: identity,
                ..bound.durable_command_tokens
            },
            ..bound
        },
        rules,
        readings,
    )
}

fn analysis_selection_target_from(
    precursor: &CurrentContractState,
    source: &CurrentContractState,
    selected: Option<String>,
    rules: &ContractRules,
    readings: &Vec<TranscriptReading>,
) -> (r: CurrentContractState)
    ensures
        r@ == analysis_selection_target_spec(
            precursor@,
            source@,
            match selected {
                Some(x) => Some(x@),
                None => None,
            },
            rules@,
            vec_view(readings@),
        ),
{
    let mut target = precursor.clone();
    add_snapshots(&mut target, &source.analysis_snapshots);
    match &source.reuse_enabled_analysis_binding {
        Some(b) => add_snapshot(&mut target, &b.analysis_snapshot_identity, &b.analysis_snapshot),
        None => {},
    }
    let identity = match selected {
        Some(x) => x,
        None => match &source.reuse_enabled_analysis_binding {
            Some(b) => b.analysis_snapshot_identity.clone(),
            None => source.durable_command_tokens.active_analysis_snapshot_identity.clone(),
        },
    };
    target.durable_command_tokens.active_analysis_snapshot_identity = identity;
    settle(target, rules, readings)
}


/// The scale of the session the unrelated-scope fixtures run on: never below medium.
pub open spec fn unrelated_scope_scale_spec(scale: MeasurementFixtureScale) -> MeasurementFixtureScale {
    match scale {
        MeasurementFixtureScale::Small => MeasurementFixtureScale::Medium,
        other => other,
    }
}

/// A medium session with the first case replaced and the project scope set,
/// before it is settled.
pub open spec fn partially_reviewed_spec(scale: MeasurementFixtureScale, rules: ContractRulesView) -> CurrentContractStateView {
    let sc = unrelated_scope_scale_spec(scale);
    let n = MEDIUM_TRANSCRIPT_SEGMENT_COUNT as nat;
    let rev = revision_id_spec(kafak_transcript_spec(n));
    scoped_spec(decided_spec(pending_state_spec(sc, n, rules), rev, 0, true), sc)
}

/// Three states of one session for the unrelated-scope proof: the initial
/// authority, the authority after a reuse-only advance (the first candidate
/// accepted), and the authority after a review-only advance (the second case
/// replaced).
pub open spec fn unrelated_scope_fixture_spec(
    scale: MeasurementFixtureScale,
    rules: ContractRulesView,
) -> (CurrentContractStateView, CurrentContractStateView, CurrentContractStateView) {
    let n = MEDIUM_TRANSCRIPT_SEGMENT_COUNT as nat;
    let rev = revision_id_spec(kafak_transcript_spec(n));
    let readings = kafak_readings_spec(n);
    let s = partially_reviewed_spec(scale, rules);
    (
        settled_spec(s, rules, readings),
        settled_spec(promoted_spec(s, rev, 0, 0, rules), rules, readings),
        settled_spec(decided_spec(s, rev, 1, true), rules, readings),
    )
}

/// A reuse-only advance leaves the review scope where it was, so a review
/// command prepared at the initial authority stays valid; the reuse advance
/// moves the reuse scope, and the review advance moves the review scope.
pub proof fn law_unrelated_scope_advances(scale: MeasurementFixtureScale, rules: ContractRulesView)
    ensures
        ({
            let (initial, reuse_only, review_only) = unrelated_scope_fixture_spec(scale, rules);
            &&& initial.session_id == reuse_only.session_id && initial.session_id == review_only.session_id
            &&& initial.durable_command_tokens.review_ledger_head == reuse_only.durable_command_tokens.review_ledger_head
            &&& initial.durable_command_tokens.reuse_governance_head
                != reuse_only.durable_command_tokens.reuse_governance_head
            &&& initial.durable_command_tokens.review_ledger_head != review_only.durable_command_tokens.review_ledger_head
        }),
{
    let n = MEDIUM_TRANSCRIPT_SEGMENT_COUNT as nat;
    let rev = revision_id_spec(kafak_transcript_spec(n));
    let readings = kafak_readings_spec(n);
    let st = partially_reviewed_spec(scale, rules);
    lemma_settled_keeps_identity(st, rules, readings);
    lemma_settled_keeps_identity(promoted_spec(st, rev, 0, 0, rules), rules, readings);
    lemma_settled_keeps_identity(decided_spec(st, rev, 1, true), rules, readings);
}

/// The initial authority, a reuse-only advance of it and a review-only advance
/// of it: the reuse advance leaves the review scope unchanged, and each advance
/// moves its own scope.
pub fn unrelated_scope_success_fixture(scale: MeasurementFixtureScale, rules: &ContractRules) -> (r: (
    CurrentContractState,
    CurrentContractState,
    CurrentContractState,
))
    ensures
        (r.0@, r.1@, r.2@) == unrelated_scope_fixture_spec(scale, rules@),
        r.0@.durable_command_tokens.review_ledger_head == r.1@.durable_command_tokens.review_ledger_head,
        r.0@.durable_command_tokens.reuse_governance_head != r.1@.durable_command_tokens.reuse_governance_head,
        r.0@.durable_command_tokens.review_ledger_head != r.2@.durable_command_tokens.review_ledger_head,
{
    let sc = match scale {
        MeasurementFixtureScale::Small => MeasurementFixtureScale::Medium,
        other => other,
    };
    let (mut session, readings, rev) = pending_state(sc, MEDIUM_TRANSCRIPT_SEGMENT_COUNT, rules);
    record_decision(&mut session, &rev, 0, true);
    set_project_scope(&mut session, sc);
    let mut reuse_only = session.clone();
    record_promotion(&mut reuse_only, &rev, 0, 0, rules);
    let mut review_target = session.clone();
    record_decision(&mut review_target, &rev, 1, true);
    proof {
        let rv = vec_view(readings@);
        lemma_settled_keeps_identity(session@, rules@, rv);
        lemma_settled_keeps_identity(reuse_only@, rules@, rv);
        lemma_settled_keeps_identity(review_target@, rules@, rv);
    }
    let initial = settle(session, rules, &readings);
    let reuse_only = settle(reuse_only, rules, &readings);
    let review_target = settle(review_target, rules, &readings);
    (initial, reuse_only, review_target)
}

/// The readings that the analysis stale fixture settles against: the medium
/// transcript and the transcript of the scale's promotion.
pub open spec fn analysis_stale_readings_spec(scale: MeasurementFixtureScale) -> Seq<TranscriptReadingView> {
    kafak_readings_spec(MEDIUM_TRANSCRIPT_SEGMENT_COUNT as nat) + kafak_readings_spec(
        transition_segment_count_spec("append_reusable_promotion"@, scale),
    )
}

/// The authority that the analysis stale commands are prepared at: the
/// medium session with the review-only advance and the reuse-only advance both
/// applied, and the source revisions of the scale's promotion added so that
/// analyses of either transcript can be attached.
pub open spec fn analysis_prepare_authority_spec(scale: MeasurementFixtureScale, rules: ContractRulesView) -> CurrentContractStateView {
    let (initial, reuse_only, review_target) = unrelated_scope_fixture_spec(scale, rules);
    let promotion = transition_pair_spec("append_reusable_promotion"@, scale, rules).1;
    let merged = CurrentContractStateView {
        review_ledger_events: review_target.review_ledger_events,
        effective_review_status: review_target.effective_review_status,
        reuse_governance_events: reuse_only.reuse_governance_events,
        effective_reusable_records: reuse_only.effective_reusable_records,
        historical_reusable_records: reuse_only.historical_reusable_records,
        reusable_snapshot_identity: reuse_only.reusable_snapshot_identity,
        reuse_enabled_analysis_binding: reuse_only.reuse_enabled_analysis_binding,
        durable_command_tokens: EvidenceDurableCommandTokensView {
            review_ledger_head: review_target.durable_command_tokens.review_ledger_head,
            reuse_governance_head: reuse_only.durable_command_tokens.reuse_governance_head,
            ..initial.durable_command_tokens
        },
        ..initial
    };
    settled_spec(with_revisions_spec(merged, promotion.source_revisions), rules, analysis_stale_readings_spec(scale))
}

/// The readings of the analysis stale fixture.
fn analysis_stale_readings(scale: MeasurementFixtureScale) -> (r: Vec<TranscriptReading>)
    ensures
        vec_view(r@) == analysis_stale_readings_spec(scale),
{
    let mut readings = kafak_readings(MEDIUM_TRANSCRIPT_SEGMENT_COUNT);
    let n: usize = match scale {
        MeasurementFixtureScale::Small => 1,
        _ => MEDIUM_TRANSCRIPT_SEGMENT_COUNT,
    };
    let mut more = kafak_readings(n);
    let ghost first = vec_view(readings@);
    let ghost second = vec_view(more@);
    readings.append(&mut more);
    proof {
        lemma_transition_operations_distinct();
        assert(vec_view(readings@) =~= first + second);
    }
    readings
}


/// The authority that the analysis stale commands are prepared at: review and
/// reuse scopes of the medium session both advanced, and the transcript of the
/// scale's promotion known, so that analyses of either transcript can be attached.
pub fn genuine_stale_analysis_prepare_authority(scale: MeasurementFixtureScale, rules: &ContractRules) -> (r: CurrentContractState)
    ensures
        r@ == analysis_prepare_authority_spec(scale, rules@),
{
    let (initial, reuse_only, review_target) = unrelated_scope_success_fixture(scale, rules);
    let (_, promotion) = measurement_transition_states("append_reusable_promotion", scale, rules).unwrap();
    let mut merged = initial;
    merged.review_ledger_events = review_target.review_ledger_events;
    merged.effective_review_status = review_target.effective_review_status;
    merged.durable_command_tokens.review_ledger_head = review_target.durable_command_tokens.review_ledger_head;
    merged.reuse_governance_events = reuse_only.reuse_governance_events;
    merged.effective_reusable_records = reuse_only.effective_reusable_records;
    merged.historical_reusable_records = reuse_only.historical_reusable_records;
    merged.reusable_snapshot_identity = reuse_only.reusable_snapshot_identity;
    merged.reuse_enabled_analysis_binding = reuse_only.reuse_enabled_analysis_binding;
    merged.durable_command_tokens.reuse_governance_head = reuse_only.durable_command_tokens.reuse_governance_head;
    add_revisions(&mut merged, &promotion.source_revisions);
    let readings = analysis_stale_readings(scale);
    settle(merged, rules, &readings)
}


/// The scoped write-set a stale command targets.
#[derive(Debug, Clone, Copy, PartialEq, Eq, Structural)]
pub enum GenuineStaleCommandScope {
    ReviewLedger,
    ReuseGovernance,
    ActiveAnalysis,
}

/// Pairwise-distinct analysis identities of the stale-analysis observation.
pub struct GenuineStaleAnalysisDetails {
    pub analysis_identity_before: String,
    pub competing_identity_after: String,
    pub stale_command_target_identity: String,
}

/// The mathematical value of a [`GenuineStaleAnalysisDetails`].
pub struct GenuineStaleAnalysisDetailsView {
    pub analysis_identity_before: Seq<char>,
    pub competing_identity_after: Seq<char>,
    pub stale_command_target_identity: Seq<char>,
}

impl View for GenuineStaleAnalysisDetails {
    type V = GenuineStaleAnalysisDetailsView;

    open spec fn view(&self) -> GenuineStaleAnalysisDetailsView {
        GenuineStaleAnalysisDetailsView {
            analysis_identity_before: self.analysis_identity_before@,
            competing_identity_after: self.competing_identity_after@,
            stale_command_target_identity: self.stale_command_target_identity@,
        }
    }
}

/// The states of a stale-command scenario: the authority a command is
/// prepared at, the target that command writes, and the target of a competing
/// command in the same scope that lands first; the prepared command, executed
/// afterwards with its stale preconditions, must be refused with
/// `expected_failure_code`.
pub struct GenuineStaleScenarioFixture {
    pub prepare_authority: CurrentContractState,
    pub prepared_target: CurrentContractState,
    pub competing_target: CurrentContractState,
    pub scope: GenuineStaleCommandScope,
    pub expected_failure_code: &'static str,
    pub analysis_details: Option<GenuineStaleAnalysisDetails>,
}

/// The mathematical value of a [`GenuineStaleScenarioFixture`].
pub struct GenuineStaleScenarioFixtureView {
    pub prepare_authority: CurrentContractStateView,
    pub prepared_target: CurrentContractStateView,
    pub competing_target: CurrentContractStateView,
    pub scope: GenuineStaleCommandScope,
    pub expected_failure_code: Seq<char>,
    pub analysis_details: Option<GenuineStaleAnalysisDetailsView>,
}

impl View for GenuineStaleScenarioFixture {
    type V = GenuineStaleScenarioFixtureView;

    open spec fn view(&self) -> GenuineStaleScenarioFixtureView {
        GenuineStaleScenarioFixtureView {
            prepare_authority: self.prepare_authority@,
            prepared_target: self.prepared_target@,
            competing_target: self.competing_target@,
            scope: self.scope,
            expected_failure_code: self.expected_failure_code@,
            analysis_details: match self.analysis_details {
                Some(d) => Some(d@),
                None => None,
            },
        }
    }
}

/// The stale-analysis fixture: two reuse-enabled analysis selections prepared at
/// the same authority, the competing one attaching the medium promotion's
/// analysis and the prepared one attaching the scale's promotion analysis.
#[verifier::opaque]
pub open spec fn analysis_stale_fixture_spec(scale: MeasurementFixtureScale, rules: ContractRulesView) -> GenuineStaleScenarioFixtureView {
    let prepare = analysis_prepare_authority_spec(scale, rules);
    let medium = transition_pair_spec("append_reusable_promotion"@, MeasurementFixtureScale::Medium, rules).1;
    let small = transition_pair_spec("append_reusable_promotion"@, scale, rules).1;
    let readings = analysis_stale_readings_spec(scale);
    let competing = analysis_selection_target_spec(prepare, medium, reuse_attachment_identity_spec(medium), rules, readings);
    let prepared = analysis_selection_target_spec(prepare, small, reuse_attachment_identity_spec(small), rules, readings);
    GenuineStaleScenarioFixtureView {
        prepare_authority: prepare,
        prepared_target: prepared,
        competing_target: competing,
        scope: GenuineStaleCommandScope::ActiveAnalysis,
        expected_failure_code: "stale-analysis-selection-precondition"@,
        analysis_details: Some(
            GenuineStaleAnalysisDetailsView {
                analysis_identity_before: prepare.durable_command_tokens.active_analysis_snapshot_identity,
                competing_identity_after: competing.durable_command_tokens.active_analysis_snapshot_identity,
                stale_command_target_identity: prepared.durable_command_tokens.active_analysis_snapshot_identity,
            },
        ),
    }
}

/// The fixture of a stale-command scenario: the review-ledger and
/// reuse-governance scenarios prepare the review decision and the revocation
/// at their precursor, and the competing command writes the same target.
pub open spec fn genuine_stale_fixture_spec(
    scenario_id: Seq<char>,
    scale: MeasurementFixtureScale,
    rules: ContractRulesView,
) -> Option<GenuineStaleScenarioFixtureView> {
    if scenario_id == "stale-review-ledger-command"@ {
        let (p, t) = transition_pair_spec("append_review_decision"@, scale, rules);
        Some(
            GenuineStaleScenarioFixtureView {
                prepare_authority: p,
                prepared_target: t,
                competing_target: t,
                scope: GenuineStaleCommandScope::ReviewLedger,
                expected_failure_code: "stale-review-ledger-precondition"@,
                analysis_details: None,
            },
        )
    } else if scenario_id == "stale-reuse-governance-command"@ {
        let (p, t) = transition_pair_spec("append_reusable_revocation"@, scale, rules);
        Some(
            GenuineStaleScenarioFixtureView {
                prepare_authority: p,
                prepared_target: t,
                competing_target: t,
                scope: GenuineStaleCommandScope::ReuseGovernance,
                expected_failure_code: "stale-reuse-governance-precondition"@,
                analysis_details: None,
            },
        )
    } else if scenario_id == "stale-analysis-attachment-or-selection"@ {
        Some(analysis_stale_fixture_spec(scale, rules))
    } else {
        None
    }
}

fn genuine_stale_analysis_fixture(scale: MeasurementFixtureScale, rules: &ContractRules) -> (r: GenuineStaleScenarioFixture)
    ensures
        r@ == analysis_stale_fixture_spec(scale, rules@),
{
    reveal(analysis_stale_fixture_spec);
    let prepare = genuine_stale_analysis_prepare_authority(scale, rules);
    let (_, medium) = measurement_transition_states("append_reusable_promotion", MeasurementFixtureScale::Medium, rules).unwrap();
    let (_, small) = measurement_transition_states("append_reusable_promotion", scale, rules).unwrap();
    let readings = analysis_stale_readings(scale);
    let before = prepare.durable_command_tokens.active_analysis_snapshot_identity.clone();
    let competing = analysis_selection_target_from(&prepare, &medium, reuse_attachment_identity(&medium), rules, &readings);
    let prepared = analysis_selection_target_from(&prepare, &small, reuse_attachment_identity(&small), rules, &readings);
    let details = GenuineStaleAnalysisDetails {
        analysis_identity_before: before,
        competing_identity_after: competing.durable_command_tokens.active_analysis_snapshot_identity.clone(),
        stale_command_target_identity: prepared.durable_command_tokens.active_analysis_snapshot_identity.clone(),
    };
    GenuineStaleScenarioFixture {
        prepare_authority: prepare,
        prepared_target: prepared,
        competing_target: competing,
        scope: GenuineStaleCommandScope::ActiveAnalysis,
        expected_failure_code: "stale-analysis-selection-precondition",
        analysis_details: Some(details),
    }
}

/// The fixture of a genuine stale-command scenario; `None` for an unknown scenario.
pub fn genuine_stale_scenario_fixture(
    scenario_id: &str,
    scale: MeasurementFixtureScale,
    rules: &ContractRules,
) -> (r: Option<GenuineStaleScenarioFixture>)
    ensures
        match r {
            Some(f) => genuine_stale_fixture_spec(scenario_id@, scale, rules@) == Some(f@),
            None => genuine_stale_fixture_spec(scenario_id@, scale, rules@) is None,
        },
{
    if str_eq(scenario_id, "stale-review-ledger-command") {
        let (prepare, target) = measurement_transition_states("append_review_decision", scale, rules).unwrap();
        Some(
            GenuineStaleScenarioFixture {
                prepare_authority: prepare,
                prepared_target: target.clone(),
                competing_target: target,
                scope: GenuineStaleCommandScope::ReviewLedger,
                expected_failure_code: "stale-review-ledger-precondition",
                analysis_details: None,
            },
        )
    } else if str_eq(scenario_id, "stale-reuse-governance-command") {
        let (prepare, target) = measurement_transition_states("append_reusable_revocation", scale, rules).unwrap();
        Some(
            GenuineStaleScenarioFixture {
                prepare_authority: prepare,
                prepared_target: target.clone(),
                competing_target: target,
                scope: GenuineStaleCommandScope::ReuseGovernance,
                expected_failure_code: "stale-reuse-governance-precondition",
                analysis_details: None,
            },
        )
    } else if str_eq(scenario_id, "stale-analysis-attachment-or-selection") {
        Some(genuine_stale_analysis_fixture(scale, rules))
    } else {
        None
    }
}

/// The label of the precondition a stale command was prepared with.
pub open spec fn prepared_precondition_label_spec(scope: GenuineStaleCommandScope, s: CurrentContractStateView) -> Seq<char> {
    match scope {
        GenuineStaleCommandScope::ReviewLedger => "review_ledger_head="@ + decimal_spec(
            s.durable_command_tokens.review_ledger_head as nat,
        ),
        GenuineStaleCommandScope::ReuseGovernance => "reuse_governance_head="@ + decimal_spec(
            s.durable_command_tokens.reuse_governance_head as nat,
        ),
        GenuineStaleCommandScope::ActiveAnalysis => "active_analysis_snapshot_identity="@
            + s.durable_command_tokens.active_analysis_snapshot_identity,
    }
}

/// The label of the precondition a stale command was prepared with, e.g.
/// `review_ledger_head=3`.
pub fn prepared_precondition_label(scope: GenuineStaleCommandScope, prepare_authority: &CurrentContractState) -> (r: String)
    ensures
        r@ == prepared_precondition_label_spec(scope, prepare_authority@),
{
    let tokens = &prepare_authority.durable_command_tokens;
    match scope {
        GenuineStaleCommandScope::ReviewLedger => {
            let mut out = String::from_str("review_ledger_head=");
            let d = decimal(tokens.review_ledger_head);
            out.append(d.as_str());
            out
        },
        GenuineStaleCommandScope::ReuseGovernance => {
            let mut out = String::from_str("reuse_governance_head=");
            let d = decimal(tokens.reuse_governance_head);
            out.append(d.as_str());
            out
        },
        GenuineStaleCommandScope::ActiveAnalysis => {
            let mut out = String::from_str("active_analysis_snapshot_identity=");
            out.append(tokens.active_analysis_snapshot_identity.as_str());
            out
        },
    }
}

/// Whether the authority moved, between two states, in the scope a stale command targets.
pub open spec fn changed_in_scope_spec(
    scope: GenuineStaleCommandScope,
    before: CurrentContractStateView,
    after: CurrentContractStateView,
) -> bool {
    match scope {
        GenuineStaleCommandScope::ReviewLedger => before.durable_command_tokens.review_ledger_head
            != after.durable_command_tokens.review_ledger_head,
        GenuineStaleCommandScope::ReuseGovernance => before.durable_command_tokens.reuse_governance_head
            != after.durable_command_tokens.reuse_governance_head,
        GenuineStaleCommandScope::ActiveAnalysis => before.durable_command_tokens.active_analysis_snapshot_identity
            != after.durable_command_tokens.active_analysis_snapshot_identity,
    }
}

/// Whether the authority moved, between two states, in the scope a stale command targets.
pub fn authority_changed_in_relevant_scope(
    scope: GenuineStaleCommandScope,
    before: &CurrentContractState,
    after: &CurrentContractState,
) -> (r: bool)
    ensures
        r == changed_in_scope_spec(scope, before@, after@),
{
    let b = &before.durable_command_tokens;
    let a = &after.durable_command_tokens;
    match scope {
        GenuineStaleCommandScope::ReviewLedger => b.review_ledger_head != a.review_ledger_head,
        GenuineStaleCommandScope::ReuseGovernance => b.reuse_governance_head != a.reuse_governance_head,
        GenuineStaleCommandScope::ActiveAnalysis => !b.active_analysis_snapshot_identity.same_as(
            &a.active_analysis_snapshot_identity,
        ),
    }
}

/// In the review-ledger and reuse-governance stale scenarios, the competing
/// command advances the scope the prepared command targets, and both commands
/// write the same target.
#[verifier::spinoff_prover]
pub proof fn law_stale_fixture_competitor_advances_scope(
    scenario_id: Seq<char>,
    scale: MeasurementFixtureScale,
    rules: ContractRulesView,
)
    requires
        scenario_id == "stale-review-ledger-command"@ || scenario_id == "stale-reuse-governance-command"@,
    ensures
        genuine_stale_fixture_spec(scenario_id, scale, rules) matches Some(f) && changed_in_scope_spec(
            f.scope,
            f.prepare_authority,
            f.competing_target,
        ) && f.competing_target == f.prepared_target && f.analysis_details is None,
{
    reveal_strlit("stale-review-ledger-command");
    reveal_strlit("stale-reuse-governance-command");
    assert("stale-review-ledger-command"@[8] != "stale-reuse-governance-command"@[8]);
    lemma_transition_operations_distinct();
    if scenario_id == "stale-review-ledger-command"@ {
        law_transition_pair_is_one_command_boundary("append_review_decision"@, scale, rules);
    } else {
        law_transition_pair_is_one_command_boundary("append_reusable_revocation"@, scale, rules);
    }
}

} // verus!
