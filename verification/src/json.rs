//! The JSON text of the fingerprinted projections: objects with their
//! members in declaration order and no whitespace, strings with `"`, `\`
//! and control bytes escaped (`\b`, `\t`, `\n`, `\f`, `\r`, otherwise
//! `\u00XX` in lowercase hex), numbers in decimal, `null` for an absent value,
//! and a governance event tagged by its `event_kind`.
use vstd::prelude::*;
use vstd::utf8::encode_utf8;
use crate::digest::push_bytes;
use crate::model::{
    vec_view, CurrentContractCanonicalProjection, CurrentContractCanonicalProjectionView, DerivedContractProjection,
    DerivedContractProjectionView, EvidenceAnalysisSnapshot, EvidenceAnalysisSnapshotView, EvidenceCorrectionDecision,
    EvidenceCorrectionDecisionView, EvidenceDetectorIdentity, EvidenceDetectorIdentityView,
    EvidenceDurableCommandTokens, EvidenceDurableCommandTokensView, EvidenceEffectiveReviewStatus,
    EvidenceEffectiveReviewStatusView, EvidenceExactReusableCorrection, EvidenceExactReusableCorrectionView,
    EvidenceGovernanceActor, EvidenceGovernanceActorView, EvidenceMaterialUseDeclaration,
    EvidenceMaterialUseDeclarationView, EvidenceReusableRecord, EvidenceReusableRecordView, EvidenceReuseCandidateKey,
    EvidenceReuseCandidateKeyView, EvidenceReuseEnabledAnalysisBinding, EvidenceReuseEnabledAnalysisBindingView,
    EvidenceReuseGovernanceEvent, EvidenceReuseGovernanceEventView, EvidenceReviewCase, EvidenceReviewCaseView,
    EvidenceReviewLedgerEvent, EvidenceReviewLedgerEventView, EvidenceSessionAuthority, EvidenceSessionAuthorityView,
    EvidenceSourceDecisionLocator, EvidenceSourceDecisionLocatorView, EvidenceSourceRevision,
    EvidenceSourceRevisionView,
};
use crate::text::{decimal, decimal_spec};

verus! {

/// A lowercase hexadecimal digit, as a byte.
pub open spec fn hex_digit_byte(n: u8) -> u8 {
    if n < 10 {
        (0x30 + n) as u8
    } else {
        (0x57 + n) as u8
    }
}

/// How one byte of a string's UTF-8 text is written inside a JSON string:
/// `"` and `\` behind a backslash, the control bytes with a short escape
/// where one exists and as `\u00XX` otherwise, every other byte as it is.
pub open spec fn json_escape_byte(b: u8) -> Seq<u8> {
    if b == 0x22 {
        seq![0x5cu8, 0x22u8]
    } else if b == 0x5c {
        seq![0x5cu8, 0x5cu8]
    } else if b == 0x08 {
        seq![0x5cu8, 0x62u8]
    } else if b == 0x09 {
        seq![0x5cu8, 0x74u8]
    } else if b == 0x0a {
        seq![0x5cu8, 0x6eu8]
    } else if b == 0x0c {
        seq![0x5cu8, 0x66u8]
    } else if b == 0x0d {
        seq![0x5cu8, 0x72u8]
    } else if b < 0x20 {
        seq![0x5cu8, 0x75u8, 0x30u8, 0x30u8, hex_digit_byte(b / 16), hex_digit_byte(b % 16)]
    } else {
        seq![b]
    }
}

/// The escaped form of a byte sequence, byte by byte.
pub open spec fn json_escape_bytes(b: Seq<u8>) -> Seq<u8>
    decreases b.len(),
{
    if b.len() == 0 {
        Seq::empty()
    } else {
        json_escape_bytes(b.drop_last()) + json_escape_byte(b.last())
    }
}

/// A JSON string: the escaped UTF-8 text between double quotes.
pub open spec fn json_string(s: Seq<char>) -> Seq<u8> {
    seq![0x22u8] + json_escape_bytes(encode_utf8(s)) + seq![0x22u8]
}

/// A JSON number: the decimal digits of an index or count.
pub open spec fn json_number(n: usize) -> Seq<u8> {
    encode_utf8(decimal_spec(n as nat))
}

/// Literal JSON text (punctuation and member names), as UTF-8.
pub open spec fn json_text(s: Seq<char>) -> Seq<u8> {
    encode_utf8(s)
}

/// An optional string: the string, or `null`.
pub open spec fn json_opt_string(o: Option<Seq<char>>) -> Seq<u8> {
    match o {
        Some(s) => json_string(s),
        None => json_text("null"@),
    }
}

/// An optional number: the number, or `null`.
pub open spec fn json_opt_number(o: Option<usize>) -> Seq<u8> {
    match o {
        Some(n) => json_number(n),
        None => json_text("null"@),
    }
}

/// Appends literal JSON text.
pub fn push_json_text(out: &mut Vec<u8>, s: &str)
    ensures
        final(out)@ == old(out)@ + json_text(s@),
{
    push_bytes(out, s.as_bytes());
}

fn push_escaped_byte(out: &mut Vec<u8>, b: u8)
    ensures
        final(out)@ == old(out)@ + json_escape_byte(b),
{
    let ghost start = out@;
    if b == 0x22 || b == 0x5c {
        out.push(0x5c);
        out.push(b);
    } else if b == 0x08 {
        out.push(0x5c);
        out.push(0x62);
    } else if b == 0x09 {
        out.push(0x5c);
        out.push(0x74);
    } else if b == 0x0a {
        out.push(0x5c);
        out.push(0x6e);
    } else if b == 0x0c {
        out.push(0x5c);
        out.push(0x66);
    } else if b == 0x0d {
        out.push(0x5c);
        out.push(0x72);
    } else if b < 0x20 {
        out.push(0x5c);
        out.push(0x75);
        out.push(0x30);
        out.push(0x30);
        let hi = b / 16;
        let lo = b % 16;
        out.push(if hi < 10 { 0x30 + hi } else { 0x57 + hi });
        out.push(if lo < 10 { 0x30 + lo } else { 0x57 + lo });
    } else {
        out.push(b);
    }
    proof {
        assert(out@ =~= start + json_escape_byte(b));
    }
}

/// Appends a JSON string.
pub fn push_json_string(out: &mut Vec<u8>, s: &str)
    ensures
        final(out)@ == old(out)@ + json_string(s@),
{
    let ghost start = out@;
    out.push(0x22);
    let bytes = s.as_bytes();
    let ghost bv = bytes@;
    let mut i: usize = 0;
    proof {
        assert(bv.take(0) =~= Seq::<u8>::empty());
        assert(out@ =~= start + seq![0x22u8] + json_escape_bytes(bv.take(0)));
    }
    while i < bytes.len()
        invariant
            i <= bytes@.len(),
            bv == bytes@,
            bv == encode_utf8(s@),
            out@ == start + seq![0x22u8] + json_escape_bytes(bv.take(i as int)),
        decreases bytes.len() - i,
    {
        proof {
            assert(bv.take(i + 1).drop_last() =~= bv.take(i as int));
            assert(bv.take(i + 1).last() == bv[i as int]);
        }
        push_escaped_byte(out, bytes[i]);
        i = i + 1;
        proof {
            assert(out@ =~= start + seq![0x22u8] + json_escape_bytes(bv.take(i as int)));
        }
    }
    out.push(0x22);
    proof {
        assert(bv.take(i as int) =~= bv);
        assert(out@ =~= start + json_string(s@));
    }
}

/// Appends a JSON number.
pub fn push_json_number(out: &mut Vec<u8>, n: usize)
    ensures
        final(out)@ == old(out)@ + json_number(n),
{
    let digits = decimal(n);
    push_bytes(out, digits.as_str().as_bytes());
}

/// Appends an optional JSON string.
pub fn push_json_opt_string(out: &mut Vec<u8>, o: &Option<String>)
    ensures
        final(out)@ == old(out)@ + json_opt_string(crate::model::opt_view(*o)),
{
    match o {
        Some(s) => push_json_string(out, s.as_str()),
        None => push_json_text(out, "null"),
    }
}

/// Appends an optional JSON number.
pub fn push_json_opt_number(out: &mut Vec<u8>, o: Option<usize>)
    ensures
        final(out)@ == old(out)@ + json_opt_number(o),
{
    match o {
        Some(n) => push_json_number(out, n),
        None => push_json_text(out, "null"),
    }
}

/// The JSON text of a value of [`EvidenceSessionAuthority`]: its fields in declaration order.
pub open spec fn json_session_authority(v: EvidenceSessionAuthorityView) -> Seq<u8> {
    json_text("{\"role_label\":"@)
        + json_string(v.role_label)
        + json_text(",\"display_label\":"@)
        + json_string(v.display_label)
        + json_text("}"@)
}

/// Appends the JSON text of a value of [`EvidenceSessionAuthority`].
pub fn push_json_session_authority(out: &mut Vec<u8>, v: &EvidenceSessionAuthority)
    ensures
        final(out)@ == old(out)@ + json_session_authority(v@),
{
    let mut buf: Vec<u8> = Vec::new();
    push_json_text(&mut buf, "{\"role_label\":");
    proof {
        assert(buf@ =~= json_text("{\"role_label\":"@));
    }
    push_json_string(&mut buf, v.role_label.as_str());
    push_json_text(&mut buf, ",\"display_label\":");
    push_json_string(&mut buf, v.display_label.as_str());
    push_json_text(&mut buf, "}");
    push_bytes(out, buf.as_slice());
}

/// The JSON text of a value of [`EvidenceMaterialUseDeclaration`]: its fields in declaration order.
pub open spec fn json_material_use_declaration(v: EvidenceMaterialUseDeclarationView) -> Seq<u8> {
    json_text("{\"basis\":"@)
        + json_string(v.basis)
        + json_text("}"@)
}

/// Appends the JSON text of a value of [`EvidenceMaterialUseDeclaration`].
pub fn push_json_material_use_declaration(out: &mut Vec<u8>, v: &EvidenceMaterialUseDeclaration)
    ensures
        final(out)@ == old(out)@ + json_material_use_declaration(v@),
{
    let mut buf: Vec<u8> = Vec::new();
    push_json_text(&mut buf, "{\"basis\":");
    proof {
        assert(buf@ =~= json_text("{\"basis\":"@));
    }
    push_json_string(&mut buf, v.basis.as_str());
    push_json_text(&mut buf, "}");
    push_bytes(out, buf.as_slice());
}

/// The JSON text of a value of [`EvidenceSourceRevision`]: its fields in declaration order.
pub open spec fn json_source_revision(v: EvidenceSourceRevisionView) -> Seq<u8> {
    json_text("{\"revision_id\":"@)
        + json_string(v.revision_id)
        + json_text(",\"predecessor_revision_id\":"@)
        + json_opt_string(v.predecessor_revision_id)
        + json_text(",\"transcript_bytes\":"@)
        + json_string(v.transcript_bytes)
        + json_text("}"@)
}

/// Appends the JSON text of a value of [`EvidenceSourceRevision`].
pub fn push_json_source_revision(out: &mut Vec<u8>, v: &EvidenceSourceRevision)
    ensures
        final(out)@ == old(out)@ + json_source_revision(v@),
{
    let mut buf: Vec<u8> = Vec::new();
    push_json_text(&mut buf, "{\"revision_id\":");
    proof {
        assert(buf@ =~= json_text("{\"revision_id\":"@));
    }
    push_json_string(&mut buf, v.revision_id.as_str());
    push_json_text(&mut buf, ",\"predecessor_revision_id\":");
    push_json_opt_string(&mut buf, &v.predecessor_revision_id);
    push_json_text(&mut buf, ",\"transcript_bytes\":");
    push_json_string(&mut buf, v.transcript_bytes.as_str());
    push_json_text(&mut buf, "}");
    push_bytes(out, buf.as_slice());
}

/// The JSON text of a value of [`EvidenceDetectorIdentity`]: its fields in declaration order.
pub open spec fn json_detector_identity(v: EvidenceDetectorIdentityView) -> Seq<u8> {
    json_text("{\"id\":"@)
        + json_string(v.id)
        + json_text(",\"version\":"@)
        + json_string(v.version)
        + json_text("}"@)
}

/// Appends the JSON text of a value of [`EvidenceDetectorIdentity`].
pub fn push_json_detector_identity(out: &mut Vec<u8>, v: &EvidenceDetectorIdentity)
    ensures
        final(out)@ == old(out)@ + json_detector_identity(v@),
{
    let mut buf: Vec<u8> = Vec::new();
    push_json_text(&mut buf, "{\"id\":");
    proof {
        assert(buf@ =~= json_text("{\"id\":"@));
    }
    push_json_string(&mut buf, v.id.as_str());
    push_json_text(&mut buf, ",\"version\":");
    push_json_string(&mut buf, v.version.as_str());
    push_json_text(&mut buf, "}");
    push_bytes(out, buf.as_slice());
}

/// The JSON text of a value of [`EvidenceAnalysisSnapshot`]: its fields in declaration order.
pub open spec fn json_analysis_snapshot(v: EvidenceAnalysisSnapshotView) -> Seq<u8> {
    json_text("{\"identity\":"@)
        + json_string(v.identity)
        + json_text(",\"source_revision_id\":"@)
        + json_string(v.source_revision_id)
        + json_text(",\"session_terms_identity\":"@)
        + json_string(v.session_terms_identity)
        + json_text(",\"detectors\":"@)
        + json_seq_detector_identity(v.detectors)
        + json_text(",\"detector_config_id\":"@)
        + json_string(v.detector_config_id)
        + json_text(",\"detector_config_version\":"@)
        + json_string(v.detector_config_version)
        + json_text(",\"algorithm_id\":"@)
        + json_string(v.algorithm_id)
        + json_text(",\"algorithm_version\":"@)
        + json_string(v.algorithm_version)
        + json_text("}"@)
}

/// Appends the JSON text of a value of [`EvidenceAnalysisSnapshot`].
pub fn push_json_analysis_snapshot(out: &mut Vec<u8>, v: &EvidenceAnalysisSnapshot)
    ensures
        final(out)@ == old(out)@ + json_analysis_snapshot(v@),
{
    let mut buf: Vec<u8> = Vec::new();
    push_json_text(&mut buf, "{\"identity\":");
    proof {
        assert(buf@ =~= json_text("{\"identity\":"@));
    }
    push_json_string(&mut buf, v.identity.as_str());
    push_json_text(&mut buf, ",\"source_revision_id\":");
    push_json_string(&mut buf, v.source_revision_id.as_str());
    push_json_text(&mut buf, ",\"session_terms_identity\":");
    push_json_string(&mut buf, v.session_terms_identity.as_str());
    push_json_text(&mut buf, ",\"detectors\":");
    push_json_seq_detector_identity(&mut buf, &v.detectors);
    push_json_text(&mut buf, ",\"detector_config_id\":");
    push_json_string(&mut buf, v.detector_config_id.as_str());
    push_json_text(&mut buf, ",\"detector_config_version\":");
    push_json_string(&mut buf, v.detector_config_version.as_str());
    push_json_text(&mut buf, ",\"algorithm_id\":");
    push_json_string(&mut buf, v.algorithm_id.as_str());
    push_json_text(&mut buf, ",\"algorithm_version\":");
    push_json_string(&mut buf, v.algorithm_version.as_str());
    push_json_text(&mut buf, "}");
    push_bytes(out, buf.as_slice());
}

/// The JSON text of a value of [`EvidenceReviewCase`]: its fields in declaration order.
pub open spec fn json_review_case(v: EvidenceReviewCaseView) -> Seq<u8> {
    json_text("{\"case_id\":"@)
        + json_string(v.case_id)
        + json_text(",\"origin\":"@)
        + json_string(v.origin)
        + json_text(",\"observed_revision_id\":"@)
        + json_string(v.observed_revision_id)
        + json_text(",\"anchor_revision_id\":"@)
        + json_string(v.anchor_revision_id)
        + json_text(",\"anchor_segment_position\":"@)
        + json_number(v.anchor_segment_position)
        + json_text(",\"anchor_start_byte\":"@)
        + json_number(v.anchor_start_byte)
        + json_text(",\"anchor_end_byte\":"@)
        + json_number(v.anchor_end_byte)
        + json_text(",\"observed_source_bytes\":"@)
        + json_string(v.observed_source_bytes)
        + json_text(",\"alternative_count\":"@)
        + json_number(v.alternative_count)
        + json_text("}"@)
}

/// Appends the JSON text of a value of [`EvidenceReviewCase`].
pub fn push_json_review_case(out: &mut Vec<u8>, v: &EvidenceReviewCase)
    ensures
        final(out)@ == old(out)@ + json_review_case(v@),
{
    let mut buf: Vec<u8> = Vec::new();
    push_json_text(&mut buf, "{\"case_id\":");
    proof {
        assert(buf@ =~= json_text("{\"case_id\":"@));
    }
    push_json_string(&mut buf, v.case_id.as_str());
    push_json_text(&mut buf, ",\"origin\":");
    push_json_string(&mut buf, v.origin.as_str());
    push_json_text(&mut buf, ",\"observed_revision_id\":");
    push_json_string(&mut buf, v.observed_revision_id.as_str());
    push_json_text(&mut buf, ",\"anchor_revision_id\":");
    push_json_string(&mut buf, v.anchor_revision_id.as_str());
    push_json_text(&mut buf, ",\"anchor_segment_position\":");
    push_json_number(&mut buf, v.anchor_segment_position);
    push_json_text(&mut buf, ",\"anchor_start_byte\":");
    push_json_number(&mut buf, v.anchor_start_byte);
    push_json_text(&mut buf, ",\"anchor_end_byte\":");
    push_json_number(&mut buf, v.anchor_end_byte);
    push_json_text(&mut buf, ",\"observed_source_bytes\":");
    push_json_string(&mut buf, v.observed_source_bytes.as_str());
    push_json_text(&mut buf, ",\"alternative_count\":");
    push_json_number(&mut buf, v.alternative_count);
    push_json_text(&mut buf, "}");
    push_bytes(out, buf.as_slice());
}

/// The JSON text of a value of [`EvidenceReviewLedgerEvent`]: its fields in declaration order.
pub open spec fn json_review_ledger_event(v: EvidenceReviewLedgerEventView) -> Seq<u8> {
    json_text("{\"event_index\":"@)
        + json_number(v.event_index)
        + json_text(",\"case_id\":"@)
        + json_string(v.case_id)
        + json_text(",\"observed_revision_id\":"@)
        + json_string(v.observed_revision_id)
        + json_text(",\"action_kind\":"@)
        + json_string(v.action_kind)
        + json_text(",\"manual_replacement_bytes\":"@)
        + json_opt_string(v.manual_replacement_bytes)
        + json_text(",\"alternative_index\":"@)
        + json_opt_number(v.alternative_index)
        + json_text(",\"target_event_index\":"@)
        + json_opt_number(v.target_event_index)
        + json_text(",\"provenance\":"@)
        + json_string(v.provenance)
        + json_text("}"@)
}

/// Appends the JSON text of a value of [`EvidenceReviewLedgerEvent`].
pub fn push_json_review_ledger_event(out: &mut Vec<u8>, v: &EvidenceReviewLedgerEvent)
    ensures
        final(out)@ == old(out)@ + json_review_ledger_event(v@),
{
    let mut buf: Vec<u8> = Vec::new();
    push_json_text(&mut buf, "{\"event_index\":");
    proof {
        assert(buf@ =~= json_text("{\"event_index\":"@));
    }
    push_json_number(&mut buf, v.event_index);
    push_json_text(&mut buf, ",\"case_id\":");
    push_json_string(&mut buf, v.case_id.as_str());
    push_json_text(&mut buf, ",\"observed_revision_id\":");
    push_json_string(&mut buf, v.observed_revision_id.as_str());
    push_json_text(&mut buf, ",\"action_kind\":");
    push_json_string(&mut buf, v.action_kind.as_str());
    push_json_text(&mut buf, ",\"manual_replacement_bytes\":");
    push_json_opt_string(&mut buf, &v.manual_replacement_bytes);
    push_json_text(&mut buf, ",\"alternative_index\":");
    push_json_opt_number(&mut buf, v.alternative_index);
    push_json_text(&mut buf, ",\"target_event_index\":");
    push_json_opt_number(&mut buf, v.target_event_index);
    push_json_text(&mut buf, ",\"provenance\":");
    push_json_string(&mut buf, v.provenance.as_str());
    push_json_text(&mut buf, "}");
    push_bytes(out, buf.as_slice());
}

/// The JSON text of a value of [`EvidenceEffectiveReviewStatus`]: its fields in declaration order.
pub open spec fn json_effective_review_status(v: EvidenceEffectiveReviewStatusView) -> Seq<u8> {
    json_text("{\"case_id\":"@)
        + json_string(v.case_id)
        + json_text(",\"observed_revision_id\":"@)
        + json_string(v.observed_revision_id)
        + json_text(",\"decision\":"@)
        + json_correction_decision(v.decision)
        + json_text("}"@)
}

/// Appends the JSON text of a value of [`EvidenceEffectiveReviewStatus`].
pub fn push_json_effective_review_status(out: &mut Vec<u8>, v: &EvidenceEffectiveReviewStatus)
    ensures
        final(out)@ == old(out)@ + json_effective_review_status(v@),
{
    let mut buf: Vec<u8> = Vec::new();
    push_json_text(&mut buf, "{\"case_id\":");
    proof {
        assert(buf@ =~= json_text("{\"case_id\":"@));
    }
    push_json_string(&mut buf, v.case_id.as_str());
    push_json_text(&mut buf, ",\"observed_revision_id\":");
    push_json_string(&mut buf, v.observed_revision_id.as_str());
    push_json_text(&mut buf, ",\"decision\":");
    push_json_correction_decision(&mut buf, &v.decision);
    push_json_text(&mut buf, "}");
    push_bytes(out, buf.as_slice());
}

/// The JSON text of a value of [`EvidenceSourceDecisionLocator`]: its fields in declaration order.
pub open spec fn json_source_decision_locator(v: EvidenceSourceDecisionLocatorView) -> Seq<u8> {
    json_text("{\"source_revision_id\":"@)
        + json_string(v.source_revision_id)
        + json_text(",\"source_analysis_snapshot_identity\":"@)
        + json_string(v.source_analysis_snapshot_identity)
        + json_text(",\"source_review_case_id\":"@)
        + json_string(v.source_review_case_id)
        + json_text(",\"review_ledger_position\":"@)
        + json_number(v.review_ledger_position)
        + json_text(",\"decision_digest\":"@)
        + json_string(v.decision_digest)
        + json_text(",\"effective_at_ledger_length\":"@)
        + json_number(v.effective_at_ledger_length)
        + json_text("}"@)
}

/// Appends the JSON text of a value of [`EvidenceSourceDecisionLocator`].
pub fn push_json_source_decision_locator(out: &mut Vec<u8>, v: &EvidenceSourceDecisionLocator)
    ensures
        final(out)@ == old(out)@ + json_source_decision_locator(v@),
{
    let mut buf: Vec<u8> = Vec::new();
    push_json_text(&mut buf, "{\"source_revision_id\":");
    proof {
        assert(buf@ =~= json_text("{\"source_revision_id\":"@));
    }
    push_json_string(&mut buf, v.source_revision_id.as_str());
    push_json_text(&mut buf, ",\"source_analysis_snapshot_identity\":");
    push_json_string(&mut buf, v.source_analysis_snapshot_identity.as_str());
    push_json_text(&mut buf, ",\"source_review_case_id\":");
    push_json_string(&mut buf, v.source_review_case_id.as_str());
    push_json_text(&mut buf, ",\"review_ledger_position\":");
    push_json_number(&mut buf, v.review_ledger_position);
    push_json_text(&mut buf, ",\"decision_digest\":");
    push_json_string(&mut buf, v.decision_digest.as_str());
    push_json_text(&mut buf, ",\"effective_at_ledger_length\":");
    push_json_number(&mut buf, v.effective_at_ledger_length);
    push_json_text(&mut buf, "}");
    push_bytes(out, buf.as_slice());
}

/// The JSON text of a value of [`EvidenceExactReusableCorrection`]: its fields in declaration order.
pub open spec fn json_exact_reusable_correction(v: EvidenceExactReusableCorrectionView) -> Seq<u8> {
    json_text("{\"observed_text\":"@)
        + json_string(v.observed_text)
        + json_text(",\"confirmed_replacement\":"@)
        + json_string(v.confirmed_replacement)
        + json_text("}"@)
}

/// Appends the JSON text of a value of [`EvidenceExactReusableCorrection`].
pub fn push_json_exact_reusable_correction(out: &mut Vec<u8>, v: &EvidenceExactReusableCorrection)
    ensures
        final(out)@ == old(out)@ + json_exact_reusable_correction(v@),
{
    let mut buf: Vec<u8> = Vec::new();
    push_json_text(&mut buf, "{\"observed_text\":");
    proof {
        assert(buf@ =~= json_text("{\"observed_text\":"@));
    }
    push_json_string(&mut buf, v.observed_text.as_str());
    push_json_text(&mut buf, ",\"confirmed_replacement\":");
    push_json_string(&mut buf, v.confirmed_replacement.as_str());
    push_json_text(&mut buf, "}");
    push_bytes(out, buf.as_slice());
}

/// The JSON text of a value of [`EvidenceReuseCandidateKey`]: its fields in declaration order.
pub open spec fn json_reuse_candidate_key(v: EvidenceReuseCandidateKeyView) -> Seq<u8> {
    json_text("{\"project_scope_stable_id\":"@)
        + json_string(v.project_scope_stable_id)
        + json_text(",\"source_locator\":"@)
        + json_source_decision_locator(v.source_locator)
        + json_text(",\"exact_payload\":"@)
        + json_exact_reusable_correction(v.exact_payload)
        + json_text("}"@)
}

/// Appends the JSON text of a value of [`EvidenceReuseCandidateKey`].
pub fn push_json_reuse_candidate_key(out: &mut Vec<u8>, v: &EvidenceReuseCandidateKey)
    ensures
        final(out)@ == old(out)@ + json_reuse_candidate_key(v@),
{
    let mut buf: Vec<u8> = Vec::new();
    push_json_text(&mut buf, "{\"project_scope_stable_id\":");
    proof {
        assert(buf@ =~= json_text("{\"project_scope_stable_id\":"@));
    }
    push_json_string(&mut buf, v.project_scope_stable_id.as_str());
    push_json_text(&mut buf, ",\"source_locator\":");
    push_json_source_decision_locator(&mut buf, &v.source_locator);
    push_json_text(&mut buf, ",\"exact_payload\":");
    push_json_exact_reusable_correction(&mut buf, &v.exact_payload);
    push_json_text(&mut buf, "}");
    push_bytes(out, buf.as_slice());
}

/// The JSON text of a value of [`EvidenceGovernanceActor`]: its fields in declaration order.
pub open spec fn json_governance_actor(v: EvidenceGovernanceActorView) -> Seq<u8> {
    json_text("{\"role_label\":"@)
        + json_string(v.role_label)
        + json_text(",\"display_label\":"@)
        + json_string(v.display_label)
        + json_text("}"@)
}

/// Appends the JSON text of a value of [`EvidenceGovernanceActor`].
pub fn push_json_governance_actor(out: &mut Vec<u8>, v: &EvidenceGovernanceActor)
    ensures
        final(out)@ == old(out)@ + json_governance_actor(v@),
{
    let mut buf: Vec<u8> = Vec::new();
    push_json_text(&mut buf, "{\"role_label\":");
    proof {
        assert(buf@ =~= json_text("{\"role_label\":"@));
    }
    push_json_string(&mut buf, v.role_label.as_str());
    push_json_text(&mut buf, ",\"display_label\":");
    push_json_string(&mut buf, v.display_label.as_str());
    push_json_text(&mut buf, "}");
    push_bytes(out, buf.as_slice());
}

/// The JSON text of a value of [`EvidenceReusableRecord`]: its fields in declaration order.
#[verifier::opaque]
pub open spec fn json_reusable_record(v: EvidenceReusableRecordView) -> Seq<u8> {
    json_text("{\"record_id\":"@)
        + json_number(v.record_id)
        + json_text(",\"project_scope_stable_id\":"@)
        + json_string(v.project_scope_stable_id)
        + json_text(",\"observed_text\":"@)
        + json_string(v.observed_text)
        + json_text(",\"confirmed_replacement\":"@)
        + json_string(v.confirmed_replacement)
        + json_text(",\"source_locator\":"@)
        + json_source_decision_locator(v.source_locator)
        + json_text(",\"promotion_actor\":"@)
        + json_governance_actor(v.promotion_actor)
        + json_text(",\"superseded_by\":"@)
        + json_opt_number(v.superseded_by)
        + json_text("}"@)
}

/// Appends the JSON text of a value of [`EvidenceReusableRecord`].
pub fn push_json_reusable_record(out: &mut Vec<u8>, v: &EvidenceReusableRecord)
    ensures
        final(out)@ == old(out)@ + json_reusable_record(v@),
{
    reveal(json_reusable_record);
    let mut buf: Vec<u8> = Vec::new();
    push_json_text(&mut buf, "{\"record_id\":");
    proof {
        assert(buf@ =~= json_text("{\"record_id\":"@));
    }
    push_json_number(&mut buf, v.record_id);
    push_json_text(&mut buf, ",\"project_scope_stable_id\":");
    push_json_string(&mut buf, v.project_scope_stable_id.as_str());
    push_json_text(&mut buf, ",\"observed_text\":");
    push_json_string(&mut buf, v.observed_text.as_str());
    push_json_text(&mut buf, ",\"confirmed_replacement\":");
    push_json_string(&mut buf, v.confirmed_replacement.as_str());
    push_json_text(&mut buf, ",\"source_locator\":");
    push_json_source_decision_locator(&mut buf, &v.source_locator);
    push_json_text(&mut buf, ",\"promotion_actor\":");
    push_json_governance_actor(&mut buf, &v.promotion_actor);
    push_json_text(&mut buf, ",\"superseded_by\":");
    push_json_opt_number(&mut buf, v.superseded_by);
    push_json_text(&mut buf, "}");
    push_bytes(out, buf.as_slice());
}

/// The JSON text of a value of [`EvidenceReuseEnabledAnalysisBinding`]: its fields in declaration order.
pub open spec fn json_reuse_enabled_analysis_binding(v: EvidenceReuseEnabledAnalysisBindingView) -> Seq<u8> {
    json_text("{\"analysis_snapshot\":"@)
        + json_analysis_snapshot(v.analysis_snapshot)
        + json_text(",\"analysis_snapshot_identity\":"@)
        + json_string(v.analysis_snapshot_identity)
        + json_text(",\"reusable_snapshot_identity\":"@)
        + json_string(v.reusable_snapshot_identity)
        + json_text(",\"governance_event_boundary\":"@)
        + json_number(v.governance_event_boundary)
        + json_text(",\"projection_version\":"@)
        + json_string(v.projection_version)
        + json_text("}"@)
}

/// Appends the JSON text of a value of [`EvidenceReuseEnabledAnalysisBinding`].
pub fn push_json_reuse_enabled_analysis_binding(out: &mut Vec<u8>, v: &EvidenceReuseEnabledAnalysisBinding)
    ensures
        final(out)@ == old(out)@ + json_reuse_enabled_analysis_binding(v@),
{
    let mut buf: Vec<u8> = Vec::new();
    push_json_text(&mut buf, "{\"analysis_snapshot\":");
    proof {
        assert(buf@ =~= json_text("{\"analysis_snapshot\":"@));
    }
    push_json_analysis_snapshot(&mut buf, &v.analysis_snapshot);
    push_json_text(&mut buf, ",\"analysis_snapshot_identity\":");
    push_json_string(&mut buf, v.analysis_snapshot_identity.as_str());
    push_json_text(&mut buf, ",\"reusable_snapshot_identity\":");
    push_json_string(&mut buf, v.reusable_snapshot_identity.as_str());
    push_json_text(&mut buf, ",\"governance_event_boundary\":");
    push_json_number(&mut buf, v.governance_event_boundary);
    push_json_text(&mut buf, ",\"projection_version\":");
    push_json_string(&mut buf, v.projection_version.as_str());
    push_json_text(&mut buf, "}");
    push_bytes(out, buf.as_slice());
}

/// The JSON text of a value of [`EvidenceDurableCommandTokens`]: its fields in declaration order.
pub open spec fn json_durable_command_tokens(v: EvidenceDurableCommandTokensView) -> Seq<u8> {
    json_text("{\"review_ledger_head\":"@)
        + json_number(v.review_ledger_head)
        + json_text(",\"reuse_governance_head\":"@)
        + json_number(v.reuse_governance_head)
        + json_text(",\"active_analysis_snapshot_identity\":"@)
        + json_string(v.active_analysis_snapshot_identity)
        + json_text(",\"evidence_writer_token\":"@)
        + json_string(v.evidence_writer_token)
        + json_text("}"@)
}

/// Appends the JSON text of a value of [`EvidenceDurableCommandTokens`].
pub fn push_json_durable_command_tokens(out: &mut Vec<u8>, v: &EvidenceDurableCommandTokens)
    ensures
        final(out)@ == old(out)@ + json_durable_command_tokens(v@),
{
    let mut buf: Vec<u8> = Vec::new();
    push_json_text(&mut buf, "{\"review_ledger_head\":");
    proof {
        assert(buf@ =~= json_text("{\"review_ledger_head\":"@));
    }
    push_json_number(&mut buf, v.review_ledger_head);
    push_json_text(&mut buf, ",\"reuse_governance_head\":");
    push_json_number(&mut buf, v.reuse_governance_head);
    push_json_text(&mut buf, ",\"active_analysis_snapshot_identity\":");
    push_json_string(&mut buf, v.active_analysis_snapshot_identity.as_str());
    push_json_text(&mut buf, ",\"evidence_writer_token\":");
    push_json_string(&mut buf, v.evidence_writer_token.as_str());
    push_json_text(&mut buf, "}");
    push_bytes(out, buf.as_slice());
}

/// The JSON text of a correction decision: a unit variant as its snake_case
/// name in quotes, a variant with fields as an object holding that name and
/// the fields.
pub open spec fn json_correction_decision(d: EvidenceCorrectionDecisionView) -> Seq<u8> {
    match d {
        EvidenceCorrectionDecisionView::AcceptAlternative { alternative_index } => json_text(
            "{\"accept_alternative\":{\"alternative_index\":"@,
        ) + json_number(alternative_index) + json_text("}}"@),
        EvidenceCorrectionDecisionView::ManualReplacement { replacement } => json_text(
            "{\"manual_replacement\":{\"replacement\":"@,
        ) + json_string(replacement) + json_text("}}"@),
        EvidenceCorrectionDecisionView::Reject => json_text("\"reject\""@),
        EvidenceCorrectionDecisionView::Defer => json_text("\"defer\""@),
        EvidenceCorrectionDecisionView::NeedsManualCorrection => json_text("\"needs_manual_correction\""@),
    }
}

/// Appends the JSON text of a correction decision.
pub fn push_json_correction_decision(out: &mut Vec<u8>, d: &EvidenceCorrectionDecision)
    ensures
        final(out)@ == old(out)@ + json_correction_decision(d@),
{
    let ghost start = out@;
    match d {
        EvidenceCorrectionDecision::AcceptAlternative { alternative_index } => {
            push_json_text(out, "{\"accept_alternative\":{\"alternative_index\":");
            push_json_number(out, *alternative_index);
            push_json_text(out, "}}");
        },
        EvidenceCorrectionDecision::ManualReplacement { replacement } => {
            push_json_text(out, "{\"manual_replacement\":{\"replacement\":");
            push_json_string(out, replacement.as_str());
            push_json_text(out, "}}");
        },
        EvidenceCorrectionDecision::Reject => push_json_text(out, "\"reject\""),
        EvidenceCorrectionDecision::Defer => push_json_text(out, "\"defer\""),
        EvidenceCorrectionDecision::NeedsManualCorrection => push_json_text(out, "\"needs_manual_correction\""),
    }
    proof {
        assert(out@ =~= start + json_correction_decision(d@));
    }
}

/// The JSON text of a reuse-governance event: an object whose first member
/// `event_kind` names the variant in snake_case, followed by its fields.
pub open spec fn json_reuse_governance_event(e: EvidenceReuseGovernanceEventView) -> Seq<u8> {
    match e {
        EvidenceReuseGovernanceEventView::PromotionCandidateRejected { event_index, candidate_key, actor } => json_text("{\"event_kind\":\"promotion_candidate_rejected\",\"event_index\":"@)
            + json_number(event_index)
            + json_text(",\"candidate_key\":"@)
            + json_reuse_candidate_key(candidate_key)
            + json_text(",\"actor\":"@)
            + json_governance_actor(actor)
            + json_text("}"@),
        EvidenceReuseGovernanceEventView::PromotionAccepted { event_index, candidate_key, payload, source_locator, actor, project_scope_stable_id } => json_text("{\"event_kind\":\"promotion_accepted\",\"event_index\":"@)
            + json_number(event_index)
            + json_text(",\"candidate_key\":"@)
            + json_reuse_candidate_key(candidate_key)
            + json_text(",\"payload\":"@)
            + json_exact_reusable_correction(payload)
            + json_text(",\"source_locator\":"@)
            + json_source_decision_locator(source_locator)
            + json_text(",\"actor\":"@)
            + json_governance_actor(actor)
            + json_text(",\"project_scope_stable_id\":"@)
            + json_string(project_scope_stable_id)
            + json_text("}"@),
        EvidenceReuseGovernanceEventView::ReusableInfluenceRevoked { event_index, record_id, actor } => json_text("{\"event_kind\":\"reusable_influence_revoked\",\"event_index\":"@)
            + json_number(event_index)
            + json_text(",\"record_id\":"@)
            + json_number(record_id)
            + json_text(",\"actor\":"@)
            + json_governance_actor(actor)
            + json_text("}"@),
        EvidenceReuseGovernanceEventView::ReusableInfluenceSuperseded { event_index, predecessor_record_id, successor_record_id, actor } => json_text("{\"event_kind\":\"reusable_influence_superseded\",\"event_index\":"@)
            + json_number(event_index)
            + json_text(",\"predecessor_record_id\":"@)
            + json_number(predecessor_record_id)
            + json_text(",\"successor_record_id\":"@)
            + json_number(successor_record_id)
            + json_text(",\"actor\":"@)
            + json_governance_actor(actor)
            + json_text("}"@),
    }
}

/// Appends the JSON text of a reuse-governance event.
pub fn push_json_reuse_governance_event(out: &mut Vec<u8>, e: &EvidenceReuseGovernanceEvent)
    ensures
        final(out)@ == old(out)@ + json_reuse_governance_event(e@),
{
    match e {
        EvidenceReuseGovernanceEvent::PromotionCandidateRejected { event_index, candidate_key, actor } => {
            let mut buf: Vec<u8> = Vec::new();
            push_json_text(&mut buf, "{\"event_kind\":\"promotion_candidate_rejected\",\"event_index\":");
            proof {
                assert(buf@ =~= json_text("{\"event_kind\":\"promotion_candidate_rejected\",\"event_index\":"@));
            }
            push_json_number(&mut buf, *event_index);
            push_json_text(&mut buf, ",\"candidate_key\":");
            push_json_reuse_candidate_key(&mut buf, candidate_key);
            push_json_text(&mut buf, ",\"actor\":");
            push_json_governance_actor(&mut buf, actor);
            push_json_text(&mut buf, "}");
            push_bytes(out, buf.as_slice());
        },
        EvidenceReuseGovernanceEvent::PromotionAccepted { event_index, candidate_key, payload, source_locator, actor, project_scope_stable_id } => {
            let mut buf: Vec<u8> = Vec::new();
            push_json_text(&mut buf, "{\"event_kind\":\"promotion_accepted\",\"event_index\":");
            proof {
                assert(buf@ =~= json_text("{\"event_kind\":\"promotion_accepted\",\"event_index\":"@));
            }
            push_json_number(&mut buf, *event_index);
            push_json_text(&mut buf, ",\"candidate_key\":");
            push_json_reuse_candidate_key(&mut buf, candidate_key);
            push_json_text(&mut buf, ",\"payload\":");
            push_json_exact_reusable_correction(&mut buf, payload);
            push_json_text(&mut buf, ",\"source_locator\":");
            push_json_source_decision_locator(&mut buf, source_locator);
            push_json_text(&mut buf, ",\"actor\":");
            push_json_governance_actor(&mut buf, actor);
            push_json_text(&mut buf, ",\"project_scope_stable_id\":");
            push_json_string(&mut buf, project_scope_stable_id.as_str());
            push_json_text(&mut buf, "}");
            push_bytes(out, buf.as_slice());
        },
        EvidenceReuseGovernanceEvent::ReusableInfluenceRevoked { event_index, record_id, actor } => {
            let mut buf: Vec<u8> = Vec::new();
            push_json_text(&mut buf, "{\"event_kind\":\"reusable_influence_revoked\",\"event_index\":");
            proof {
                assert(buf@ =~= json_text("{\"event_kind\":\"reusable_influence_revoked\",\"event_index\":"@));
            }
            push_json_number(&mut buf, *event_index);
            push_json_text(&mut buf, ",\"record_id\":");
            push_json_number(&mut buf, *record_id);
            push_json_text(&mut buf, ",\"actor\":");
            push_json_governance_actor(&mut buf, actor);
            push_json_text(&mut buf, "}");
            push_bytes(out, buf.as_slice());
        },
        EvidenceReuseGovernanceEvent::ReusableInfluenceSuperseded { event_index, predecessor_record_id, successor_record_id, actor } => {
            let mut buf: Vec<u8> = Vec::new();
            push_json_text(&mut buf, "{\"event_kind\":\"reusable_influence_superseded\",\"event_index\":");
            proof {
                assert(buf@ =~= json_text("{\"event_kind\":\"reusable_influence_superseded\",\"event_index\":"@));
            }
            push_json_number(&mut buf, *event_index);
            push_json_text(&mut buf, ",\"predecessor_record_id\":");
            push_json_number(&mut buf, *predecessor_record_id);
            push_json_text(&mut buf, ",\"successor_record_id\":");
            push_json_number(&mut buf, *successor_record_id);
            push_json_text(&mut buf, ",\"actor\":");
            push_json_governance_actor(&mut buf, actor);
            push_json_text(&mut buf, "}");
            push_bytes(out, buf.as_slice());
        },
    }
}

/// The JSON texts of the items of a sequence, separated by commas.
pub open spec fn json_items_detector_identity(s: Seq<EvidenceDetectorIdentityView>) -> Seq<u8>
    decreases s.len(),
{
    if s.len() == 0 {
        Seq::empty()
    } else if s.len() == 1 {
        json_detector_identity(s[0])
    } else {
        json_items_detector_identity(s.drop_last()) + json_text(","@) + json_detector_identity(s.last())
    }
}

/// The JSON array of a sequence.
pub open spec fn json_seq_detector_identity(s: Seq<EvidenceDetectorIdentityView>) -> Seq<u8> {
    json_text("["@) + json_items_detector_identity(s) + json_text("]"@)
}

/// Appends the JSON array of a sequence.
#[verifier::spinoff_prover]
pub fn push_json_seq_detector_identity(out: &mut Vec<u8>, v: &Vec<EvidenceDetectorIdentity>)
    ensures
        final(out)@ == old(out)@ + json_seq_detector_identity(vec_view(v@)),
{
    let ghost sv = vec_view(v@);
    let ghost start = out@;
    push_json_text(out, "[");
    let ghost mid = out@;
    let mut i: usize = 0;
    proof {
        assert(sv.take(0) =~= Seq::<EvidenceDetectorIdentityView>::empty());
        assert(out@ =~= mid + json_items_detector_identity(sv.take(0)));
    }
    while i < v.len()
        invariant
            i <= v.len(),
            sv == vec_view(v@),
            mid == start + json_text("["@),
            out@ == mid + json_items_detector_identity(sv.take(i as int)),
        decreases v.len() - i,
    {
        proof {
            assert(sv.take(i + 1).drop_last() =~= sv.take(i as int));
            assert(sv.take(i + 1).last() == v@[i as int]@);
            assert(sv.take(i + 1)[0] == sv[0]);
        }
        if i > 0 {
            push_json_text(out, ",");
        }
        push_json_detector_identity(out, &v[i]);
        i = i + 1;
        proof {
            assert(out@ =~= mid + json_items_detector_identity(sv.take(i as int)));
        }
    }
    push_json_text(out, "]");
    proof {
        assert(sv.take(i as int) =~= sv);
        assert(out@ =~= start + json_seq_detector_identity(sv));
    }
}

/// The JSON texts of the items of a sequence, separated by commas.
pub open spec fn json_items_source_revision(s: Seq<EvidenceSourceRevisionView>) -> Seq<u8>
    decreases s.len(),
{
    if s.len() == 0 {
        Seq::empty()
    } else if s.len() == 1 {
        json_source_revision(s[0])
    } else {
        json_items_source_revision(s.drop_last()) + json_text(","@) + json_source_revision(s.last())
    }
}

/// The JSON array of a sequence.
pub open spec fn json_seq_source_revision(s: Seq<EvidenceSourceRevisionView>) -> Seq<u8> {
    json_text("["@) + json_items_source_revision(s) + json_text("]"@)
}

/// Appends the JSON array of a sequence.
#[verifier::spinoff_prover]
pub fn push_json_seq_source_revision(out: &mut Vec<u8>, v: &Vec<EvidenceSourceRevision>)
    ensures
        final(out)@ == old(out)@ + json_seq_source_revision(vec_view(v@)),
{
    let ghost sv = vec_view(v@);
    let ghost start = out@;
    push_json_text(out, "[");
    let ghost mid = out@;
    let mut i: usize = 0;
    proof {
        assert(sv.take(0) =~= Seq::<EvidenceSourceRevisionView>::empty());
        assert(out@ =~= mid + json_items_source_revision(sv.take(0)));
    }
    while i < v.len()
        invariant
            i <= v.len(),
            sv == vec_view(v@),
            mid == start + json_text("["@),
            out@ == mid + json_items_source_revision(sv.take(i as int)),
        decreases v.len() - i,
    {
        proof {
            assert(sv.take(i + 1).drop_last() =~= sv.take(i as int));
            assert(sv.take(i + 1).last() == v@[i as int]@);
            assert(sv.take(i + 1)[0] == sv[0]);
        }
        if i > 0 {
            push_json_text(out, ",");
        }
        push_json_source_revision(out, &v[i]);
        i = i + 1;
        proof {
            assert(out@ =~= mid + json_items_source_revision(sv.take(i as int)));
        }
    }
    push_json_text(out, "]");
    proof {
        assert(sv.take(i as int) =~= sv);
        assert(out@ =~= start + json_seq_source_revision(sv));
    }
}

/// The JSON texts of the items of a sequence, separated by commas.
pub open spec fn json_items_analysis_snapshot(s: Seq<EvidenceAnalysisSnapshotView>) -> Seq<u8>
    decreases s.len(),
{
    if s.len() == 0 {
        Seq::empty()
    } else if s.len() == 1 {
        json_analysis_snapshot(s[0])
    } else {
        json_items_analysis_snapshot(s.drop_last()) + json_text(","@) + json_analysis_snapshot(s.last())
    }
}

/// The JSON array of a sequence.
pub open spec fn json_seq_analysis_snapshot(s: Seq<EvidenceAnalysisSnapshotView>) -> Seq<u8> {
    json_text("["@) + json_items_analysis_snapshot(s) + json_text("]"@)
}

/// Appends the JSON array of a sequence.
#[verifier::spinoff_prover]
pub fn push_json_seq_analysis_snapshot(out: &mut Vec<u8>, v: &Vec<EvidenceAnalysisSnapshot>)
    ensures
        final(out)@ == old(out)@ + json_seq_analysis_snapshot(vec_view(v@)),
{
    let ghost sv = vec_view(v@);
    let ghost start = out@;
    push_json_text(out, "[");
    let ghost mid = out@;
    let mut i: usize = 0;
    proof {
        assert(sv.take(0) =~= Seq::<EvidenceAnalysisSnapshotView>::empty());
        assert(out@ =~= mid + json_items_analysis_snapshot(sv.take(0)));
    }
    while i < v.len()
        invariant
            i <= v.len(),
            sv == vec_view(v@),
            mid == start + json_text("["@),
            out@ == mid + json_items_analysis_snapshot(sv.take(i as int)),
        decreases v.len() - i,
    {
        proof {
            assert(sv.take(i + 1).drop_last() =~= sv.take(i as int));
            assert(sv.take(i + 1).last() == v@[i as int]@);
            assert(sv.take(i + 1)[0] == sv[0]);
        }
        if i > 0 {
            push_json_text(out, ",");
        }
        push_json_analysis_snapshot(out, &v[i]);
        i = i + 1;
        proof {
            assert(out@ =~= mid + json_items_analysis_snapshot(sv.take(i as int)));
        }
    }
    push_json_text(out, "]");
    proof {
        assert(sv.take(i as int) =~= sv);
        assert(out@ =~= start + json_seq_analysis_snapshot(sv));
    }
}

/// The JSON texts of the items of a sequence, separated by commas.
pub open spec fn json_items_review_case(s: Seq<EvidenceReviewCaseView>) -> Seq<u8>
    decreases s.len(),
{
    if s.len() == 0 {
        Seq::empty()
    } else if s.len() == 1 {
        json_review_case(s[0])
    } else {
        json_items_review_case(s.drop_last()) + json_text(","@) + json_review_case(s.last())
    }
}

/// The JSON array of a sequence.
pub open spec fn json_seq_review_case(s: Seq<EvidenceReviewCaseView>) -> Seq<u8> {
    json_text("["@) + json_items_review_case(s) + json_text("]"@)
}

/// Appends the JSON array of a sequence.
#[verifier::spinoff_prover]
pub fn push_json_seq_review_case(out: &mut Vec<u8>, v: &Vec<EvidenceReviewCase>)
    ensures
        final(out)@ == old(out)@ + json_seq_review_case(vec_view(v@)),
{
    let ghost sv = vec_view(v@);
    let ghost start = out@;
    push_json_text(out, "[");
    let ghost mid = out@;
    let mut i: usize = 0;
    proof {
        assert(sv.take(0) =~= Seq::<EvidenceReviewCaseView>::empty());
        assert(out@ =~= mid + json_items_review_case(sv.take(0)));
    }
    while i < v.len()
        invariant
            i <= v.len(),
            sv == vec_view(v@),
            mid == start + json_text("["@),
            out@ == mid + json_items_review_case(sv.take(i as int)),
        decreases v.len() - i,
    {
        proof {
            assert(sv.take(i + 1).drop_last() =~= sv.take(i as int));
            assert(sv.take(i + 1).last() == v@[i as int]@);
            assert(sv.take(i + 1)[0] == sv[0]);
        }
        if i > 0 {
            push_json_text(out, ",");
        }
        push_json_review_case(out, &v[i]);
        i = i + 1;
        proof {
            assert(out@ =~= mid + json_items_review_case(sv.take(i as int)));
        }
    }
    push_json_text(out, "]");
    proof {
        assert(sv.take(i as int) =~= sv);
        assert(out@ =~= start + json_seq_review_case(sv));
    }
}

/// The JSON texts of the items of a sequence, separated by commas.
pub open spec fn json_items_review_ledger_event(s: Seq<EvidenceReviewLedgerEventView>) -> Seq<u8>
    decreases s.len(),
{
    if s.len() == 0 {
        Seq::empty()
    } else if s.len() == 1 {
        json_review_ledger_event(s[0])
    } else {
        json_items_review_ledger_event(s.drop_last()) + json_text(","@) + json_review_ledger_event(s.last())
    }
}

/// The JSON array of a sequence.
pub open spec fn json_seq_review_ledger_event(s: Seq<EvidenceReviewLedgerEventView>) -> Seq<u8> {
    json_text("["@) + json_items_review_ledger_event(s) + json_text("]"@)
}

/// Appends the JSON array of a sequence.
#[verifier::spinoff_prover]
pub fn push_json_seq_review_ledger_event(out: &mut Vec<u8>, v: &Vec<EvidenceReviewLedgerEvent>)
    ensures
        final(out)@ == old(out)@ + json_seq_review_ledger_event(vec_view(v@)),
{
    let ghost sv = vec_view(v@);
    let ghost start = out@;
    push_json_text(out, "[");
    let ghost mid = out@;
    let mut i: usize = 0;
    proof {
        assert(sv.take(0) =~= Seq::<EvidenceReviewLedgerEventView>::empty());
        assert(out@ =~= mid + json_items_review_ledger_event(sv.take(0)));
    }
    while i < v.len()
        invariant
            i <= v.len(),
            sv == vec_view(v@),
            mid == start + json_text("["@),
            out@ == mid + json_items_review_ledger_event(sv.take(i as int)),
        decreases v.len() - i,
    {
        proof {
            assert(sv.take(i + 1).drop_last() =~= sv.take(i as int));
            assert(sv.take(i + 1).last() == v@[i as int]@);
            assert(sv.take(i + 1)[0] == sv[0]);
        }
        if i > 0 {
            push_json_text(out, ",");
        }
        push_json_review_ledger_event(out, &v[i]);
        i = i + 1;
        proof {
            assert(out@ =~= mid + json_items_review_ledger_event(sv.take(i as int)));
        }
    }
    push_json_text(out, "]");
    proof {
        assert(sv.take(i as int) =~= sv);
        assert(out@ =~= start + json_seq_review_ledger_event(sv));
    }
}

/// The JSON texts of the items of a sequence, separated by commas.
pub open spec fn json_items_effective_review_status(s: Seq<EvidenceEffectiveReviewStatusView>) -> Seq<u8>
    decreases s.len(),
{
    if s.len() == 0 {
        Seq::empty()
    } else if s.len() == 1 {
        json_effective_review_status(s[0])
    } else {
        json_items_effective_review_status(s.drop_last()) + json_text(","@) + json_effective_review_status(s.last())
    }
}

/// The JSON array of a sequence.
pub open spec fn json_seq_effective_review_status(s: Seq<EvidenceEffectiveReviewStatusView>) -> Seq<u8> {
    json_text("["@) + json_items_effective_review_status(s) + json_text("]"@)
}

/// Appends the JSON array of a sequence.
#[verifier::spinoff_prover]
pub fn push_json_seq_effective_review_status(out: &mut Vec<u8>, v: &Vec<EvidenceEffectiveReviewStatus>)
    ensures
        final(out)@ == old(out)@ + json_seq_effective_review_status(vec_view(v@)),
{
    let ghost sv = vec_view(v@);
    let ghost start = out@;
    push_json_text(out, "[");
    let ghost mid = out@;
    let mut i: usize = 0;
    proof {
        assert(sv.take(0) =~= Seq::<EvidenceEffectiveReviewStatusView>::empty());
        assert(out@ =~= mid + json_items_effective_review_status(sv.take(0)));
    }
    while i < v.len()
        invariant
            i <= v.len(),
            sv == vec_view(v@),
            mid == start + json_text("["@),
            out@ == mid + json_items_effective_review_status(sv.take(i as int)),
        decreases v.len() - i,
    {
        proof {
            assert(sv.take(i + 1).drop_last() =~= sv.take(i as int));
            assert(sv.take(i + 1).last() == v@[i as int]@);
            assert(sv.take(i + 1)[0] == sv[0]);
        }
        if i > 0 {
            push_json_text(out, ",");
        }
        push_json_effective_review_status(out, &v[i]);
        i = i + 1;
        proof {
            assert(out@ =~= mid + json_items_effective_review_status(sv.take(i as int)));
        }
    }
    push_json_text(out, "]");
    proof {
        assert(sv.take(i as int) =~= sv);
        assert(out@ =~= start + json_seq_effective_review_status(sv));
    }
}

/// The JSON texts of the items of a sequence, separated by commas.
pub open spec fn json_items_reusable_record(s: Seq<EvidenceReusableRecordView>) -> Seq<u8>
    decreases s.len(),
{
    if s.len() == 0 {
        Seq::empty()
    } else if s.len() == 1 {
        json_reusable_record(s[0])
    } else {
        json_items_reusable_record(s.drop_last()) + json_text(","@) + json_reusable_record(s.last())
    }
}

/// The JSON array of a sequence.
pub open spec fn json_seq_reusable_record(s: Seq<EvidenceReusableRecordView>) -> Seq<u8> {
    json_text("["@) + json_items_reusable_record(s) + json_text("]"@)
}

/// Appends the JSON array of a sequence.
#[verifier::spinoff_prover]
pub fn push_json_seq_reusable_record(out: &mut Vec<u8>, v: &Vec<EvidenceReusableRecord>)
    ensures
        final(out)@ == old(out)@ + json_seq_reusable_record(vec_view(v@)),
{
    let ghost sv = vec_view(v@);
    let ghost start = out@;
    push_json_text(out, "[");
    let ghost mid = out@;
    let mut i: usize = 0;
    proof {
        assert(sv.take(0) =~= Seq::<EvidenceReusableRecordView>::empty());
        assert(out@ =~= mid + json_items_reusable_record(sv.take(0)));
    }
    while i < v.len()
        invariant
            i <= v.len(),
            sv == vec_view(v@),
            mid == start + json_text("["@),
            out@ == mid + json_items_reusable_record(sv.take(i as int)),
        decreases v.len() - i,
    {
        proof {
            assert(sv.take(i + 1).drop_last() =~= sv.take(i as int));
            assert(sv.take(i + 1).last() == v@[i as int]@);
            assert(sv.take(i + 1)[0] == sv[0]);
        }
        if i > 0 {
            push_json_text(out, ",");
        }
        push_json_reusable_record(out, &v[i]);
        i = i + 1;
        proof {
            assert(out@ =~= mid + json_items_reusable_record(sv.take(i as int)));
        }
    }
    push_json_text(out, "]");
    proof {
        assert(sv.take(i as int) =~= sv);
        assert(out@ =~= start + json_seq_reusable_record(sv));
    }
}

/// The JSON texts of the items of a sequence, separated by commas.
pub open spec fn json_items_reuse_governance_event(s: Seq<EvidenceReuseGovernanceEventView>) -> Seq<u8>
    decreases s.len(),
{
    if s.len() == 0 {
        Seq::empty()
    } else if s.len() == 1 {
        json_reuse_governance_event(s[0])
    } else {
        json_items_reuse_governance_event(s.drop_last()) + json_text(","@) + json_reuse_governance_event(s.last())
    }
}

/// The JSON array of a sequence.
pub open spec fn json_seq_reuse_governance_event(s: Seq<EvidenceReuseGovernanceEventView>) -> Seq<u8> {
    json_text("["@) + json_items_reuse_governance_event(s) + json_text("]"@)
}

/// Appends the JSON array of a sequence.
#[verifier::spinoff_prover]
pub fn push_json_seq_reuse_governance_event(out: &mut Vec<u8>, v: &Vec<EvidenceReuseGovernanceEvent>)
    ensures
        final(out)@ == old(out)@ + json_seq_reuse_governance_event(vec_view(v@)),
{
    let ghost sv = vec_view(v@);
    let ghost start = out@;
    push_json_text(out, "[");
    let ghost mid = out@;
    let mut i: usize = 0;
    proof {
        assert(sv.take(0) =~= Seq::<EvidenceReuseGovernanceEventView>::empty());
        assert(out@ =~= mid + json_items_reuse_governance_event(sv.take(0)));
    }
    while i < v.len()
        invariant
            i <= v.len(),
            sv == vec_view(v@),
            mid == start + json_text("["@),
            out@ == mid + json_items_reuse_governance_event(sv.take(i as int)),
        decreases v.len() - i,
    {
        proof {
            assert(sv.take(i + 1).drop_last() =~= sv.take(i as int));
            assert(sv.take(i + 1).last() == v@[i as int]@);
            assert(sv.take(i + 1)[0] == sv[0]);
        }
        if i > 0 {
            push_json_text(out, ",");
        }
        push_json_reuse_governance_event(out, &v[i]);
        i = i + 1;
        proof {
            assert(out@ =~= mid + json_items_reuse_governance_event(sv.take(i as int)));
        }
    }
    push_json_text(out, "]");
    proof {
        assert(sv.take(i as int) =~= sv);
        assert(out@ =~= start + json_seq_reuse_governance_event(sv));
    }
}

/// The JSON texts of the items of a sequence, separated by commas.
pub open spec fn json_items_text(s: Seq<Seq<char>>) -> Seq<u8>
    decreases s.len(),
{
    if s.len() == 0 {
        Seq::empty()
    } else if s.len() == 1 {
        json_string(s[0])
    } else {
        json_items_text(s.drop_last()) + json_text(","@) + json_string(s.last())
    }
}

/// The JSON array of a sequence.
pub open spec fn json_seq_text(s: Seq<Seq<char>>) -> Seq<u8> {
    json_text("["@) + json_items_text(s) + json_text("]"@)
}

/// Appends the JSON array of a sequence.
#[verifier::spinoff_prover]
pub fn push_json_seq_text(out: &mut Vec<u8>, v: &Vec<String>)
    ensures
        final(out)@ == old(out)@ + json_seq_text(vec_view(v@)),
{
    let ghost sv = vec_view(v@);
    let ghost start = out@;
    push_json_text(out, "[");
    let ghost mid = out@;
    let mut i: usize = 0;
    proof {
        assert(sv.take(0) =~= Seq::<Seq<char>>::empty());
        assert(out@ =~= mid + json_items_text(sv.take(0)));
    }
    while i < v.len()
        invariant
            i <= v.len(),
            sv == vec_view(v@),
            mid == start + json_text("["@),
            out@ == mid + json_items_text(sv.take(i as int)),
        decreases v.len() - i,
    {
        proof {
            assert(sv.take(i + 1).drop_last() =~= sv.take(i as int));
            assert(sv.take(i + 1).last() == v@[i as int]@);
            assert(sv.take(i + 1)[0] == sv[0]);
        }
        if i > 0 {
            push_json_text(out, ",");
        }
        push_json_string(out, v[i].as_str());
        i = i + 1;
        proof {
            assert(out@ =~= mid + json_items_text(sv.take(i as int)));
        }
    }
    push_json_text(out, "]");
    proof {
        assert(sv.take(i as int) =~= sv);
        assert(out@ =~= start + json_seq_text(sv));
    }
}

/// The JSON members of the session, source and terms part of a canonical projection, after the opening brace.
pub open spec fn json_canonical_head(v: CurrentContractCanonicalProjectionView) -> Seq<u8> {
    json_text("{\"session_id\":"@)
        + json_string(v.session_id)
        + json_text(",\"duplicated_from_session_id\":"@)
        + json_opt_string(v.duplicated_from_session_id)
        + json_text(",\"session_authority\":"@)
        + json_session_authority(v.session_authority)
        + json_text(",\"material_use_declaration\":"@)
        + json_material_use_declaration(v.material_use_declaration)
        + json_text(",\"source_revisions\":"@)
        + json_seq_source_revision(v.source_revisions)
        + json_text(",\"session_terms_identity\":"@)
        + json_string(v.session_terms_identity)
}

#[verifier::spinoff_prover]
#[verifier::rlimit(30)]
fn push_json_canonical_head(out: &mut Vec<u8>, v: &CurrentContractCanonicalProjection)
    ensures
        final(out)@ == old(out)@ + json_canonical_head(v@),
{
    let mut buf: Vec<u8> = Vec::new();
    push_json_text(&mut buf, "{\"session_id\":");
    proof {
        assert(buf@ =~= json_text("{\"session_id\":"@));
    }
    push_json_string(&mut buf, v.session_id.as_str());
    push_json_text(&mut buf, ",\"duplicated_from_session_id\":");
    push_json_opt_string(&mut buf, &v.duplicated_from_session_id);
    push_json_text(&mut buf, ",\"session_authority\":");
    push_json_session_authority(&mut buf, &v.session_authority);
    push_json_text(&mut buf, ",\"material_use_declaration\":");
    push_json_material_use_declaration(&mut buf, &v.material_use_declaration);
    push_json_text(&mut buf, ",\"source_revisions\":");
    push_json_seq_source_revision(&mut buf, &v.source_revisions);
    push_json_text(&mut buf, ",\"session_terms_identity\":");
    push_json_string(&mut buf, v.session_terms_identity.as_str());
    push_bytes(out, buf.as_slice());
}

/// The JSON members of the analysis, review and governance part of a canonical projection, and the closing brace.
pub open spec fn json_canonical_tail(v: CurrentContractCanonicalProjectionView) -> Seq<u8> {
    json_text(",\"analysis_snapshots\":"@)
        + json_seq_analysis_snapshot(v.analysis_snapshots)
        + json_text(",\"review_cases\":"@)
        + json_seq_review_case(v.review_cases)
        + json_text(",\"review_ledger_events\":"@)
        + json_seq_review_ledger_event(v.review_ledger_events)
        + json_text(",\"project_scope_stable_id\":"@)
        + json_string(v.project_scope_stable_id)
        + json_text(",\"reuse_governance_events\":"@)
        + json_seq_reuse_governance_event(v.reuse_governance_events)
        + json_text(",\"reuse_enabled_analysis_binding\":"@)
        + (match v.reuse_enabled_analysis_binding { Some(x) => json_reuse_enabled_analysis_binding(x), None => json_text("null"@) })
        + json_text(",\"durable_command_tokens\":"@)
        + json_durable_command_tokens(v.durable_command_tokens)
        + json_text("}"@)
}

#[verifier::spinoff_prover]
#[verifier::rlimit(30)]
fn push_json_canonical_tail(out: &mut Vec<u8>, v: &CurrentContractCanonicalProjection)
    ensures
        final(out)@ == old(out)@ + json_canonical_tail(v@),
{
    let mut buf: Vec<u8> = Vec::new();
    push_json_text(&mut buf, ",\"analysis_snapshots\":");
    proof {
        assert(buf@ =~= json_text(",\"analysis_snapshots\":"@));
    }
    push_json_seq_analysis_snapshot(&mut buf, &v.analysis_snapshots);
    push_json_text(&mut buf, ",\"review_cases\":");
    push_json_seq_review_case(&mut buf, &v.review_cases);
    push_json_text(&mut buf, ",\"review_ledger_events\":");
    push_json_seq_review_ledger_event(&mut buf, &v.review_ledger_events);
    push_json_text(&mut buf, ",\"project_scope_stable_id\":");
    push_json_string(&mut buf, v.project_scope_stable_id.as_str());
    push_json_text(&mut buf, ",\"reuse_governance_events\":");
    push_json_seq_reuse_governance_event(&mut buf, &v.reuse_governance_events);
    push_json_text(&mut buf, ",\"reuse_enabled_analysis_binding\":");
    match &v.reuse_enabled_analysis_binding {
        Some(x) => push_json_reuse_enabled_analysis_binding(&mut buf, x),
        None => push_json_text(&mut buf, "null"),
    }
    push_json_text(&mut buf, ",\"durable_command_tokens\":");
    push_json_durable_command_tokens(&mut buf, &v.durable_command_tokens);
    push_json_text(&mut buf, "}");
    push_bytes(out, buf.as_slice());
}

/// The JSON text of a canonical projection: an object of its fields in
/// declaration order, as the stored state writes it.
#[verifier::opaque]
pub open spec fn json_canonical_projection(v: CurrentContractCanonicalProjectionView) -> Seq<u8> {
    json_canonical_head(v) + json_canonical_tail(v)
}

/// Appends the JSON text of a canonical projection.
#[verifier::spinoff_prover]
pub fn push_json_canonical_projection(out: &mut Vec<u8>, v: &CurrentContractCanonicalProjection)
    ensures
        final(out)@ == old(out)@ + json_canonical_projection(v@),
{
    reveal(json_canonical_projection);
    let mut buf: Vec<u8> = Vec::new();
    push_json_canonical_head(&mut buf, v);
    let ghost head = json_canonical_head(v@);
    proof {
        assert(buf@ =~= head);
    }
    push_json_canonical_tail(&mut buf, v);
    push_bytes(out, buf.as_slice());
}

/// The JSON text of a derived projection: its fields in declaration order.
#[verifier::opaque]
pub open spec fn json_derived_contract_projection(v: DerivedContractProjectionView) -> Seq<u8> {
    json_text("{\"effective_review_status\":"@)
        + json_seq_effective_review_status(v.effective_review_status)
        + json_text(",\"rejected_candidate_identities\":"@)
        + json_seq_text(v.rejected_candidate_identities)
        + json_text(",\"effective_reusable_records\":"@)
        + json_seq_reusable_record(v.effective_reusable_records)
        + json_text(",\"historical_reusable_records\":"@)
        + json_seq_reusable_record(v.historical_reusable_records)
        + json_text(",\"reusable_snapshot_identity\":"@)
        + json_string(v.reusable_snapshot_identity)
        + json_text(",\"derived_queue_projection\":"@)
        + json_string(v.derived_queue_projection)
        + json_text("}"@)
}

/// Appends the JSON text of a value of [`DerivedContractProjection`].
#[verifier::spinoff_prover]
pub fn push_json_derived_contract_projection(out: &mut Vec<u8>, v: &DerivedContractProjection)
    ensures
        final(out)@ == old(out)@ + json_derived_contract_projection(v@),
{
    reveal(json_derived_contract_projection);
    let mut buf: Vec<u8> = Vec::new();
    push_json_text(&mut buf, "{\"effective_review_status\":");
    proof {
        assert(buf@ =~= json_text("{\"effective_review_status\":"@));
    }
    push_json_seq_effective_review_status(&mut buf, &v.effective_review_status);
    push_json_text(&mut buf, ",\"rejected_candidate_identities\":");
    push_json_seq_text(&mut buf, &v.rejected_candidate_identities);
    push_json_text(&mut buf, ",\"effective_reusable_records\":");
    push_json_seq_reusable_record(&mut buf, &v.effective_reusable_records);
    push_json_text(&mut buf, ",\"historical_reusable_records\":");
    push_json_seq_reusable_record(&mut buf, &v.historical_reusable_records);
    push_json_text(&mut buf, ",\"reusable_snapshot_identity\":");
    push_json_string(&mut buf, v.reusable_snapshot_identity.as_str());
    push_json_text(&mut buf, ",\"derived_queue_projection\":");
    push_json_string(&mut buf, v.derived_queue_projection.as_str());
    push_json_text(&mut buf, "}");
    push_bytes(out, buf.as_slice());
}

} // verus!
