use vstd::prelude::*;
use crate::model::SameAs;

verus! {

/// Why the current-contract oracle rejects a state.
#[derive(Debug, Clone, Copy, PartialEq, Eq, Structural)]
pub enum OracleViolationCodeV3 {
    MissingCanonicalHistory,
    FabricatedAutomaticDecision,
    ChangedSessionAuthority,
    ChangedMaterialUseDeclaration,
    ChangedSessionIdentity,
    ChangedSourceRevisionIdentity,
    ChangedReviewLedgerOrder,
    ChangedReviewLedgerPayload,
    ChangedReuseGovernanceOrder,
    ChangedReuseGovernanceActor,
    ChangedProjectScopeStableId,
    ChangedReusableSnapshotIdentity,
    ReuseAnalysisSnapshotMismatch,
    MissingCommittedReviewEvent,
    UncommittedReviewEventExposed,
    CanonicalFingerprintMismatch,
    DerivedRebuildMismatch,
    SourceLocatorBoundaryViolation,
    HumanRaisedCasePresent,
    ExportTransportPresentInHydrationState,
    ReviewLedgerIndexGap,
    ReviewLedgerDuplicateIndex,
    MissingReviewCaseReference,
    ManualReplacementByteMismatch,
    DecisionDigestMismatch,
    PromotionLocatorMismatch,
    ReuseGovernanceIndexGap,
    ReuseGovernanceDuplicateIndex,
    DuplicateAcceptedRecordId,
    PromotionAfterRejectedCandidate,
    RevokeUnknownRecord,
    RevokeInactiveRecord,
    SupersedeUnknownPredecessor,
    SupersedeUnknownSuccessor,
    InvalidSupersessionLineage,
    CrossProjectRecordReference,
    SourceAnchorRevisionMismatch,
    SourceAnchorSegmentMismatch,
    SourceAnchorOutOfBounds,
    SourceAnchorResolvedBytesMismatch,
    MalformedReviewCaseId,
    MalformedDecisionDigest,
    MalformedAnalysisSnapshot,
    MalformedReviewLedgerEvent,
    ReviewLedgerEventRevisionMismatch,
    DuplicateReviewCaseId,
    UnknownDecisionProvenance,
    GovernanceActorRoleMismatch,
    GovernanceActorLabelMismatch,
    GovernanceActorLabelNonCanonical,
    PromotionPayloadMismatch,
    DuplicateRejectionIdentity,
    InvalidGovernanceTransition,
    Utf8AnchorBoundaryViolation,
    MalformedTranscriptRepresentation,
    HistoricalBindingSnapshotMismatch,
    HistoricalBindingAnalysisMismatch,
}

/// The position of a code in declaration order, which is how codes are ordered.
pub open spec fn code_rank_spec(code: OracleViolationCodeV3) -> u64 {
    match code {
        OracleViolationCodeV3::MissingCanonicalHistory => 0,
        OracleViolationCodeV3::FabricatedAutomaticDecision => 1,
        OracleViolationCodeV3::ChangedSessionAuthority => 2,
        OracleViolationCodeV3::ChangedMaterialUseDeclaration => 3,
        OracleViolationCodeV3::ChangedSessionIdentity => 4,
        OracleViolationCodeV3::ChangedSourceRevisionIdentity => 5,
        OracleViolationCodeV3::ChangedReviewLedgerOrder => 6,
        OracleViolationCodeV3::ChangedReviewLedgerPayload => 7,
        OracleViolationCodeV3::ChangedReuseGovernanceOrder => 8,
        OracleViolationCodeV3::ChangedReuseGovernanceActor => 9,
        OracleViolationCodeV3::ChangedProjectScopeStableId => 10,
        OracleViolationCodeV3::ChangedReusableSnapshotIdentity => 11,
        OracleViolationCodeV3::ReuseAnalysisSnapshotMismatch => 12,
        OracleViolationCodeV3::MissingCommittedReviewEvent => 13,
        OracleViolationCodeV3::UncommittedReviewEventExposed => 14,
        OracleViolationCodeV3::CanonicalFingerprintMismatch => 15,
        OracleViolationCodeV3::DerivedRebuildMismatch => 16,
        OracleViolationCodeV3::SourceLocatorBoundaryViolation => 17,
        OracleViolationCodeV3::HumanRaisedCasePresent => 18,
        OracleViolationCodeV3::ExportTransportPresentInHydrationState => 19,
        OracleViolationCodeV3::ReviewLedgerIndexGap => 20,
        OracleViolationCodeV3::ReviewLedgerDuplicateIndex => 21,
        OracleViolationCodeV3::MissingReviewCaseReference => 22,
        OracleViolationCodeV3::ManualReplacementByteMismatch => 23,
        OracleViolationCodeV3::DecisionDigestMismatch => 24,
        OracleViolationCodeV3::PromotionLocatorMismatch => 25,
        OracleViolationCodeV3::ReuseGovernanceIndexGap => 26,
        OracleViolationCodeV3::ReuseGovernanceDuplicateIndex => 27,
        OracleViolationCodeV3::DuplicateAcceptedRecordId => 28,
        OracleViolationCodeV3::PromotionAfterRejectedCandidate => 29,
        OracleViolationCodeV3::RevokeUnknownRecord => 30,
        OracleViolationCodeV3::RevokeInactiveRecord => 31,
        OracleViolationCodeV3::SupersedeUnknownPredecessor => 32,
        OracleViolationCodeV3::SupersedeUnknownSuccessor => 33,
        OracleViolationCodeV3::InvalidSupersessionLineage => 34,
        OracleViolationCodeV3::CrossProjectRecordReference => 35,
        OracleViolationCodeV3::SourceAnchorRevisionMismatch => 36,
        OracleViolationCodeV3::SourceAnchorSegmentMismatch => 37,
        OracleViolationCodeV3::SourceAnchorOutOfBounds => 38,
        OracleViolationCodeV3::SourceAnchorResolvedBytesMismatch => 39,
        OracleViolationCodeV3::MalformedReviewCaseId => 40,
        OracleViolationCodeV3::MalformedDecisionDigest => 41,
        OracleViolationCodeV3::MalformedAnalysisSnapshot => 42,
        OracleViolationCodeV3::MalformedReviewLedgerEvent => 43,
        OracleViolationCodeV3::ReviewLedgerEventRevisionMismatch => 44,
        OracleViolationCodeV3::DuplicateReviewCaseId => 45,
        OracleViolationCodeV3::UnknownDecisionProvenance => 46,
        OracleViolationCodeV3::GovernanceActorRoleMismatch => 47,
        OracleViolationCodeV3::GovernanceActorLabelMismatch => 48,
        OracleViolationCodeV3::GovernanceActorLabelNonCanonical => 49,
        OracleViolationCodeV3::PromotionPayloadMismatch => 50,
        OracleViolationCodeV3::DuplicateRejectionIdentity => 51,
        OracleViolationCodeV3::InvalidGovernanceTransition => 52,
        OracleViolationCodeV3::Utf8AnchorBoundaryViolation => 53,
        OracleViolationCodeV3::MalformedTranscriptRepresentation => 54,
        OracleViolationCodeV3::HistoricalBindingSnapshotMismatch => 55,
        OracleViolationCodeV3::HistoricalBindingAnalysisMismatch => 56,
    }
}

/// The position of a code in declaration order.
pub fn code_rank(code: OracleViolationCodeV3) -> (r: u64)
    ensures
        r == code_rank_spec(code),
{
    match code {
        OracleViolationCodeV3::MissingCanonicalHistory => 0,
        OracleViolationCodeV3::FabricatedAutomaticDecision => 1,
        OracleViolationCodeV3::ChangedSessionAuthority => 2,
        OracleViolationCodeV3::ChangedMaterialUseDeclaration => 3,
        OracleViolationCodeV3::ChangedSessionIdentity => 4,
        OracleViolationCodeV3::ChangedSourceRevisionIdentity => 5,
        OracleViolationCodeV3::ChangedReviewLedgerOrder => 6,
        OracleViolationCodeV3::ChangedReviewLedgerPayload => 7,
        OracleViolationCodeV3::ChangedReuseGovernanceOrder => 8,
        OracleViolationCodeV3::ChangedReuseGovernanceActor => 9,
        OracleViolationCodeV3::ChangedProjectScopeStableId => 10,
        OracleViolationCodeV3::ChangedReusableSnapshotIdentity => 11,
        OracleViolationCodeV3::ReuseAnalysisSnapshotMismatch => 12,
        OracleViolationCodeV3::MissingCommittedReviewEvent => 13,
        OracleViolationCodeV3::UncommittedReviewEventExposed => 14,
        OracleViolationCodeV3::CanonicalFingerprintMismatch => 15,
        OracleViolationCodeV3::DerivedRebuildMismatch => 16,
        OracleViolationCodeV3::SourceLocatorBoundaryViolation => 17,
        OracleViolationCodeV3::HumanRaisedCasePresent => 18,
        OracleViolationCodeV3::ExportTransportPresentInHydrationState => 19,
        OracleViolationCodeV3::ReviewLedgerIndexGap => 20,
        OracleViolationCodeV3::ReviewLedgerDuplicateIndex => 21,
        OracleViolationCodeV3::MissingReviewCaseReference => 22,
        OracleViolationCodeV3::ManualReplacementByteMismatch => 23,
        OracleViolationCodeV3::DecisionDigestMismatch => 24,
        OracleViolationCodeV3::PromotionLocatorMismatch => 25,
        OracleViolationCodeV3::ReuseGovernanceIndexGap => 26,
        OracleViolationCodeV3::ReuseGovernanceDuplicateIndex => 27,
        OracleViolationCodeV3::DuplicateAcceptedRecordId => 28,
        OracleViolationCodeV3::PromotionAfterRejectedCandidate => 29,
        OracleViolationCodeV3::RevokeUnknownRecord => 30,
        OracleViolationCodeV3::RevokeInactiveRecord => 31,
        OracleViolationCodeV3::SupersedeUnknownPredecessor => 32,
        OracleViolationCodeV3::SupersedeUnknownSuccessor => 33,
        OracleViolationCodeV3::InvalidSupersessionLineage => 34,
        OracleViolationCodeV3::CrossProjectRecordReference => 35,
        OracleViolationCodeV3::SourceAnchorRevisionMismatch => 36,
        OracleViolationCodeV3::SourceAnchorSegmentMismatch => 37,
        OracleViolationCodeV3::SourceAnchorOutOfBounds => 38,
        OracleViolationCodeV3::SourceAnchorResolvedBytesMismatch => 39,
        OracleViolationCodeV3::MalformedReviewCaseId => 40,
        OracleViolationCodeV3::MalformedDecisionDigest => 41,
        OracleViolationCodeV3::MalformedAnalysisSnapshot => 42,
        OracleViolationCodeV3::MalformedReviewLedgerEvent => 43,
        OracleViolationCodeV3::ReviewLedgerEventRevisionMismatch => 44,
        OracleViolationCodeV3::DuplicateReviewCaseId => 45,
        OracleViolationCodeV3::UnknownDecisionProvenance => 46,
        OracleViolationCodeV3::GovernanceActorRoleMismatch => 47,
        OracleViolationCodeV3::GovernanceActorLabelMismatch => 48,
        OracleViolationCodeV3::GovernanceActorLabelNonCanonical => 49,
        OracleViolationCodeV3::PromotionPayloadMismatch => 50,
        OracleViolationCodeV3::DuplicateRejectionIdentity => 51,
        OracleViolationCodeV3::InvalidGovernanceTransition => 52,
        OracleViolationCodeV3::Utf8AnchorBoundaryViolation => 53,
        OracleViolationCodeV3::MalformedTranscriptRepresentation => 54,
        OracleViolationCodeV3::HistoricalBindingSnapshotMismatch => 55,
        OracleViolationCodeV3::HistoricalBindingAnalysisMismatch => 56,
    }
}

/// One oracle finding: its code, the field path it concerns, and a message.
#[derive(Debug)]
pub struct OracleDiagnosticV3 {
    pub code: OracleViolationCodeV3,
    pub path: String,
    pub message: String,
}

/// The mathematical value of an [`OracleDiagnosticV3`].
pub struct OracleDiagnosticV3View {
    pub code: OracleViolationCodeV3,
    pub path: Seq<char>,
    pub message: Seq<char>,
}

impl View for OracleDiagnosticV3 {
    type V = OracleDiagnosticV3View;

    open spec fn view(&self) -> OracleDiagnosticV3View {
        OracleDiagnosticV3View { code: self.code, path: self.path@, message: self.message@ }
    }
}

impl Clone for OracleDiagnosticV3 {
    fn clone(&self) -> (r: Self)
        ensures
            r@ == self@,
    {
        OracleDiagnosticV3 { code: self.code, path: self.path.clone(), message: self.message.clone() }
    }
}

impl SameAs for OracleDiagnosticV3 {
    fn duplicate(&self) -> (r: Self) {
        self.clone()
    }

    fn same_as(&self, other: &Self) -> (r: bool) {
        self.code == other.code && self.path.same_as(&other.path) && self.message.same_as(&other.message)
    }
}

/// The diagnostic with the given code, path and message.
pub open spec fn diag(code: OracleViolationCodeV3, path: Seq<char>, message: Seq<char>) -> OracleDiagnosticV3View {
    OracleDiagnosticV3View { code, path, message }
}

/// A diagnostic with the given code, path and message.
pub fn diagnostic(code: OracleViolationCodeV3, path: &str, message: &str) -> (r: OracleDiagnosticV3)
    ensures
        r@ == diag(code, path@, message@),
{
    OracleDiagnosticV3 { code, path: String::from_str(path), message: String::from_str(message) }
}


/// The findings of items `0 .. n`, in order, each item giving `f(i)`.
pub open spec fn concat_upto(n: int, f: spec_fn(int) -> Seq<OracleDiagnosticV3View>) -> Seq<OracleDiagnosticV3View>
    decreases n,
{
    if n <= 0 {
        Seq::empty()
    } else {
        concat_upto(n - 1, f) + f(n - 1)
    }
}

/// The findings in a vector of diagnostics.
pub open spec fn diags_view(v: Seq<OracleDiagnosticV3>) -> Seq<OracleDiagnosticV3View> {
    crate::model::vec_view(v)
}

/// Appends one finding.
pub fn push_diag(violations: &mut Vec<OracleDiagnosticV3>, d: OracleDiagnosticV3)
    ensures
        diags_view(final(violations)@) == diags_view(old(violations)@).push(d@),
{
    violations.push(d);
    proof {
        assert(diags_view(final(violations)@) =~= diags_view(old(violations)@).push(d@));
    }
}

} // verus!
