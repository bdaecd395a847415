use vstd::prelude::*;
use crate::order::{in_key_order, keys_view, lemma_sort_by_key_fn, lemma_sort_by_keys_map, sort_by_keys, sort_by_keys_spec};

verus! {

/// The identifier of the current-contract fixture.
pub const CURRENT_CONTRACT_FIXTURE_ID: &'static str = "voxproof-persistence-evidence-current-contract";

/// The version of the current-contract fixture.
pub const CURRENT_CONTRACT_FIXTURE_VERSION: &'static str = "3";


/// The view of each element of a sequence.
pub open spec fn vec_view<T: View>(s: Seq<T>) -> Seq<T::V> {
    s.map_values(|x: T| x@)
}

/// The view of an optional value.
pub open spec fn opt_view<T: View>(o: Option<T>) -> Option<T::V> {
    match o {
        Some(x) => Some(x@),
        None => None,
    }
}

/// Values whose views can be compared in executable code.
pub trait SameAs: View + Sized {
    /// A copy with the same view.
    fn duplicate(&self) -> (r: Self)
        ensures
            r@ == self@,
    ;

    /// Whether the two values have the same view.
    fn same_as(&self, other: &Self) -> (r: bool)
        ensures
            r == (self@ == other@),
    ;
}

impl SameAs for String {
    fn duplicate(&self) -> (r: Self) {
        self.clone()
    }

    fn same_as(&self, other: &Self) -> (r: bool) {
        *self == *other
    }
}

/// Whether two optional values have the same view.
pub fn opt_same<T: SameAs>(a: &Option<T>, b: &Option<T>) -> (r: bool)
    ensures
        r == (opt_view(*a) == opt_view(*b)),
{
    match (a, b) {
        (Some(x), Some(y)) => x.same_as(y),
        (None, None) => true,
        _ => false,
    }
}

/// A copy of an optional value with the same view.
/// Appends `t`; the view of the vector grows by the view of `t`.
pub fn push_viewed<T: View>(out: &mut Vec<T>, t: T)
    ensures
        vec_view(final(out)@) == vec_view(old(out)@).push(t@),
{
    out.push(t);
    proof {
        assert(vec_view(final(out)@) =~= vec_view(old(out)@).push(t@));
    }
}

pub fn opt_duplicate<T: SameAs>(a: &Option<T>) -> (r: Option<T>)
    ensures
        opt_view(r) == opt_view(*a),
{
    match a {
        Some(x) => Some(x.duplicate()),
        None => None,
    }
}

/// A copy of a vector with the same views, element by element.
pub fn vec_duplicate<T: SameAs>(a: &Vec<T>) -> (r: Vec<T>)
    ensures
        vec_view(r@) == vec_view(a@),
{
    let mut r: Vec<T> = Vec::new();
    let mut i: usize = 0;
    while i < a.len()
        invariant
            i <= a.len(),
            r@.len() == i,
            forall|j: int| 0 <= j < i ==> #[trigger] r@[j]@ == a@[j]@,
        decreases a.len() - i,
    {
        r.push(a[i].duplicate());
        i = i + 1;
    }
    proof {
        assert(vec_view(r@) =~= vec_view(a@));
    }
    r
}

/// Whether two optional indices are equal.
pub fn opt_eq(a: Option<usize>, b: Option<usize>) -> (r: bool)
    ensures
        r == (a == b),
{
    match (a, b) {
        (Some(x), Some(y)) => x == y,
        (None, None) => true,
        _ => false,
    }
}

/// Whether two vectors have the same views, element by element.
pub fn vec_same<T: SameAs>(a: &Vec<T>, b: &Vec<T>) -> (r: bool)
    ensures
        r == (vec_view(a@) == vec_view(b@)),
{
    if a.len() != b.len() {
        proof {
            assert(vec_view(a@).len() != vec_view(b@).len());
        }
        return false;
    }
    let mut i: usize = 0;
    while i < a.len()
        invariant
            i <= a.len(),
            a.len() == b.len(),
            forall|j: int| 0 <= j < i ==> #[trigger] a@[j]@ == b@[j]@,
        decreases a.len() - i,
    {
        if !a[i].same_as(&b[i]) {
            proof {
                assert(vec_view(a@)[i as int] != vec_view(b@)[i as int]);
            }
            return false;
        }
        i = i + 1;
    }
    proof {
        assert(vec_view(a@) =~= vec_view(b@));
    }
    true
}

/// Scale of a current-contract fixture.
#[derive(Debug, Clone, Copy, PartialEq, Eq, Structural)]
pub enum CurrentContractFixtureScale {
    Small,
    Medium,
    Stress,
}

impl CurrentContractFixtureScale {
    /// Only the small scale is implemented.
    pub fn is_implemented(self) -> (r: bool)
        ensures
            r == (self == CurrentContractFixtureScale::Small),
    {
        match self {
            CurrentContractFixtureScale::Small => true,
            _ => false,
        }
    }
}

/// A review decision, as the effective review status records it.
pub enum EvidenceCorrectionDecision {
    AcceptAlternative { alternative_index: usize },
    ManualReplacement { replacement: String },
    Reject,
    Defer,
    NeedsManualCorrection,
}

/// The mathematical value of an [`EvidenceCorrectionDecision`].
pub enum EvidenceCorrectionDecisionView {
    AcceptAlternative { alternative_index: usize },
    ManualReplacement { replacement: Seq<char> },
    Reject,
    Defer,
    NeedsManualCorrection,
}

impl View for EvidenceCorrectionDecision {
    type V = EvidenceCorrectionDecisionView;

    open spec fn view(&self) -> EvidenceCorrectionDecisionView {
        match self {
            EvidenceCorrectionDecision::AcceptAlternative { alternative_index } =>
                EvidenceCorrectionDecisionView::AcceptAlternative {
                alternative_index: *alternative_index,
            },
            EvidenceCorrectionDecision::ManualReplacement { replacement } =>
                EvidenceCorrectionDecisionView::ManualReplacement { replacement: replacement@ },
            EvidenceCorrectionDecision::Reject => EvidenceCorrectionDecisionView::Reject,
            EvidenceCorrectionDecision::Defer => EvidenceCorrectionDecisionView::Defer,
            EvidenceCorrectionDecision::NeedsManualCorrection =>
                EvidenceCorrectionDecisionView::NeedsManualCorrection,
        }
    }
}

impl Clone for EvidenceCorrectionDecision {
    fn clone(&self) -> (r: Self)
        ensures
            r@ == self@,
    {
        match self {
            EvidenceCorrectionDecision::AcceptAlternative { alternative_index } =>
                EvidenceCorrectionDecision::AcceptAlternative {
                alternative_index: *alternative_index,
            },
            EvidenceCorrectionDecision::ManualReplacement { replacement } =>
                EvidenceCorrectionDecision::ManualReplacement { replacement: replacement.clone() },
            EvidenceCorrectionDecision::Reject => EvidenceCorrectionDecision::Reject,
            EvidenceCorrectionDecision::Defer => EvidenceCorrectionDecision::Defer,
            EvidenceCorrectionDecision::NeedsManualCorrection =>
                EvidenceCorrectionDecision::NeedsManualCorrection,
        }
    }
}

impl SameAs for EvidenceCorrectionDecision {
    fn duplicate(&self) -> (r: Self) {
        self.clone()
    }

    fn same_as(&self, other: &Self) -> (r: bool) {
        match (self, other) {
            (
                EvidenceCorrectionDecision::AcceptAlternative { alternative_index: a },
                EvidenceCorrectionDecision::AcceptAlternative { alternative_index: b },
            ) => *a == *b,
            (
                EvidenceCorrectionDecision::ManualReplacement { replacement: a },
                EvidenceCorrectionDecision::ManualReplacement { replacement: b },
            ) => a.same_as(b),
            (EvidenceCorrectionDecision::Reject, EvidenceCorrectionDecision::Reject) => true,
            (EvidenceCorrectionDecision::Defer, EvidenceCorrectionDecision::Defer) => true,
            (
                EvidenceCorrectionDecision::NeedsManualCorrection,
                EvidenceCorrectionDecision::NeedsManualCorrection,
            ) => true,
            _ => false,
        }
    }
}

/// One reuse-governance event, as stored.
pub enum EvidenceReuseGovernanceEvent {
    PromotionCandidateRejected {
        event_index: usize,
        candidate_key: EvidenceReuseCandidateKey,
        actor: EvidenceGovernanceActor,
    },
    PromotionAccepted {
        event_index: usize,
        candidate_key: EvidenceReuseCandidateKey,
        payload: EvidenceExactReusableCorrection,
        source_locator: EvidenceSourceDecisionLocator,
        actor: EvidenceGovernanceActor,
        project_scope_stable_id: String,
    },
    ReusableInfluenceRevoked { event_index: usize, record_id: usize, actor: EvidenceGovernanceActor },
    ReusableInfluenceSuperseded {
        event_index: usize,
        predecessor_record_id: usize,
        successor_record_id: usize,
        actor: EvidenceGovernanceActor,
    },
}

/// The mathematical value of an [`EvidenceReuseGovernanceEvent`].
pub enum EvidenceReuseGovernanceEventView {
    PromotionCandidateRejected {
        event_index: usize,
        candidate_key: EvidenceReuseCandidateKeyView,
        actor: EvidenceGovernanceActorView,
    },
    PromotionAccepted {
        event_index: usize,
        candidate_key: EvidenceReuseCandidateKeyView,
        payload: EvidenceExactReusableCorrectionView,
        source_locator: EvidenceSourceDecisionLocatorView,
        actor: EvidenceGovernanceActorView,
        project_scope_stable_id: Seq<char>,
    },
    ReusableInfluenceRevoked {
        event_index: usize,
        record_id: usize,
        actor: EvidenceGovernanceActorView,
    },
    ReusableInfluenceSuperseded {
        event_index: usize,
        predecessor_record_id: usize,
        successor_record_id: usize,
        actor: EvidenceGovernanceActorView,
    },
}

impl View for EvidenceReuseGovernanceEvent {
    type V = EvidenceReuseGovernanceEventView;

    open spec fn view(&self) -> EvidenceReuseGovernanceEventView {
        match self {
            EvidenceReuseGovernanceEvent::PromotionCandidateRejected {
                event_index,
                candidate_key,
                actor,
            } => EvidenceReuseGovernanceEventView::PromotionCandidateRejected {
                event_index: *event_index,
                candidate_key: candidate_key@,
                actor: actor@,
            },
            EvidenceReuseGovernanceEvent::PromotionAccepted {
                event_index,
                candidate_key,
                payload,
                source_locator,
                actor,
                project_scope_stable_id,
            } => EvidenceReuseGovernanceEventView::PromotionAccepted {
                event_index: *event_index,
                candidate_key: candidate_key@,
                payload: payload@,
                source_locator: source_locator@,
                actor: actor@,
                project_scope_stable_id: project_scope_stable_id@,
            },
            EvidenceReuseGovernanceEvent::ReusableInfluenceRevoked {
                event_index,
                record_id,
                actor,
            } => EvidenceReuseGovernanceEventView::ReusableInfluenceRevoked {
                event_index: *event_index,
                record_id: *record_id,
                actor: actor@,
            },
            EvidenceReuseGovernanceEvent::ReusableInfluenceSuperseded {
                event_index,
                predecessor_record_id,
                successor_record_id,
                actor,
            } => EvidenceReuseGovernanceEventView::ReusableInfluenceSuperseded {
                event_index: *event_index,
                predecessor_record_id: *predecessor_record_id,
                successor_record_id: *successor_record_id,
                actor: actor@,
            },
        }
    }
}

impl Clone for EvidenceReuseGovernanceEvent {
    fn clone(&self) -> (r: Self)
        ensures
            r@ == self@,
    {
        match self {
            EvidenceReuseGovernanceEvent::PromotionCandidateRejected {
                event_index,
                candidate_key,
                actor,
            } => EvidenceReuseGovernanceEvent::PromotionCandidateRejected {
                event_index: *event_index,
                candidate_key: candidate_key.clone(),
                actor: actor.clone(),
            },
            EvidenceReuseGovernanceEvent::PromotionAccepted {
                event_index,
                candidate_key,
                payload,
                source_locator,
                actor,
                project_scope_stable_id,
            } => EvidenceReuseGovernanceEvent::PromotionAccepted {
                event_index: *event_index,
                candidate_key: candidate_key.clone(),
                payload: payload.clone(),
                source_locator: source_locator.clone(),
                actor: actor.clone(),
                project_scope_stable_id: project_scope_stable_id.clone(),
            },
            EvidenceReuseGovernanceEvent::ReusableInfluenceRevoked {
                event_index,
                record_id,
                actor,
            } => EvidenceReuseGovernanceEvent::ReusableInfluenceRevoked {
                event_index: *event_index,
                record_id: *record_id,
                actor: actor.clone(),
            },
            EvidenceReuseGovernanceEvent::ReusableInfluenceSuperseded {
                event_index,
                predecessor_record_id,
                successor_record_id,
                actor,
            } => EvidenceReuseGovernanceEvent::ReusableInfluenceSuperseded {
                event_index: *event_index,
                predecessor_record_id: *predecessor_record_id,
                successor_record_id: *successor_record_id,
                actor: actor.clone(),
            },
        }
    }
}

impl SameAs for EvidenceReuseGovernanceEvent {
    fn duplicate(&self) -> (r: Self) {
        self.clone()
    }

    fn same_as(&self, other: &Self) -> (r: bool) {
        match (self, other) {
            (
                EvidenceReuseGovernanceEvent::PromotionCandidateRejected {
                    event_index: i1,
                    candidate_key: k1,
                    actor: a1,
                },
                EvidenceReuseGovernanceEvent::PromotionCandidateRejected {
                    event_index: i2,
                    candidate_key: k2,
                    actor: a2,
                },
            ) => *i1 == *i2 && k1.same_as(k2) && a1.same_as(a2),
            (
                EvidenceReuseGovernanceEvent::PromotionAccepted {
                    event_index: i1,
                    candidate_key: k1,
                    payload: p1,
                    source_locator: l1,
                    actor: a1,
                    project_scope_stable_id: s1,
                },
                EvidenceReuseGovernanceEvent::PromotionAccepted {
                    event_index: i2,
                    candidate_key: k2,
                    payload: p2,
                    source_locator: l2,
                    actor: a2,
                    project_scope_stable_id: s2,
                },
            ) => *i1 == *i2 && k1.same_as(k2) && p1.same_as(p2) && l1.same_as(l2) && a1.same_as(a2)
                && s1.same_as(s2),
            (
                EvidenceReuseGovernanceEvent::ReusableInfluenceRevoked {
                    event_index: i1,
                    record_id: r1,
                    actor: a1,
                },
                EvidenceReuseGovernanceEvent::ReusableInfluenceRevoked {
                    event_index: i2,
                    record_id: r2,
                    actor: a2,
                },
            ) => *i1 == *i2 && *r1 == *r2 && a1.same_as(a2),
            (
                EvidenceReuseGovernanceEvent::ReusableInfluenceSuperseded {
                    event_index: i1,
                    predecessor_record_id: p1,
                    successor_record_id: s1,
                    actor: a1,
                },
                EvidenceReuseGovernanceEvent::ReusableInfluenceSuperseded {
                    event_index: i2,
                    predecessor_record_id: p2,
                    successor_record_id: s2,
                    actor: a2,
                },
            ) => *i1 == *i2 && *p1 == *p2 && *s1 == *s2 && a1.same_as(a2),
            _ => false,
        }
    }
}

/// The event index of a governance event, whatever its kind.
pub open spec fn governance_event_index_spec(e: EvidenceReuseGovernanceEventView) -> usize {
    match e {
        EvidenceReuseGovernanceEventView::PromotionCandidateRejected { event_index, .. } => event_index,
        EvidenceReuseGovernanceEventView::PromotionAccepted { event_index, .. } => event_index,
        EvidenceReuseGovernanceEventView::ReusableInfluenceRevoked { event_index, .. } => event_index,
        EvidenceReuseGovernanceEventView::ReusableInfluenceSuperseded { event_index, .. } => event_index,
    }
}

/// The event index of a governance event, whatever its kind.
pub fn governance_event_index(event: &EvidenceReuseGovernanceEvent) -> (r: usize)
    ensures
        r == governance_event_index_spec(event@),
{
    match event {
        EvidenceReuseGovernanceEvent::PromotionCandidateRejected { event_index, .. } => *event_index,
        EvidenceReuseGovernanceEvent::PromotionAccepted { event_index, .. } => *event_index,
        EvidenceReuseGovernanceEvent::ReusableInfluenceRevoked { event_index, .. } => *event_index,
        EvidenceReuseGovernanceEvent::ReusableInfluenceSuperseded { event_index, .. } => *event_index,
    }
}

/// Declared role and display label of the session authority.
pub struct EvidenceSessionAuthority {
    pub role_label: String,
    pub display_label: String,
}

/// The mathematical value of a [`EvidenceSessionAuthority`].
pub struct EvidenceSessionAuthorityView {
    pub role_label: Seq<char>,
    pub display_label: Seq<char>,
}

impl View for EvidenceSessionAuthority {
    type V = EvidenceSessionAuthorityView;

    open spec fn view(&self) -> EvidenceSessionAuthorityView {
        EvidenceSessionAuthorityView {
            role_label: self.role_label@,
            display_label: self.display_label@,
        }
    }
}

impl Clone for EvidenceSessionAuthority {
    fn clone(&self) -> (r: Self)
        ensures
            r@ == self@,
    {
        EvidenceSessionAuthority {
            role_label: self.role_label.clone(),
            display_label: self.display_label.clone(),
        }
    }
}

impl SameAs for EvidenceSessionAuthority {
    fn duplicate(&self) -> (r: Self) {
        self.clone()
    }

    fn same_as(&self, other: &Self) -> (r: bool) {
        self.role_label.same_as(&other.role_label)
            && self.display_label.same_as(&other.display_label)
    }
}

/// Declared basis for using the source material.
pub struct EvidenceMaterialUseDeclaration {
    pub basis: String,
}

/// The mathematical value of a [`EvidenceMaterialUseDeclaration`].
pub struct EvidenceMaterialUseDeclarationView {
    pub basis: Seq<char>,
}

impl View for EvidenceMaterialUseDeclaration {
    type V = EvidenceMaterialUseDeclarationView;

    open spec fn view(&self) -> EvidenceMaterialUseDeclarationView {
        EvidenceMaterialUseDeclarationView {
            basis: self.basis@,
        }
    }
}

impl Clone for EvidenceMaterialUseDeclaration {
    fn clone(&self) -> (r: Self)
        ensures
            r@ == self@,
    {
        EvidenceMaterialUseDeclaration {
            basis: self.basis.clone(),
        }
    }
}

impl SameAs for EvidenceMaterialUseDeclaration {
    fn duplicate(&self) -> (r: Self) {
        self.clone()
    }

    fn same_as(&self, other: &Self) -> (r: bool) {
        self.basis.same_as(&other.basis)
    }
}

/// One source transcript revision with its exact bytes.
pub struct EvidenceSourceRevision {
    pub revision_id: String,
    pub predecessor_revision_id: Option<String>,
    pub transcript_bytes: String,
}

/// The mathematical value of a [`EvidenceSourceRevision`].
pub struct EvidenceSourceRevisionView {
    pub revision_id: Seq<char>,
    pub predecessor_revision_id: Option<Seq<char>>,
    pub transcript_bytes: Seq<char>,
}

impl View for EvidenceSourceRevision {
    type V = EvidenceSourceRevisionView;

    open spec fn view(&self) -> EvidenceSourceRevisionView {
        EvidenceSourceRevisionView {
            revision_id: self.revision_id@,
            predecessor_revision_id: opt_view(self.predecessor_revision_id),
            transcript_bytes: self.transcript_bytes@,
        }
    }
}

impl Clone for EvidenceSourceRevision {
    fn clone(&self) -> (r: Self)
        ensures
            r@ == self@,
    {
        EvidenceSourceRevision {
            revision_id: self.revision_id.clone(),
            predecessor_revision_id: opt_duplicate(&self.predecessor_revision_id),
            transcript_bytes: self.transcript_bytes.clone(),
        }
    }
}

impl SameAs for EvidenceSourceRevision {
    fn duplicate(&self) -> (r: Self) {
        self.clone()
    }

    fn same_as(&self, other: &Self) -> (r: bool) {
        self.revision_id.same_as(&other.revision_id)
            && opt_same(&self.predecessor_revision_id, &other.predecessor_revision_id)
            && self.transcript_bytes.same_as(&other.transcript_bytes)
    }
}

/// Identity and version of one detector of an analysis configuration.
pub struct EvidenceDetectorIdentity {
    pub id: String,
    pub version: String,
}

/// The mathematical value of a [`EvidenceDetectorIdentity`].
pub struct EvidenceDetectorIdentityView {
    pub id: Seq<char>,
    pub version: Seq<char>,
}

impl View for EvidenceDetectorIdentity {
    type V = EvidenceDetectorIdentityView;

    open spec fn view(&self) -> EvidenceDetectorIdentityView {
        EvidenceDetectorIdentityView {
            id: self.id@,
            version: self.version@,
        }
    }
}

impl Clone for EvidenceDetectorIdentity {
    fn clone(&self) -> (r: Self)
        ensures
            r@ == self@,
    {
        EvidenceDetectorIdentity {
            id: self.id.clone(),
            version: self.version.clone(),
        }
    }
}

impl SameAs for EvidenceDetectorIdentity {
    fn duplicate(&self) -> (r: Self) {
        self.clone()
    }

    fn same_as(&self, other: &Self) -> (r: bool) {
        self.id.same_as(&other.id)
            && self.version.same_as(&other.version)
    }
}

/// Typed inputs of one analysis run over a source revision.
pub struct EvidenceAnalysisSnapshot {
    pub identity: String,
    pub source_revision_id: String,
    pub session_terms_identity: String,
    pub detectors: Vec<EvidenceDetectorIdentity>,
    pub detector_config_id: String,
    pub detector_config_version: String,
    pub algorithm_id: String,
    pub algorithm_version: String,
}

/// The mathematical value of a [`EvidenceAnalysisSnapshot`].
pub struct EvidenceAnalysisSnapshotView {
    pub identity: Seq<char>,
    pub source_revision_id: Seq<char>,
    pub session_terms_identity: Seq<char>,
    pub detectors: Seq<EvidenceDetectorIdentityView>,
    pub detector_config_id: Seq<char>,
    pub detector_config_version: Seq<char>,
    pub algorithm_id: Seq<char>,
    pub algorithm_version: Seq<char>,
}

impl View for EvidenceAnalysisSnapshot {
    type V = EvidenceAnalysisSnapshotView;

    open spec fn view(&self) -> EvidenceAnalysisSnapshotView {
        EvidenceAnalysisSnapshotView {
            identity: self.identity@,
            source_revision_id: self.source_revision_id@,
            session_terms_identity: self.session_terms_identity@,
            detectors: vec_view(self.detectors@),
            detector_config_id: self.detector_config_id@,
            detector_config_version: self.detector_config_version@,
            algorithm_id: self.algorithm_id@,
            algorithm_version: self.algorithm_version@,
        }
    }
}

impl Clone for EvidenceAnalysisSnapshot {
    fn clone(&self) -> (r: Self)
        ensures
            r@ == self@,
    {
        EvidenceAnalysisSnapshot {
            identity: self.identity.clone(),
            source_revision_id: self.source_revision_id.clone(),
            session_terms_identity: self.session_terms_identity.clone(),
            detectors: vec_duplicate(&self.detectors),
            detector_config_id: self.detector_config_id.clone(),
            detector_config_version: self.detector_config_version.clone(),
            algorithm_id: self.algorithm_id.clone(),
            algorithm_version: self.algorithm_version.clone(),
        }
    }
}

impl SameAs for EvidenceAnalysisSnapshot {
    fn duplicate(&self) -> (r: Self) {
        self.clone()
    }

    fn same_as(&self, other: &Self) -> (r: bool) {
        self.identity.same_as(&other.identity)
            && self.source_revision_id.same_as(&other.source_revision_id)
            && self.session_terms_identity.same_as(&other.session_terms_identity)
            && vec_same(&self.detectors, &other.detectors)
            && self.detector_config_id.same_as(&other.detector_config_id)
            && self.detector_config_version.same_as(&other.detector_config_version)
            && self.algorithm_id.same_as(&other.algorithm_id)
            && self.algorithm_version.same_as(&other.algorithm_version)
    }
}

/// A detector-raised review case anchored in a source revision.
pub struct EvidenceReviewCase {
    pub case_id: String,
    pub origin: String,
    pub observed_revision_id: String,
    pub anchor_revision_id: String,
    pub anchor_segment_position: usize,
    pub anchor_start_byte: usize,
    pub anchor_end_byte: usize,
    pub observed_source_bytes: String,
    pub alternative_count: usize,
}

/// The mathematical value of a [`EvidenceReviewCase`].
pub struct EvidenceReviewCaseView {
    pub case_id: Seq<char>,
    pub origin: Seq<char>,
    pub observed_revision_id: Seq<char>,
    pub anchor_revision_id: Seq<char>,
    pub anchor_segment_position: usize,
    pub anchor_start_byte: usize,
    pub anchor_end_byte: usize,
    pub observed_source_bytes: Seq<char>,
    pub alternative_count: usize,
}

impl View for EvidenceReviewCase {
    type V = EvidenceReviewCaseView;

    open spec fn view(&self) -> EvidenceReviewCaseView {
        EvidenceReviewCaseView {
            case_id: self.case_id@,
            origin: self.origin@,
            observed_revision_id: self.observed_revision_id@,
            anchor_revision_id: self.anchor_revision_id@,
            anchor_segment_position: self.anchor_segment_position,
            anchor_start_byte: self.anchor_start_byte,
            anchor_end_byte: self.anchor_end_byte,
            observed_source_bytes: self.observed_source_bytes@,
            alternative_count: self.alternative_count,
        }
    }
}

impl Clone for EvidenceReviewCase {
    fn clone(&self) -> (r: Self)
        ensures
            r@ == self@,
    {
        EvidenceReviewCase {
            case_id: self.case_id.clone(),
            origin: self.origin.clone(),
            observed_revision_id: self.observed_revision_id.clone(),
            anchor_revision_id: self.anchor_revision_id.clone(),
            anchor_segment_position: self.anchor_segment_position,
            anchor_start_byte: self.anchor_start_byte,
            anchor_end_byte: self.anchor_end_byte,
            observed_source_bytes: self.observed_source_bytes.clone(),
            alternative_count: self.alternative_count,
        }
    }
}

impl SameAs for EvidenceReviewCase {
    fn duplicate(&self) -> (r: Self) {
        self.clone()
    }

    fn same_as(&self, other: &Self) -> (r: bool) {
        self.case_id.same_as(&other.case_id)
            && self.origin.same_as(&other.origin)
            && self.observed_revision_id.same_as(&other.observed_revision_id)
            && self.anchor_revision_id.same_as(&other.anchor_revision_id)
            && self.anchor_segment_position == other.anchor_segment_position
            && self.anchor_start_byte == other.anchor_start_byte
            && self.anchor_end_byte == other.anchor_end_byte
            && self.observed_source_bytes.same_as(&other.observed_source_bytes)
            && self.alternative_count == other.alternative_count
    }
}

/// One recorded human review decision, as stored.
pub struct EvidenceReviewLedgerEvent {
    pub event_index: usize,
    pub case_id: String,
    pub observed_revision_id: String,
    pub action_kind: String,
    pub manual_replacement_bytes: Option<String>,
    pub alternative_index: Option<usize>,
    pub target_event_index: Option<usize>,
    pub provenance: String,
}

/// The mathematical value of a [`EvidenceReviewLedgerEvent`].
pub struct EvidenceReviewLedgerEventView {
    pub event_index: usize,
    pub case_id: Seq<char>,
    pub observed_revision_id: Seq<char>,
    pub action_kind: Seq<char>,
    pub manual_replacement_bytes: Option<Seq<char>>,
    pub alternative_index: Option<usize>,
    pub target_event_index: Option<usize>,
    pub provenance: Seq<char>,
}

impl View for EvidenceReviewLedgerEvent {
    type V = EvidenceReviewLedgerEventView;

    open spec fn view(&self) -> EvidenceReviewLedgerEventView {
        EvidenceReviewLedgerEventView {
            event_index: self.event_index,
            case_id: self.case_id@,
            observed_revision_id: self.observed_revision_id@,
            action_kind: self.action_kind@,
            manual_replacement_bytes: opt_view(self.manual_replacement_bytes),
            alternative_index: self.alternative_index,
            target_event_index: self.target_event_index,
            provenance: self.provenance@,
        }
    }
}

impl Clone for EvidenceReviewLedgerEvent {
    fn clone(&self) -> (r: Self)
        ensures
            r@ == self@,
    {
        EvidenceReviewLedgerEvent {
            event_index: self.event_index,
            case_id: self.case_id.clone(),
            observed_revision_id: self.observed_revision_id.clone(),
            action_kind: self.action_kind.clone(),
            manual_replacement_bytes: opt_duplicate(&self.manual_replacement_bytes),
            alternative_index: self.alternative_index,
            target_event_index: self.target_event_index,
            provenance: self.provenance.clone(),
        }
    }
}

impl SameAs for EvidenceReviewLedgerEvent {
    fn duplicate(&self) -> (r: Self) {
        self.clone()
    }

    fn same_as(&self, other: &Self) -> (r: bool) {
        self.event_index == other.event_index
            && self.case_id.same_as(&other.case_id)
            && self.observed_revision_id.same_as(&other.observed_revision_id)
            && self.action_kind.same_as(&other.action_kind)
            && opt_same(&self.manual_replacement_bytes, &other.manual_replacement_bytes)
            && opt_eq(self.alternative_index, other.alternative_index)
            && opt_eq(self.target_event_index, other.target_event_index)
            && self.provenance.same_as(&other.provenance)
    }
}

/// The last valid decision recorded for a review case.
pub struct EvidenceEffectiveReviewStatus {
    pub case_id: String,
    pub observed_revision_id: String,
    pub decision: EvidenceCorrectionDecision,
}

/// The mathematical value of a [`EvidenceEffectiveReviewStatus`].
pub struct EvidenceEffectiveReviewStatusView {
    pub case_id: Seq<char>,
    pub observed_revision_id: Seq<char>,
    pub decision: EvidenceCorrectionDecisionView,
}

impl View for EvidenceEffectiveReviewStatus {
    type V = EvidenceEffectiveReviewStatusView;

    open spec fn view(&self) -> EvidenceEffectiveReviewStatusView {
        EvidenceEffectiveReviewStatusView {
            case_id: self.case_id@,
            observed_revision_id: self.observed_revision_id@,
            decision: self.decision@,
        }
    }
}

impl Clone for EvidenceEffectiveReviewStatus {
    fn clone(&self) -> (r: Self)
        ensures
            r@ == self@,
    {
        EvidenceEffectiveReviewStatus {
            case_id: self.case_id.clone(),
            observed_revision_id: self.observed_revision_id.clone(),
            decision: self.decision.clone(),
        }
    }
}

impl SameAs for EvidenceEffectiveReviewStatus {
    fn duplicate(&self) -> (r: Self) {
        self.clone()
    }

    fn same_as(&self, other: &Self) -> (r: bool) {
        self.case_id.same_as(&other.case_id)
            && self.observed_revision_id.same_as(&other.observed_revision_id)
            && self.decision.same_as(&other.decision)
    }
}

/// The project scope a session belongs to.
pub struct EvidenceProjectScope {
    pub stable_id: String,
    pub display_name: String,
}

/// The mathematical value of a [`EvidenceProjectScope`].
pub struct EvidenceProjectScopeView {
    pub stable_id: Seq<char>,
    pub display_name: Seq<char>,
}

impl View for EvidenceProjectScope {
    type V = EvidenceProjectScopeView;

    open spec fn view(&self) -> EvidenceProjectScopeView {
        EvidenceProjectScopeView {
            stable_id: self.stable_id@,
            display_name: self.display_name@,
        }
    }
}

impl Clone for EvidenceProjectScope {
    fn clone(&self) -> (r: Self)
        ensures
            r@ == self@,
    {
        EvidenceProjectScope {
            stable_id: self.stable_id.clone(),
            display_name: self.display_name.clone(),
        }
    }
}

impl SameAs for EvidenceProjectScope {
    fn duplicate(&self) -> (r: Self) {
        self.clone()
    }

    fn same_as(&self, other: &Self) -> (r: bool) {
        self.stable_id.same_as(&other.stable_id)
            && self.display_name.same_as(&other.display_name)
    }
}

/// Locates the exact review decision a reusable correction comes from.
pub struct EvidenceSourceDecisionLocator {
    pub source_revision_id: String,
    pub source_analysis_snapshot_identity: String,
    pub source_review_case_id: String,
    pub review_ledger_position: usize,
    pub decision_digest: String,
    pub effective_at_ledger_length: usize,
}

/// The mathematical value of a [`EvidenceSourceDecisionLocator`].
pub struct EvidenceSourceDecisionLocatorView {
    pub source_revision_id: Seq<char>,
    pub source_analysis_snapshot_identity: Seq<char>,
    pub source_review_case_id: Seq<char>,
    pub review_ledger_position: usize,
    pub decision_digest: Seq<char>,
    pub effective_at_ledger_length: usize,
}

impl View for EvidenceSourceDecisionLocator {
    type V = EvidenceSourceDecisionLocatorView;

    open spec fn view(&self) -> EvidenceSourceDecisionLocatorView {
        EvidenceSourceDecisionLocatorView {
            source_revision_id: self.source_revision_id@,
            source_analysis_snapshot_identity: self.source_analysis_snapshot_identity@,
            source_review_case_id: self.source_review_case_id@,
            review_ledger_position: self.review_ledger_position,
            decision_digest: self.decision_digest@,
            effective_at_ledger_length: self.effective_at_ledger_length,
        }
    }
}

impl Clone for EvidenceSourceDecisionLocator {
    fn clone(&self) -> (r: Self)
        ensures
            r@ == self@,
    {
        EvidenceSourceDecisionLocator {
            source_revision_id: self.source_revision_id.clone(),
            source_analysis_snapshot_identity: self.source_analysis_snapshot_identity.clone(),
            source_review_case_id: self.source_review_case_id.clone(),
            review_ledger_position: self.review_ledger_position,
            decision_digest: self.decision_digest.clone(),
            effective_at_ledger_length: self.effective_at_ledger_length,
        }
    }
}

impl SameAs for EvidenceSourceDecisionLocator {
    fn duplicate(&self) -> (r: Self) {
        self.clone()
    }

    fn same_as(&self, other: &Self) -> (r: bool) {
        self.source_revision_id.same_as(&other.source_revision_id)
            && self.source_analysis_snapshot_identity.same_as(&other.source_analysis_snapshot_identity)
            && self.source_review_case_id.same_as(&other.source_review_case_id)
            && self.review_ledger_position == other.review_ledger_position
            && self.decision_digest.same_as(&other.decision_digest)
            && self.effective_at_ledger_length == other.effective_at_ledger_length
    }
}

/// Observed text and its confirmed replacement.
pub struct EvidenceExactReusableCorrection {
    pub observed_text: String,
    pub confirmed_replacement: String,
}

/// The mathematical value of a [`EvidenceExactReusableCorrection`].
pub struct EvidenceExactReusableCorrectionView {
    pub observed_text: Seq<char>,
    pub confirmed_replacement: Seq<char>,
}

impl View for EvidenceExactReusableCorrection {
    type V = EvidenceExactReusableCorrectionView;

    open spec fn view(&self) -> EvidenceExactReusableCorrectionView {
        EvidenceExactReusableCorrectionView {
            observed_text: self.observed_text@,
            confirmed_replacement: self.confirmed_replacement@,
        }
    }
}

impl Clone for EvidenceExactReusableCorrection {
    fn clone(&self) -> (r: Self)
        ensures
            r@ == self@,
    {
        EvidenceExactReusableCorrection {
            observed_text: self.observed_text.clone(),
            confirmed_replacement: self.confirmed_replacement.clone(),
        }
    }
}

impl SameAs for EvidenceExactReusableCorrection {
    fn duplicate(&self) -> (r: Self) {
        self.clone()
    }

    fn same_as(&self, other: &Self) -> (r: bool) {
        self.observed_text.same_as(&other.observed_text)
            && self.confirmed_replacement.same_as(&other.confirmed_replacement)
    }
}

/// Key of a candidate for reusable promotion.
pub struct EvidenceReuseCandidateKey {
    pub project_scope_stable_id: String,
    pub source_locator: EvidenceSourceDecisionLocator,
    pub exact_payload: EvidenceExactReusableCorrection,
}

/// The mathematical value of a [`EvidenceReuseCandidateKey`].
pub struct EvidenceReuseCandidateKeyView {
    pub project_scope_stable_id: Seq<char>,
    pub source_locator: EvidenceSourceDecisionLocatorView,
    pub exact_payload: EvidenceExactReusableCorrectionView,
}

impl View for EvidenceReuseCandidateKey {
    type V = EvidenceReuseCandidateKeyView;

    open spec fn view(&self) -> EvidenceReuseCandidateKeyView {
        EvidenceReuseCandidateKeyView {
            project_scope_stable_id: self.project_scope_stable_id@,
            source_locator: self.source_locator@,
            exact_payload: self.exact_payload@,
        }
    }
}

impl Clone for EvidenceReuseCandidateKey {
    fn clone(&self) -> (r: Self)
        ensures
            r@ == self@,
    {
        EvidenceReuseCandidateKey {
            project_scope_stable_id: self.project_scope_stable_id.clone(),
            source_locator: self.source_locator.clone(),
            exact_payload: self.exact_payload.clone(),
        }
    }
}

impl SameAs for EvidenceReuseCandidateKey {
    fn duplicate(&self) -> (r: Self) {
        self.clone()
    }

    fn same_as(&self, other: &Self) -> (r: bool) {
        self.project_scope_stable_id.same_as(&other.project_scope_stable_id)
            && self.source_locator.same_as(&other.source_locator)
            && self.exact_payload.same_as(&other.exact_payload)
    }
}

/// The actor that recorded a governance event.
pub struct EvidenceGovernanceActor {
    pub role_label: String,
    pub display_label: String,
}

/// The mathematical value of a [`EvidenceGovernanceActor`].
pub struct EvidenceGovernanceActorView {
    pub role_label: Seq<char>,
    pub display_label: Seq<char>,
}

impl View for EvidenceGovernanceActor {
    type V = EvidenceGovernanceActorView;

    open spec fn view(&self) -> EvidenceGovernanceActorView {
        EvidenceGovernanceActorView {
            role_label: self.role_label@,
            display_label: self.display_label@,
        }
    }
}

impl Clone for EvidenceGovernanceActor {
    fn clone(&self) -> (r: Self)
        ensures
            r@ == self@,
    {
        EvidenceGovernanceActor {
            role_label: self.role_label.clone(),
            display_label: self.display_label.clone(),
        }
    }
}

impl SameAs for EvidenceGovernanceActor {
    fn duplicate(&self) -> (r: Self) {
        self.clone()
    }

    fn same_as(&self, other: &Self) -> (r: bool) {
        self.role_label.same_as(&other.role_label)
            && self.display_label.same_as(&other.display_label)
    }
}

/// A promoted reusable correction and its lineage.
pub struct EvidenceReusableRecord {
    pub record_id: usize,
    pub project_scope_stable_id: String,
    pub observed_text: String,
    pub confirmed_replacement: String,
    pub source_locator: EvidenceSourceDecisionLocator,
    pub promotion_actor: EvidenceGovernanceActor,
    pub superseded_by: Option<usize>,
}

/// The mathematical value of a [`EvidenceReusableRecord`].
pub struct EvidenceReusableRecordView {
    pub record_id: usize,
    pub project_scope_stable_id: Seq<char>,
    pub observed_text: Seq<char>,
    pub confirmed_replacement: Seq<char>,
    pub source_locator: EvidenceSourceDecisionLocatorView,
    pub promotion_actor: EvidenceGovernanceActorView,
    pub superseded_by: Option<usize>,
}

impl View for EvidenceReusableRecord {
    type V = EvidenceReusableRecordView;

    open spec fn view(&self) -> EvidenceReusableRecordView {
        EvidenceReusableRecordView {
            record_id: self.record_id,
            project_scope_stable_id: self.project_scope_stable_id@,
            observed_text: self.observed_text@,
            confirmed_replacement: self.confirmed_replacement@,
            source_locator: self.source_locator@,
            promotion_actor: self.promotion_actor@,
            superseded_by: self.superseded_by,
        }
    }
}

impl Clone for EvidenceReusableRecord {
    fn clone(&self) -> (r: Self)
        ensures
            r@ == self@,
    {
        EvidenceReusableRecord {
            record_id: self.record_id,
            project_scope_stable_id: self.project_scope_stable_id.clone(),
            observed_text: self.observed_text.clone(),
            confirmed_replacement: self.confirmed_replacement.clone(),
            source_locator: self.source_locator.clone(),
            promotion_actor: self.promotion_actor.clone(),
            superseded_by: self.superseded_by,
        }
    }
}

impl SameAs for EvidenceReusableRecord {
    fn duplicate(&self) -> (r: Self) {
        self.clone()
    }

    fn same_as(&self, other: &Self) -> (r: bool) {
        self.record_id == other.record_id
            && self.project_scope_stable_id.same_as(&other.project_scope_stable_id)
            && self.observed_text.same_as(&other.observed_text)
            && self.confirmed_replacement.same_as(&other.confirmed_replacement)
            && self.source_locator.same_as(&other.source_locator)
            && self.promotion_actor.same_as(&other.promotion_actor)
            && opt_eq(self.superseded_by, other.superseded_by)
    }
}

/// Records that a reuse-enabled analysis ran against a given reusable snapshot and governance boundary.
pub struct EvidenceReuseEnabledAnalysisBinding {
    pub analysis_snapshot: EvidenceAnalysisSnapshot,
    pub analysis_snapshot_identity: String,
    pub reusable_snapshot_identity: String,
    pub governance_event_boundary: usize,
    pub projection_version: String,
}

/// The mathematical value of a [`EvidenceReuseEnabledAnalysisBinding`].
pub struct EvidenceReuseEnabledAnalysisBindingView {
    pub analysis_snapshot: EvidenceAnalysisSnapshotView,
    pub analysis_snapshot_identity: Seq<char>,
    pub reusable_snapshot_identity: Seq<char>,
    pub governance_event_boundary: usize,
    pub projection_version: Seq<char>,
}

impl View for EvidenceReuseEnabledAnalysisBinding {
    type V = EvidenceReuseEnabledAnalysisBindingView;

    open spec fn view(&self) -> EvidenceReuseEnabledAnalysisBindingView {
        EvidenceReuseEnabledAnalysisBindingView {
            analysis_snapshot: self.analysis_snapshot@,
            analysis_snapshot_identity: self.analysis_snapshot_identity@,
            reusable_snapshot_identity: self.reusable_snapshot_identity@,
            governance_event_boundary: self.governance_event_boundary,
            projection_version: self.projection_version@,
        }
    }
}

impl Clone for EvidenceReuseEnabledAnalysisBinding {
    fn clone(&self) -> (r: Self)
        ensures
            r@ == self@,
    {
        EvidenceReuseEnabledAnalysisBinding {
            analysis_snapshot: self.analysis_snapshot.clone(),
            analysis_snapshot_identity: self.analysis_snapshot_identity.clone(),
            reusable_snapshot_identity: self.reusable_snapshot_identity.clone(),
            governance_event_boundary: self.governance_event_boundary,
            projection_version: self.projection_version.clone(),
        }
    }
}

impl SameAs for EvidenceReuseEnabledAnalysisBinding {
    fn duplicate(&self) -> (r: Self) {
        self.clone()
    }

    fn same_as(&self, other: &Self) -> (r: bool) {
        self.analysis_snapshot.same_as(&other.analysis_snapshot)
            && self.analysis_snapshot_identity.same_as(&other.analysis_snapshot_identity)
            && self.reusable_snapshot_identity.same_as(&other.reusable_snapshot_identity)
            && self.governance_event_boundary == other.governance_event_boundary
            && self.projection_version.same_as(&other.projection_version)
    }
}

/// Durable acknowledgement boundaries and the writer token.
pub struct EvidenceDurableCommandTokens {
    pub review_ledger_head: usize,
    pub reuse_governance_head: usize,
    pub active_analysis_snapshot_identity: String,
    pub evidence_writer_token: String,
}

/// The mathematical value of a [`EvidenceDurableCommandTokens`].
pub struct EvidenceDurableCommandTokensView {
    pub review_ledger_head: usize,
    pub reuse_governance_head: usize,
    pub active_analysis_snapshot_identity: Seq<char>,
    pub evidence_writer_token: Seq<char>,
}

impl View for EvidenceDurableCommandTokens {
    type V = EvidenceDurableCommandTokensView;

    open spec fn view(&self) -> EvidenceDurableCommandTokensView {
        EvidenceDurableCommandTokensView {
            review_ledger_head: self.review_ledger_head,
            reuse_governance_head: self.reuse_governance_head,
            active_analysis_snapshot_identity: self.active_analysis_snapshot_identity@,
            evidence_writer_token: self.evidence_writer_token@,
        }
    }
}

impl Clone for EvidenceDurableCommandTokens {
    fn clone(&self) -> (r: Self)
        ensures
            r@ == self@,
    {
        EvidenceDurableCommandTokens {
            review_ledger_head: self.review_ledger_head,
            reuse_governance_head: self.reuse_governance_head,
            active_analysis_snapshot_identity: self.active_analysis_snapshot_identity.clone(),
            evidence_writer_token: self.evidence_writer_token.clone(),
        }
    }
}

impl SameAs for EvidenceDurableCommandTokens {
    fn duplicate(&self) -> (r: Self) {
        self.clone()
    }

    fn same_as(&self, other: &Self) -> (r: bool) {
        self.review_ledger_head == other.review_ledger_head
            && self.reuse_governance_head == other.reuse_governance_head
            && self.active_analysis_snapshot_identity.same_as(&other.active_analysis_snapshot_identity)
            && self.evidence_writer_token.same_as(&other.evidence_writer_token)
    }
}

/// Mechanism-independent persistence evidence state.
pub struct CurrentContractState {
    pub session_id: String,
    pub duplicated_from_session_id: Option<String>,
    pub session_authority: EvidenceSessionAuthority,
    pub material_use_declaration: EvidenceMaterialUseDeclaration,
    pub source_revisions: Vec<EvidenceSourceRevision>,
    pub session_terms_identity: String,
    pub analysis_snapshots: Vec<EvidenceAnalysisSnapshot>,
    pub review_cases: Vec<EvidenceReviewCase>,
    pub review_ledger_events: Vec<EvidenceReviewLedgerEvent>,
    pub effective_review_status: Vec<EvidenceEffectiveReviewStatus>,
    pub project_scope: EvidenceProjectScope,
    pub reuse_governance_events: Vec<EvidenceReuseGovernanceEvent>,
    pub effective_reusable_records: Vec<EvidenceReusableRecord>,
    pub historical_reusable_records: Vec<EvidenceReusableRecord>,
    pub reusable_snapshot_identity: String,
    pub reuse_enabled_analysis_binding: Option<EvidenceReuseEnabledAnalysisBinding>,
    pub derived_queue_projection: String,
    pub durable_command_tokens: EvidenceDurableCommandTokens,
}

/// The mathematical value of a [`CurrentContractState`].
pub struct CurrentContractStateView {
    pub session_id: Seq<char>,
    pub duplicated_from_session_id: Option<Seq<char>>,
    pub session_authority: EvidenceSessionAuthorityView,
    pub material_use_declaration: EvidenceMaterialUseDeclarationView,
    pub source_revisions: Seq<EvidenceSourceRevisionView>,
    pub session_terms_identity: Seq<char>,
    pub analysis_snapshots: Seq<EvidenceAnalysisSnapshotView>,
    pub review_cases: Seq<EvidenceReviewCaseView>,
    pub review_ledger_events: Seq<EvidenceReviewLedgerEventView>,
    pub effective_review_status: Seq<EvidenceEffectiveReviewStatusView>,
    pub project_scope: EvidenceProjectScopeView,
    pub reuse_governance_events: Seq<EvidenceReuseGovernanceEventView>,
    pub effective_reusable_records: Seq<EvidenceReusableRecordView>,
    pub historical_reusable_records: Seq<EvidenceReusableRecordView>,
    pub reusable_snapshot_identity: Seq<char>,
    pub reuse_enabled_analysis_binding: Option<EvidenceReuseEnabledAnalysisBindingView>,
    pub derived_queue_projection: Seq<char>,
    pub durable_command_tokens: EvidenceDurableCommandTokensView,
}

impl View for CurrentContractState {
    type V = CurrentContractStateView;

    open spec fn view(&self) -> CurrentContractStateView {
        CurrentContractStateView {
            session_id: self.session_id@,
            duplicated_from_session_id: opt_view(self.duplicated_from_session_id),
            session_authority: self.session_authority@,
            material_use_declaration: self.material_use_declaration@,
            source_revisions: vec_view(self.source_revisions@),
            session_terms_identity: self.session_terms_identity@,
            analysis_snapshots: vec_view(self.analysis_snapshots@),
            review_cases: vec_view(self.review_cases@),
            review_ledger_events: vec_view(self.review_ledger_events@),
            effective_review_status: vec_view(self.effective_review_status@),
            project_scope: self.project_scope@,
            reuse_governance_events: vec_view(self.reuse_governance_events@),
            effective_reusable_records: vec_view(self.effective_reusable_records@),
            historical_reusable_records: vec_view(self.historical_reusable_records@),
            reusable_snapshot_identity: self.reusable_snapshot_identity@,
            reuse_enabled_analysis_binding: opt_view(self.reuse_enabled_analysis_binding),
            derived_queue_projection: self.derived_queue_projection@,
            durable_command_tokens: self.durable_command_tokens@,
        }
    }
}

impl Clone for CurrentContractState {
    fn clone(&self) -> (r: Self)
        ensures
            r@ == self@,
    {
        CurrentContractState {
            session_id: self.session_id.clone(),
            duplicated_from_session_id: opt_duplicate(&self.duplicated_from_session_id),
            session_authority: self.session_authority.clone(),
            material_use_declaration: self.material_use_declaration.clone(),
            source_revisions: vec_duplicate(&self.source_revisions),
            session_terms_identity: self.session_terms_identity.clone(),
            analysis_snapshots: vec_duplicate(&self.analysis_snapshots),
            review_cases: vec_duplicate(&self.review_cases),
            review_ledger_events: vec_duplicate(&self.review_ledger_events),
            effective_review_status: vec_duplicate(&self.effective_review_status),
            project_scope: self.project_scope.clone(),
            reuse_governance_events: vec_duplicate(&self.reuse_governance_events),
            effective_reusable_records: vec_duplicate(&self.effective_reusable_records),
            historical_reusable_records: vec_duplicate(&self.historical_reusable_records),
            reusable_snapshot_identity: self.reusable_snapshot_identity.clone(),
            reuse_enabled_analysis_binding: opt_duplicate(&self.reuse_enabled_analysis_binding),
            derived_queue_projection: self.derived_queue_projection.clone(),
            durable_command_tokens: self.durable_command_tokens.clone(),
        }
    }
}

impl SameAs for CurrentContractState {
    fn duplicate(&self) -> (r: Self) {
        self.clone()
    }

    fn same_as(&self, other: &Self) -> (r: bool) {
        self.session_id.same_as(&other.session_id)
            && opt_same(&self.duplicated_from_session_id, &other.duplicated_from_session_id)
            && self.session_authority.same_as(&other.session_authority)
            && self.material_use_declaration.same_as(&other.material_use_declaration)
            && vec_same(&self.source_revisions, &other.source_revisions)
            && self.session_terms_identity.same_as(&other.session_terms_identity)
            && vec_same(&self.analysis_snapshots, &other.analysis_snapshots)
            && vec_same(&self.review_cases, &other.review_cases)
            && vec_same(&self.review_ledger_events, &other.review_ledger_events)
            && vec_same(&self.effective_review_status, &other.effective_review_status)
            && self.project_scope.same_as(&other.project_scope)
            && vec_same(&self.reuse_governance_events, &other.reuse_governance_events)
            && vec_same(&self.effective_reusable_records, &other.effective_reusable_records)
            && vec_same(&self.historical_reusable_records, &other.historical_reusable_records)
            && self.reusable_snapshot_identity.same_as(&other.reusable_snapshot_identity)
            && opt_same(&self.reuse_enabled_analysis_binding, &other.reuse_enabled_analysis_binding)
            && self.derived_queue_projection.same_as(&other.derived_queue_projection)
            && self.durable_command_tokens.same_as(&other.durable_command_tokens)
    }
}

/// A named fixture variant and its expected state.
pub struct CurrentContractFixture {
    pub fixture_id: String,
    pub fixture_version: String,
    pub variant_id: String,
    pub scale: CurrentContractFixtureScale,
    pub expected_state: CurrentContractState,
}

/// The mathematical value of a [`CurrentContractFixture`].
pub struct CurrentContractFixtureView {
    pub fixture_id: Seq<char>,
    pub fixture_version: Seq<char>,
    pub variant_id: Seq<char>,
    pub scale: CurrentContractFixtureScale,
    pub expected_state: CurrentContractStateView,
}

impl View for CurrentContractFixture {
    type V = CurrentContractFixtureView;

    open spec fn view(&self) -> CurrentContractFixtureView {
        CurrentContractFixtureView {
            fixture_id: self.fixture_id@,
            fixture_version: self.fixture_version@,
            variant_id: self.variant_id@,
            scale: self.scale,
            expected_state: self.expected_state@,
        }
    }
}

impl Clone for CurrentContractFixture {
    fn clone(&self) -> (r: Self)
        ensures
            r@ == self@,
    {
        CurrentContractFixture {
            fixture_id: self.fixture_id.clone(),
            fixture_version: self.fixture_version.clone(),
            variant_id: self.variant_id.clone(),
            scale: self.scale,
            expected_state: self.expected_state.clone(),
        }
    }
}

impl SameAs for CurrentContractFixture {
    fn duplicate(&self) -> (r: Self) {
        self.clone()
    }

    fn same_as(&self, other: &Self) -> (r: bool) {
        self.fixture_id.same_as(&other.fixture_id)
            && self.fixture_version.same_as(&other.fixture_version)
            && self.variant_id.same_as(&other.variant_id)
            && self.scale == other.scale
            && self.expected_state.same_as(&other.expected_state)
    }
}

/// The canonical (authoritative) part of a state, which fingerprints and comparisons use.
pub struct CurrentContractCanonicalProjection {
    pub session_id: String,
    pub duplicated_from_session_id: Option<String>,
    pub session_authority: EvidenceSessionAuthority,
    pub material_use_declaration: EvidenceMaterialUseDeclaration,
    pub source_revisions: Vec<EvidenceSourceRevision>,
    pub session_terms_identity: String,
    pub analysis_snapshots: Vec<EvidenceAnalysisSnapshot>,
    pub review_cases: Vec<EvidenceReviewCase>,
    pub review_ledger_events: Vec<EvidenceReviewLedgerEvent>,
    pub project_scope_stable_id: String,
    pub reuse_governance_events: Vec<EvidenceReuseGovernanceEvent>,
    pub reuse_enabled_analysis_binding: Option<EvidenceReuseEnabledAnalysisBinding>,
    pub durable_command_tokens: EvidenceDurableCommandTokens,
}

/// The mathematical value of a [`CurrentContractCanonicalProjection`].
pub struct CurrentContractCanonicalProjectionView {
    pub session_id: Seq<char>,
    pub duplicated_from_session_id: Option<Seq<char>>,
    pub session_authority: EvidenceSessionAuthorityView,
    pub material_use_declaration: EvidenceMaterialUseDeclarationView,
    pub source_revisions: Seq<EvidenceSourceRevisionView>,
    pub session_terms_identity: Seq<char>,
    pub analysis_snapshots: Seq<EvidenceAnalysisSnapshotView>,
    pub review_cases: Seq<EvidenceReviewCaseView>,
    pub review_ledger_events: Seq<EvidenceReviewLedgerEventView>,
    pub project_scope_stable_id: Seq<char>,
    pub reuse_governance_events: Seq<EvidenceReuseGovernanceEventView>,
    pub reuse_enabled_analysis_binding: Option<EvidenceReuseEnabledAnalysisBindingView>,
    pub durable_command_tokens: EvidenceDurableCommandTokensView,
}

impl View for CurrentContractCanonicalProjection {
    type V = CurrentContractCanonicalProjectionView;

    open spec fn view(&self) -> CurrentContractCanonicalProjectionView {
        CurrentContractCanonicalProjectionView {
            session_id: self.session_id@,
            duplicated_from_session_id: opt_view(self.duplicated_from_session_id),
            session_authority: self.session_authority@,
            material_use_declaration: self.material_use_declaration@,
            source_revisions: vec_view(self.source_revisions@),
            session_terms_identity: self.session_terms_identity@,
            analysis_snapshots: vec_view(self.analysis_snapshots@),
            review_cases: vec_view(self.review_cases@),
            review_ledger_events: vec_view(self.review_ledger_events@),
            project_scope_stable_id: self.project_scope_stable_id@,
            reuse_governance_events: vec_view(self.reuse_governance_events@),
            reuse_enabled_analysis_binding: opt_view(self.reuse_enabled_analysis_binding),
            durable_command_tokens: self.durable_command_tokens@,
        }
    }
}

impl Clone for CurrentContractCanonicalProjection {
    fn clone(&self) -> (r: Self)
        ensures
            r@ == self@,
    {
        CurrentContractCanonicalProjection {
            session_id: self.session_id.clone(),
            duplicated_from_session_id: opt_duplicate(&self.duplicated_from_session_id),
            session_authority: self.session_authority.clone(),
            material_use_declaration: self.material_use_declaration.clone(),
            source_revisions: vec_duplicate(&self.source_revisions),
            session_terms_identity: self.session_terms_identity.clone(),
            analysis_snapshots: vec_duplicate(&self.analysis_snapshots),
            review_cases: vec_duplicate(&self.review_cases),
            review_ledger_events: vec_duplicate(&self.review_ledger_events),
            project_scope_stable_id: self.project_scope_stable_id.clone(),
            reuse_governance_events: vec_duplicate(&self.reuse_governance_events),
            reuse_enabled_analysis_binding: opt_duplicate(&self.reuse_enabled_analysis_binding),
            durable_command_tokens: self.durable_command_tokens.clone(),
        }
    }
}

impl SameAs for CurrentContractCanonicalProjection {
    fn duplicate(&self) -> (r: Self) {
        self.clone()
    }

    fn same_as(&self, other: &Self) -> (r: bool) {
        self.session_id.same_as(&other.session_id)
            && opt_same(&self.duplicated_from_session_id, &other.duplicated_from_session_id)
            && self.session_authority.same_as(&other.session_authority)
            && self.material_use_declaration.same_as(&other.material_use_declaration)
            && vec_same(&self.source_revisions, &other.source_revisions)
            && self.session_terms_identity.same_as(&other.session_terms_identity)
            && vec_same(&self.analysis_snapshots, &other.analysis_snapshots)
            && vec_same(&self.review_cases, &other.review_cases)
            && vec_same(&self.review_ledger_events, &other.review_ledger_events)
            && self.project_scope_stable_id.same_as(&other.project_scope_stable_id)
            && vec_same(&self.reuse_governance_events, &other.reuse_governance_events)
            && opt_same(&self.reuse_enabled_analysis_binding, &other.reuse_enabled_analysis_binding)
            && self.durable_command_tokens.same_as(&other.durable_command_tokens)
    }
}

/// The derived (rebuildable) part of a state, folded from canonical history.
pub struct DerivedContractProjection {
    pub effective_review_status: Vec<EvidenceEffectiveReviewStatus>,
    pub rejected_candidate_identities: Vec<String>,
    pub effective_reusable_records: Vec<EvidenceReusableRecord>,
    pub historical_reusable_records: Vec<EvidenceReusableRecord>,
    pub reusable_snapshot_identity: String,
    pub derived_queue_projection: String,
}

/// The mathematical value of a [`DerivedContractProjection`].
pub struct DerivedContractProjectionView {
    pub effective_review_status: Seq<EvidenceEffectiveReviewStatusView>,
    pub rejected_candidate_identities: Seq<Seq<char>>,
    pub effective_reusable_records: Seq<EvidenceReusableRecordView>,
    pub historical_reusable_records: Seq<EvidenceReusableRecordView>,
    pub reusable_snapshot_identity: Seq<char>,
    pub derived_queue_projection: Seq<char>,
}

impl View for DerivedContractProjection {
    type V = DerivedContractProjectionView;

    open spec fn view(&self) -> DerivedContractProjectionView {
        DerivedContractProjectionView {
            effective_review_status: vec_view(self.effective_review_status@),
            rejected_candidate_identities: vec_view(self.rejected_candidate_identities@),
            effective_reusable_records: vec_view(self.effective_reusable_records@),
            historical_reusable_records: vec_view(self.historical_reusable_records@),
            reusable_snapshot_identity: self.reusable_snapshot_identity@,
            derived_queue_projection: self.derived_queue_projection@,
        }
    }
}

impl Clone for DerivedContractProjection {
    fn clone(&self) -> (r: Self)
        ensures
            r@ == self@,
    {
        DerivedContractProjection {
            effective_review_status: vec_duplicate(&self.effective_review_status),
            rejected_candidate_identities: vec_duplicate(&self.rejected_candidate_identities),
            effective_reusable_records: vec_duplicate(&self.effective_reusable_records),
            historical_reusable_records: vec_duplicate(&self.historical_reusable_records),
            reusable_snapshot_identity: self.reusable_snapshot_identity.clone(),
            derived_queue_projection: self.derived_queue_projection.clone(),
        }
    }
}

impl SameAs for DerivedContractProjection {
    fn duplicate(&self) -> (r: Self) {
        self.clone()
    }

    fn same_as(&self, other: &Self) -> (r: bool) {
        vec_same(&self.effective_review_status, &other.effective_review_status)
            && vec_same(&self.rejected_candidate_identities, &other.rejected_candidate_identities)
            && vec_same(&self.effective_reusable_records, &other.effective_reusable_records)
            && vec_same(&self.historical_reusable_records, &other.historical_reusable_records)
            && self.reusable_snapshot_identity.same_as(&other.reusable_snapshot_identity)
            && self.derived_queue_projection.same_as(&other.derived_queue_projection)
    }
}


/// The sort key of a text: its characters, as Rust orders strings.
pub open spec fn str_key_spec(s: Seq<char>) -> Seq<u64> {
    s.map_values(|c: char| c as u64)
}

/// The sort key of an index.
pub open spec fn index_key_spec(n: usize) -> Seq<u64> {
    seq![n as u64]
}

/// The sort key of a text.
pub fn str_key(s: &String) -> (k: Vec<u64>)
    ensures
        k@ == str_key_spec(s@),
{
    let chars = crate::text::chars_of(s.as_str());
    let mut k: Vec<u64> = Vec::new();
    let mut i: usize = 0;
    while i < chars.len()
        invariant
            i <= chars.len(),
            chars@ == s@,
            k@ == str_key_spec(chars@.subrange(0, i as int)),
        decreases chars.len() - i,
    {
        k.push(chars[i] as u64);
        i = i + 1;
        proof {
            assert(k@ =~= str_key_spec(chars@.subrange(0, i as int)));
        }
    }
    proof {
        assert(chars@.subrange(0, chars@.len() as int) =~= chars@);
    }
    k
}

/// The sort key of an index.
pub fn index_key(n: usize) -> (k: Vec<u64>)
    ensures
        k@ == index_key_spec(n),
{
    let mut k: Vec<u64> = Vec::new();
    k.push(n as u64);
    proof {
        assert(k@ =~= index_key_spec(n));
    }
    k
}


/// Keys that order source revisions by revision id.
pub open spec fn sort_revisions_keys(s: Seq<EvidenceSourceRevisionView>) -> Seq<Seq<u64>> {
    s.map_values(|x: EvidenceSourceRevisionView| str_key_spec(x.revision_id))
}

/// Stably sorts by the key that [`sort_revisions_keys`] gives.
pub fn sort_revisions(v: Vec<EvidenceSourceRevision>) -> (r: Vec<EvidenceSourceRevision>)
    ensures
        vec_view(r@) == sort_by_keys_spec(sort_revisions_keys(vec_view(v@)), vec_view(v@)),
{
    let mut keys: Vec<Vec<u64>> = Vec::new();
    let mut i: usize = 0;
    while i < v.len()
        invariant
            i <= v.len(),
            keys@.len() == i,
            forall|j: int| 0 <= j < i ==> #[trigger] keys@[j]@ == sort_revisions_keys(vec_view(v@))[j],
        decreases v.len() - i,
    {
        let x = &v[i];
        keys.push(str_key(&x.revision_id));
        i = i + 1;
    }
    let ghost items = v@;
    proof {
        assert(keys_view(keys@) =~= sort_revisions_keys(vec_view(v@)));
        lemma_sort_by_keys_map(keys_view(keys@), items, |x: EvidenceSourceRevision| x@);
        assert(vec_view(items) =~= items.map_values(|x: EvidenceSourceRevision| x@));
    }
    let r = sort_by_keys(v, keys);
    proof {
        assert(vec_view(r@) =~= r@.map_values(|x: EvidenceSourceRevision| x@));
    }
    r
}


/// Keys that order analysis snapshots by identity.
pub open spec fn sort_snapshots_keys(s: Seq<EvidenceAnalysisSnapshotView>) -> Seq<Seq<u64>> {
    s.map_values(|x: EvidenceAnalysisSnapshotView| str_key_spec(x.identity))
}

/// Stably sorts by the key that [`sort_snapshots_keys`] gives.
pub fn sort_snapshots(v: Vec<EvidenceAnalysisSnapshot>) -> (r: Vec<EvidenceAnalysisSnapshot>)
    ensures
        vec_view(r@) == sort_by_keys_spec(sort_snapshots_keys(vec_view(v@)), vec_view(v@)),
{
    let mut keys: Vec<Vec<u64>> = Vec::new();
    let mut i: usize = 0;
    while i < v.len()
        invariant
            i <= v.len(),
            keys@.len() == i,
            forall|j: int| 0 <= j < i ==> #[trigger] keys@[j]@ == sort_snapshots_keys(vec_view(v@))[j],
        decreases v.len() - i,
    {
        let x = &v[i];
        keys.push(str_key(&x.identity));
        i = i + 1;
    }
    let ghost items = v@;
    proof {
        assert(keys_view(keys@) =~= sort_snapshots_keys(vec_view(v@)));
        lemma_sort_by_keys_map(keys_view(keys@), items, |x: EvidenceAnalysisSnapshot| x@);
        assert(vec_view(items) =~= items.map_values(|x: EvidenceAnalysisSnapshot| x@));
    }
    let r = sort_by_keys(v, keys);
    proof {
        assert(vec_view(r@) =~= r@.map_values(|x: EvidenceAnalysisSnapshot| x@));
    }
    r
}


/// Keys that order review cases by case id.
pub open spec fn sort_review_cases_keys(s: Seq<EvidenceReviewCaseView>) -> Seq<Seq<u64>> {
    s.map_values(|x: EvidenceReviewCaseView| str_key_spec(x.case_id))
}

/// Stably sorts by the key that [`sort_review_cases_keys`] gives.
pub fn sort_review_cases(v: Vec<EvidenceReviewCase>) -> (r: Vec<EvidenceReviewCase>)
    ensures
        vec_view(r@) == sort_by_keys_spec(sort_review_cases_keys(vec_view(v@)), vec_view(v@)),
{
    let mut keys: Vec<Vec<u64>> = Vec::new();
    let mut i: usize = 0;
    while i < v.len()
        invariant
            i <= v.len(),
            keys@.len() == i,
            forall|j: int| 0 <= j < i ==> #[trigger] keys@[j]@ == sort_review_cases_keys(vec_view(v@))[j],
        decreases v.len() - i,
    {
        let x = &v[i];
        keys.push(str_key(&x.case_id));
        i = i + 1;
    }
    let ghost items = v@;
    proof {
        assert(keys_view(keys@) =~= sort_review_cases_keys(vec_view(v@)));
        lemma_sort_by_keys_map(keys_view(keys@), items, |x: EvidenceReviewCase| x@);
        assert(vec_view(items) =~= items.map_values(|x: EvidenceReviewCase| x@));
    }
    let r = sort_by_keys(v, keys);
    proof {
        assert(vec_view(r@) =~= r@.map_values(|x: EvidenceReviewCase| x@));
    }
    r
}


/// Keys that order review ledger events by event index.
pub open spec fn sort_ledger_events_keys(s: Seq<EvidenceReviewLedgerEventView>) -> Seq<Seq<u64>> {
    s.map_values(|x: EvidenceReviewLedgerEventView| index_key_spec(x.event_index))
}

/// Stably sorts by the key that [`sort_ledger_events_keys`] gives.
pub fn sort_ledger_events(v: Vec<EvidenceReviewLedgerEvent>) -> (r: Vec<EvidenceReviewLedgerEvent>)
    ensures
        vec_view(r@) == sort_by_keys_spec(sort_ledger_events_keys(vec_view(v@)), vec_view(v@)),
{
    let mut keys: Vec<Vec<u64>> = Vec::new();
    let mut i: usize = 0;
    while i < v.len()
        invariant
            i <= v.len(),
            keys@.len() == i,
            forall|j: int| 0 <= j < i ==> #[trigger] keys@[j]@ == sort_ledger_events_keys(vec_view(v@))[j],
        decreases v.len() - i,
    {
        let x = &v[i];
        keys.push(index_key(x.event_index));
        i = i + 1;
    }
    let ghost items = v@;
    proof {
        assert(keys_view(keys@) =~= sort_ledger_events_keys(vec_view(v@)));
        lemma_sort_by_keys_map(keys_view(keys@), items, |x: EvidenceReviewLedgerEvent| x@);
        assert(vec_view(items) =~= items.map_values(|x: EvidenceReviewLedgerEvent| x@));
    }
    let r = sort_by_keys(v, keys);
    proof {
        assert(vec_view(r@) =~= r@.map_values(|x: EvidenceReviewLedgerEvent| x@));
    }
    r
}


/// Keys that order effective review status by case id.
pub open spec fn sort_review_status_keys(s: Seq<EvidenceEffectiveReviewStatusView>) -> Seq<Seq<u64>> {
    s.map_values(|x: EvidenceEffectiveReviewStatusView| str_key_spec(x.case_id))
}

/// Stably sorts by the key that [`sort_review_status_keys`] gives.
pub fn sort_review_status(v: Vec<EvidenceEffectiveReviewStatus>) -> (r: Vec<EvidenceEffectiveReviewStatus>)
    ensures
        vec_view(r@) == sort_by_keys_spec(sort_review_status_keys(vec_view(v@)), vec_view(v@)),
{
    let mut keys: Vec<Vec<u64>> = Vec::new();
    let mut i: usize = 0;
    while i < v.len()
        invariant
            i <= v.len(),
            keys@.len() == i,
            forall|j: int| 0 <= j < i ==> #[trigger] keys@[j]@ == sort_review_status_keys(vec_view(v@))[j],
        decreases v.len() - i,
    {
        let x = &v[i];
        keys.push(str_key(&x.case_id));
        i = i + 1;
    }
    let ghost items = v@;
    proof {
        assert(keys_view(keys@) =~= sort_review_status_keys(vec_view(v@)));
        lemma_sort_by_keys_map(keys_view(keys@), items, |x: EvidenceEffectiveReviewStatus| x@);
        assert(vec_view(items) =~= items.map_values(|x: EvidenceEffectiveReviewStatus| x@));
    }
    let r = sort_by_keys(v, keys);
    proof {
        assert(vec_view(r@) =~= r@.map_values(|x: EvidenceEffectiveReviewStatus| x@));
    }
    r
}


/// Keys that order governance events by event index.
pub open spec fn sort_governance_events_keys(s: Seq<EvidenceReuseGovernanceEventView>) -> Seq<Seq<u64>> {
    s.map_values(|x: EvidenceReuseGovernanceEventView| index_key_spec(governance_event_index_spec(x)))
}

/// Stably sorts by the key that [`sort_governance_events_keys`] gives.
pub fn sort_governance_events(v: Vec<EvidenceReuseGovernanceEvent>) -> (r: Vec<EvidenceReuseGovernanceEvent>)
    ensures
        vec_view(r@) == sort_by_keys_spec(sort_governance_events_keys(vec_view(v@)), vec_view(v@)),
{
    let mut keys: Vec<Vec<u64>> = Vec::new();
    let mut i: usize = 0;
    while i < v.len()
        invariant
            i <= v.len(),
            keys@.len() == i,
            forall|j: int| 0 <= j < i ==> #[trigger] keys@[j]@ == sort_governance_events_keys(vec_view(v@))[j],
        decreases v.len() - i,
    {
        let x = &v[i];
        keys.push(index_key(governance_event_index(x)));
        i = i + 1;
    }
    let ghost items = v@;
    proof {
        assert(keys_view(keys@) =~= sort_governance_events_keys(vec_view(v@)));
        lemma_sort_by_keys_map(keys_view(keys@), items, |x: EvidenceReuseGovernanceEvent| x@);
        assert(vec_view(items) =~= items.map_values(|x: EvidenceReuseGovernanceEvent| x@));
    }
    let r = sort_by_keys(v, keys);
    proof {
        assert(vec_view(r@) =~= r@.map_values(|x: EvidenceReuseGovernanceEvent| x@));
    }
    r
}


/// Keys that order reusable records by record id.
pub open spec fn sort_records_keys(s: Seq<EvidenceReusableRecordView>) -> Seq<Seq<u64>> {
    s.map_values(|x: EvidenceReusableRecordView| index_key_spec(x.record_id))
}

/// Stably sorts by the key that [`sort_records_keys`] gives.
pub fn sort_records(v: Vec<EvidenceReusableRecord>) -> (r: Vec<EvidenceReusableRecord>)
    ensures
        vec_view(r@) == sort_by_keys_spec(sort_records_keys(vec_view(v@)), vec_view(v@)),
{
    let mut keys: Vec<Vec<u64>> = Vec::new();
    let mut i: usize = 0;
    while i < v.len()
        invariant
            i <= v.len(),
            keys@.len() == i,
            forall|j: int| 0 <= j < i ==> #[trigger] keys@[j]@ == sort_records_keys(vec_view(v@))[j],
        decreases v.len() - i,
    {
        let x = &v[i];
        keys.push(index_key(x.record_id));
        i = i + 1;
    }
    let ghost items = v@;
    proof {
        assert(keys_view(keys@) =~= sort_records_keys(vec_view(v@)));
        lemma_sort_by_keys_map(keys_view(keys@), items, |x: EvidenceReusableRecord| x@);
        assert(vec_view(items) =~= items.map_values(|x: EvidenceReusableRecord| x@));
    }
    let r = sort_by_keys(v, keys);
    proof {
        assert(vec_view(r@) =~= r@.map_values(|x: EvidenceReusableRecord| x@));
    }
    r
}


/// The normalized form of a state: every collection sorted by its identity
/// (revision id, snapshot identity, case id, event index or record id), stably.
pub open spec fn normalize_view(v: CurrentContractStateView) -> CurrentContractStateView {
    CurrentContractStateView {
        source_revisions: sort_by_keys_spec(sort_revisions_keys(v.source_revisions), v.source_revisions),
        analysis_snapshots: sort_by_keys_spec(sort_snapshots_keys(v.analysis_snapshots), v.analysis_snapshots),
        review_cases: sort_by_keys_spec(sort_review_cases_keys(v.review_cases), v.review_cases),
        review_ledger_events: sort_by_keys_spec(
            sort_ledger_events_keys(v.review_ledger_events),
            v.review_ledger_events,
        ),
        effective_review_status: sort_by_keys_spec(
            sort_review_status_keys(v.effective_review_status),
            v.effective_review_status,
        ),
        reuse_governance_events: sort_by_keys_spec(
            sort_governance_events_keys(v.reuse_governance_events),
            v.reuse_governance_events,
        ),
        effective_reusable_records: sort_by_keys_spec(
            sort_records_keys(v.effective_reusable_records),
            v.effective_reusable_records,
        ),
        historical_reusable_records: sort_by_keys_spec(
            sort_records_keys(v.historical_reusable_records),
            v.historical_reusable_records,
        ),
        ..v
    }
}

/// The canonical projection of a state.
pub open spec fn canonical_projection_view(v: CurrentContractStateView) -> CurrentContractCanonicalProjectionView {
    CurrentContractCanonicalProjectionView {
        session_id: v.session_id,
        duplicated_from_session_id: v.duplicated_from_session_id,
        session_authority: v.session_authority,
        material_use_declaration: v.material_use_declaration,
        source_revisions: v.source_revisions,
        session_terms_identity: v.session_terms_identity,
        analysis_snapshots: v.analysis_snapshots,
        review_cases: v.review_cases,
        review_ledger_events: v.review_ledger_events,
        project_scope_stable_id: v.project_scope.stable_id,
        reuse_governance_events: v.reuse_governance_events,
        reuse_enabled_analysis_binding: v.reuse_enabled_analysis_binding,
        durable_command_tokens: v.durable_command_tokens,
    }
}

/// The canonical projection leaves out what is not canonical authority: two
/// states that differ only in their derived fields (effective review status,
/// effective and historical reusable records, reusable snapshot identity,
/// derived queue projection) and the project scope's display name project
/// alike; and states of different sessions never project alike.
pub proof fn law_canonical_projection_ignores_derived_fields(
    s: CurrentContractStateView,
    effective_review_status: Seq<EvidenceEffectiveReviewStatusView>,
    effective_reusable_records: Seq<EvidenceReusableRecordView>,
    historical_reusable_records: Seq<EvidenceReusableRecordView>,
    reusable_snapshot_identity: Seq<char>,
    derived_queue_projection: Seq<char>,
    display_name: Seq<char>,
    other: CurrentContractStateView,
)
    ensures
        canonical_projection_view(
            CurrentContractStateView {
                effective_review_status,
                effective_reusable_records,
                historical_reusable_records,
                reusable_snapshot_identity,
                derived_queue_projection,
                project_scope: EvidenceProjectScopeView { display_name, ..s.project_scope },
                ..s
            },
        ) == canonical_projection_view(s),
        s.session_id != other.session_id ==> canonical_projection_view(s) != canonical_projection_view(other),
{
}

/// Normalizing reorders each collection only (every item occurs as often as
/// before), puts each in the order of its identity, leaves every other field
/// as it was, and is idempotent: normalizing a normalized state changes nothing.
pub proof fn law_normalize_sorts_permutes_and_is_idempotent(v: CurrentContractStateView)
    ensures
        normalize_view(normalize_view(v)) == normalize_view(v),
        normalize_view(v).source_revisions.to_multiset() == v.source_revisions.to_multiset(),
        normalize_view(v).analysis_snapshots.to_multiset() == v.analysis_snapshots.to_multiset(),
        normalize_view(v).review_cases.to_multiset() == v.review_cases.to_multiset(),
        normalize_view(v).review_ledger_events.to_multiset() == v.review_ledger_events.to_multiset(),
        normalize_view(v).effective_review_status.to_multiset() == v.effective_review_status.to_multiset(),
        normalize_view(v).reuse_governance_events.to_multiset() == v.reuse_governance_events.to_multiset(),
        normalize_view(v).effective_reusable_records.to_multiset() == v.effective_reusable_records.to_multiset(),
        normalize_view(v).historical_reusable_records.to_multiset()
            == v.historical_reusable_records.to_multiset(),
        in_key_order(sort_revisions_keys(normalize_view(v).source_revisions)),
        in_key_order(sort_snapshots_keys(normalize_view(v).analysis_snapshots)),
        in_key_order(sort_review_cases_keys(normalize_view(v).review_cases)),
        in_key_order(sort_ledger_events_keys(normalize_view(v).review_ledger_events)),
        in_key_order(sort_review_status_keys(normalize_view(v).effective_review_status)),
        in_key_order(sort_governance_events_keys(normalize_view(v).reuse_governance_events)),
        in_key_order(sort_records_keys(normalize_view(v).effective_reusable_records)),
        in_key_order(sort_records_keys(normalize_view(v).historical_reusable_records)),
        normalize_view(v) == (CurrentContractStateView {
            source_revisions: normalize_view(v).source_revisions,
            analysis_snapshots: normalize_view(v).analysis_snapshots,
            review_cases: normalize_view(v).review_cases,
            review_ledger_events: normalize_view(v).review_ledger_events,
            effective_review_status: normalize_view(v).effective_review_status,
            reuse_governance_events: normalize_view(v).reuse_governance_events,
            effective_reusable_records: normalize_view(v).effective_reusable_records,
            historical_reusable_records: normalize_view(v).historical_reusable_records,
            ..v
        }),
{
    let n = normalize_view(v);
    let k1 = |x: EvidenceSourceRevisionView| str_key_spec(x.revision_id);
    assert(sort_revisions_keys(v.source_revisions) =~= v.source_revisions.map_values(k1));
    assert(sort_revisions_keys(n.source_revisions) =~= n.source_revisions.map_values(k1));
    lemma_sort_by_key_fn(v.source_revisions, k1);
    let k2 = |x: EvidenceAnalysisSnapshotView| str_key_spec(x.identity);
    assert(sort_snapshots_keys(v.analysis_snapshots) =~= v.analysis_snapshots.map_values(k2));
    assert(sort_snapshots_keys(n.analysis_snapshots) =~= n.analysis_snapshots.map_values(k2));
    lemma_sort_by_key_fn(v.analysis_snapshots, k2);
    let k3 = |x: EvidenceReviewCaseView| str_key_spec(x.case_id);
    assert(sort_review_cases_keys(v.review_cases) =~= v.review_cases.map_values(k3));
    assert(sort_review_cases_keys(n.review_cases) =~= n.review_cases.map_values(k3));
    lemma_sort_by_key_fn(v.review_cases, k3);
    let k4 = |x: EvidenceReviewLedgerEventView| index_key_spec(x.event_index);
    assert(sort_ledger_events_keys(v.review_ledger_events) =~= v.review_ledger_events.map_values(k4));
    assert(sort_ledger_events_keys(n.review_ledger_events) =~= n.review_ledger_events.map_values(k4));
    lemma_sort_by_key_fn(v.review_ledger_events, k4);
    let k5 = |x: EvidenceEffectiveReviewStatusView| str_key_spec(x.case_id);
    assert(sort_review_status_keys(v.effective_review_status) =~= v.effective_review_status.map_values(k5));
    assert(sort_review_status_keys(n.effective_review_status) =~= n.effective_review_status.map_values(k5));
    lemma_sort_by_key_fn(v.effective_review_status, k5);
    let k6 = |x: EvidenceReuseGovernanceEventView| index_key_spec(governance_event_index_spec(x));
    assert(sort_governance_events_keys(v.reuse_governance_events) =~= v.reuse_governance_events.map_values(k6));
    assert(sort_governance_events_keys(n.reuse_governance_events) =~= n.reuse_governance_events.map_values(k6));
    lemma_sort_by_key_fn(v.reuse_governance_events, k6);
    let k7 = |x: EvidenceReusableRecordView| index_key_spec(x.record_id);
    assert(sort_records_keys(v.effective_reusable_records) =~= v.effective_reusable_records.map_values(k7));
    assert(sort_records_keys(n.effective_reusable_records) =~= n.effective_reusable_records.map_values(k7));
    lemma_sort_by_key_fn(v.effective_reusable_records, k7);
    assert(sort_records_keys(v.historical_reusable_records) =~= v.historical_reusable_records.map_values(k7));
    assert(sort_records_keys(n.historical_reusable_records) =~= n.historical_reusable_records.map_values(k7));
    lemma_sort_by_key_fn(v.historical_reusable_records, k7);
}

impl CurrentContractState {
    /// Sorts every collection by its identity, so that equal content compares equal.
    pub fn normalize(self) -> (r: Self)
        ensures
            r@ == normalize_view(self@),
    {
        let mut s = self;
        let mut revisions: Vec<EvidenceSourceRevision> = Vec::new();
        std::mem::swap(&mut revisions, &mut s.source_revisions);
        s.source_revisions = sort_revisions(revisions);
        let mut snapshots: Vec<EvidenceAnalysisSnapshot> = Vec::new();
        std::mem::swap(&mut snapshots, &mut s.analysis_snapshots);
        s.analysis_snapshots = sort_snapshots(snapshots);
        let mut cases: Vec<EvidenceReviewCase> = Vec::new();
        std::mem::swap(&mut cases, &mut s.review_cases);
        s.review_cases = sort_review_cases(cases);
        let mut events: Vec<EvidenceReviewLedgerEvent> = Vec::new();
        std::mem::swap(&mut events, &mut s.review_ledger_events);
        s.review_ledger_events = sort_ledger_events(events);
        let mut status: Vec<EvidenceEffectiveReviewStatus> = Vec::new();
        std::mem::swap(&mut status, &mut s.effective_review_status);
        s.effective_review_status = sort_review_status(status);
        let mut governance: Vec<EvidenceReuseGovernanceEvent> = Vec::new();
        std::mem::swap(&mut governance, &mut s.reuse_governance_events);
        s.reuse_governance_events = sort_governance_events(governance);
        let mut effective: Vec<EvidenceReusableRecord> = Vec::new();
        std::mem::swap(&mut effective, &mut s.effective_reusable_records);
        s.effective_reusable_records = sort_records(effective);
        let mut historical: Vec<EvidenceReusableRecord> = Vec::new();
        std::mem::swap(&mut historical, &mut s.historical_reusable_records);
        s.historical_reusable_records = sort_records(historical);
        s
    }

    /// The canonical (authoritative) part of the state.
    pub fn canonical_projection(&self) -> (r: CurrentContractCanonicalProjection)
        ensures
            r@ == canonical_projection_view(self@),
    {
        CurrentContractCanonicalProjection {
            session_id: self.session_id.clone(),
            duplicated_from_session_id: opt_duplicate(&self.duplicated_from_session_id),
            session_authority: self.session_authority.clone(),
            material_use_declaration: self.material_use_declaration.clone(),
            source_revisions: vec_duplicate(&self.source_revisions),
            session_terms_identity: self.session_terms_identity.clone(),
            analysis_snapshots: vec_duplicate(&self.analysis_snapshots),
            review_cases: vec_duplicate(&self.review_cases),
            review_ledger_events: vec_duplicate(&self.review_ledger_events),
            project_scope_stable_id: self.project_scope.stable_id.clone(),
            reuse_governance_events: vec_duplicate(&self.reuse_governance_events),
            reuse_enabled_analysis_binding: opt_duplicate(&self.reuse_enabled_analysis_binding),
            durable_command_tokens: self.durable_command_tokens.clone(),
        }
    }
}

} // verus!
