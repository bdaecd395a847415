use vstd::prelude::*;
use vstd::utf8::encode_utf8;
use crate::digest::{
    field_spec, hex_spec, le_u64, lemma_field_injective, lemma_hex_injective, lemma_le_u64_injective, lemma_u64_prefix_injective, push_bytes,
    push_field, push_u64, sha256_spec, tagged_digest,
};
use crate::model::{EvidenceReuseCandidateKey, EvidenceReuseCandidateKeyView, EvidenceSourceDecisionLocator, EvidenceSourceDecisionLocatorView};

verus! {

/// Version tag of the canonical candidate-key encoding.
pub const CANDIDATE_KEY_SERIALIZATION_VERSION: &'static str = "voxproof-evidence-candidate-key-v1";

/// Version tag of the canonical source-locator encoding.
pub const LOCATOR_SERIALIZATION_VERSION: &'static str = "voxproof-evidence-source-decision-locator-v1";

/// The canonical bytes of a source locator: version tag, a zero byte, then the
/// fields, texts length-prefixed and numbers as little-endian `u64`.
pub open spec fn locator_bytes_spec(l: EvidenceSourceDecisionLocatorView) -> Seq<u8> {
    encode_utf8(LOCATOR_SERIALIZATION_VERSION@) + seq![0u8] + field_spec(l.source_revision_id) + field_spec(
        l.source_analysis_snapshot_identity,
    ) + field_spec(l.source_review_case_id) + le_u64(l.review_ledger_position) + field_spec(l.decision_digest)
        + le_u64(l.effective_at_ledger_length)
}

/// The canonical bytes of a candidate key.
pub open spec fn candidate_key_bytes_spec(k: EvidenceReuseCandidateKeyView) -> Seq<u8> {
    encode_utf8(CANDIDATE_KEY_SERIALIZATION_VERSION@) + seq![0u8] + field_spec(k.project_scope_stable_id)
        + locator_bytes_spec(k.source_locator) + field_spec(k.exact_payload.observed_text) + field_spec(
        k.exact_payload.confirmed_replacement,
    )
}

/// `prefix:<hex sha256>` of some bytes.
pub open spec fn tagged_digest_spec(prefix: Seq<char>, bytes: Seq<u8>) -> Seq<char> {
    prefix + seq![':'] + hex_spec(sha256_spec(bytes))
}

/// The canonical bytes of a source locator.
pub fn canonical_locator_bytes(locator: &EvidenceSourceDecisionLocator) -> (out: Vec<u8>)
    ensures
        out@ == locator_bytes_spec(locator@),
{
    let mut out: Vec<u8> = Vec::new();
    push_bytes(&mut out, LOCATOR_SERIALIZATION_VERSION.as_bytes());
    out.push(0);
    push_field(&mut out, locator.source_revision_id.as_str());
    push_field(&mut out, locator.source_analysis_snapshot_identity.as_str());
    push_field(&mut out, locator.source_review_case_id.as_str());
    push_u64(&mut out, locator.review_ledger_position);
    push_field(&mut out, locator.decision_digest.as_str());
    push_u64(&mut out, locator.effective_at_ledger_length);
    proof {
        assert(out@ =~= locator_bytes_spec(locator@));
    }
    out
}

/// The canonical bytes of a candidate key.
pub fn canonical_candidate_key_bytes(key: &EvidenceReuseCandidateKey) -> (out: Vec<u8>)
    ensures
        out@ == candidate_key_bytes_spec(key@),
{
    let mut out: Vec<u8> = Vec::new();
    push_bytes(&mut out, CANDIDATE_KEY_SERIALIZATION_VERSION.as_bytes());
    out.push(0);
    push_field(&mut out, key.project_scope_stable_id.as_str());
    let locator = canonical_locator_bytes(&key.source_locator);
    push_bytes(&mut out, locator.as_slice());
    push_field(&mut out, key.exact_payload.observed_text.as_str());
    push_field(&mut out, key.exact_payload.confirmed_replacement.as_str());
    proof {
        assert(out@ =~= candidate_key_bytes_spec(key@));
    }
    out
}

/// `sha256:<hex>` of the canonical locator bytes.
pub fn locator_canonical_digest(locator: &EvidenceSourceDecisionLocator) -> (r: String)
    ensures
        r@ == tagged_digest_spec("sha256"@, locator_bytes_spec(locator@)),
{
    let bytes = canonical_locator_bytes(locator);
    tagged_digest("sha256", bytes.as_slice())
}

/// `sha256:<hex>` of the canonical candidate-key bytes.
pub fn candidate_key_canonical_digest(key: &EvidenceReuseCandidateKey) -> (r: String)
    ensures
        r@ == tagged_digest_spec("sha256"@, candidate_key_bytes_spec(key@)),
{
    let bytes = canonical_candidate_key_bytes(key);
    tagged_digest("sha256", bytes.as_slice())
}

/// The bytes a rejection identity digests.
pub open spec fn rejection_bytes_spec(scope: Seq<char>, case_id: Seq<char>, position: usize, digest: Seq<char>) -> Seq<u8> {
    field_spec(scope) + field_spec(case_id) + le_u64(position) + field_spec(digest)
}

/// The identity under which a rejected promotion candidate is remembered.
pub open spec fn rejection_identity_spec(scope: Seq<char>, case_id: Seq<char>, position: usize, digest: Seq<char>) -> Seq<char> {
    tagged_digest_spec("rejection"@, rejection_bytes_spec(scope, case_id, position, digest))
}

/// `rejection:<hex>` of the scope, case id, ledger position and decision digest.
pub fn rejection_identity_digest(
    project_scope_stable_id: &str,
    source_review_case_id: &str,
    review_ledger_position: usize,
    decision_digest: &str,
) -> (r: String)
    ensures
        r@ == rejection_identity_spec(
            project_scope_stable_id@,
            source_review_case_id@,
            review_ledger_position,
            decision_digest@,
        ),
        r@.len() == 74,
        forall|i: int| 10 <= i < 74 ==> crate::text::is_lower_hex_spec(#[trigger] r@[i]),
{
    proof {
        reveal_strlit("rejection");
    }
    let mut payload: Vec<u8> = Vec::new();
    push_field(&mut payload, project_scope_stable_id);
    push_field(&mut payload, source_review_case_id);
    push_u64(&mut payload, review_ledger_position);
    push_field(&mut payload, decision_digest);
    proof {
        assert(payload@ =~= rejection_bytes_spec(
            project_scope_stable_id@,
            source_review_case_id@,
            review_ledger_position,
            decision_digest@,
        ));
    }
    tagged_digest("rejection", payload.as_slice())
}

/// Two digests of the same key are equal: the digest depends on the key's
/// canonical content alone.
pub proof fn lemma_candidate_key_digest_deterministic(a: EvidenceReuseCandidateKeyView, b: EvidenceReuseCandidateKeyView)
    requires
        a == b,
    ensures
        tagged_digest_spec("sha256"@, candidate_key_bytes_spec(a)) == tagged_digest_spec(
            "sha256"@,
            candidate_key_bytes_spec(b),
        ),
{
}

/// The UTF-8 length of each text of a locator fits in a `usize`.
pub open spec fn locator_texts_bounded(l: EvidenceSourceDecisionLocatorView) -> bool {
    &&& encode_utf8(l.source_revision_id).len() <= usize::MAX
    &&& encode_utf8(l.source_analysis_snapshot_identity).len() <= usize::MAX
    &&& encode_utf8(l.source_review_case_id).len() <= usize::MAX
    &&& encode_utf8(l.decision_digest).len() <= usize::MAX
}

/// The fields of a locator's canonical bytes, after the version tag.
pub open spec fn locator_tail(l: EvidenceSourceDecisionLocatorView) -> Seq<u8> {
    field_spec(l.source_revision_id) + (field_spec(l.source_analysis_snapshot_identity) + (field_spec(
        l.source_review_case_id,
    ) + (le_u64(l.review_ledger_position) + (field_spec(l.decision_digest) + le_u64(l.effective_at_ledger_length)))))
}

proof fn lemma_locator_tail_injective(l1: EvidenceSourceDecisionLocatorView, l2: EvidenceSourceDecisionLocatorView)
    requires
        locator_texts_bounded(l1),
        locator_texts_bounded(l2),
        locator_tail(l1) == locator_tail(l2),
    ensures
        l1 == l2,
{
    let u1 = field_spec(l1.decision_digest) + le_u64(l1.effective_at_ledger_length);
    let u2 = field_spec(l2.decision_digest) + le_u64(l2.effective_at_ledger_length);
    let t1 = le_u64(l1.review_ledger_position) + u1;
    let t2 = le_u64(l2.review_ledger_position) + u2;
    let q1 = field_spec(l1.source_review_case_id) + t1;
    let q2 = field_spec(l2.source_review_case_id) + t2;
    let r1 = field_spec(l1.source_analysis_snapshot_identity) + q1;
    let r2 = field_spec(l2.source_analysis_snapshot_identity) + q2;
    lemma_field_injective(l1.source_revision_id, l2.source_revision_id, r1, r2);
    lemma_field_injective(l1.source_analysis_snapshot_identity, l2.source_analysis_snapshot_identity, q1, q2);
    lemma_field_injective(l1.source_review_case_id, l2.source_review_case_id, t1, t2);
    lemma_u64_prefix_injective(l1.review_ledger_position, l2.review_ledger_position, u1, u2);
    lemma_field_injective(
        l1.decision_digest,
        l2.decision_digest,
        le_u64(l1.effective_at_ledger_length),
        le_u64(l2.effective_at_ledger_length),
    );
    lemma_le_u64_injective(l1.effective_at_ledger_length, l2.effective_at_ledger_length);
}

proof fn lemma_locator_layout(l: EvidenceSourceDecisionLocatorView)
    ensures
        locator_bytes_spec(l) == encode_utf8(LOCATOR_SERIALIZATION_VERSION@).push(0u8) + locator_tail(l),
        encode_utf8(LOCATOR_SERIALIZATION_VERSION@).len() == 44,
        locator_tail(l).len() == 48 + encode_utf8(l.source_revision_id).len() + encode_utf8(
            l.source_analysis_snapshot_identity,
        ).len() + encode_utf8(l.source_review_case_id).len() + encode_utf8(l.decision_digest).len(),
{
    reveal_strlit("voxproof-evidence-source-decision-locator-v1");
    let v = LOCATOR_SERIALIZATION_VERSION@;
    assert forall|i: int| 0 <= i < v.len() implies (#[trigger] v[i] as u32) < 0x80 by {}
    crate::text::lemma_encode_utf8_ascii_len(v);
    lemma_le_u64_injective(l.review_ledger_position, l.review_ledger_position);
    lemma_le_u64_injective(l.effective_at_ledger_length, l.effective_at_ledger_length);
    let n1 = encode_utf8(l.source_revision_id).len() as usize;
    let n2 = encode_utf8(l.source_analysis_snapshot_identity).len() as usize;
    let n3 = encode_utf8(l.source_review_case_id).len() as usize;
    let n4 = encode_utf8(l.decision_digest).len() as usize;
    lemma_le_u64_injective(n1, n1);
    lemma_le_u64_injective(n2, n2);
    lemma_le_u64_injective(n3, n3);
    lemma_le_u64_injective(n4, n4);
    assert(locator_bytes_spec(l) =~= encode_utf8(v).push(0u8) + locator_tail(l));
}

/// The canonical bytes of a locator start with the 44-byte version tag and a
/// zero byte, are 93 bytes longer than the UTF-8 texts they hold, and tell
/// locators apart: equal bytes come only from equal locators.
pub proof fn law_locator_bytes_layout_and_injective(l1: EvidenceSourceDecisionLocatorView, l2: EvidenceSourceDecisionLocatorView)
    requires
        locator_texts_bounded(l1),
        locator_texts_bounded(l2),
    ensures
        locator_bytes_spec(l1).subrange(0, 45) == encode_utf8(LOCATOR_SERIALIZATION_VERSION@).push(0u8),
        locator_bytes_spec(l1).len() == 93 + encode_utf8(l1.source_revision_id).len() + encode_utf8(
            l1.source_analysis_snapshot_identity,
        ).len() + encode_utf8(l1.source_review_case_id).len() + encode_utf8(l1.decision_digest).len(),
        locator_bytes_spec(l1) == locator_bytes_spec(l2) <==> l1 == l2,
{
    lemma_locator_layout(l1);
    lemma_locator_layout(l2);
    let p = encode_utf8(LOCATOR_SERIALIZATION_VERSION@).push(0u8);
    assert((p + locator_tail(l1)).subrange(0, 45) =~= p);
    if locator_bytes_spec(l1) == locator_bytes_spec(l2) {
        let x = p + locator_tail(l1);
        assert(x.subrange(45, x.len() as int) =~= locator_tail(l1));
        assert((p + locator_tail(l2)).subrange(45, x.len() as int) =~= locator_tail(l2));
        lemma_locator_tail_injective(l1, l2);
    }
}

/// The payload a rejection identity hashes tells its inputs apart: equal
/// payloads come only from equal scope, case id, ledger position and decision
/// digest. Two rejections therefore share an identity only where SHA-256
/// maps two different payloads alike.
pub proof fn law_rejection_payload_injective(
    scope1: Seq<char>,
    case1: Seq<char>,
    position1: usize,
    digest1: Seq<char>,
    scope2: Seq<char>,
    case2: Seq<char>,
    position2: usize,
    digest2: Seq<char>,
)
    requires
        encode_utf8(scope1).len() <= usize::MAX,
        encode_utf8(case1).len() <= usize::MAX,
        encode_utf8(digest1).len() <= usize::MAX,
        encode_utf8(scope2).len() <= usize::MAX,
        encode_utf8(case2).len() <= usize::MAX,
        encode_utf8(digest2).len() <= usize::MAX,
    ensures
        rejection_bytes_spec(scope1, case1, position1, digest1) == rejection_bytes_spec(scope2, case2, position2, digest2)
            <==> (scope1 == scope2 && case1 == case2 && position1 == position2 && digest1 == digest2),
{
    let t1 = le_u64(position1) + field_spec(digest1);
    let t2 = le_u64(position2) + field_spec(digest2);
    let r1 = field_spec(case1) + t1;
    let r2 = field_spec(case2) + t2;
    assert(rejection_bytes_spec(scope1, case1, position1, digest1) =~= field_spec(scope1) + r1);
    assert(rejection_bytes_spec(scope2, case2, position2, digest2) =~= field_spec(scope2) + r2);
    if rejection_bytes_spec(scope1, case1, position1, digest1) == rejection_bytes_spec(scope2, case2, position2, digest2) {
        lemma_field_injective(scope1, scope2, r1, r2);
        lemma_field_injective(case1, case2, t1, t2);
        lemma_u64_prefix_injective(position1, position2, field_spec(digest1), field_spec(digest2));
        lemma_field_injective(digest1, digest2, Seq::empty(), Seq::empty());
        assert(field_spec(digest1) + Seq::<u8>::empty() =~= field_spec(digest1));
        assert(field_spec(digest2) + Seq::<u8>::empty() =~= field_spec(digest2));
    }
}


/// Rejection identities tell rejections apart wherever SHA-256 does not map
/// their two payloads alike: equal identities come only from equal scope,
/// case id, ledger position and decision digest.
pub proof fn law_rejection_identity_injective(
    scope1: Seq<char>,
    case1: Seq<char>,
    position1: usize,
    digest1: Seq<char>,
    scope2: Seq<char>,
    case2: Seq<char>,
    position2: usize,
    digest2: Seq<char>,
)
    requires
        encode_utf8(scope1).len() <= usize::MAX,
        encode_utf8(case1).len() <= usize::MAX,
        encode_utf8(digest1).len() <= usize::MAX,
        encode_utf8(scope2).len() <= usize::MAX,
        encode_utf8(case2).len() <= usize::MAX,
        encode_utf8(digest2).len() <= usize::MAX,
        sha256_spec(rejection_bytes_spec(scope1, case1, position1, digest1)) == sha256_spec(
            rejection_bytes_spec(scope2, case2, position2, digest2),
        ) ==> rejection_bytes_spec(scope1, case1, position1, digest1) == rejection_bytes_spec(
            scope2,
            case2,
            position2,
            digest2,
        ),
    ensures
        rejection_identity_spec(scope1, case1, position1, digest1) == rejection_identity_spec(
            scope2,
            case2,
            position2,
            digest2,
        ) <==> (scope1 == scope2 && case1 == case2 && position1 == position2 && digest1 == digest2),
{
    law_rejection_payload_injective(scope1, case1, position1, digest1, scope2, case2, position2, digest2);
    let prefix = "rejection"@ + seq![':'];
    let h1 = hex_spec(sha256_spec(rejection_bytes_spec(scope1, case1, position1, digest1)));
    let h2 = hex_spec(sha256_spec(rejection_bytes_spec(scope2, case2, position2, digest2)));
    let x = rejection_identity_spec(scope1, case1, position1, digest1);
    let y = rejection_identity_spec(scope2, case2, position2, digest2);
    assert(x =~= prefix + h1);
    assert(y =~= prefix + h2);
    if x == y {
        assert((prefix + h1).subrange(prefix.len() as int, x.len() as int) =~= h1);
        assert((prefix + h2).subrange(prefix.len() as int, y.len() as int) =~= h2);
        lemma_hex_injective(
            sha256_spec(rejection_bytes_spec(scope1, case1, position1, digest1)),
            sha256_spec(rejection_bytes_spec(scope2, case2, position2, digest2)),
        );
    }
}

} // verus!
